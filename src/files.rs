use vstd::prelude::*;
use crate::settings::string_views;

verus! {

#[verifier::external_type_specification]
#[verifier::external_body]
pub struct ExRegex(regex::Regex);

/// Whether `pattern` compiles to a regular expression.
pub uninterp spec fn regex_valid(pattern: Seq<char>) -> bool;

/// Whether the regular expression `pattern` matches somewhere in `text`.
pub uninterp spec fn regex_is_match(pattern: Seq<char>, text: Seq<char>) -> bool;

/// A compiled regular expression together with the pattern it came from.
pub struct NamePattern {
    source: String,
    compiled: regex::Regex,
}

impl NamePattern {
    pub closed spec fn source(&self) -> Seq<char> {
        self.source@
    }
}

/// Relies on regex::Regex::new: it fails exactly when the pattern is not a
/// valid regular expression (or compiles to more than the default size limit).
#[verifier::external_body]
fn compile_pattern(pattern: &str) -> (r: Result<NamePattern, String>)
    ensures
        r is Ok <==> regex_valid(pattern@),
        r matches Ok(p) ==> p.source() == pattern@,
{
    match regex::Regex::new(pattern) {
        Ok(compiled) => Ok(NamePattern { source: pattern.to_string(), compiled }),
        Err(e) => Err(e.to_string()),
    }
}

/// Relies on regex::Regex::is_match: whether the compiled pattern matches
/// anywhere in `text`.
#[verifier::external_body]
fn pattern_matches(p: &NamePattern, text: &str) -> (r: bool)
    ensures
        r == regex_is_match(p.source(), text@),
{
    p.compiled.is_match(text)
}

/// The names whose mark is set, in order.
pub open spec fn marked(names: Seq<Seq<char>>, marks: Seq<bool>) -> Seq<Seq<char>>
    decreases names.len(),
{
    if names.len() == 0 || marks.len() != names.len() {
        seq![]
    } else if marks.last() {
        marked(names.drop_last(), marks.drop_last()).push(names.last())
    } else {
        marked(names.drop_last(), marks.drop_last())
    }
}

/// The names that `pattern` matches, in order.
pub open spec fn matching_names(pattern: Seq<char>, names: Seq<Seq<char>>) -> Seq<Seq<char>> {
    names.filter(|n: Seq<char>| regex_is_match(pattern, n))
}

/// Keeps the names whose mark is set.
pub fn keep_marked(names: &Vec<String>, marks: &Vec<bool>) -> (r: Vec<String>)
    requires
        names@.len() == marks@.len(),
    ensures
        string_views(r@) == marked(string_views(names@), marks@),
{
    let mut r: Vec<String> = Vec::new();
    let mut i: usize = 0;
    while i < names.len()
        invariant
            i <= names@.len(),
            names@.len() == marks@.len(),
            string_views(r@) == marked(
                string_views(names@.take(i as int)),
                marks@.take(i as int),
            ),
        decreases names@.len() - i,
    {
        assert(string_views(names@.take(i + 1)).drop_last() =~= string_views(
            names@.take(i as int),
        ));
        assert(marks@.take(i + 1).drop_last() =~= marks@.take(i as int));
        if marks[i] {
            r.push(names[i].clone());
            assert(string_views(r@) =~= marked(
                string_views(names@.take(i + 1)),
                marks@.take(i + 1),
            ));
        }
        i = i + 1;
    }
    assert(names@.take(i as int) =~= names@);
    assert(marks@.take(i as int) =~= marks@);
    r
}

proof fn lemma_marked_by_pattern(pattern: Seq<char>, names: Seq<Seq<char>>, marks: Seq<bool>)
    requires
        marks.len() == names.len(),
        forall|i: int| 0 <= i < names.len() ==> marks[i] == regex_is_match(pattern, #[trigger] names[i]),
    ensures
        marked(names, marks) == matching_names(pattern, names),
    decreases names.len(),
{
    reveal_with_fuel(Seq::filter, 1);
    if names.len() > 0 {
        lemma_marked_by_pattern(pattern, names.drop_last(), marks.drop_last());
    }
}

/// Of the file names in `names`, those that the regular expression `regex`
/// matches, in order; an error where `regex` does not compile.
pub fn find_files_regex(regex: &str, names: &Vec<String>) -> (r: Result<Vec<String>, String>)
    ensures
        r is Err <==> !regex_valid(regex@),
        r matches Ok(v) ==> string_views(v@) == matching_names(regex@, string_views(names@)),
{
    let p = match compile_pattern(regex) {
        Ok(p) => p,
        Err(e) => return Err(e),
    };
    let mut marks: Vec<bool> = Vec::new();
    let mut i: usize = 0;
    while i < names.len()
        invariant
            i <= names@.len(),
            marks@.len() == i,
            p.source() == regex@,
            forall|k: int| 0 <= k < i ==> #[trigger] marks@[k] == regex_is_match(regex@, names@[k]@),
        decreases names@.len() - i,
    {
        marks.push(pattern_matches(&p, names[i].as_str()));
        i = i + 1;
    }
    proof {
        lemma_marked_by_pattern(regex@, string_views(names@), marks@);
    }
    Ok(keep_marked(names, &marks))
}

} // verus!
