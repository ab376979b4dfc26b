use vstd::prelude::*;
use crate::settings::{string_views, CleanSettings};

verus! {

/// The running executable, relative to the repository root; the deep clean spares it.
pub const EXE_PATH: &'static str = "/target/release/mcsm.exe";

#[derive(Clone, Copy, Debug, PartialEq, Eq, Structural)]
pub enum TargetKind {
    /// Removed with everything below it.
    Folder,
    File,
}

/// A path marked for deletion.
#[derive(Clone, Debug)]
pub struct CleanupTarget {
    pub path: String,
    pub kind: TargetKind,
}

/// What came of deleting one target.
#[derive(Clone, Copy, Debug, PartialEq, Eq, Structural)]
pub enum DeleteOutcome {
    Deleted,
    /// There was nothing at the path: not an error.
    Missing,
    Failed,
}

pub open spec fn target_views(t: Seq<CleanupTarget>) -> Seq<(Seq<char>, TargetKind)> {
    t.map_values(|c: CleanupTarget| (c.path@, c.kind))
}

/// The targets of a cleanup: the folders, then the files, each in the order configured.
pub open spec fn targets_of(settings: CleanSettings) -> Seq<(Seq<char>, TargetKind)> {
    string_views(settings.folders@).map_values(|p: Seq<char>| (p, TargetKind::Folder))
        + string_views(settings.files@).map_values(|p: Seq<char>| (p, TargetKind::File))
}

/// Indices of the targets whose deletion failed, in order.
pub open spec fn failure_indices(outcomes: Seq<DeleteOutcome>) -> Seq<int>
    decreases outcomes.len(),
{
    if outcomes.len() == 0 {
        seq![]
    } else {
        let prev = failure_indices(outcomes.drop_last());
        if outcomes.last() is Failed {
            prev.push(outcomes.len() - 1)
        } else {
            prev
        }
    }
}

/// Lists what a cleanup removes.
pub fn cleanup_targets(settings: &CleanSettings) -> (r: Vec<CleanupTarget>)
    ensures
        target_views(r@) == targets_of(*settings),
{
    let mut r: Vec<CleanupTarget> = Vec::new();
    let mut i: usize = 0;
    while i < settings.folders.len()
        invariant
            i <= settings.folders@.len(),
            r@.len() == i,
            forall|k: int|
                0 <= k < i ==> (#[trigger] r@[k]).path@ == settings.folders@[k]@ && r@[k].kind
                    == TargetKind::Folder,
        decreases settings.folders@.len() - i,
    {
        r.push(CleanupTarget { path: settings.folders[i].clone(), kind: TargetKind::Folder });
        i = i + 1;
    }
    let n = i;
    let mut j: usize = 0;
    while j < settings.files.len()
        invariant
            j <= settings.files@.len(),
            n == settings.folders@.len(),
            r@.len() == n + j,
            forall|k: int|
                0 <= k < n ==> (#[trigger] r@[k]).path@ == settings.folders@[k]@ && r@[k].kind
                    == TargetKind::Folder,
            forall|k: int|
                n <= k < n + j ==> (#[trigger] r@[k]).path@ == settings.files@[k - n]@ && r@[k].kind
                    == TargetKind::File,
        decreases settings.files@.len() - j,
    {
        r.push(CleanupTarget { path: settings.files[j].clone(), kind: TargetKind::File });
        j = j + 1;
    }
    assert(target_views(r@) =~= targets_of(*settings));
    r
}

/// A cleanup in progress: the caller deletes `current()` and records what
/// came of it, until `current()` is `None`. A failure is noted and the run
/// goes on.
pub struct CleanupRun {
    pub targets: Vec<CleanupTarget>,
    /// Index of the next target to delete.
    pub next: usize,
    /// Indices of the targets whose deletion failed.
    pub failures: Vec<usize>,
    pub outcomes: Ghost<Seq<DeleteOutcome>>,
}

impl CleanupRun {
    pub open spec fn wf(&self) -> bool {
        &&& self.next <= self.targets@.len()
        &&& self.outcomes@.len() == self.next
        &&& self.failures@.map_values(|i: usize| i as int) == failure_indices(self.outcomes@)
    }

    pub fn new(targets: Vec<CleanupTarget>) -> (r: CleanupRun)
        ensures
            r.wf(),
            r.targets == targets,
            r.next == 0,
    {
        let r = CleanupRun { targets, next: 0, failures: Vec::new(), outcomes: Ghost(Seq::empty()) };
        assert(r.failures@.map_values(|i: usize| i as int) =~= seq![]);
        r
    }

    pub fn is_done(&self) -> (r: bool)
        requires
            self.wf(),
        ensures
            r == (self.next == self.targets@.len()),
    {
        self.next >= self.targets.len()
    }

    /// The target to delete next, if any is left.
    pub fn current(&self) -> (r: Option<&CleanupTarget>)
        requires
            self.wf(),
        ensures
            self.next < self.targets@.len() ==> r == Some(&self.targets@[self.next as int]),
            self.next == self.targets@.len() ==> r is None,
    {
        if self.next < self.targets.len() {
            Some(&self.targets[self.next])
        } else {
            None
        }
    }

    /// Records what came of deleting the current target, and moves on to the next.
    pub fn record(&mut self, outcome: DeleteOutcome)
        requires
            old(self).wf(),
            old(self).next < old(self).targets@.len(),
        ensures
            final(self).wf(),
            final(self).targets == old(self).targets,
            final(self).next == old(self).next + 1,
            final(self).outcomes@ == old(self).outcomes@.push(outcome),
    {
        let len = self.targets.len();
        if outcome == DeleteOutcome::Failed {
            self.failures.push(self.next);
        }
        self.outcomes = Ghost(self.outcomes@.push(outcome));
        assert(self.outcomes@.drop_last() =~= old(self).outcomes@);
        assert(self.failures@.map_values(|i: usize| i as int) =~= failure_indices(self.outcomes@));
        self.next = self.next + 1;
    }
}

proof fn lemma_failure_indices_below(outcomes: Seq<DeleteOutcome>)
    ensures
        forall|k: int|
            0 <= k < failure_indices(outcomes).len() ==> 0 <= #[trigger] failure_indices(
                outcomes,
            )[k] < outcomes.len(),
    decreases outcomes.len(),
{
    if outcomes.len() > 0 {
        let prev = outcomes.drop_last();
        lemma_failure_indices_below(prev);
        assert forall|k: int| 0 <= k < failure_indices(outcomes).len() implies 0
            <= #[trigger] failure_indices(outcomes)[k] < outcomes.len() by {
            if k < failure_indices(prev).len() {
                assert(failure_indices(outcomes)[k] == failure_indices(prev)[k]);
            }
        }
    }
}

/// A target is reported as failed exactly when its deletion failed: a target
/// that did not exist is never reported, and one failure does not hide the
/// outcome of any other target.
pub proof fn lemma_only_failed_targets_reported(outcomes: Seq<DeleteOutcome>)
    ensures
        forall|i: int|
            0 <= i < outcomes.len() ==> (failure_indices(outcomes).contains(i) <==> (
            #[trigger] outcomes[i]) is Failed),
    decreases outcomes.len(),
{
    if outcomes.len() > 0 {
        let prev = outcomes.drop_last();
        lemma_only_failed_targets_reported(prev);
        lemma_failure_indices_below(prev);
        assert forall|i: int| 0 <= i < outcomes.len() implies (failure_indices(
            outcomes,
        ).contains(i) <==> (#[trigger] outcomes[i]) is Failed) by {
            if i < outcomes.len() - 1 {
                assert(outcomes[i] == prev[i]);
                if failure_indices(outcomes).contains(i) && !failure_indices(prev).contains(i) {
                    assert(i == outcomes.len() - 1);
                }
                if failure_indices(prev).contains(i) {
                    let k = choose|k: int|
                        0 <= k < failure_indices(prev).len() && failure_indices(prev)[k] == i;
                    if outcomes.last() is Failed {
                        assert(failure_indices(outcomes)[k] == i);
                    }
                }
            } else {
                if failure_indices(outcomes).contains(i) && !(outcomes.last() is Failed) {
                    let k = choose|k: int|
                        0 <= k < failure_indices(prev).len() && failure_indices(prev)[k] == i;
                    assert(failure_indices(prev)[k] < prev.len());
                }
                if outcomes.last() is Failed {
                    assert(failure_indices(outcomes).last() == i);
                }
            }
        }
    }
}

/// The git invocations of a deep clean, in order: keep the running
/// executable out of the sweep, remove every ignored file, then put the
/// executable back under its ignore rule.
pub open spec fn deep_clean_spec(exe: Seq<char>) -> Seq<Seq<Seq<char>>> {
    seq![seq!["add"@, "-f"@, exe], seq!["clean"@, "-fdX"@], seq!["restore"@, "--staged"@, exe]]
}

pub open spec fn command_views(c: Seq<Vec<String>>) -> Seq<Seq<Seq<char>>> {
    c.map_values(|a: Vec<String>| string_views(a@))
}

/// The argument lists of the git commands that make up a deep clean of the
/// working tree, sparing the executable at `exe`.
pub fn deep_clean_commands(exe: &str) -> (r: Vec<Vec<String>>)
    ensures
        command_views(r@) == deep_clean_spec(exe@),
{
    let add = vec!["add".to_string(), "-f".to_string(), exe.to_string()];
    let sweep = vec!["clean".to_string(), "-fdX".to_string()];
    let restore = vec!["restore".to_string(), "--staged".to_string(), exe.to_string()];
    assert(string_views(add@) =~= deep_clean_spec(exe@)[0]);
    assert(string_views(sweep@) =~= deep_clean_spec(exe@)[1]);
    assert(string_views(restore@) =~= deep_clean_spec(exe@)[2]);
    let r = vec![add, sweep, restore];
    assert(command_views(r@) =~= deep_clean_spec(exe@));
    r
}

} // verus!
