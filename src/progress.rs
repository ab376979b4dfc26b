use vstd::prelude::*;

verus! {

pub open spec fn min_int(a: int, b: int) -> int {
    if a <= b {
        a
    } else {
        b
    }
}

/// How far a download has come.
#[derive(Clone, Copy, Debug, PartialEq, Eq, Structural)]
pub struct DownloadProgress {
    /// Expected size in bytes; the largest value where the size is not known.
    pub total: u64,
    /// Bytes written so far, never more than `total`.
    pub position: u64,
}

impl DownloadProgress {
    pub open spec fn wf(&self) -> bool {
        self.position <= self.total
    }

    /// Progress at the start of a download whose announced length is `content_length`.
    pub fn new(content_length: Option<u64>) -> (r: DownloadProgress)
        ensures
            r.wf(),
            r.position == 0,
            r.total == match content_length {
                Some(n) => n,
                None => u64::MAX,
            },
    {
        let total = match content_length {
            Some(n) => n,
            None => u64::MAX,
        };
        DownloadProgress { total, position: 0 }
    }

    /// Counts a chunk of `len` bytes; the position stops at the total.
    pub fn add_chunk(&mut self, len: u64)
        requires
            old(self).wf(),
        ensures
            final(self).wf(),
            final(self).total == old(self).total,
            final(self).position == min_int(old(self).position + len, old(self).total as int),
    {
        if len >= self.total - self.position {
            self.position = self.total;
        } else {
            self.position = self.position + len;
        }
    }
}

} // verus!
