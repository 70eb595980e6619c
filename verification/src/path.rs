//! Forward-slash separated paths as exchanged over TDP.
//!
//! A `UnixPath` is a byte string normalized so that it never ends in a
//! slash.  `last` returns the final path segment and fails only on the
//! empty path.

use vstd::prelude::*;

verus! {

/// The path separator byte, `'/'`.
pub const SLASH: u8 = 47;

/// A normalized path has no trailing slash.
pub open spec fn is_normalized(s: Seq<u8>) -> bool {
    s.len() > 0 ==> s[s.len() - 1] != SLASH
}

/// The longest prefix of `s` with all trailing slashes removed.
pub open spec fn normalize(s: Seq<u8>) -> Seq<u8>
    decreases s.len(),
{
    if s.len() == 0 {
        s
    } else if s[s.len() - 1] == SLASH {
        normalize(s.drop_last())
    } else {
        s
    }
}

/// The start of the final segment: one past the last slash, or 0 if none.
pub open spec fn last_segment_start(s: Seq<u8>) -> int
    decreases s.len(),
{
    if s.len() == 0 {
        0
    } else if s[s.len() - 1] == SLASH {
        s.len() as int
    } else {
        last_segment_start(s.drop_last())
    }
}

/// The final segment of a normalized path.
pub open spec fn last_segment(s: Seq<u8>) -> Seq<u8> {
    s.subrange(last_segment_start(s), s.len() as int)
}

pub proof fn lemma_normalize_normalized(s: Seq<u8>)
    ensures
        is_normalized(normalize(s)),
    decreases s.len(),
{
    if s.len() > 0 && s[s.len() - 1] == SLASH {
        lemma_normalize_normalized(s.drop_last());
    }
}

/// A forward-slash separated byte path with no trailing slash.
#[derive(Debug)]
pub struct UnixPath {
    bytes: Vec<u8>,
}

impl UnixPath {
    pub closed spec fn view(&self) -> Seq<u8> {
        self.bytes@
    }

    /// The normalization invariant: the stored bytes never end in a slash.
    pub open spec fn wf(&self) -> bool {
        is_normalized(self@)
    }

    /// Builds a path from raw bytes, stripping any trailing slashes.
    pub fn from_bytes(raw: Vec<u8>) -> (p: UnixPath)
        ensures
            p@ == normalize(raw@),
            p.wf(),
    {
        let ghost raw0 = raw@;
        let mut bytes = raw;
        loop
            invariant
                normalize(bytes@) == normalize(raw0),
            ensures
                normalize(bytes@) == normalize(raw0),
                is_normalized(bytes@),
            decreases bytes@.len(),
        {
            let n = bytes.len();
            if n == 0 {
                break;
            }
            if bytes[n - 1] != SLASH {
                break;
            }
            let ghost prev = bytes@;
            bytes.pop();
            proof {
                assert(bytes@ =~= prev.drop_last());
            }
        }
        proof {
            lemma_normalize_normalized(bytes@);
            assert(normalize(bytes@) =~= bytes@);
        }
        UnixPath { bytes }
    }

    /// The stored bytes.
    pub fn as_bytes(&self) -> (b: &Vec<u8>)
        ensures
            b@ == self@,
    {
        &self.bytes
    }

    pub fn len(&self) -> (n: usize)
        ensures
            n == self@.len(),
    {
        self.bytes.len()
    }

    pub fn clone_path(&self) -> (p: UnixPath)
        ensures
            p@ == self@,
            p.wf() == self.wf(),
    {
        let mut bytes: Vec<u8> = Vec::new();
        let mut i: usize = 0;
        while i < self.bytes.len()
            invariant
                i <= self.bytes@.len(),
                bytes@ == self.bytes@.subrange(0, i as int),
            decreases self.bytes@.len() - i,
        {
            bytes.push(self.bytes[i]);
            i = i + 1;
        }
        proof {
            assert(bytes@ =~= self.bytes@);
        }
        UnixPath { bytes }
    }

    /// The final segment of the path; `None` exactly on the empty path.
    pub fn last(&self) -> (r: Option<Vec<u8>>)
        requires
            self.wf(),
        ensures
            self@.len() == 0 ==> r is None,
            self@.len() > 0 ==> r is Some && r->Some_0@ == last_segment(self@),
    {
        if self.bytes.len() == 0 {
            return None;
        }
        // Find the start of the final segment: one past the last slash.
        let mut start: usize = self.bytes.len();
        while start > 0 && self.bytes[start - 1] != SLASH
            invariant
                start <= self.bytes@.len(),
                forall|j: int| start <= j < self.bytes@.len() ==> self.bytes@[j] != SLASH,
            decreases start,
        {
            start = start - 1;
        }
        proof {
            lemma_last_segment_start_agrees(self@, start as int);
        }
        let mut seg: Vec<u8> = Vec::new();
        let mut i: usize = start;
        while i < self.bytes.len()
            invariant
                start <= i <= self.bytes@.len(),
                seg@ == self.bytes@.subrange(start as int, i as int),
            decreases self.bytes@.len() - i,
        {
            seg.push(self.bytes[i]);
            i = i + 1;
        }
        proof {
            assert(seg@ =~= last_segment(self@));
        }
        Some(seg)
    }

    /// Whether the path holds a NUL byte; such a path cannot be handed to
    /// the host as a C string.
    pub fn contains_nul(&self) -> (r: bool)
        ensures
            r == self@.contains(0u8),
    {
        let mut i: usize = 0;
        while i < self.bytes.len()
            invariant
                i <= self.bytes@.len(),
                forall|j: int| 0 <= j < i ==> self.bytes@[j] != 0u8,
            decreases self.bytes@.len() - i,
        {
            if self.bytes[i] == 0 {
                assert(self@[i as int] == 0u8);
                return true;
            }
            i = i + 1;
        }
        false
    }
}

/// If every byte from `start` on is a non-slash, and either `start` is 0 or
/// the byte before `start` is a slash, then `start` is where the final
/// segment begins.
proof fn lemma_last_segment_start_agrees(s: Seq<u8>, start: int)
    requires
        0 <= start <= s.len(),
        forall|j: int| start <= j < s.len() ==> s[j] != SLASH,
        start > 0 ==> s[start - 1] == SLASH,
        s.len() > 0,
        s[s.len() - 1] != SLASH,
    ensures
        last_segment_start(s) == start,
    decreases s.len(),
{
    if start == s.len() {
        // Impossible: the last byte is not a slash, yet start > 0 would
        // require s[start-1] == SLASH.
        assert(s[s.len() - 1] != SLASH);
        assert(start > 0 ==> s[start - 1] == SLASH);
        assert(false);
    } else if s.len() == start + 1 {
        assert(last_segment_start(s) == last_segment_start(s.drop_last())
            || s[s.len() - 1] == SLASH);
        lemma_last_segment_start_at_end(s, start);
    } else {
        let t = s.drop_last();
        assert(t[t.len() - 1] != SLASH);
        lemma_last_segment_start_agrees(t, start);
    }
}

proof fn lemma_last_segment_start_at_end(s: Seq<u8>, start: int)
    requires
        0 <= start,
        s.len() == start + 1,
        s[start] != SLASH,
        start > 0 ==> s[start - 1] == SLASH,
    ensures
        last_segment_start(s) == start,
{
    let t = s.drop_last();
    assert(t.len() == start);
    if start == 0 {
        assert(last_segment_start(t) == 0);
    } else {
        assert(t[start - 1] == s.subrange(0, s.len() as int - 1)[start - 1]);
        assert(s.subrange(0, s.len() as int - 1)[start - 1] == s[start - 1]);
        assert(t[t.len() - 1] == SLASH);
        assert(last_segment_start(t) == t.len());
    }
}

} // verus!
