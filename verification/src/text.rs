//! Character-sequence utilities: substring search, prefix tests, and the
//! bounded rolling history buffer used for look-back pattern matching.

use vstd::prelude::*;
use vstd::string::StrSliceExecFns;

verus! {

/// Upper bound, in characters, on the rolling history buffer.
pub const HISTORY_LIMIT: usize = 10000;

/// True when `pat` occurs in `text` starting at index `i`.
pub open spec fn matches_at(text: Seq<char>, pat: Seq<char>, i: int) -> bool {
    0 <= i && i + pat.len() <= text.len() && text.subrange(i, i + pat.len()) == pat
}

/// True when `pat` occurs somewhere in `text`.
pub open spec fn contains_seq(text: Seq<char>, pat: Seq<char>) -> bool {
    exists|i: int| matches_at(text, pat, i)
}

/// True when `p` is a prefix of `s`.
pub open spec fn starts_with(s: Seq<char>, p: Seq<char>) -> bool {
    p.len() <= s.len() && s.subrange(0, p.len() as int) == p
}

/// `s` cut down to its last `limit` characters (all of them if it is shorter).
pub open spec fn trimmed(s: Seq<char>, limit: int) -> Seq<char> {
    if s.len() <= limit {
        s
    } else {
        s.subrange(s.len() - limit, s.len() as int)
    }
}

/// The characters of `s`, as a vector.
pub fn chars_vec(s: &str) -> (v: Vec<char>)
    ensures
        v@ == s@,
{
    let n = s.unicode_len();
    let mut v: Vec<char> = Vec::new();
    let mut i: usize = 0;
    while i < n
        invariant
            n == s@.len(),
            i <= n,
            v@ == s@.subrange(0, i as int),
        decreases n - i,
    {
        v.push(s.get_char(i));
        i = i + 1;
        proof {
            assert(v@ =~= s@.subrange(0, i as int));
        }
    }
    proof {
        assert(v@ =~= s@);
    }
    v
}

/// Whether `pat` occurs in `text` at position `i`.
pub fn match_at(text: &Vec<char>, pat: &Vec<char>, i: usize) -> (r: bool)
    requires
        i + pat@.len() <= text@.len(),
    ensures
        r == matches_at(text@, pat@, i as int),
{
    let n = text.len();
    let m = pat.len();
    let mut j: usize = 0;
    while j < m
        invariant
            n == text@.len(),
            m == pat@.len(),
            i + m <= n,
            j <= m,
            forall|k: int| 0 <= k < j ==> text@[i + k] == pat@[k],
        decreases m - j,
    {
        if text[i + j] != pat[j] {
            return false;
        }
        j = j + 1;
    }
    proof {
        assert(text@.subrange(i as int, i + pat@.len()) =~= pat@);
    }
    true
}

/// Whether `pat` occurs anywhere in `text`.
pub fn contains_pat(text: &Vec<char>, pat: &Vec<char>) -> (r: bool)
    ensures
        r == contains_seq(text@, pat@),
{
    let n = text.len();
    let m = pat.len();
    if m > n {
        proof {
            assert(forall|i: int| !matches_at(text@, pat@, i));
        }
        return false;
    }
    if m == 0 {
        proof {
            assert(text@.subrange(0, 0) =~= pat@);
            assert(matches_at(text@, pat@, 0));
        }
        return true;
    }
    let mut i: usize = 0;
    while i <= n - m
        invariant
            n == text@.len(),
            m == pat@.len(),
            0 < m <= n,
            i <= n - m + 1,
            forall|k: int| 0 <= k < i ==> !matches_at(text@, pat@, k),
        decreases n - i,
    {
        if match_at(text, pat, i) {
            return true;
        }
        i = i + 1;
    }
    proof {
        assert(forall|k: int| matches_at(text@, pat@, k) ==> 0 <= k <= n - m);
    }
    false
}

/// Whether `p` is a prefix of `s`.
pub fn is_prefix(s: &Vec<char>, p: &Vec<char>) -> (r: bool)
    ensures
        r == starts_with(s@, p@),
{
    if p.len() > s.len() {
        return false;
    }
    match_at(s, p, 0)
}

/// Whether the string `p` is a prefix of the string `s`.
pub fn str_starts_with(s: &str, p: &str) -> (r: bool)
    ensures
        r == starts_with(s@, p@),
{
    let sv = chars_vec(s);
    let pv = chars_vec(p);
    is_prefix(&sv, &pv)
}

/// Whether the two strings hold the same characters.
pub fn str_eq(a: &str, b: &str) -> (r: bool)
    ensures
        r == (a@ == b@),
{
    let av = chars_vec(a);
    let bv = chars_vec(b);
    if av.len() != bv.len() {
        return false;
    }
    let n = av.len();
    let mut i: usize = 0;
    while i < n
        invariant
            n == av@.len() == bv@.len(),
            av@ == a@,
            bv@ == b@,
            i <= n,
            forall|k: int| 0 <= k < i ==> av@[k] == bv@[k],
        decreases n - i,
    {
        if av[i] != bv[i] {
            return false;
        }
        i = i + 1;
    }
    proof {
        assert(a@ =~= b@);
    }
    true
}

/// Relies on `String`'s `FromIterator<char>`: collects the characters into
/// a string whose view is exactly the input sequence.
#[verifier::external_body]
pub fn chars_to_string(v: &Vec<char>) -> (s: String)
    ensures
        s@ == v@,
{
    v.iter().collect()
}

/// Rolling buffer of streamed output, bounded to the last
/// `HISTORY_LIMIT` characters.
pub struct History {
    chars: Vec<char>,
}

impl View for History {
    type V = Seq<char>;

    closed spec fn view(&self) -> Seq<char> {
        self.chars@
    }
}

impl History {
    /// The buffer never outgrows its bound.
    pub open spec fn wf(&self) -> bool {
        self@.len() <= HISTORY_LIMIT
    }

    pub fn new() -> (h: History)
        ensures
            h@ == Seq::<char>::empty(),
            h.wf(),
    {
        History { chars: Vec::new() }
    }

    /// Read access to the buffered characters.
    pub fn contents(&self) -> (v: &Vec<char>)
        ensures
            v@ == self@,
    {
        &self.chars
    }

    /// Appends a chunk and keeps only the last `HISTORY_LIMIT` characters,
    /// so the bound holds after any number of appended chunks and the most
    /// recently appended suffix is retained.
    pub fn append(&mut self, chunk: &Vec<char>)
        requires
            old(self).wf(),
        ensures
            final(self)@ == trimmed(old(self)@ + chunk@, HISTORY_LIMIT as int),
            final(self).wf(),
    {
        let n = chunk.len();
        let mut i: usize = 0;
        while i < n
            invariant
                n == chunk@.len(),
                i <= n,
                self.chars@ == old(self)@ + chunk@.subrange(0, i as int),
            decreases n - i,
        {
            self.chars.push(chunk[i]);
            i = i + 1;
            proof {
                assert(self.chars@ =~= old(self)@ + chunk@.subrange(0, i as int));
            }
        }
        proof {
            assert(self.chars@ =~= old(self)@ + chunk@);
        }
        if self.chars.len() > HISTORY_LIMIT {
            let total = self.chars.len();
            let start = total - HISTORY_LIMIT;
            let mut kept: Vec<char> = Vec::new();
            let mut j: usize = start;
            while j < total
                invariant
                    total == self.chars@.len(),
                    start <= j <= total,
                    start == total - HISTORY_LIMIT,
                    self.chars@ == old(self)@ + chunk@,
                    kept@ == self.chars@.subrange(start as int, j as int),
                decreases total - j,
            {
                kept.push(self.chars[j]);
                j = j + 1;
                proof {
                    assert(kept@ =~= self.chars@.subrange(start as int, j as int));
                }
            }
            self.chars = kept;
        }
    }
}

} // verus!
