//! Parsing the server-selection list out of the rolling history, and picking
//! the entry whose server name matches the account's target.
//!
//! A list entry reads `<index>--> ... (<server name>)`: a digit run, the
//! arrow, then the first parenthesised group on the same line. The scan
//! walks the whole history left to right, collecting entries in order; the
//! chosen index is the first entry whose server name contains the target
//! (with `all`, in any letter case, standing for a name that contains
//! `All of them`), and `1` when nothing matches or no target is set.

use vstd::prelude::*;
use vstd::string::StrSliceExecFns;
use crate::account::opt_view;
use crate::text::{chars_vec, contains_pat, contains_seq, match_at};

verus! {

/// A decimal digit.
pub open spec fn is_digit(c: char) -> bool {
    48 <= c as u32 <= 57
}

/// The end of the digit run starting at `p`: the first position at or past
/// `p` that holds no digit.
pub open spec fn digit_end(s: Seq<char>, p: int) -> int
    decreases s.len() - p when 0 <= p <= s.len()
{
    if p < s.len() && is_digit(s[p]) {
        digit_end(s, p + 1)
    } else {
        p
    }
}

pub proof fn lemma_digit_end_bounds(s: Seq<char>, p: int)
    requires
        0 <= p <= s.len(),
    ensures
        p <= digit_end(s, p) <= s.len(),
    decreases s.len() - p,
{
    if p < s.len() && is_digit(s[p]) {
        lemma_digit_end_bounds(s, p + 1);
    }
}

/// The first position at or past `from` holding `target`, as long as no
/// line break comes first; the scan never crosses a line break.
pub open spec fn seek(s: Seq<char>, from: int, target: char) -> Option<int>
    decreases s.len() - from when 0 <= from <= s.len()
{
    if from >= s.len() {
        Option::None
    } else if s[from] == '\n' {
        Option::None
    } else if s[from] == target {
        Option::Some(from)
    } else {
        seek(s, from + 1, target)
    }
}

pub proof fn lemma_seek_bounds(s: Seq<char>, from: int, target: char)
    requires
        0 <= from <= s.len(),
    ensures
        seek(s, from, target) matches Option::Some(i) ==> from <= i < s.len(),
    decreases s.len() - from,
{
    if from < s.len() && s[from] != '\n' && s[from] != target {
        lemma_seek_bounds(s, from + 1, target);
    }
}

/// The entry starting exactly at `p`, if one does: its index digits, its
/// server name, and the position right after its closing parenthesis.
pub open spec fn entry_at(s: Seq<char>, p: int) -> Option<(Seq<char>, Seq<char>, int)> {
    if 0 <= p < s.len() && is_digit(s[p]) {
        let e = digit_end(s, p);
        if e + 3 <= s.len() && s.subrange(e, e + 3) == "-->"@ {
            match seek(s, e + 3, '(') {
                Option::Some(i) => match seek(s, i + 1, ')') {
                    Option::Some(j) => Option::Some(
                        (s.subrange(p, e), s.subrange(i + 1, j), j + 1),
                    ),
                    Option::None => Option::None,
                },
                Option::None => Option::None,
            }
        } else {
            Option::None
        }
    } else {
        Option::None
    }
}

pub proof fn lemma_entry_at_advances(s: Seq<char>, p: int)
    requires
        0 <= p < s.len(),
    ensures
        entry_at(s, p) matches Option::Some(t) ==> p < t.2 <= s.len(),
{
    if entry_at(s, p) is Some {
        let e = digit_end(s, p);
        lemma_digit_end_bounds(s, p);
        lemma_seek_bounds(s, e + 3, '(');
        let i = seek(s, e + 3, '(').unwrap();
        lemma_seek_bounds(s, i + 1, ')');
    }
}

/// Every entry of `s` at or past `p`, in scan order: at each position an
/// entry either starts and the scan resumes right after it, or the scan
/// moves one character on.
pub open spec fn entries_from(s: Seq<char>, p: int) -> Seq<(Seq<char>, Seq<char>)>
    decreases s.len() - p when 0 <= p via entries_from_dec
{
    if p < 0 || p >= s.len() {
        Seq::empty()
    } else {
        match entry_at(s, p) {
            Option::Some(t) => seq![(t.0, t.1)] + entries_from(s, t.2),
            Option::None => entries_from(s, p + 1),
        }
    }
}

#[via_fn]
proof fn entries_from_dec(s: Seq<char>, p: int) {
    if 0 <= p < s.len() {
        lemma_entry_at_advances(s, p);
    }
}

/// The target keyword `all`, in any letter case.
pub open spec fn is_all_keyword(t: Seq<char>) -> bool {
    &&& t.len() == 3
    &&& (t[0] == 'a' || t[0] == 'A')
    &&& (t[1] == 'l' || t[1] == 'L')
    &&& (t[2] == 'l' || t[2] == 'L')
}

/// Whether an entry's server name answers the target: it contains the
/// target's text, or the target is the `all` keyword and the name contains
/// `All of them`.
pub open spec fn entry_matches(name: Seq<char>, t: Seq<char>) -> bool {
    contains_seq(name, t) || (is_all_keyword(t) && contains_seq(name, "All of them"@))
}

/// The index sent for a target `t`: the first matching entry's digits, or
/// `1` when no entry matches.
pub open spec fn pick_index(ents: Seq<(Seq<char>, Seq<char>)>, t: Seq<char>) -> Seq<char>
    decreases ents.len(),
{
    if ents.len() == 0 {
        "1"@
    } else if entry_matches(ents[0].1, t) {
        ents[0].0
    } else {
        pick_index(ents.drop_first(), t)
    }
}

/// The index sent for the account's optional target over a given history:
/// no target means `1`.
pub open spec fn selected_index_spec(history: Seq<char>, target: Option<Seq<char>>) -> Seq<char> {
    match target {
        Option::Some(t) => pick_index(entries_from(history, 0), t),
        Option::None => "1"@,
    }
}

/// The views of a scanned entry list.
pub open spec fn entry_views(s: Seq<(Vec<char>, Vec<char>)>) -> Seq<(Seq<char>, Seq<char>)> {
    s.map_values(|p: (Vec<char>, Vec<char>)| (p.0@, p.1@))
}

fn copy_chars(v: &Vec<char>, a: usize, b: usize) -> (r: Vec<char>)
    requires
        a <= b <= v@.len(),
    ensures
        r@ == v@.subrange(a as int, b as int),
{
    let mut r: Vec<char> = Vec::new();
    let mut i: usize = a;
    while i < b
        invariant
            a <= i <= b <= v@.len(),
            r@ == v@.subrange(a as int, i as int),
        decreases b - i,
    {
        r.push(v[i]);
        i = i + 1;
        proof {
            assert(r@ =~= v@.subrange(a as int, i as int));
        }
    }
    r
}

fn exec_is_digit(c: char) -> (r: bool)
    ensures
        r == is_digit(c),
{
    (c as u32) >= 48 && (c as u32) <= 57
}

/// The end of the digit run starting at `p`.
fn digit_run_end(v: &Vec<char>, p: usize) -> (e: usize)
    requires
        p <= v@.len(),
    ensures
        e as int == digit_end(v@, p as int),
        p <= e <= v@.len(),
{
    let n = v.len();
    let mut e: usize = p;
    while e < n && exec_is_digit(v[e])
        invariant
            n == v@.len(),
            p <= e <= n,
            digit_end(v@, p as int) == digit_end(v@, e as int),
        decreases n - e,
    {
        e = e + 1;
    }
    e
}

/// The first position at or past `from` holding `target` on the same line.
fn seek_char(v: &Vec<char>, from: usize, target: char) -> (r: Option<usize>)
    requires
        from <= v@.len(),
    ensures
        r matches Option::Some(i) ==> seek(v@, from as int, target) == Option::Some(i as int)
            && from <= i < v@.len(),
        r is None ==> seek(v@, from as int, target) is None,
{
    let n = v.len();
    let mut i: usize = from;
    while i < n
        invariant
            n == v@.len(),
            from <= i <= n,
            seek(v@, from as int, target) == seek(v@, i as int, target),
        decreases n - i,
    {
        if v[i] == '\n' {
            return Option::None;
        }
        if v[i] == target {
            return Option::Some(i);
        }
        i = i + 1;
    }
    Option::None
}

/// Scans the whole text for selection-list entries, in order.
pub fn scan_entries(text: &Vec<char>) -> (r: Vec<(Vec<char>, Vec<char>)>)
    ensures
        entry_views(r@) == entries_from(text@, 0),
{
    let n = text.len();
    let arrow = chars_vec("-->");
    proof {
        reveal_strlit("-->");
        assert(arrow@.len() == 3);
    }
    let mut out: Vec<(Vec<char>, Vec<char>)> = Vec::new();
    let mut p: usize = 0;
    while p < n
        invariant
            n == text@.len(),
            p <= n,
            arrow@ == "-->"@,
            arrow@.len() == 3,
            entries_from(text@, 0) == entry_views(out@) + entries_from(text@, p as int),
        decreases n - p,
    {
        let ghost p0 = p as int;
        let mut stepped = false;
        if exec_is_digit(text[p]) {
            let e = digit_run_end(text, p);
            if n - e >= 3 && match_at(text, &arrow, e) {
                proof {
                    assert(text@.subrange(e as int, e + 3) == "-->"@);
                }
                match seek_char(text, e + 3, '(') {
                    Option::Some(i) => {
                        match seek_char(text, i + 1, ')') {
                            Option::Some(j) => {
                                let idx = copy_chars(text, p, e);
                                let name = copy_chars(text, i + 1, j);
                                proof {
                                    assert(entry_at(text@, p0) == Option::Some(
                                        (idx@, name@, j + 1 as int),
                                    ));
                                    assert(entries_from(text@, p0) == seq![(idx@, name@)]
                                        + entries_from(text@, j + 1 as int));
                                }
                                out.push((idx, name));
                                proof {
                                    assert(entry_views(out@) =~= entry_views(out@.drop_last())
                                        + seq![(out@.last().0@, out@.last().1@)]);
                                    assert(entries_from(text@, 0) =~= entry_views(out@)
                                        + entries_from(text@, j + 1 as int));
                                }
                                p = j + 1;
                                stepped = true;
                            },
                            Option::None => {
                                proof {
                                    assert(entry_at(text@, p0) is None);
                                }
                            },
                        }
                    },
                    Option::None => {
                        proof {
                            assert(entry_at(text@, p0) is None);
                        }
                    },
                }
            } else {
                proof {
                    if e + 3 <= n {
                        assert(!crate::text::matches_at(text@, arrow@, e as int));
                        assert(text@.subrange(e as int, e + 3) != "-->"@);
                    }
                    assert(entry_at(text@, p0) is None);
                }
            }
        } else {
            proof {
                assert(entry_at(text@, p0) is None);
            }
        }
        if !stepped {
            proof {
                assert(entries_from(text@, p0) == entries_from(text@, p0 + 1));
            }
            p = p + 1;
        }
    }
    proof {
        assert(entries_from(text@, p as int) == Seq::<(Seq<char>, Seq<char>)>::empty());
        assert(entry_views(out@) =~= entry_views(out@) + entries_from(text@, p as int));
    }
    out
}

fn exec_is_all_keyword(t: &Vec<char>) -> (r: bool)
    ensures
        r == is_all_keyword(t@),
{
    t.len() == 3 && (t[0] == 'a' || t[0] == 'A') && (t[1] == 'l' || t[1] == 'L') && (t[2] == 'l'
        || t[2] == 'L')
}

/// Picks the index to send for the account's optional target, scanning the
/// history for the selection list.
pub fn select_server_index(history: &Vec<char>, target: &Option<String>) -> (r: Vec<char>)
    ensures
        r@ == selected_index_spec(history@, opt_view(*target)),
{
    let t: &String = match target {
        Option::Some(t) => t,
        Option::None => {
            return chars_vec("1");
        },
    };
    let tv = chars_vec(t.as_str());
    let all_of_them = chars_vec("All of them");
    let ents = scan_entries(history);
    let ghost full = entry_views(ents@);
    proof {
        assert(full.skip(0) =~= full);
    }
    let m = ents.len();
    let mut k: usize = 0;
    while k < m
        invariant
            m == ents@.len(),
            k <= m,
            tv@ == t@,
            opt_view(*target) == Option::Some(t@),
            full == entries_from(history@, 0),
            all_of_them@ == "All of them"@,
            full == entry_views(ents@),
            pick_index(full, t@) == pick_index(full.skip(k as int), t@),
        decreases m - k,
    {
        let hit = contains_pat(&ents[k].1, &tv) || (exec_is_all_keyword(&tv) && contains_pat(
            &ents[k].1,
            &all_of_them,
        ));
        proof {
            assert(full.skip(k as int)[0] == full[k as int]);
            assert(full.skip(k as int).drop_first() =~= full.skip(k + 1));
        }
        if hit {
            let idx = copy_chars(&ents[k].0, 0, ents[k].0.len());
            proof {
                assert(idx@ =~= full[k as int].0);
                assert(entry_matches(full[k as int].1, t@));
                assert(full.skip(k as int).len() > 0);
                assert(pick_index(full.skip(k as int), t@) == full[k as int].0);
                assert(pick_index(full, t@) == idx@);
                assert(opt_view(*target) == Option::Some(t@));
                assert(selected_index_spec(history@, opt_view(*target)) == idx@);
            }
            return idx;
        }
        k = k + 1;
    }
    proof {
        assert(full.skip(m as int) =~= Seq::<(Seq<char>, Seq<char>)>::empty());
    }
    chars_vec("1")
}

} // verus!
