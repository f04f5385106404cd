//! Other Logitech drivers that would fight Mushak over the device: which
//! process names count as one, the distinct names to warn about, and what
//! terminating them achieved. Listing and terminating processes is the
//! program's job.

use crate::config::strings_view;
use crate::text::{lex_lt, lemma_lex_irreflexive, lemma_lex_total, lemma_lex_transitive, str_less, push_char, empty_string};
use vstd::prelude::*;

verus! {

/// UTF-16 decoding with each unpaired surrogate replaced by U+FFFD: a unit
/// outside the surrogate range is its own character, a high surrogate
/// followed by a low one is the pair's supplementary character, and any other
/// surrogate unit is one replacement character.
pub open spec fn utf16_lossy(units: Seq<u16>) -> Seq<char>
    decreases units.len(),
{
    if units.len() == 0 {
        Seq::empty()
    } else if units[0] < 0xD800 || units[0] > 0xDFFF {
        seq![units[0] as char] + utf16_lossy(units.drop_first())
    } else if units[0] <= 0xDBFF && units.len() >= 2 && 0xDC00 <= units[1] <= 0xDFFF {
        seq![(0x10000 + (units[0] - 0xD800) * 0x400 + (units[1] - 0xDC00)) as char] + utf16_lossy(
            units.subrange(2, units.len() as int),
        )
    } else {
        seq!['\u{FFFD}'] + utf16_lossy(units.drop_first())
    }
}

/// A valid Unicode scalar value: not a surrogate, at most U+10FFFF.
pub open spec fn is_scalar(v: u32) -> bool {
    v < 0xD800 || (0xE000 <= v && v <= 0x10FFFF)
}

/// `char::from_u32` from std.
///
/// Trusted: the contract claims std's documented behaviour, the character
/// with that code point when it is a valid scalar value, `None` otherwise.
#[verifier::external_body]
fn char_from_u32(v: u32) -> (r: Option<char>)
    ensures
        is_scalar(v) ==> r == Some(v as char),
        !is_scalar(v) ==> r is None,
{
    char::from_u32(v)
}

fn push_code_point(s: &mut String, v: u32)
    requires
        is_scalar(v),
    ensures
        final(s)@ == old(s)@.push(v as char),
{
    match char_from_u32(v) {
        Some(c) => push_char(s, c),
        None => {},
    }
}

/// Decode UTF-16, each unpaired surrogate becoming U+FFFD (what
/// `String::from_utf16_lossy` does).
fn from_utf16_lossy(units: &[u16]) -> (r: String)
    ensures
        r@ == utf16_lossy(units@),
{
    let mut out = empty_string();
    let n = units.len();
    let mut i: usize = 0;
    assert(units@.skip(0) =~= units@);
    assert(utf16_lossy(units@) == out@ + utf16_lossy(units@.skip(0)));
    while i < n
        invariant
            n == units@.len(),
            i <= n,
            utf16_lossy(units@) == out@ + utf16_lossy(units@.skip(i as int)),
        decreases n - i,
    {
        let ghost rest = units@.skip(i as int);
        let ghost before = out@;
        let u = units[i];
        assert(rest[0] == u);
        if u < 0xD800 || u > 0xDFFF {
            push_code_point(&mut out, u as u32);
            assert(rest.drop_first() =~= units@.skip(i + 1));
            i = i + 1;
            assert(utf16_lossy(rest) == seq![u as char] + utf16_lossy(units@.skip(i as int)));
            assert(out@ + utf16_lossy(units@.skip(i as int)) =~= before + (seq![u as char] + utf16_lossy(
                units@.skip(i as int),
            )));
        } else if u <= 0xDBFF && i + 1 < n && 0xDC00 <= units[i + 1] && units[i + 1] <= 0xDFFF {
            let lo = units[i + 1];
            assert(rest[1] == lo);
            let v: u32 = 0x10000 + (u as u32 - 0xD800) * 0x400 + (lo as u32 - 0xDC00);
            push_code_point(&mut out, v);
            assert(rest.subrange(2, rest.len() as int) =~= units@.skip(i + 2));
            i = i + 2;
            assert(utf16_lossy(rest) == seq![v as char] + utf16_lossy(units@.skip(i as int)));
            assert(out@ + utf16_lossy(units@.skip(i as int)) =~= before + (seq![v as char] + utf16_lossy(
                units@.skip(i as int),
            )));
        } else {
            push_char(&mut out, '\u{FFFD}');
            assert(rest.drop_first() =~= units@.skip(i + 1));
            i = i + 1;
            assert(utf16_lossy(rest) == seq!['\u{FFFD}'] + utf16_lossy(units@.skip(i as int)));
            assert(out@ + utf16_lossy(units@.skip(i as int)) =~= before + (seq!['\u{FFFD}'] + utf16_lossy(
                units@.skip(i as int),
            )));
        }
    }
    assert(units@.skip(n as int) =~= Seq::<u16>::empty());
    assert(out@ + Seq::<char>::empty() =~= out@);
    out
}

/// The index of the first NUL code unit (the whole length when there is none).
pub open spec fn nul_position(buf: Seq<u16>) -> int
    decreases buf.len(),
{
    if buf.len() == 0 {
        0
    } else if buf[0] == 0 {
        0
    } else {
        1 + nul_position(buf.drop_first())
    }
}

/// A NUL-terminated UTF-16 buffer (e.g. a process entry's executable name) as
/// a string: the units before the first NUL, decoded.
pub fn wide_to_string(buf: &[u16]) -> (r: String)
    ensures
        r@ == utf16_lossy(buf@.take(nul_position(buf@))),
{
    let mut end: usize = 0;
    assert(buf@.skip(0) =~= buf@);
    while end < buf.len() && buf[end] != 0
        invariant
            end <= buf.len(),
            nul_position(buf@) == end + nul_position(buf@.skip(end as int)),
        decreases buf.len() - end,
    {
        assert(buf@.skip(end as int).drop_first() =~= buf@.skip(end + 1));
        end = end + 1;
    }
    assert(nul_position(buf@.skip(end as int)) == 0);
    let part = &buf[0..end];
    assert(part@ =~= buf@.take(end as int));
    from_utf16_lossy(part)
}

/// A character with ASCII upper-case letters lowered.
pub open spec fn lower_char(c: char) -> char {
    if 'A' <= c && c <= 'Z' {
        ((c as int) + 32) as char
    } else {
        c
    }
}

pub open spec fn ascii_lowercase_of(s: Seq<char>) -> Seq<char> {
    s.map_values(|c: char| lower_char(c))
}

/// `s.to_ascii_lowercase()`.
pub fn ascii_lowercase(s: &str) -> (r: String)
    ensures
        r@ == ascii_lowercase_of(s@),
{
    let n = s.unicode_len();
    let mut out = empty_string();
    let mut i: usize = 0;
    while i < n
        invariant
            n == s@.len(),
            i <= n,
            out@ == ascii_lowercase_of(s@.take(i as int)),
        decreases n - i,
    {
        let c = s.get_char(i);
        let l = if 'A' <= c && c <= 'Z' {
            ((c as u8) + 32) as char
        } else {
            c
        };
        push_char(&mut out, l);
        i = i + 1;
        assert(out@ =~= ascii_lowercase_of(s@.take(i as int)));
    }
    assert(s@.take(n as int) =~= s@);
    out
}

/// `t` occurs in `s` starting at `i`.
pub open spec fn occurs_at(s: Seq<char>, t: Seq<char>, i: int) -> bool {
    0 <= i && i + t.len() <= s.len() && s.subrange(i, i + t.len()) == t
}

/// `s.contains(t)`.
pub open spec fn contains_text(s: Seq<char>, t: Seq<char>) -> bool {
    exists|i: int| #[trigger] occurs_at(s, t, i)
}

/// Whether `needle` occurs in `hay`.
pub fn str_contains(hay: &str, needle: &str) -> (r: bool)
    ensures
        r == contains_text(hay@, needle@),
{
    let n = hay.unicode_len();
    let m = needle.unicode_len();
    if m > n {
        assert forall|i: int| !occurs_at(hay@, needle@, i) by {}
        return false;
    }
    let mut i: usize = 0;
    while i <= n - m
        invariant
            n == hay@.len(),
            m == needle@.len(),
            m <= n,
            i <= n - m + 1,
            forall|k: int| 0 <= k < i ==> !#[trigger] occurs_at(hay@, needle@, k),
        decreases n - m + 1 - i,
    {
        let mut j: usize = 0;
        while j < m && hay.get_char(i + j) == needle.get_char(j)
            invariant
                n == hay@.len(),
                m == needle@.len(),
                i + m <= n,
                j <= m,
                forall|k: int| 0 <= k < j ==> hay@[i + k] == needle@[k],
            decreases m - j,
        {
            j = j + 1;
        }
        if j == m {
            assert(hay@.subrange(i as int, i + m) =~= needle@);
            assert(occurs_at(hay@, needle@, i as int));
            return true;
        }
        assert(hay@.subrange(i as int, i + m)[j as int] != needle@[j as int]);
        i = i + 1;
    }
    assert forall|k: int| !occurs_at(hay@, needle@, k) by {
        if 0 <= k && k + m <= n {
            assert(k < i);
        }
    }
    false
}

/// A (lower-cased) process name that indicates a conflicting driver.
pub open spec fn is_conflicting_name(name: Seq<char>) -> bool {
    contains_text(name, "logioptions"@) || contains_text(name, "logi options"@) || contains_text(
        name,
        "lghub"@,
    ) || contains_text(name, "lghub_agent"@)
}

/// The lower-cased name under which a process counts as a conflicting driver,
/// or `None` when it does not.
pub fn conflict_name(exe_name: &str) -> (r: Option<String>)
    ensures
        match r {
            Some(n) => n@ == ascii_lowercase_of(exe_name@) && is_conflicting_name(n@),
            None => !is_conflicting_name(ascii_lowercase_of(exe_name@)),
        },
        (r is Some) == (contains_text(ascii_lowercase_of(exe_name@), "logioptions"@) || contains_text(
            ascii_lowercase_of(exe_name@),
            "logi options"@,
        ) || contains_text(ascii_lowercase_of(exe_name@), "lghub"@)),
{
    proof {
        lemma_conflicting_names(ascii_lowercase_of(exe_name@));
    }
    let name = ascii_lowercase(exe_name);
    let s = name.as_str();
    if str_contains(s, "logioptions") || str_contains(s, "logi options") || str_contains(s, "lghub")
        || str_contains(s, "lghub_agent") {
        Some(name)
    } else {
        None
    }
}

/// A running conflicting process.
#[derive(Debug, Clone)]
pub struct ConflictProc {
    pub pid: u32,
    pub name: String,
}

pub open spec fn lex_sorted(s: Seq<Seq<char>>) -> bool {
    forall|i: int, j: int| 0 <= i < j < s.len() ==> lex_lt(s[i], s[j])
}

/// The distinct names of conflicting processes, sorted (the processes run as
/// a cluster, so the same name routinely appears several times).
pub fn detect(names: Vec<String>) -> (r: Vec<String>)
    ensures
        lex_sorted(strings_view(r@)),
        forall|v: Seq<char>| strings_view(r@).contains(v) <==> strings_view(names@).contains(v),
{
    let mut res: Vec<String> = Vec::new();
    let mut n: usize = 0;
    while n < names.len()
        invariant
            n <= names.len(),
            lex_sorted(strings_view(res@)),
            forall|v: Seq<char>|
                strings_view(res@).contains(v) <==> strings_view(names@.take(n as int)).contains(v),
        decreases names.len() - n,
    {
        let x = &names[n];
        let mut i = res.len();
        while i > 0 && str_less(x.as_str(), res[i - 1].as_str())
            invariant
                i <= res.len(),
                forall|k: int| i <= k < res.len() ==> lex_lt(x@, #[trigger] res@[k]@),
            decreases i,
        {
            i = i - 1;
        }
        let ghost old_res = strings_view(res@);
        let ghost t = strings_view(names@.take(n as int));
        assert(strings_view(names@.take(n + 1)) =~= t.push(x@));
        assert(t.push(x@)[t.len() as int] == x@);
        let dup = i > 0 && !str_less(res[i - 1].as_str(), x.as_str());
        if dup {
            proof {
                let y = old_res[i - 1];
                assert(res@[i - 1]@ == y);
                if y != x@ {
                    lemma_lex_total(y, x@);
                }
                assert(y == x@);
            }
            assert forall|v: Seq<char>| strings_view(res@).contains(v) <==> t.push(x@).contains(v) by {
                if v == x@ {
                    assert(old_res[i - 1] == x@);
                } else {
                    if t.push(x@).contains(v) {
                        let k = choose|k: int| 0 <= k < t.len() + 1 && #[trigger] t.push(x@)[k] == v;
                        assert(t[k] == v);
                    }
                    if t.contains(v) {
                        let k = choose|k: int| 0 <= k < t.len() && #[trigger] t[k] == v;
                        assert(t.push(x@)[k] == v);
                    }
                }
            }
        } else {
            proof {
                if i > 0 {
                    assert(res@[i - 1]@ == old_res[i - 1]);
                    assert(lex_lt(old_res[i - 1], x@));
                }
                assert forall|k: int| 0 <= k < i implies lex_lt(old_res[k], x@) by {
                    if k < i - 1 {
                        lemma_lex_transitive(old_res[k], old_res[i - 1], x@);
                    }
                }
            }
            let ghost before = res@;
            res.insert(i, x.clone());
            let ghost nv = strings_view(res@);
            assert(nv =~= old_res.subrange(0, i as int).push(x@) + old_res.subrange(
                i as int,
                old_res.len() as int,
            )) by {
                assert forall|k: int| 0 <= k < nv.len() implies nv[k] == (old_res.subrange(
                    0,
                    i as int,
                ).push(x@) + old_res.subrange(i as int, old_res.len() as int))[k] by {
                    if k < i {
                        assert(res@[k] == before[k]);
                    } else if k > i {
                        assert(res@[k] == before[k - 1]);
                    }
                }
            }
            assert forall|a: int, b: int| 0 <= a < b < nv.len() implies lex_lt(nv[a], nv[b]) by {
                if b < i {
                } else if b == i {
                    assert(nv[a] == old_res[a]);
                } else if a < i {
                    assert(nv[b] == old_res[b - 1]);
                    assert(lex_lt(old_res[a], x@));
                    lemma_lex_transitive(old_res[a], x@, old_res[b - 1]);
                } else if a == i {
                    assert(nv[b] == old_res[b - 1]);
                    assert(lex_lt(x@, res@[b]@));
                } else {
                    assert(nv[a] == old_res[a - 1]);
                    assert(nv[b] == old_res[b - 1]);
                }
            }
            assert forall|v: Seq<char>| nv.contains(v) <==> t.push(x@).contains(v) by {
                if nv.contains(v) {
                    let k = choose|k: int| 0 <= k < nv.len() && #[trigger] nv[k] == v;
                    if k < i {
                        assert(old_res[k] == v);
                        assert(old_res.contains(v));
                        let m = choose|m: int| 0 <= m < t.len() && #[trigger] t[m] == v;
                        assert(t.push(x@)[m] == v);
                    } else if k > i {
                        assert(old_res[k - 1] == v);
                        assert(old_res.contains(v));
                        let m = choose|m: int| 0 <= m < t.len() && #[trigger] t[m] == v;
                        assert(t.push(x@)[m] == v);
                    }
                }
                if t.push(x@).contains(v) {
                    let k = choose|k: int| 0 <= k < t.len() + 1 && #[trigger] t.push(x@)[k] == v;
                    if k < t.len() {
                        assert(t[k] == v);
                        assert(old_res.contains(v));
                        let m = choose|m: int| 0 <= m < old_res.len() && #[trigger] old_res[m] == v;
                        if m < i {
                            assert(nv[m] == v);
                        } else {
                            assert(nv[m + 1] == v);
                        }
                    } else {
                        assert(nv[i as int] == x@);
                    }
                }
            }
        }
        n = n + 1;
    }
    assert(names@.take(names.len() as int) =~= names@);
    res
}

/// What terminating the conflicting processes managed to do.
#[derive(Debug, Clone)]
pub struct KillOutcome {
    pub killed: usize,
    /// Processes that could not be opened or terminated, with the reason.
    pub failed: Vec<(String, String)>,
}

impl KillOutcome {
    pub fn all_gone(&self) -> (r: bool)
        ensures
            r == (self.failed@.len() == 0),
    {
        self.failed.len() == 0
    }
}

/// The number of successful terminations among `results`.
pub open spec fn count_ok(results: Seq<(ConflictProc, Result<(), String>)>) -> nat
    decreases results.len(),
{
    if results.len() == 0 {
        0
    } else {
        count_ok(results.drop_last()) + if results.last().1 is Ok {
            1nat
        } else {
            0nat
        }
    }
}

/// The `(name, reason)` of each failed termination among `results`, in order.
pub open spec fn failures(results: Seq<(ConflictProc, Result<(), String>)>) -> Seq<(Seq<char>, Seq<char>)>
    decreases results.len(),
{
    if results.len() == 0 {
        Seq::empty()
    } else {
        let rest = failures(results.drop_last());
        match results.last().1 {
            Ok(_) => rest,
            Err(e) => rest.push((results.last().0.name@, e@)),
        }
    }
}

/// Tally the termination of every conflicting process: how many went, and
/// which did not and why (the updater service can run as SYSTEM, which a user
/// process cannot open).
pub fn kill_all(results: Vec<(ConflictProc, Result<(), String>)>) -> (r: KillOutcome)
    ensures
        r.killed == count_ok(results@),
        r.failed@.map_values(|f: (String, String)| (f.0@, f.1@)) == failures(results@),
{
    let mut killed: usize = 0;
    let mut failed: Vec<(String, String)> = Vec::new();
    let mut i: usize = 0;
    while i < results.len()
        invariant
            i <= results.len(),
            killed == count_ok(results@.take(i as int)),
            killed <= i,
            failed@.map_values(|f: (String, String)| (f.0@, f.1@)) == failures(results@.take(i as int)),
        decreases results.len() - i,
    {
        assert(results@.take(i + 1).drop_last() =~= results@.take(i as int));
        let entry = &results[i];
        match &entry.1 {
            Ok(()) => {
                killed = killed + 1;
            },
            Err(e) => {
                let ghost before = failed@;
                failed.push((entry.0.name.clone(), e.clone()));
                assert(failed@.map_values(|f: (String, String)| (f.0@, f.1@)) =~= before.map_values(
                    |f: (String, String)| (f.0@, f.1@),
                ).push((entry.0.name@, e@)));
            },
        }
        i = i + 1;
    }
    assert(results@.take(results.len() as int) =~= results@);
    KillOutcome { killed, failed }
}

/// Which names count as a conflicting driver: exactly those containing
/// "logioptions" (Options+ and its agent), "logi options" (the older Options)
/// or "lghub" (G HUB and its agent).
pub proof fn lemma_conflicting_names(name: Seq<char>)
    ensures
        is_conflicting_name(name) == (contains_text(name, "logioptions"@) || contains_text(
            name,
            "logi options"@,
        ) || contains_text(name, "lghub"@)),
{
    reveal_strlit("lghub");
    reveal_strlit("lghub_agent");
    if contains_text(name, "lghub_agent"@) {
        let i = choose|i: int| #[trigger] occurs_at(name, "lghub_agent"@, i);
        assert(name.subrange(i, i + 5) =~= "lghub"@) by {
            assert forall|k: int| 0 <= k < 5 implies name.subrange(i, i + 5)[k] == "lghub"@[k] by {
                assert(name.subrange(i, i + 11)[k] == "lghub_agent"@[k]);
            }
        }
        assert(occurs_at(name, "lghub"@, i));
    }
}

} // verus!
