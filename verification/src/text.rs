//! Character-level text helpers: conversion between strings and character
//! vectors, leftmost non-overlapping substring replacement, whitespace
//! trimming, prefix tests and decimal rendering of integers. Template
//! substitution and the settings checks are built on these.

use vstd::prelude::*;
use vstd::string::StrSliceExecFns;

verus! {

/// The characters of `s`, in order, as a vector.
pub fn str_to_chars(s: &str) -> (r: Vec<char>)
    ensures
        r@ == s@,
{
    let n: usize = s.unicode_len();
    let mut r: Vec<char> = Vec::new();
    let mut i: usize = 0;
    while i < n
        invariant
            n == s@.len(),
            i <= n,
            r@ == s@.take(i as int),
        decreases n - i,
    {
        let c = s.get_char(i);
        r.push(c);
        proof {
            assert(s@.take(i + 1 as int) =~= s@.take(i as int).push(s@[i as int]));
        }
        i += 1;
    }
    proof {
        assert(s@.take(n as int) =~= s@);
    }
    r
}

/// Relies on `String: FromIterator<char>`: collecting characters yields the
/// string made of exactly those characters, in order.
#[verifier::external_body]
pub fn string_from_chars(v: &Vec<char>) -> (r: String)
    ensures
        r@ == v@,
{
    v.iter().collect()
}

/// Whether `pat` occurs in `s` starting at index `i`.
pub open spec fn spec_matches_at(s: Seq<char>, pat: Seq<char>, i: int) -> bool {
    i + pat.len() <= s.len() && s.subrange(i, i + pat.len()) == pat
}

/// Tests whether `pat` occurs in `s` starting at index `i`.
fn matches_at(s: &Vec<char>, pat: &Vec<char>, i: usize) -> (r: bool)
    ensures
        r == spec_matches_at(s@, pat@, i as int),
{
    if pat.len() > s.len() || i > s.len() - pat.len() {
        return false;
    }
    let mut j: usize = 0;
    while j < pat.len()
        invariant
            j <= pat@.len(),
            i + pat@.len() <= s@.len(),
            s@.len() <= usize::MAX,
            forall|k: int| 0 <= k < j ==> s@[i + k] == pat@[k],
        decreases pat@.len() - j,
    {
        if s[i + j] != pat[j] {
            proof {
                assert(s@.subrange(i as int, i + pat@.len())[j as int] == s@[i + j]);
            }
            return false;
        }
        j += 1;
    }
    proof {
        assert(s@.subrange(i as int, i + pat@.len()) =~= pat@);
    }
    true
}

/// `s` with every non-overlapping occurrence of `pat`, scanned left to
/// right, replaced by `sub`. An empty `pat` leaves `s` unchanged.
pub open spec fn replaced(s: Seq<char>, pat: Seq<char>, sub: Seq<char>) -> Seq<char>
    decreases s.len(),
{
    if pat.len() == 0 || s.len() < pat.len() {
        s
    } else if s.subrange(0, pat.len() as int) == pat {
        sub + replaced(s.skip(pat.len() as int), pat, sub)
    } else {
        seq![s[0]] + replaced(s.skip(1), pat, sub)
    }
}

/// Replaces every non-overlapping occurrence of `pat` in `s` by `sub`,
/// scanning left to right. An empty `pat` changes nothing.
pub fn replace_chars(s: &Vec<char>, pat: &Vec<char>, sub: &Vec<char>) -> (r: Vec<char>)
    ensures
        r@ == replaced(s@, pat@, sub@),
{
    if pat.len() == 0 {
        let mut copy: Vec<char> = Vec::new();
        copy.extend_from_slice(s.as_slice());
        return copy;
    }
    let mut out: Vec<char> = Vec::new();
    let mut i: usize = 0;
    let slen: usize = s.len();
    proof {
        assert(slen == s@.len());
        assert(s@.skip(0) =~= s@);
        assert(Seq::<char>::empty() + replaced(s@, pat@, sub@) =~= replaced(s@, pat@, sub@));
    }
    while i < s.len()
        invariant
            i <= s@.len(),
            s@.len() <= usize::MAX,
            pat@.len() > 0,
            replaced(s@, pat@, sub@) == out@ + replaced(s@.skip(i as int), pat@, sub@),
        decreases s@.len() - i,
    {
        let ghost rest = s@.skip(i as int);
        if matches_at(s, pat, i) {
            proof {
                assert(rest.subrange(0, pat@.len() as int) =~= s@.subrange(
                    i as int,
                    i + pat@.len(),
                ));
                assert(rest.skip(pat@.len() as int) =~= s@.skip(i + pat@.len()));
                assert(replaced(rest, pat@, sub@) == sub@ + replaced(
                    s@.skip(i + pat@.len()),
                    pat@,
                    sub@,
                ));
                assert(out@ + (sub@ + replaced(s@.skip(i + pat@.len()), pat@, sub@)) =~= (out@
                    + sub@) + replaced(s@.skip(i + pat@.len()), pat@, sub@));
            }
            out.extend_from_slice(sub.as_slice());
            i += pat.len();
        } else {
            proof {
                if rest.len() >= pat@.len() {
                    assert(rest.subrange(0, pat@.len() as int) =~= s@.subrange(
                        i as int,
                        i + pat@.len(),
                    ));
                    assert(rest.subrange(0, pat@.len() as int) != pat@);
                }
                assert(rest.skip(1) =~= s@.skip(i + 1));
                assert(replaced(rest, pat@, sub@) == seq![s@[i as int]] + replaced(
                    s@.skip(i + 1),
                    pat@,
                    sub@,
                ));
                assert(out@ + (seq![s@[i as int]] + replaced(s@.skip(i + 1), pat@, sub@)) =~= out@.push(
                    s@[i as int],
                ) + replaced(s@.skip(i + 1), pat@, sub@));
            }
            let c = s[i];
            out.push(c);
            i += 1;
        }
    }
    proof {
        assert(s@.skip(s@.len() as int) =~= Seq::<char>::empty());
        assert(out@ + replaced(Seq::<char>::empty(), pat@, sub@) =~= out@);
    }
    out
}

/// The decimal digit character for `d`.
pub open spec fn spec_digit_char(d: int) -> char {
    if d == 0 {
        '0'
    } else if d == 1 {
        '1'
    } else if d == 2 {
        '2'
    } else if d == 3 {
        '3'
    } else if d == 4 {
        '4'
    } else if d == 5 {
        '5'
    } else if d == 6 {
        '6'
    } else if d == 7 {
        '7'
    } else if d == 8 {
        '8'
    } else {
        '9'
    }
}

/// The usual decimal rendering of `n`, most significant digit first, with no
/// leading zeroes (a lone zero for 0).
pub open spec fn dec_of(n: nat) -> Seq<char>
    decreases n,
{
    if n < 10 {
        seq![spec_digit_char(n as int)]
    } else {
        dec_of(n / 10).push(spec_digit_char((n % 10) as int))
    }
}

/// The decimal digit character for `d`.
fn digit_char(d: u64) -> (c: char)
    requires
        d < 10,
    ensures
        c == spec_digit_char(d as int),
{
    match d {
        0 => '0',
        1 => '1',
        2 => '2',
        3 => '3',
        4 => '4',
        5 => '5',
        6 => '6',
        7 => '7',
        8 => '8',
        _ => '9',
    }
}

/// Renders `n` in decimal.
pub fn u64_to_dec_chars(n: u64) -> (r: Vec<char>)
    ensures
        r@ == dec_of(n as nat),
    decreases n,
{
    if n < 10 {
        let mut v: Vec<char> = Vec::new();
        v.push(digit_char(n));
        v
    } else {
        let mut v = u64_to_dec_chars(n / 10);
        v.push(digit_char(n % 10));
        v
    }
}

/// Whether `c` is a whitespace character, after the Unicode `White_Space`
/// property that `str::trim` goes by.
pub open spec fn spec_is_space(c: char) -> bool {
    ||| c as int == 0x09
    ||| c as int == 0x0A
    ||| c as int == 0x0B
    ||| c as int == 0x0C
    ||| c as int == 0x0D
    ||| c as int == 0x20
    ||| c as int == 0x85
    ||| c as int == 0xA0
    ||| c as int == 0x1680
    ||| (0x2000 <= c as int && c as int <= 0x200A)
    ||| c as int == 0x2028
    ||| c as int == 0x2029
    ||| c as int == 0x202F
    ||| c as int == 0x205F
    ||| c as int == 0x3000
}

/// Tests whether `c` is a whitespace character.
pub fn is_space(c: char) -> (r: bool)
    ensures
        r == spec_is_space(c),
{
    let v: u32 = c as u32;
    v == 0x09 || v == 0x0A || v == 0x0B || v == 0x0C || v == 0x0D || v == 0x20 || v == 0x85 || v
        == 0xA0 || v == 0x1680 || (0x2000 <= v && v <= 0x200A) || v == 0x2028 || v == 0x2029 || v
        == 0x202F || v == 0x205F || v == 0x3000
}

/// `s` with its leading whitespace dropped.
pub open spec fn trim_front(s: Seq<char>) -> Seq<char>
    decreases s.len(),
{
    if s.len() > 0 && spec_is_space(s[0]) {
        trim_front(s.skip(1))
    } else {
        s
    }
}

/// `s` with its trailing whitespace dropped.
pub open spec fn trim_back(s: Seq<char>) -> Seq<char>
    decreases s.len(),
{
    if s.len() > 0 && spec_is_space(s.last()) {
        trim_back(s.drop_last())
    } else {
        s
    }
}

/// `s` with leading and trailing whitespace dropped, as `str::trim` leaves
/// it.
pub open spec fn trimmed(s: Seq<char>) -> Seq<char> {
    trim_back(trim_front(s))
}

/// Drops leading and trailing whitespace.
pub fn trim_chars(s: &Vec<char>) -> (r: Vec<char>)
    ensures
        r@ == trimmed(s@),
{
    let mut start: usize = 0;
    let slen: usize = s.len();
    proof {
        assert(slen == s@.len());
        assert(s@.skip(0) =~= s@);
    }
    while start < s.len() && is_space(s[start])
        invariant
            start <= s@.len(),
            s@.len() <= usize::MAX,
            trim_front(s@) == trim_front(s@.skip(start as int)),
        decreases s@.len() - start,
    {
        proof {
            assert(s@.skip(start as int).skip(1) =~= s@.skip(start + 1));
        }
        start += 1;
    }
    proof {
        if start < s@.len() {
            assert(trim_front(s@) == s@.skip(start as int));
        } else {
            assert(s@.skip(start as int) =~= Seq::<char>::empty());
            assert(trim_front(s@) == s@.skip(start as int));
        }
    }
    let ghost t = s@.skip(start as int);
    let mut end: usize = s.len() - start;
    proof {
        assert(t.take(t.len() as int) =~= t);
    }
    while end > 0 && is_space(s[start + end - 1])
        invariant
            end <= t.len(),
            t == s@.skip(start as int),
            start + t.len() == s@.len(),
            s@.len() <= usize::MAX,
            trim_back(t) == trim_back(t.take(end as int)),
        decreases end,
    {
        proof {
            assert(t.take(end as int)[end - 1] == s@[start + end - 1]);
            assert(t.take(end as int).drop_last() =~= t.take(end - 1));
        }
        end -= 1;
    }
    proof {
        if end > 0 {
            assert(t.take(end as int).last() == s@[start + end - 1]);
            assert(trim_back(t) == t.take(end as int));
        } else {
            assert(t.take(0) =~= Seq::<char>::empty());
            assert(trim_back(t) == t.take(end as int));
        }
    }
    let mut r: Vec<char> = Vec::new();
    let mut j: usize = 0;
    while j < end
        invariant
            j <= end,
            end <= t.len(),
            t == s@.skip(start as int),
            start + t.len() == s@.len(),
            s@.len() <= usize::MAX,
            r@ == t.take(end as int).take(j as int),
        decreases end - j,
    {
        proof {
            assert(t.take(end as int).take(j + 1 as int) =~= t.take(end as int).take(
                j as int,
            ).push(s@[start + j]));
        }
        let c = s[start + j];
        r.push(c);
        j += 1;
    }
    proof {
        assert(t.take(end as int).take(end as int) =~= t.take(end as int));
    }
    r
}

/// Whether `pat` is a prefix of `s`.
pub open spec fn spec_has_prefix(s: Seq<char>, pat: Seq<char>) -> bool {
    spec_matches_at(s, pat, 0)
}

/// Tests whether `pat` is a prefix of `s`.
pub fn has_prefix(s: &Vec<char>, pat: &Vec<char>) -> (r: bool)
    ensures
        r == spec_has_prefix(s@, pat@),
{
    matches_at(s, pat, 0)
}

} // verus!
