//! Text the filter computes itself: substring containment (the match test)
//! and the decimal rendering of a key as `domain:b:c` (the result value).

use vstd::prelude::*;
use vstd::string::StrSliceExecFns;
use vstd::string::StringExecFns;
use crate::record::Key;

verus! {

/// `q` occurs in `v` starting at position `i`.
pub open spec fn matches_at(v: Seq<char>, q: Seq<char>, i: int) -> bool {
    0 <= i && i + q.len() <= v.len() && v.subrange(i, i + q.len() as int) == q
}

/// `v` contains `q` as a contiguous substring.
pub open spec fn contains_seq(v: Seq<char>, q: Seq<char>) -> bool {
    exists|i: int| matches_at(v, q, i)
}

/// Whether `query` occurs in `value` starting exactly at `at`.
fn matches_at_exec(value: &str, query: &str, at: usize) -> (r: bool)
    requires
        at + query@.len() <= value@.len(),
    ensures
        r == matches_at(value@, query@, at as int),
{
    let vlen = value.unicode_len();
    let qlen = query.unicode_len();
    let mut j: usize = 0;
    while j < qlen
        invariant
            j <= qlen,
            qlen == query@.len(),
            vlen == value@.len(),
            at + qlen <= vlen,
            forall|j2: int| 0 <= j2 < j ==> value@[at + j2] == query@[j2],
        decreases qlen - j,
    {
        if value.get_char(at + j) != query.get_char(j) {
            proof {
                if matches_at(value@, query@, at as int) {
                    assert(value@.subrange(at as int, at + qlen as int)[j as int]
                        == value@[at + j]);
                }
            }
            return false;
        }
        j += 1;
    }
    proof {
        assert(value@.subrange(at as int, at + qlen as int) =~= query@);
    }
    true
}

/// Case-sensitive containment test: does `value` hold `query` as a
/// contiguous substring (no normalization, character by character)?
pub fn contains_substring(value: &str, query: &str) -> (r: bool)
    ensures
        r == contains_seq(value@, query@),
{
    let vlen = value.unicode_len();
    let qlen = query.unicode_len();
    if qlen > vlen {
        proof {
            assert(forall|i: int| !matches_at(value@, query@, i));
        }
        return false;
    }
    let last = vlen - qlen;
    let mut i: usize = 0;
    loop
        invariant
            i <= last,
            last == vlen - qlen,
            qlen == query@.len(),
            vlen == value@.len(),
            forall|i2: int| 0 <= i2 < i ==> !matches_at(value@, query@, i2),
        decreases last - i,
    {
        if matches_at_exec(value, query, i) {
            return true;
        }
        if i == last {
            proof {
                assert(forall|i2: int| i2 > last ==> !matches_at(value@, query@, i2));
            }
            return false;
        }
        i += 1;
    }
}

/// The character for one decimal digit.
pub open spec fn dec_digit(d: nat) -> char {
    if d == 0 {
        '0'
    } else if d == 1 {
        '1'
    } else if d == 2 {
        '2'
    } else if d == 3 {
        '3'
    } else if d == 4 {
        '4'
    } else if d == 5 {
        '5'
    } else if d == 6 {
        '6'
    } else if d == 7 {
        '7'
    } else if d == 8 {
        '8'
    } else {
        '9'
    }
}

/// The decimal rendering of a non-negative integer, most significant
/// digit first, with no leading zeros (`0` renders as `"0"`).
pub open spec fn u64_dec(n: nat) -> Seq<char>
    decreases n,
{
    if n < 10 {
        seq![dec_digit(n)]
    } else {
        u64_dec(n / 10).push(dec_digit(n % 10))
    }
}

/// The decimal rendering of a signed integer: a leading `'-'` before the
/// magnitude when negative.
pub open spec fn i64_dec(n: int) -> Seq<char> {
    if n < 0 {
        seq!['-'] + u64_dec((-n) as nat)
    } else {
        u64_dec(n as nat)
    }
}

/// The delimited rendering `domain:b:c` of a key.
pub open spec fn key_string_spec(k: Key) -> Seq<char> {
    u64_dec(k.domain as nat) + seq![':'] + i64_dec(k.b as int) + seq![':'] + i64_dec(
        k.c as int,
    )
}

fn dec_digit_str(d: u64) -> (r: &'static str)
    requires
        d < 10,
    ensures
        r@ == seq![dec_digit(d as nat)],
{
    proof {
        reveal_strlit("0");
        reveal_strlit("1");
        reveal_strlit("2");
        reveal_strlit("3");
        reveal_strlit("4");
        reveal_strlit("5");
        reveal_strlit("6");
        reveal_strlit("7");
        reveal_strlit("8");
        reveal_strlit("9");
    }
    let r = if d == 0 {
        "0"
    } else if d == 1 {
        "1"
    } else if d == 2 {
        "2"
    } else if d == 3 {
        "3"
    } else if d == 4 {
        "4"
    } else if d == 5 {
        "5"
    } else if d == 6 {
        "6"
    } else if d == 7 {
        "7"
    } else if d == 8 {
        "8"
    } else {
        "9"
    };
    proof {
        assert(r@ =~= seq![dec_digit(d as nat)]);
    }
    r
}

/// The decimal rendering of `n`, as a string.
pub fn u64_to_string(n: u64) -> (r: String)
    ensures
        r@ == u64_dec(n as nat),
    decreases n,
{
    if n < 10 {
        dec_digit_str(n).to_owned()
    } else {
        let mut s = u64_to_string(n / 10);
        s.append(dec_digit_str(n % 10));
        proof {
            assert(s@ =~= u64_dec(n as nat));
        }
        s
    }
}

/// The decimal rendering of `n`, with a leading `'-'` when negative.
pub fn i64_to_string(n: i64) -> (r: String)
    ensures
        r@ == i64_dec(n as int),
{
    if n >= 0 {
        u64_to_string(n as u64)
    } else {
        let mag: u64 = (-(n as i128)) as u64;
        let mut s = "-".to_owned();
        s.append(u64_to_string(mag).as_str());
        proof {
            reveal_strlit("-");
            assert(mag as nat == (-(n as int)) as nat);
            assert(s@ =~= i64_dec(n as int));
        }
        s
    }
}

/// Renders a key as the delimited string `domain:b:c`.
pub fn key_string(k: &Key) -> (r: String)
    ensures
        r@ == key_string_spec(*k),
{
    let mut s = u64_to_string(k.domain);
    s.append(":");
    s.append(i64_to_string(k.b).as_str());
    s.append(":");
    s.append(i64_to_string(k.c).as_str());
    proof {
        reveal_strlit(":");
        assert(s@ =~= key_string_spec(*k));
    }
    s
}

} // verus!
