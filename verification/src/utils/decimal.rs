//! Fixed-width decimal strings: encoding of machine integers into digit
//! strings of a chosen width and decoding back, with the round trip proved.

use vstd::prelude::*;
use vstd::string::StrSliceExecFns;
use vstd::string::StringExecFns;

verus! {

/// The character for one decimal digit.
pub open spec fn digit_char(d: int) -> char {
    if d == 0 {
        '0'
    } else if d == 1 {
        '1'
    } else if d == 2 {
        '2'
    } else if d == 3 {
        '3'
    } else if d == 4 {
        '4'
    } else if d == 5 {
        '5'
    } else if d == 6 {
        '6'
    } else if d == 7 {
        '7'
    } else if d == 8 {
        '8'
    } else {
        '9'
    }
}

/// The value of a decimal digit character, and -1 for any other character.
pub open spec fn digit_val(c: char) -> int {
    if c == '0' {
        0
    } else if c == '1' {
        1
    } else if c == '2' {
        2
    } else if c == '3' {
        3
    } else if c == '4' {
        4
    } else if c == '5' {
        5
    } else if c == '6' {
        6
    } else if c == '7' {
        7
    } else if c == '8' {
        8
    } else if c == '9' {
        9
    } else {
        -1
    }
}

pub open spec fn is_digit(c: char) -> bool {
    digit_val(c) >= 0
}

pub open spec fn all_digits(s: Seq<char>) -> bool {
    forall|i: int| 0 <= i < s.len() ==> is_digit(#[trigger] s[i])
}

pub open spec fn pow10(w: nat) -> nat
    decreases w,
{
    if w == 0 {
        1
    } else {
        10 * pow10((w - 1) as nat)
    }
}

/// The decimal digit string of `v`, exactly `w` digits wide
/// (the `w` least significant digits, zero-padded on the left).
pub open spec fn dec_seq(v: nat, w: nat) -> Seq<char>
    decreases w,
{
    if w == 0 {
        Seq::empty()
    } else {
        dec_seq(v / 10, (w - 1) as nat).push(digit_char((v % 10) as int))
    }
}

/// The number a digit string denotes.
pub open spec fn dec_value(s: Seq<char>) -> int
    decreases s.len(),
{
    if s.len() == 0 {
        0
    } else {
        dec_value(s.drop_last()) * 10 + digit_val(s.last())
    }
}

pub proof fn lemma_dec_seq_value(v: nat, w: nat)
    requires
        v < pow10(w),
    ensures
        dec_seq(v, w).len() == w,
        all_digits(dec_seq(v, w)),
        dec_value(dec_seq(v, w)) == v,
    decreases w,
{
    if w == 0 {
    } else {
        assert(v / 10 < pow10((w - 1) as nat)) by (nonlinear_arith)
            requires
                v < 10 * pow10((w - 1) as nat),
        ;
        lemma_dec_seq_value(v / 10, (w - 1) as nat);
        let prefix = dec_seq(v / 10, (w - 1) as nat);
        let whole = dec_seq(v, w);
        assert(whole.drop_last() =~= prefix);
        assert(v == 10 * (v / 10) + v % 10) by (nonlinear_arith);
    }
}

pub proof fn lemma_dec_value_bound(s: Seq<char>)
    requires
        all_digits(s),
    ensures
        0 <= dec_value(s) < pow10(s.len() as nat),
    decreases s.len(),
{
    if s.len() == 0 {
    } else {
        assert(all_digits(s.drop_last()));
        lemma_dec_value_bound(s.drop_last());
        assert(is_digit(s.last()));
        assert(dec_value(s) < 10 * pow10((s.len() - 1) as nat)) by (nonlinear_arith)
            requires
                dec_value(s) == dec_value(s.drop_last()) * 10 + digit_val(s.last()),
                0 <= dec_value(s.drop_last()) < pow10((s.len() - 1) as nat),
                digit_val(s.last()) <= 9,
        ;
    }
}

/// A digit string denotes at least as much as any of its prefixes.
pub proof fn lemma_dec_value_prefix(s: Seq<char>, k: int)
    requires
        all_digits(s),
        0 <= k <= s.len(),
    ensures
        dec_value(s.subrange(0, k)) <= dec_value(s),
    decreases s.len(),
{
    if k == s.len() {
        assert(s.subrange(0, k) =~= s);
    } else {
        assert(all_digits(s.drop_last()));
        assert(s.subrange(0, k) =~= s.drop_last().subrange(0, k));
        lemma_dec_value_prefix(s.drop_last(), k);
        lemma_dec_value_bound(s.drop_last());
        assert(is_digit(s.last()));
        assert(dec_value(s.drop_last()) <= dec_value(s)) by (nonlinear_arith)
            requires
                dec_value(s) == dec_value(s.drop_last()) * 10 + digit_val(s.last()),
                0 <= dec_value(s.drop_last()),
                0 <= digit_val(s.last()),
        ;
    }
}

fn digit_str(d: u64) -> (r: &'static str)
    requires
        d < 10,
    ensures
        r@.len() == 1,
        r@[0] == digit_char(d as int),
{
    if d == 0 {
        proof {
            reveal_strlit("0");
        }
        "0"
    } else if d == 1 {
        proof {
            reveal_strlit("1");
        }
        "1"
    } else if d == 2 {
        proof {
            reveal_strlit("2");
        }
        "2"
    } else if d == 3 {
        proof {
            reveal_strlit("3");
        }
        "3"
    } else if d == 4 {
        proof {
            reveal_strlit("4");
        }
        "4"
    } else if d == 5 {
        proof {
            reveal_strlit("5");
        }
        "5"
    } else if d == 6 {
        proof {
            reveal_strlit("6");
        }
        "6"
    } else if d == 7 {
        proof {
            reveal_strlit("7");
        }
        "7"
    } else if d == 8 {
        proof {
            reveal_strlit("8");
        }
        "8"
    } else {
        proof {
            reveal_strlit("9");
        }
        "9"
    }
}

/// The value of a decimal digit character, and `None` for any other character.
pub fn digit_of(c: char) -> (r: Option<u64>)
    ensures
        match r {
            Some(d) => is_digit(c) && digit_val(c) == d,
            None => !is_digit(c),
        },
{
    if c == '0' {
        Some(0)
    } else if c == '1' {
        Some(1)
    } else if c == '2' {
        Some(2)
    } else if c == '3' {
        Some(3)
    } else if c == '4' {
        Some(4)
    } else if c == '5' {
        Some(5)
    } else if c == '6' {
        Some(6)
    } else if c == '7' {
        Some(7)
    } else if c == '8' {
        Some(8)
    } else if c == '9' {
        Some(9)
    } else {
        None
    }
}

/// Writes `v` in decimal, exactly `width` digits wide, zero-padded.
pub fn dec_encode(v: u64, width: usize) -> (r: String)
    ensures
        r@ == dec_seq(v as nat, width as nat),
    decreases width,
{
    if width == 0 {
        let r = String::new();
        proof {
            assert(r@ =~= dec_seq(v as nat, 0));
        }
        r
    } else {
        let mut s = dec_encode(v / 10, width - 1);
        s.append(digit_str(v % 10));
        proof {
            assert(s@ =~= dec_seq(v as nat, width as nat));
        }
        s
    }
}

/// Reads a string of decimal digits back into a `u64`; fails on any
/// non-digit character and on values that do not fit.
pub fn dec_decode(s: &str) -> (r: Option<u64>)
    ensures
        match r {
            Some(v) => all_digits(s@) && dec_value(s@) == v,
            None => !(all_digits(s@) && dec_value(s@) <= u64::MAX),
        },
{
    let n = s.unicode_len();
    let mut v: u64 = 0;
    let mut i: usize = 0;
    while i < n
        invariant
            i <= n,
            n == s@.len(),
            all_digits(s@.subrange(0, i as int)),
            v == dec_value(s@.subrange(0, i as int)),
        decreases n - i,
    {
        let c = s.get_char(i);
        proof {
            assert(s@.subrange(0, i + 1).drop_last() =~= s@.subrange(0, i as int));
            assert(s@.subrange(0, i + 1).last() == s@[i as int]);
        }
        match digit_of(c) {
            None => {
                assert(!is_digit(s@[i as int]));
                return None;
            },
            Some(d) => {
                let ten_v = match v.checked_mul(10) {
                    Some(x) => x,
                    None => {
                        proof {
                            if all_digits(s@) {
                                lemma_dec_value_prefix(s@, i + 1);
                            }
                        }
                        return None;
                    },
                };
                let next = match ten_v.checked_add(d) {
                    Some(x) => x,
                    None => {
                        proof {
                            if all_digits(s@) {
                                lemma_dec_value_prefix(s@, i + 1);
                            }
                        }
                        return None;
                    },
                };
                v = next;
            },
        }
        i += 1;
    }
    proof {
        assert(s@.subrange(0, n as int) =~= s@);
    }
    Some(v)
}

} // verus!
