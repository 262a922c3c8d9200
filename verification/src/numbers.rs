//! Verified decimal parsing and printing for 32-bit identifiers and
//! pagination parameters.

use vstd::prelude::*;

verus! {

use crate::text::{chars_of, string_from_chars};

/// Whether `c` is a decimal digit.
pub open spec fn is_digit(c: char) -> bool {
    '0' <= c && c <= '9'
}

/// The numeric value of a digit character.
pub open spec fn digit_val(c: char) -> int {
    c as int - '0' as int
}

/// The value of a sequence of digit characters, most significant first.
pub open spec fn digits_val(s: Seq<char>) -> int
    decreases s.len(),
{
    if s.len() == 0 {
        0
    } else {
        digits_val(s.drop_last()) * 10 + digit_val(s.last())
    }
}

/// The digit part of a decimal string: everything after a leading sign,
/// if one is there.
pub open spec fn digits_part(s: Seq<char>) -> Seq<char> {
    if s.len() > 0 && (s[0] == '-' || s[0] == '+') {
        s.skip(1)
    } else {
        s
    }
}

/// The sign of a decimal string: -1 under a leading minus, 1 otherwise.
pub open spec fn sign_of(s: Seq<char>) -> int {
    if s.len() > 0 && s[0] == '-' {
        -1
    } else {
        1
    }
}

/// Whether `s` is a decimal string that a 32-bit signed parse accepts: an
/// optional sign, at least one digit, nothing else, and a value in range.
pub open spec fn is_i32_string(s: Seq<char>) -> bool {
    let d = digits_part(s);
    &&& d.len() > 0
    &&& forall|i: int| 0 <= i < d.len() ==> is_digit(d[i])
    &&& i32::MIN <= sign_of(s) * digits_val(d) <= i32::MAX
}

/// The value of a decimal string accepted by `is_i32_string`.
pub open spec fn i32_string_val(s: Seq<char>) -> int {
    sign_of(s) * digits_val(digits_part(s))
}

/// A sequence of digits has a non-negative value.
proof fn lemma_digits_val_nonneg(s: Seq<char>)
    requires
        forall|i: int| 0 <= i < s.len() ==> is_digit(s[i]),
    ensures
        digits_val(s) >= 0,
    decreases s.len(),
{
    if s.len() > 0 {
        lemma_digits_val_nonneg(s.drop_last());
    }
}

/// Appending further digits never shrinks the value of a digit string.
proof fn lemma_digits_val_grows(s: Seq<char>, n: int)
    requires
        forall|i: int| 0 <= i < s.len() ==> is_digit(s[i]),
        0 <= n <= s.len(),
    ensures
        digits_val(s) >= digits_val(s.subrange(0, n)),
    decreases s.len() - n,
{
    if n < s.len() {
        lemma_digits_val_grows(s, n + 1);
        let p = s.subrange(0, n + 1);
        assert(p.drop_last() =~= s.subrange(0, n));
        assert(forall|i: int| 0 <= i < p.len() ==> is_digit(p[i]));
        lemma_digits_val_nonneg(s.subrange(0, n));
        assert(digits_val(p) == digits_val(s.subrange(0, n)) * 10 + digit_val(p.last()));
    } else {
        assert(s.subrange(0, n) =~= s);
    }
}

/// Parses a 32-bit signed decimal string: an optional sign, then digits.
/// Returns `None` exactly on input that such a parse rejects.
pub fn parse_i32(s: &str) -> (r: Option<i32>)
    ensures
        match r {
            Some(v) => is_i32_string(s@) && v == i32_string_val(s@),
            None => !is_i32_string(s@),
        },
{
    let cs = chars_of(s);
    let negative: bool;
    let start: usize;
    if cs.len() > 0 && (cs[0] == '-' || cs[0] == '+') {
        negative = cs[0] == '-';
        start = 1;
    } else {
        negative = false;
        start = 0;
    }
    proof {
        assert(digits_part(s@) =~= cs@.skip(start as int));
        assert(negative == (sign_of(s@) == -1));
    }
    if cs.len() == start {
        return None;
    }
    let mut acc: i64 = 0;
    let mut i: usize = start;
    while i < cs.len()
        invariant
            cs@ == s@,
            start <= i <= cs@.len(),
            cs@.len() <= usize::MAX,
            start <= 1,
            digits_part(s@) == cs@.skip(start as int),
            forall|k: int| start <= k < i ==> is_digit(cs@[k]),
            0 <= acc <= 0x8000_0000,
            acc == digits_val(cs@.subrange(start as int, i as int)),
        decreases cs@.len() - i,
    {
        let c = cs[i];
        if c < '0' || c > '9' {
            proof {
                assert(digits_part(s@)[i - start] == cs@[i as int]);
                assert(!is_digit(digits_part(s@)[i - start]));
            }
            return None;
        }
        let d: i64 = (c as u32 as i64) - 48;
        proof {
            let p = cs@.subrange(start as int, i + 1);
            assert(p.drop_last() =~= cs@.subrange(start as int, i as int));
            assert(p.last() == cs@[i as int]);
        }
        acc = acc * 10 + d;
        i = i + 1;
        if acc > 0x8000_0000 {
            proof {
                let whole = digits_part(s@);
                let pre = cs@.subrange(start as int, i as int);
                assert(pre =~= whole.subrange(0, i - start));
                if forall|k: int| 0 <= k < whole.len() ==> is_digit(whole[k]) {
                    lemma_digits_val_grows(whole, i - start);
                    assert(digits_val(whole) >= acc);
                    assert(!(i32::MIN <= sign_of(s@) * digits_val(whole) <= i32::MAX));
                }
            }
            return None;
        }
    }
    proof {
        assert(cs@.subrange(start as int, cs@.len() as int) =~= digits_part(s@));
    }
    if negative {
        let v: i64 = -acc;
        proof {
            assert(i32::MIN <= v <= i32::MAX);
        }
        Some(v as i32)
    } else {
        if acc > 0x7fff_ffff {
            proof {
                assert(sign_of(s@) == 1);
            }
            return None;
        }
        Some(acc as i32)
    }
}

/// The decimal digit characters of a non-negative value, most significant
/// first.
pub open spec fn dec_digits(n: int) -> Seq<char>
    decreases n,
{
    if n <= 0 {
        Seq::<char>::empty()
    } else {
        dec_digits(n / 10).push((('0' as u8) + (n % 10) as u8) as char)
    }
}

/// The decimal rendering of an integer: `0` is "0", a negative value has
/// a leading minus.
pub open spec fn dec_string(n: int) -> Seq<char> {
    if n == 0 {
        seq!['0']
    } else if n < 0 {
        seq!['-'] + dec_digits(-n)
    } else {
        dec_digits(n)
    }
}

/// The digit characters of a non-negative value are digits and spell
/// that value.
proof fn lemma_dec_digits_valid(n: int)
    requires
        n >= 0,
    ensures
        forall|i: int| 0 <= i < dec_digits(n).len() ==> is_digit(#[trigger] dec_digits(n)[i]),
        digits_val(dec_digits(n)) == n,
        n > 0 ==> dec_digits(n).len() > 0,
    decreases n,
{
    if n > 0 {
        lemma_dec_digits_valid(n / 10);
        let s = dec_digits(n);
        let d = (('0' as u8) + (n % 10) as u8) as char;
        assert(s.drop_last() =~= dec_digits(n / 10));
        assert(s.last() == d);
        assert(digit_val(d) == n % 10);
        assert(is_digit(d));
        assert(digits_val(s) == digits_val(dec_digits(n / 10)) * 10 + digit_val(d));
    }
}

/// Printing a value in decimal and parsing the text gives the value
/// back: the identifier round-trip is exact.
pub proof fn lemma_decimal_round_trip(n: i32)
    ensures
        is_i32_string(dec_string(n as int)),
        i32_string_val(dec_string(n as int)) == n,
{
    let s = dec_string(n as int);
    if n == 0 {
        assert(s == seq!['0']);
        assert(digits_part(s) == s);
        assert(s.drop_last() =~= Seq::<char>::empty());
        assert(digits_val(s) == digits_val(s.drop_last()) * 10 + digit_val('0'));
    } else if n > 0 {
        lemma_dec_digits_valid(n as int);
        assert(is_digit(s[0]));
        assert(s[0] != '-' && s[0] != '+');
        assert(digits_part(s) == s);
        assert(sign_of(s) == 1);
    } else {
        lemma_dec_digits_valid(-(n as int));
        assert(s == seq!['-'] + dec_digits(-(n as int)));
        assert(s[0] == '-');
        assert(digits_part(s) =~= dec_digits(-(n as int)));
        assert(sign_of(s) == -1);
    }
}

/// Renders a 32-bit value in decimal.
pub fn i32_to_string(n: i32) -> (r: String)
    ensures
        r@ == dec_string(n as int),
{
    if n == 0 {
        let cs: Vec<char> = vec!['0'];
        proof {
            assert(cs@ =~= dec_string(0));
        }
        return string_from_chars(&cs);
    }
    let negative = n < 0;
    let mut m: u32 = if n < 0 {
        (-(n as i64)) as u32
    } else {
        n as u32
    };
    let ghost m0 = m;
    let mut rev: Vec<char> = Vec::new();
    proof {
        assert(dec_digits(m0 as int) + rev@.reverse() =~= dec_digits(m0 as int));
    }
    while m > 0
        invariant
            0 <= m,
            dec_digits(m0 as int) == dec_digits(m as int) + rev@.reverse(),
        decreases m,
    {
        let d: u8 = (m % 10) as u8;
        let c: char = (48u8 + d) as char;
        proof {
            assert(dec_digits(m as int) == dec_digits(m as int / 10).push(c));
            assert(dec_digits(m as int / 10) + rev@.push(c).reverse() =~= dec_digits(
                m as int / 10,
            ).push(c) + rev@.reverse());
        }
        rev.push(c);
        m = m / 10;
    }
    proof {
        assert(dec_digits(0) + rev@.reverse() =~= rev@.reverse());
    }
    let mut cs: Vec<char> = Vec::new();
    if negative {
        cs.push('-');
    }
    let mut i: usize = rev.len();
    proof {
        assert(cs@ =~= (if negative {
            seq!['-']
        } else {
            Seq::<char>::empty()
        }) + rev@.reverse().subrange(0, 0));
    }
    while i > 0
        invariant
            negative == (n < 0),
            m0 == (if n < 0 {
                -(n as int)
            } else {
                n as int
            }),
            rev@.reverse() == dec_digits(m0 as int),
            i <= rev@.len(),
            cs@ == (if negative {
                seq!['-']
            } else {
                Seq::<char>::empty()
            }) + rev@.reverse().subrange(0, rev@.len() - i),
        decreases i,
    {
        i = i - 1;
        cs.push(rev[i]);
        proof {
            let done = rev@.len() - i;
            assert(rev@.reverse()[done - 1] == rev@[i as int]);
            assert(cs@ =~= (if negative {
                seq!['-']
            } else {
                Seq::<char>::empty()
            }) + rev@.reverse().subrange(0, done));
        }
    }
    proof {
        assert(rev@.reverse().subrange(0, rev@.len() as int) =~= rev@.reverse());
        if negative {
            assert(cs@ =~= seq!['-'] + dec_digits(-(n as int)));
        } else {
            assert(cs@ =~= dec_digits(n as int));
        }
    }
    string_from_chars(&cs)
}

} // verus!
