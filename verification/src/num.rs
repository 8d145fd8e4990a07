//! Decimal numerals: parsing the kernel's capacity text and the command line's
//! interval, and rendering a charge level back into digits.
use vstd::prelude::*;

use crate::text::{is_space, trimmed, trim_text};

verus! {

/// A decimal digit.
pub open spec fn is_digit(c: char) -> bool {
    '0' <= c && c <= '9'
}

/// The numeric value of one decimal digit.
pub open spec fn digit_val(c: char) -> nat
    recommends
        is_digit(c),
{
    (c as int - '0' as int) as nat
}

/// Every character of the sequence is a decimal digit.
pub open spec fn all_digits(s: Seq<char>) -> bool {
    forall|k: int| 0 <= k < s.len() ==> is_digit(s[k])
}

/// The value of a sequence of decimal digits, most significant first.
pub open spec fn digits_val(s: Seq<char>) -> nat
    decreases s.len(),
{
    if s.len() == 0 {
        0
    } else {
        digits_val(s.drop_last()) * 10 + digit_val(s.last())
    }
}

/// What a whole text denotes as an unsigned decimal number: its trimmed form
/// must be one or more digits whose value fits in the type; anything else
/// denotes nothing.
pub open spec fn parse_u64_spec(s: Seq<char>) -> Option<u64> {
    let t = trimmed(s);
    if t.len() > 0 && all_digits(t) && digits_val(t) <= u64::MAX {
        Some(digits_val(t) as u64)
    } else {
        None
    }
}

/// A digit is never whitespace.
pub proof fn lemma_digit_not_space(c: char)
    requires
        is_digit(c),
    ensures
        !is_space(c),
{
}

/// Extending a digit string on the right never lowers its value.
proof fn lemma_digits_val_prefix_mono(s: Seq<char>, i: int, j: int)
    requires
        0 <= i <= j <= s.len(),
    ensures
        digits_val(s.take(i)) <= digits_val(s.take(j)),
    decreases j - i,
{
    if i < j {
        lemma_digits_val_prefix_mono(s, i, j - 1);
        assert(s.take(j).drop_last() =~= s.take(j - 1));
        assert(digits_val(s.take(j)) == digits_val(s.take(j - 1)) * 10 + digit_val(s.take(j).last()));
        assert(digits_val(s.take(j - 1)) * 10 >= digits_val(s.take(j - 1)));
    }
}

fn is_digit_char(c: char) -> (r: bool)
    ensures
        r == is_digit(c),
{
    '0' <= c && c <= '9'
}

fn digit_of(c: char) -> (d: u64)
    requires
        is_digit(c),
    ensures
        d == digit_val(c),
        d <= 9,
{
    (c as u32 - '0' as u32) as u64
}

/// The unsigned decimal number the text denotes, if any: surrounding
/// whitespace is ignored, and a text that is not all digits, is empty once
/// trimmed, or exceeds the type's range denotes nothing.
pub fn parse_decimal_text(s: &str) -> (r: Option<u64>)
    ensures
        r == parse_u64_spec(s@),
{
    let t = trim_text(s);
    let n = t.unicode_len();
    if n == 0 {
        return None;
    }
    let mut i: usize = 0;
    let mut val: u64 = 0;
    while i < n
        invariant
            0 <= i <= n,
            n == t@.len(),
            t@ == trimmed(s@),
            forall|k: int| 0 <= k < i ==> is_digit(t@[k]),
            val == digits_val(t@.take(i as int)),
        decreases n - i,
    {
        let c = t.get_char(i);
        if !is_digit_char(c) {
            assert(!all_digits(t@));
            return None;
        }
        let d = digit_of(c);
        if val > (u64::MAX - d) / 10 {
            proof {
                assert(t@.take(i + 1).drop_last() =~= t@.take(i as int));
                assert(digits_val(t@.take(i + 1)) == val * 10 + d);
                assert(val * 10 + d > u64::MAX) by {
                    assert(val >= (u64::MAX - d) / 10 + 1);
                    assert(((u64::MAX - d) / 10 + 1) * 10 == ((u64::MAX - d) / 10) * 10 + 10);
                    assert(((u64::MAX - d) / 10) * 10 + 10 > u64::MAX - d) by {
                        assert(((u64::MAX - d) as int / 10) * 10 > (u64::MAX - d) - 10);
                    };
                    assert(val * 10 >= ((u64::MAX - d) / 10 + 1) * 10) by (nonlinear_arith)
                        requires
                            val >= (u64::MAX - d) / 10 + 1,
                    ;
                };
                lemma_digits_val_prefix_mono(t@, i + 1, n as int);
                assert(t@.take(n as int) =~= t@);
                assert(digits_val(t@) > u64::MAX);
            }
            return None;
        }
        proof {
            assert(val * 10 + d <= u64::MAX) by {
                assert(val <= (u64::MAX - d) / 10);
                assert(val * 10 <= ((u64::MAX - d) / 10) * 10) by (nonlinear_arith)
                    requires
                        val <= (u64::MAX - d) / 10,
                ;
                assert(((u64::MAX - d) as int / 10) * 10 <= (u64::MAX - d) as int);
            };
            assert(t@.take(i + 1).drop_last() =~= t@.take(i as int));
        }
        val = val * 10 + d;
        i = i + 1;
    }
    proof {
        assert(t@.take(n as int) =~= t@);
    }
    Some(val)
}

/// The digit character for one decimal value.
pub open spec fn char_of_digit(d: nat) -> char {
    if d == 0 {
        '0'
    } else if d == 1 {
        '1'
    } else if d == 2 {
        '2'
    } else if d == 3 {
        '3'
    } else if d == 4 {
        '4'
    } else if d == 5 {
        '5'
    } else if d == 6 {
        '6'
    } else if d == 7 {
        '7'
    } else if d == 8 {
        '8'
    } else {
        '9'
    }
}

/// The decimal numeral of a number, most significant digit first, with no
/// leading zeros (zero itself is the single digit).
pub open spec fn dec_digits(n: nat) -> Seq<char>
    decreases n,
{
    if n < 10 {
        seq![char_of_digit(n)]
    } else {
        dec_digits(n / 10).push(char_of_digit(n % 10))
    }
}

fn digit_str(d: u64) -> (r: &'static str)
    requires
        d <= 9,
    ensures
        r@ == seq![char_of_digit(d as nat)],
{
    if d == 0 {
        proof { reveal_strlit("0"); }
        assert(("0")@ =~= seq![char_of_digit(0)]);
        "0"
    } else if d == 1 {
        proof { reveal_strlit("1"); }
        assert(("1")@ =~= seq![char_of_digit(1)]);
        "1"
    } else if d == 2 {
        proof { reveal_strlit("2"); }
        assert(("2")@ =~= seq![char_of_digit(2)]);
        "2"
    } else if d == 3 {
        proof { reveal_strlit("3"); }
        assert(("3")@ =~= seq![char_of_digit(3)]);
        "3"
    } else if d == 4 {
        proof { reveal_strlit("4"); }
        assert(("4")@ =~= seq![char_of_digit(4)]);
        "4"
    } else if d == 5 {
        proof { reveal_strlit("5"); }
        assert(("5")@ =~= seq![char_of_digit(5)]);
        "5"
    } else if d == 6 {
        proof { reveal_strlit("6"); }
        assert(("6")@ =~= seq![char_of_digit(6)]);
        "6"
    } else if d == 7 {
        proof { reveal_strlit("7"); }
        assert(("7")@ =~= seq![char_of_digit(7)]);
        "7"
    } else if d == 8 {
        proof { reveal_strlit("8"); }
        assert(("8")@ =~= seq![char_of_digit(8)]);
        "8"
    } else {
        proof { reveal_strlit("9"); }
        assert(("9")@ =~= seq![char_of_digit(9)]);
        "9"
    }
}

/// The decimal numeral of a charge level, as text.
pub fn level_text(n: u8) -> (r: String)
    ensures
        r@ == dec_digits(n as nat),
{
    let v = n as u64;
    if v < 10 {
        String::from_str(digit_str(v))
    } else if v < 100 {
        let mut s = String::from_str(digit_str(v / 10));
        s.append(digit_str(v % 10));
        proof {
            assert(dec_digits(n as nat) == dec_digits((n as nat) / 10).push(char_of_digit((n as nat) % 10)));
            assert(s@ =~= dec_digits(n as nat));
        }
        s
    } else {
        let m = v / 10;
        let mut s = String::from_str(digit_str(m / 10));
        s.append(digit_str(m % 10));
        s.append(digit_str(v % 10));
        proof {
            assert(dec_digits(n as nat) == dec_digits((n as nat) / 10).push(char_of_digit((n as nat) % 10)));
            assert(dec_digits((n as nat) / 10) == dec_digits(((n as nat) / 10) / 10).push(
                char_of_digit(((n as nat) / 10) % 10),
            ));
            assert(s@ =~= dec_digits(n as nat));
        }
        s
    }
}

} // verus!
