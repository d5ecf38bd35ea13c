//! Decimal text: rendering unsigned integers and reading digit strings.
//!
//! The configuration resolver prints ports into bind-address strings and
//! reads the `PORT` variable back out of one; both directions are specified
//! here against the same mathematical notion of a decimal numeral.

use vstd::prelude::*;

verus! {

/// Is `c` an ASCII decimal digit?
pub open spec fn spec_is_digit(c: char) -> bool {
    '0' <= c && c <= '9'
}

/// The numeric value of a decimal digit character.
pub open spec fn spec_digit_value(c: char) -> nat
    recommends
        spec_is_digit(c),
{
    (c as int - '0' as int) as nat
}

/// Every character of `s` is a decimal digit.
pub open spec fn spec_all_digits(s: Seq<char>) -> bool {
    forall|i: int| 0 <= i < s.len() ==> spec_is_digit(#[trigger] s[i])
}

/// The number that the digit string `s` denotes (most significant first);
/// an empty string denotes zero.
pub open spec fn spec_dec_value(s: Seq<char>) -> nat
    decreases s.len(),
{
    if s.len() == 0 {
        0
    } else {
        spec_dec_value(s.drop_last()) * 10 + spec_digit_value(s.last())
    }
}

/// The digit character for a value below ten.
pub open spec fn spec_digit_char(d: nat) -> char
    recommends
        d < 10,
{
    if d == 0 {
        '0'
    } else if d == 1 {
        '1'
    } else if d == 2 {
        '2'
    } else if d == 3 {
        '3'
    } else if d == 4 {
        '4'
    } else if d == 5 {
        '5'
    } else if d == 6 {
        '6'
    } else if d == 7 {
        '7'
    } else if d == 8 {
        '8'
    } else {
        '9'
    }
}

/// The canonical decimal numeral of `n`: no leading zeros, `"0"` for zero.
pub open spec fn spec_dec_digits(n: nat) -> Seq<char>
    decreases n,
{
    if n < 10 {
        seq![spec_digit_char(n)]
    } else {
        spec_dec_digits(n / 10) + seq![spec_digit_char(n % 10)]
    }
}

/// The one-character string of a decimal digit.
pub fn digit_str(d: u8) -> (r: &'static str)
    requires
        d < 10,
    ensures
        r@ == seq![spec_digit_char(d as nat)],
{
    if d == 0 {
        proof {
            reveal_strlit("0");
            assert("0"@ =~= seq![spec_digit_char(0)]);
        }
        "0"
    } else if d == 1 {
        proof {
            reveal_strlit("1");
            assert("1"@ =~= seq![spec_digit_char(1)]);
        }
        "1"
    } else if d == 2 {
        proof {
            reveal_strlit("2");
            assert("2"@ =~= seq![spec_digit_char(2)]);
        }
        "2"
    } else if d == 3 {
        proof {
            reveal_strlit("3");
            assert("3"@ =~= seq![spec_digit_char(3)]);
        }
        "3"
    } else if d == 4 {
        proof {
            reveal_strlit("4");
            assert("4"@ =~= seq![spec_digit_char(4)]);
        }
        "4"
    } else if d == 5 {
        proof {
            reveal_strlit("5");
            assert("5"@ =~= seq![spec_digit_char(5)]);
        }
        "5"
    } else if d == 6 {
        proof {
            reveal_strlit("6");
            assert("6"@ =~= seq![spec_digit_char(6)]);
        }
        "6"
    } else if d == 7 {
        proof {
            reveal_strlit("7");
            assert("7"@ =~= seq![spec_digit_char(7)]);
        }
        "7"
    } else if d == 8 {
        proof {
            reveal_strlit("8");
            assert("8"@ =~= seq![spec_digit_char(8)]);
        }
        "8"
    } else {
        proof {
            reveal_strlit("9");
            assert("9"@ =~= seq![spec_digit_char(9)]);
        }
        "9"
    }
}

/// Render `n` as its canonical decimal numeral.
pub fn u16_to_dec(n: u16) -> (r: String)
    ensures
        r@ == spec_dec_digits(n as nat),
    decreases n,
{
    if n < 10 {
        String::from_str(digit_str(n as u8))
    } else {
        let mut s = u16_to_dec(n / 10);
        s.append(digit_str((n % 10) as u8));
        s
    }
}

/// The digits of a numeral, with a single leading `+` sign stripped.
pub open spec fn spec_digits_part(s: Seq<char>) -> Seq<char> {
    if s.len() > 0 && s[0] == '+' {
        s.skip(1)
    } else {
        s
    }
}

/// Does `s` denote a 16-bit unsigned integer?  Exactly the strings that
/// `str::parse::<u16>` accepts: an optional `+`, then one or more decimal
/// digits, denoting a value of at most `u16::MAX`.
pub open spec fn spec_parses_as_u16(s: Seq<char>) -> bool {
    let d = spec_digits_part(s);
    d.len() > 0 && spec_all_digits(d) && spec_dec_value(d) <= u16::MAX
}

/// Read a decimal numeral (optionally `+`-prefixed) as a 16-bit integer,
/// accepting exactly what `str::parse::<u16>` accepts.
pub fn parse_u16(s: &str) -> (r: Option<u16>)
    ensures
        r is Some <==> spec_parses_as_u16(s@),
        r matches Some(p) ==> p as nat == spec_dec_value(spec_digits_part(s@)),
{
    let len = s.unicode_len();
    let plus = len > 0 && s.get_char(0) == '+';
    let start: usize = if plus {
        1
    } else {
        0
    };
    let ghost digits = spec_digits_part(s@);
    proof {
        assert(digits =~= s@.skip(start as int));
    }
    if len <= start {
        proof {
            assert(digits.len() == 0);
        }
        return None;
    }
    let mut i: usize = start;
    let mut acc: u32 = 0;
    while i < len
        invariant
            start <= i <= len,
            len == s@.len(),
            digits == s@.skip(start as int),
            digits == spec_digits_part(s@),
            acc <= 0xFFFF,
            spec_all_digits(digits.take(i - start)),
            acc as nat == spec_dec_value(digits.take(i - start)),
        decreases len - i,
    {
        let c = s.get_char(i);
        if c < '0' || '9' < c {
            proof {
                assert(!spec_is_digit(digits[i - start]));
            }
            return None;
        }
        let d: u32 = (c as u32) - 48;
        proof {
            assert(digits.take(i + 1 - start).drop_last() =~= digits.take(i - start));
            assert(digits.take(i + 1 - start).last() == digits[i - start]);
            assert(spec_digit_value(digits[i - start]) == d);
        }
        let next: u32 = acc * 10 + d;
        if next > 0xFFFF {
            proof {
                lemma_dec_value_prefix(digits, i + 1 - start);
            }
            return None;
        }
        acc = next;
        i += 1;
    }
    proof {
        assert(digits.take(i - start) =~= digits);
    }
    Some(acc as u16)
}

/// Reading any prefix of a digit string never overshoots the whole string's
/// value.
pub proof fn lemma_dec_value_prefix(s: Seq<char>, n: int)
    requires
        0 <= n <= s.len(),
    ensures
        spec_dec_value(s.take(n)) <= spec_dec_value(s),
    decreases s.len() - n,
{
    if n < s.len() {
        assert(s.take(n + 1).drop_last() =~= s.take(n));
        assert(spec_dec_value(s.take(n + 1)) == spec_dec_value(s.take(n)) * 10
            + spec_digit_value(s.take(n + 1).last()));
        lemma_dec_value_prefix(s, n + 1);
    } else {
        assert(s.take(n) =~= s);
    }
}

/// The digit character of a value below ten reads back as that value.
pub proof fn lemma_digit_char_value(d: nat)
    requires
        d < 10,
    ensures
        spec_digit_value(spec_digit_char(d)) == d,
        spec_is_digit(spec_digit_char(d)),
{
}

/// Reading back the canonical numeral of `n` yields `n`: rendering and
/// evaluation are mutually inverse.
pub proof fn lemma_dec_digits_value(n: nat)
    ensures
        spec_dec_value(spec_dec_digits(n)) == n,
        spec_all_digits(spec_dec_digits(n)),
        spec_dec_digits(n).len() > 0,
    decreases n,
{
    if n < 10 {
        lemma_digit_char_value(n);
        assert(spec_dec_digits(n).drop_last() =~= Seq::<char>::empty());
        assert(spec_dec_value(Seq::<char>::empty()) == 0);
        assert(spec_dec_value(spec_dec_digits(n)) == 0 * 10 + spec_digit_value(
            spec_digit_char(n),
        ));
    } else {
        lemma_dec_digits_value(n / 10);
        lemma_digit_char_value(n % 10);
        assert(spec_dec_digits(n).drop_last() =~= spec_dec_digits(n / 10));
        assert(spec_dec_digits(n).last() == spec_digit_char(n % 10));
        assert(spec_dec_value(spec_dec_digits(n)) == spec_dec_value(spec_dec_digits(n).drop_last())
            * 10 + spec_digit_value(spec_dec_digits(n).last()));
        assert(spec_dec_value(spec_dec_digits(n)) == (n / 10) * 10 + n % 10);
        assert((n / 10) * 10 + n % 10 == n) by (nonlinear_arith);
    }
}

/// A rendered numeral is always accepted back by the parser, and reads as
/// the number it was rendered from.
pub proof fn lemma_parse_inverts_rendering(n: u16)
    ensures
        spec_parses_as_u16(spec_dec_digits(n as nat)),
        spec_dec_value(spec_digits_part(spec_dec_digits(n as nat))) == n,
{
    lemma_dec_digits_value(n as nat);
    assert(spec_digits_part(spec_dec_digits(n as nat)) =~= spec_dec_digits(n as nat));
}

} // verus!
