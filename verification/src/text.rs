//! Integers as decimal text: writing an `i32` the way `Display` does, and
//! what reading such a text gives back.

use vstd::prelude::*;
use vstd::string::*;

verus! {

/// A decimal digit.
pub open spec fn spec_digit(d: nat) -> char {
    (d + 48) as char
}

/// A number written in decimal, without leading zeros.
pub open spec fn spec_decimal(n: nat) -> Seq<char>
    decreases n,
{
    if n < 10 {
        seq![spec_digit(n)]
    } else {
        spec_decimal(n / 10).push(spec_digit(n % 10))
    }
}

/// An `i32` written in decimal, as `Display` writes it: a `-` before a
/// negative value, no sign otherwise, no leading zeros.
pub open spec fn spec_i32_text(n: i32) -> Seq<char> {
    if n < 0 {
        seq!['-'] + spec_decimal((-n) as nat)
    } else {
        spec_decimal(n as nat)
    }
}

/// Whether every character of `d` is an ASCII decimal digit.
pub open spec fn spec_all_digits(d: Seq<char>) -> bool {
    forall|i: int| 0 <= i < d.len() ==> 48 <= #[trigger] (d[i] as int) <= 57
}

/// The value of a numeral of ASCII decimal digits.
pub open spec fn spec_digits_value(d: Seq<char>) -> int
    decreases d.len(),
{
    if d.len() == 0 {
        0
    } else {
        spec_digits_value(d.drop_last()) * 10 + (d.last() as int - 48)
    }
}

/// The `i32` a text denotes when read as a decimal integer: an optional `+` or
/// `-`, then one or more ASCII decimal digits, with a value that fits an `i32`.
pub open spec fn spec_i32_from_text(s: Seq<char>) -> Option<i32> {
    let signed = s.len() > 0 && (s[0] == '-' || s[0] == '+');
    let digits = if signed {
        s.skip(1)
    } else {
        s
    };
    let value = if s.len() > 0 && s[0] == '-' {
        -spec_digits_value(digits)
    } else {
        spec_digits_value(digits)
    };
    if digits.len() > 0 && spec_all_digits(digits) && i32::MIN <= value <= i32::MAX {
        Some(value as i32)
    } else {
        None
    }
}

/// A number written in decimal is a nonempty run of digits with that value.
pub proof fn lemma_decimal(n: nat)
    ensures
        spec_decimal(n).len() > 0,
        spec_all_digits(spec_decimal(n)),
        spec_digits_value(spec_decimal(n)) == n,
    decreases n,
{
    let s = spec_decimal(n);
    if n < 10 {
        assert(s.drop_last() =~= Seq::<char>::empty());
        assert(spec_digits_value(Seq::<char>::empty()) == 0);
        assert(s.last() == spec_digit(n));
        assert(spec_digit(n) as int == n + 48);
        assert(spec_digits_value(s) == spec_digits_value(s.drop_last()) * 10 + (s.last() as int - 48));
    } else {
        lemma_decimal(n / 10);
        let p = spec_decimal(n / 10);
        assert(s.drop_last() =~= p);
        assert(s.last() == spec_digit(n % 10));
        assert(spec_digit(n % 10) as int == n % 10 + 48);
        assert(n == (n / 10) * 10 + n % 10);
        assert(spec_digits_value(s) == spec_digits_value(p) * 10 + (s.last() as int - 48));
        assert forall|i: int| 0 <= i < s.len() implies 48 <= #[trigger] (s[i] as int) <= 57 by {
            if i < p.len() {
                assert(s[i] == p[i]);
            }
        }
    }
}

/// Reading the decimal text of an `i32` gives the same `i32` back.
pub proof fn lemma_i32_text_round_trip(n: i32)
    ensures
        spec_i32_from_text(spec_i32_text(n)) == Some(n),
{
    let s = spec_i32_text(n);
    if n < 0 {
        let d = spec_decimal((-n) as nat);
        lemma_decimal((-n) as nat);
        assert(s[0] == '-');
        assert(s.skip(1) =~= d);
    } else {
        let d = spec_decimal(n as nat);
        lemma_decimal(n as nat);
        assert(48 <= (d[0] as int) <= 57);
        assert(s[0] != '-' && s[0] != '+');
    }
}

/// The text of one decimal digit.
fn digit_text(d: u32) -> (r: &'static str)
    requires
        d < 10,
    ensures
        r@ == seq![spec_digit(d as nat)],
{
    proof {
        reveal_strlit("0");
        reveal_strlit("1");
        reveal_strlit("2");
        reveal_strlit("3");
        reveal_strlit("4");
        reveal_strlit("5");
        reveal_strlit("6");
        reveal_strlit("7");
        reveal_strlit("8");
        reveal_strlit("9");
    }
    if d == 0 {
        "0"
    } else if d == 1 {
        "1"
    } else if d == 2 {
        "2"
    } else if d == 3 {
        "3"
    } else if d == 4 {
        "4"
    } else if d == 5 {
        "5"
    } else if d == 6 {
        "6"
    } else if d == 7 {
        "7"
    } else if d == 8 {
        "8"
    } else {
        "9"
    }
}

/// Appends `m` in decimal to `out`.
fn write_decimal(m: u32, out: &mut String)
    ensures
        final(out)@ == old(out)@ + spec_decimal(m as nat),
    decreases m,
{
    if m >= 10 {
        write_decimal(m / 10, out);
    }
    out.append(digit_text(m % 10));
    proof {
        if m >= 10 {
            assert(old(out)@ + spec_decimal((m / 10) as nat) + seq![spec_digit((m % 10) as nat)]
                =~= old(out)@ + spec_decimal(m as nat));
        } else {
            assert(old(out)@ + seq![spec_digit((m % 10) as nat)] =~= old(out)@ + spec_decimal(
                m as nat,
            ));
        }
    }
}

/// An `i32` written in decimal, as `Display` writes it.
pub fn i32_text(n: i32) -> (r: String)
    ensures
        r@ == spec_i32_text(n),
{
    let mut out = String::new();
    if n < 0 {
        out.append("-");
        proof {
            reveal_strlit("-");
        }
        let m: u32 = (-(n as i64)) as u32;
        write_decimal(m, &mut out);
    } else {
        write_decimal(n as u32, &mut out);
    }
    proof {
        assert(out@ =~= spec_i32_text(n));
    }
    out
}

} // verus!
