use vstd::prelude::*;

verus! {

/// The character of a decimal digit.
pub open spec fn digit_char(d: int) -> char {
    if d == 0 {
        '0'
    } else if d == 1 {
        '1'
    } else if d == 2 {
        '2'
    } else if d == 3 {
        '3'
    } else if d == 4 {
        '4'
    } else if d == 5 {
        '5'
    } else if d == 6 {
        '6'
    } else if d == 7 {
        '7'
    } else if d == 8 {
        '8'
    } else {
        '9'
    }
}

/// The decimal digits of a natural number, most significant first, without leading zeros.
pub open spec fn decimal_digits(n: nat) -> Seq<char>
    decreases n,
{
    if n < 10 {
        seq![digit_char(n as int)]
    } else {
        decimal_digits(n / 10).push(digit_char(n as int % 10))
    }
}

/// An integer written in decimal, with a minus sign when it is negative.
pub open spec fn decimal_text(n: int) -> Seq<char> {
    if n < 0 {
        seq!['-'] + decimal_digits((-n) as nat)
    } else {
        decimal_digits(n as nat)
    }
}

/// The one-character text of a digit.
fn digit_str(d: u32) -> (s: &'static str)
    requires
        d < 10,
    ensures
        s@ == seq![digit_char(d as int)],
{
    proof {
        reveal_strlit("0");
        reveal_strlit("1");
        reveal_strlit("2");
        reveal_strlit("3");
        reveal_strlit("4");
        reveal_strlit("5");
        reveal_strlit("6");
        reveal_strlit("7");
        reveal_strlit("8");
        reveal_strlit("9");
    }
    if d == 0 {
        "0"
    } else if d == 1 {
        "1"
    } else if d == 2 {
        "2"
    } else if d == 3 {
        "3"
    } else if d == 4 {
        "4"
    } else if d == 5 {
        "5"
    } else if d == 6 {
        "6"
    } else if d == 7 {
        "7"
    } else if d == 8 {
        "8"
    } else {
        "9"
    }
}

/// Appends the decimal digits of `n`.
fn push_digits(text: &mut String, n: u32)
    ensures
        final(text)@ == old(text)@ + decimal_digits(n as nat),
    decreases n,
{
    if n >= 10 {
        push_digits(text, n / 10);
    }
    text.append(digit_str(n % 10));
    proof {
        if n >= 10 {
            assert(old(text)@ + decimal_digits(n as nat) =~= old(text)@ + decimal_digits(
                (n / 10) as nat,
            ) + seq![digit_char(n as int % 10)]);
        } else {
            assert(old(text)@ + decimal_digits(n as nat) =~= old(text)@ + seq![digit_char(n as int)]);
        }
    }
}

/// Appends `n` written in decimal, as `format!("{}", n)` writes it.
pub fn push_decimal(text: &mut String, n: i32)
    ensures
        final(text)@ == old(text)@ + decimal_text(n as int),
{
    if n < 0 {
        text.append("-");
        proof {
            reveal_strlit("-");
        }
        let magnitude: u32 = if n == i32::MIN {
            2147483648u32
        } else {
            (-n) as u32
        };
        push_digits(text, magnitude);
        assert(text@ =~= old(text)@ + decimal_text(n as int));
    } else {
        push_digits(text, n as u32);
    }
}

/// The number that a text of decimal digits reads as: each character counts for its code
/// minus that of '0', most significant first.
pub open spec fn digits_value(text: Seq<char>) -> int
    decreases text.len(),
{
    if text.len() == 0 {
        0
    } else {
        digits_value(text.drop_last()) * 10 + (text.last() as u32 - 48)
    }
}

/// A digit is written as the character whose code is 48 (the code of '0') plus the digit.
pub proof fn law_digit_char_code(d: int)
    requires
        0 <= d <= 9,
    ensures
        digit_char(d) as u32 == 48 + d,
{
}

/// A natural number is written in the standard way: only the characters '0' to '9', no
/// leading zero unless the number is 0, and the digits read back as the number.
pub proof fn law_decimal_digits_read_back(n: nat)
    ensures
        decimal_digits(n).len() > 0,
        forall|i: int|
            0 <= i < decimal_digits(n).len() ==> 48 <= (#[trigger] decimal_digits(n)[i]) as u32
                <= 57,
        n > 0 ==> decimal_digits(n)[0] != '0',
        digits_value(decimal_digits(n)) == n,
    decreases n,
{
    if n >= 10 {
        law_decimal_digits_read_back(n / 10);
        let head = decimal_digits(n / 10);
        let d = n as int % 10;
        let t = decimal_digits(n);
        assert(t.drop_last() =~= head);
        assert(t.last() == digit_char(d));
        assert(digit_char(d) as u32 == 48 + d);
        assert(digits_value(t) == digits_value(head) * 10 + (t.last() as u32 - 48));
        assert((n / 10) * 10 + d == n);
        assert forall|i: int| 0 <= i < t.len() implies 48 <= (#[trigger] t[i]) as u32 <= 57 by {
            if i < head.len() {
                assert(t[i] == head[i]);
            }
        }
    } else {
        let t = decimal_digits(n);
        assert(t.drop_last() =~= Seq::<char>::empty());
        assert(digit_char(n as int) as u32 == 48 + n);
        assert(digits_value(t) == digits_value(t.drop_last()) * 10 + (t.last() as u32 - 48));
    }
}

/// An integer is written with a leading '-' exactly when it is negative, followed by the
/// standard writing of its magnitude.
pub proof fn law_decimal_text_is_standard(n: int)
    ensures
        decimal_text(n).len() > 0,
        (decimal_text(n)[0] == '-') <==> n < 0,
        n < 0 ==> digits_value(decimal_text(n).drop_first()) == -n,
        n >= 0 ==> digits_value(decimal_text(n)) == n,
{
    if n < 0 {
        law_decimal_digits_read_back((-n) as nat);
        assert(decimal_text(n).drop_first() =~= decimal_digits((-n) as nat));
        assert(decimal_text(n)[1] == decimal_digits((-n) as nat)[0]);
    } else {
        law_decimal_digits_read_back(n as nat);
        assert(48 <= decimal_digits(n as nat)[0] as u32 <= 57);
    }
}

} // verus!
