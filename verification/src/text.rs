//! Number formatting for error messages.

use vstd::prelude::*;

verus! {

/// The character for the digit `d` in a base of up to sixteen.
pub open spec fn digit_char(d: nat) -> char {
    if d < 10 {
        (('0' as u32) + d) as char
    } else {
        (('a' as u32) + (d - 10)) as char
    }
}

/// `n` in positional notation, without leading zeros.
pub open spec fn digits(n: nat, base: nat) -> Seq<char>
    decreases n,
{
    if base < 2 || n < base {
        seq![digit_char(n)]
    } else {
        proof {
            assert(n / base < n) by (nonlinear_arith)
                requires
                    n >= base,
                    base >= 2,
            ;
        }
        digits(n / base, base).push(digit_char(n % base))
    }
}

/// `n` as the decimal text that `{}` prints.
pub open spec fn decimal(n: int) -> Seq<char> {
    if n < 0 {
        seq!['-'] + digits((-n) as nat, 10)
    } else {
        digits(n as nat, 10)
    }
}

/// `n` as the text that `{:#x}` prints.
pub open spec fn hexadecimal(n: nat) -> Seq<char> {
    seq!['0', 'x'] + digits(n, 16)
}

/// What a digit stands for.
pub open spec fn digit_value(c: char) -> nat {
    match c {
        '0' => 0,
        '1' => 1,
        '2' => 2,
        '3' => 3,
        '4' => 4,
        '5' => 5,
        '6' => 6,
        '7' => 7,
        '8' => 8,
        '9' => 9,
        'a' => 10,
        'b' => 11,
        'c' => 12,
        'd' => 13,
        'e' => 14,
        'f' => 15,
        _ => 16,
    }
}

/// The number that a text denotes in positional notation.
pub open spec fn read_back(text: Seq<char>, base: nat) -> nat
    decreases text.len(),
{
    if text.len() == 0 {
        0
    } else {
        read_back(text.drop_last(), base) * base + digit_value(text.last())
    }
}

/// A text of digits denotes the number that it was made of, holds digits of its
/// base alone, and has no leading zero.
pub proof fn law_digits_denote_their_number(n: nat, base: nat)
    requires
        2 <= base <= 16,
    ensures
        read_back(digits(n, base), base) == n,
        digits(n, base).len() > 0,
        forall|i: int|
            0 <= i < digits(n, base).len() ==> digit_value(#[trigger] digits(n, base)[i]) < base,
        n > 0 ==> digits(n, base)[0] != '0',
    decreases n,
{
    if n < base {
        let text = digits(n, base);
        assert(text.drop_last().len() == 0);
        assert(text.last() == digit_char(n));
        assert(read_back(text.drop_last(), base) * base == 0) by (nonlinear_arith)
            requires
                read_back(text.drop_last(), base) == 0,
        ;
    } else {
        assert(n / base < n && n / base > 0) by (nonlinear_arith)
            requires
                n >= base,
                base >= 2,
        ;
        assert(n == (n / base) * base + n % base && n % base < base) by (nonlinear_arith)
            requires
                base >= 2,
        ;
        law_digits_denote_their_number(n / base, base);
        let head = digits(n / base, base);
        let text = digits(n, base);
        assert(text.drop_last() =~= head);
        assert(text.last() == digit_char(n % base));
        assert(text[0] == head[0]);
        assert forall|i: int| 0 <= i < text.len() implies digit_value(#[trigger] text[i])
            < base by {
            if i < head.len() {
                assert(text[i] == head[i]);
            }
        }
    }
}

/// A signed number is its magnitude in decimal, behind a sign if it is
/// negative; an address has its prefix.
pub proof fn law_numbers_denote_themselves(n: int)
    ensures
        n >= 0 ==> read_back(decimal(n), 10) == n,
        n < 0 ==> decimal(n)[0] == '-' && read_back(decimal(n).skip(1), 10) == -n,
        n >= 0 ==> hexadecimal(n as nat)[0] == '0' && hexadecimal(n as nat)[1] == 'x' && read_back(
            hexadecimal(n as nat).skip(2),
            16,
        ) == n,
{
    if n >= 0 {
        law_digits_denote_their_number(n as nat, 10);
        law_digits_denote_their_number(n as nat, 16);
        assert(hexadecimal(n as nat).skip(2) =~= digits(n as nat, 16));
    } else {
        law_digits_denote_their_number((-n) as nat, 10);
        assert(decimal(n).skip(1) =~= digits((-n) as nat, 10));
    }
}

/// The one-character string of a digit.
fn digit_str(d: u64) -> (s: &'static str)
    requires
        d < 16,
    ensures
        s@ == seq![digit_char(d as nat)],
{
    proof {
        reveal_strlit("0");
        reveal_strlit("1");
        reveal_strlit("2");
        reveal_strlit("3");
        reveal_strlit("4");
        reveal_strlit("5");
        reveal_strlit("6");
        reveal_strlit("7");
        reveal_strlit("8");
        reveal_strlit("9");
        reveal_strlit("a");
        reveal_strlit("b");
        reveal_strlit("c");
        reveal_strlit("d");
        reveal_strlit("e");
        reveal_strlit("f");
    }
    match d {
        0 => "0",
        1 => "1",
        2 => "2",
        3 => "3",
        4 => "4",
        5 => "5",
        6 => "6",
        7 => "7",
        8 => "8",
        9 => "9",
        10 => "a",
        11 => "b",
        12 => "c",
        13 => "d",
        14 => "e",
        _ => "f",
    }
}

/// Formats `n` in the given base.
fn digits_string(n: u64, base: u64) -> (s: String)
    requires
        2 <= base <= 16,
    ensures
        s@ == digits(n as nat, base as nat),
    decreases n,
{
    if n < base {
        digit_str(n).to_owned()
    } else {
        assert(n / base < n) by (nonlinear_arith)
            requires
                n >= base,
                base >= 2,
        ;
        let mut s = digits_string(n / base, base);
        s.append(digit_str(n % base));
        s
    }
}

/// Formats a signed number in decimal.
pub fn decimal_string(n: i64) -> (s: String)
    ensures
        s@ == decimal(n as int),
{
    if n < 0 {
        proof {
            reveal_strlit("-");
        }
        let magnitude: u64 = if n == i64::MIN {
            0x8000_0000_0000_0000
        } else {
            (-n) as u64
        };
        "-".to_owned().concat(digits_string(magnitude, 10).as_str())
    } else {
        digits_string(n as u64, 10)
    }
}

/// Formats an unsigned number in decimal.
pub fn unsigned_string(n: u64) -> (s: String)
    ensures
        s@ == decimal(n as int),
{
    digits_string(n, 10)
}

/// Formats an address in hexadecimal, with its prefix.
pub fn hex_string(n: u64) -> (s: String)
    ensures
        s@ == hexadecimal(n as nat),
{
    proof {
        reveal_strlit("0x");
    }
    "0x".to_owned().concat(digits_string(n, 16).as_str())
}

} // verus!
