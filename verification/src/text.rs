//! Numbers written out as text.

use vstd::prelude::*;
use vstd::string::*;
use vstd::arithmetic::div_mod::lemma_mod_breakdown;
use vstd::arithmetic::power::{lemma_pow0, lemma_pow_positive, pow};

verus! {

/// The text of one digit below sixteen, in lower case.
pub open spec fn digit_text(d: int) -> Seq<char> {
    if d == 0 {
        "0"@
    } else if d == 1 {
        "1"@
    } else if d == 2 {
        "2"@
    } else if d == 3 {
        "3"@
    } else if d == 4 {
        "4"@
    } else if d == 5 {
        "5"@
    } else if d == 6 {
        "6"@
    } else if d == 7 {
        "7"@
    } else if d == 8 {
        "8"@
    } else if d == 9 {
        "9"@
    } else if d == 10 {
        "a"@
    } else if d == 11 {
        "b"@
    } else if d == 12 {
        "c"@
    } else if d == 13 {
        "d"@
    } else if d == 14 {
        "e"@
    } else {
        "f"@
    }
}

/// A number in decimal, without leading zeros.
pub open spec fn decimal(n: nat) -> Seq<char>
    decreases n,
{
    if n < 10 {
        digit_text(n as int)
    } else {
        decimal(n / 10) + digit_text((n % 10) as int)
    }
}

/// The last `width` hexadecimal digits of a number, in lower case, with
/// leading zeros.
pub open spec fn hex_digits(n: nat, width: nat) -> Seq<char>
    decreases width,
{
    if width == 0 {
        Seq::empty()
    } else {
        hex_digits(n / 16, (width - 1) as nat) + digit_text((n % 16) as int)
    }
}

fn append_digit(out: &mut String, d: u64)
    requires
        d < 16,
    ensures
        final(out)@ == old(out)@ + digit_text(d as int),
{
    let text = match d {
        0 => "0",
        1 => "1",
        2 => "2",
        3 => "3",
        4 => "4",
        5 => "5",
        6 => "6",
        7 => "7",
        8 => "8",
        9 => "9",
        10 => "a",
        11 => "b",
        12 => "c",
        13 => "d",
        14 => "e",
        _ => "f",
    };
    out.append(text);
}

/// Appends a number in decimal.
pub fn append_decimal(out: &mut String, n: u64)
    ensures
        final(out)@ == old(out)@ + decimal(n as nat),
    decreases n,
{
    if n >= 10 {
        append_decimal(out, n / 10);
        append_digit(out, n % 10);
        assert(out@ =~= old(out)@ + decimal(n as nat));
    } else {
        append_digit(out, n);
    }
}

/// Appends the last `width` hexadecimal digits of a number.
pub fn append_hex_digits(out: &mut String, n: u64, width: u64)
    ensures
        final(out)@ == old(out)@ + hex_digits(n as nat, width as nat),
    decreases width,
{
    if width > 0 {
        append_hex_digits(out, n / 16, width - 1);
        append_digit(out, n % 16);
    }
    assert(out@ =~= old(out)@ + hex_digits(n as nat, width as nat));
}

/// Whether a text begins with another one.
pub fn starts_with(text: &String, prefix: &str) -> (starts: bool)
    ensures
        starts == prefix@.is_prefix_of(text@),
        starts <==> (prefix@.len() <= text@.len() && forall|i: int|
            0 <= i < prefix@.len() ==> text@[i] == prefix@[i]),
{
    let whole = text.as_str();
    let length = prefix.unicode_len();
    if whole.unicode_len() < length {
        return false;
    }
    for i in 0..length
        invariant
            whole@ == text@,
            length == prefix@.len(),
            length <= whole@.len(),
            forall|j: int| 0 <= j < i ==> whole@[j] == prefix@[j],
    {
        if whole.get_char(i) != prefix.get_char(i) {
            assert(whole@.subrange(0, length as int)[i as int] != prefix@[i as int]);
            return false;
        }
    }
    assert(prefix@ =~= whole@.subrange(0, length as int));
    true
}

/// The number that a digit stands for, in decimal or in hexadecimal.
pub open spec fn digit_number(c: char) -> int {
    if '0' <= c <= '9' {
        c as int - '0' as int
    } else {
        c as int - 'a' as int + 10
    }
}

/// The number that a text of digits stands for, to a base.
pub open spec fn number_of(text: Seq<char>, base: int) -> int
    decreases text.len(),
{
    if text.len() == 0 {
        0
    } else {
        number_of(text.drop_last(), base) * base + digit_number(text.last())
    }
}

proof fn lemma_digit(d: int)
    requires
        0 <= d < 16,
    ensures
        digit_text(d).len() == 1,
        digit_number(digit_text(d)[0]) == d,
        d < 10 ==> '0' <= digit_text(d)[0] <= '9',
        d >= 10 ==> 'a' <= digit_text(d)[0] <= 'f',
{
    reveal_strlit("0");
    reveal_strlit("1");
    reveal_strlit("2");
    reveal_strlit("3");
    reveal_strlit("4");
    reveal_strlit("5");
    reveal_strlit("6");
    reveal_strlit("7");
    reveal_strlit("8");
    reveal_strlit("9");
    reveal_strlit("a");
    reveal_strlit("b");
    reveal_strlit("c");
    reveal_strlit("d");
    reveal_strlit("e");
    reveal_strlit("f");
}

/// A number in decimal is made of decimal digits, reads back as the number, and
/// has no leading zero.
pub proof fn law_decimal_reads_back(n: nat)
    ensures
        decimal(n).len() > 0,
        forall|i: int| 0 <= i < decimal(n).len() ==> '0' <= #[trigger] decimal(n)[i] <= '9',
        number_of(decimal(n), 10) == n,
        n > 0 ==> decimal(n)[0] != '0',
    decreases n,
{
    if n < 10 {
        lemma_digit(n as int);
        assert(decimal(n).drop_last() =~= Seq::empty());
        assert(number_of(decimal(n).drop_last(), 10) == 0);
    } else {
        law_decimal_reads_back(n / 10);
        lemma_digit((n % 10) as int);
        assert(decimal(n).drop_last() =~= decimal(n / 10));
    }
}

/// A number in hexadecimal has as many digits as it is given, all of them
/// hexadecimal in lower case, and reads back as the number where it fits.
pub proof fn law_hex_digits_read_back(n: nat, width: nat)
    ensures
        hex_digits(n, width).len() == width,
        forall|i: int|
            0 <= i < width ==> ('0' <= #[trigger] hex_digits(n, width)[i] <= '9' || 'a'
                <= hex_digits(n, width)[i] <= 'f'),
        number_of(hex_digits(n, width), 16) == n as int % pow(16, width),
        n < pow(16, width) ==> number_of(hex_digits(n, width), 16) == n,
    decreases width,
{
    lemma_pow_positive(16, width);
    if width == 0 {
        lemma_pow0(16);
    } else {
        let less = (width - 1) as nat;
        law_hex_digits_read_back(n / 16, less);
        lemma_digit((n % 16) as int);
        assert(hex_digits(n, width).drop_last() =~= hex_digits(n / 16, less));
        lemma_pow_positive(16, less);
        assert(pow(16, width) == 16 * pow(16, less)) by {
            reveal(pow);
        }
        lemma_mod_breakdown(n as int, 16, pow(16, less));
    }
    if n < pow(16, width) {
        vstd::arithmetic::div_mod::lemma_small_mod(n, pow(16, width) as nat);
    }
}

} // verus!
