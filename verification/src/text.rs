//! Text building: what the crate needs of `String` beyond concatenation, and
//! the decimal form of integers.

use vstd::prelude::*;

verus! {

/// `String::push` appends the given character to the end of the string.
pub assume_specification[ String::push ](string: &mut String, ch: char)
    ensures
        final(string)@ == old(string)@.push(ch),
;

/// `String::from(&str)` copies the text.
pub assume_specification<'a>[ <String as From<&'a str>>::from ](copied: &str) -> (res: String)
    ensures
        res@ == copied@,
;

/// The conversion of a type into itself, as `std` has it for every type, returns
/// its argument unchanged.
pub assume_specification<Any>[ <Any as From<Any>>::from ](converted: Any) -> (res: Any)
    ensures
        res == converted,
;

/// The text made of the two given ones, the first before the second.
pub(crate) fn joined(first: &str, second: &str) -> (res: String)
    ensures
        res@ == first@ + second@,
{
    let mut out = String::from(first);
    out.append(second);
    out
}

/// The character that stands for a decimal digit.
pub open spec fn digit_char(digit: nat) -> char {
    (48 + digit) as char
}

/// The shortest decimal form of a natural number.
pub open spec fn decimal_nat(n: nat) -> Seq<char>
    decreases n,
{
    if n < 10 {
        seq![digit_char(n)]
    } else {
        decimal_nat(n / 10).push(digit_char(n % 10))
    }
}

/// The shortest decimal form of an integer; a negative one starts with `-`.
pub open spec fn decimal(n: int) -> Seq<char> {
    if n < 0 {
        seq!['-'] + decimal_nat((-n) as nat)
    } else {
        decimal_nat(n as nat)
    }
}

/// Appends the decimal form of `n` to `out`.
fn append_decimal(out: &mut String, n: u64)
    ensures
        final(out)@ == old(out)@ + decimal_nat(n as nat),
    decreases n,
{
    if n >= 10 {
        append_decimal(out, n / 10);
    }
    let digit: u8 = (n % 10) as u8;
    out.push((48 + digit) as char);
    assert(out@ == old(out)@ + decimal_nat(n as nat));
}

/// The distance of `n` from zero.
pub(crate) fn magnitude(n: i64) -> (res: u64)
    ensures
        res == if n < 0 { -n } else { n as int },
{
    if n == i64::MIN {
        9223372036854775808
    } else if n < 0 {
        (-n) as u64
    } else {
        n as u64
    }
}

/// The decimal form of `n`.
pub fn decimal_text(n: i64) -> (res: String)
    ensures
        res@ == decimal(n as int),
{
    let mut out = String::new();
    if n < 0 {
        out.push('-');
    }
    append_decimal(&mut out, magnitude(n));
    assert(out@ == decimal(n as int));
    out
}

/// A decimal form starts with a digit.
proof fn lemma_decimal_nat_starts_with_digit(n: nat)
    ensures
        decimal_nat(n).len() > 0,
        exists|digit: nat| digit < 10 && decimal_nat(n)[0] == #[trigger] digit_char(digit),
    decreases n,
{
    if n < 10 {
        assert(decimal_nat(n)[0] == digit_char(n));
    } else {
        lemma_decimal_nat_starts_with_digit(n / 10);
        let digit = choose|digit: nat|
            digit < 10 && decimal_nat(n / 10)[0] == #[trigger] digit_char(digit);
        assert(decimal_nat(n)[0] == digit_char(digit));
    }
}

proof fn lemma_decimal_nat_injective(a: nat, b: nat)
    requires
        decimal_nat(a) == decimal_nat(b),
    ensures
        a == b,
    decreases a,
{
    lemma_decimal_nat_starts_with_digit(a / 10);
    lemma_decimal_nat_starts_with_digit(b / 10);
    assert(decimal_nat(a).last() == digit_char(a % 10));
    assert(decimal_nat(b).last() == digit_char(b % 10));
    assert(a % 10 == b % 10);
    if a >= 10 {
        assert(decimal_nat(a).len() >= 2);
        assert(b >= 10);
        assert(decimal_nat(a).drop_last() == decimal_nat(a / 10));
        assert(decimal_nat(b).drop_last() == decimal_nat(b / 10));
        lemma_decimal_nat_injective(a / 10, b / 10);
    } else if b >= 10 {
        assert(decimal_nat(b).len() >= 2);
    }
}

/// Different integers have different decimal forms.
pub proof fn law_decimal_is_injective(a: int, b: int)
    requires
        a != b,
    ensures
        decimal(a) != decimal(b),
{
    if decimal(a) == decimal(b) {
        if a < 0 && b < 0 {
            assert(decimal(a).skip(1) == decimal_nat((-a) as nat));
            assert(decimal(b).skip(1) == decimal_nat((-b) as nat));
            lemma_decimal_nat_injective((-a) as nat, (-b) as nat);
        } else if a >= 0 && b >= 0 {
            lemma_decimal_nat_injective(a as nat, b as nat);
        } else {
            let positive = if a < 0 {
                b
            } else {
                a
            };
            lemma_decimal_nat_starts_with_digit(positive as nat);
            assert(decimal(a)[0] == decimal(b)[0]);
            assert(decimal(if a < 0 { a } else { b })[0] == '-');
        }
    }
}

/// The number that a list of digits stands for.
pub open spec fn digits_value(digits: Seq<char>) -> nat
    decreases digits.len(),
{
    if digits.len() == 0 {
        0
    } else {
        10 * digits_value(digits.drop_last()) + (digits.last() as nat - '0' as nat) as nat
    }
}

/// The decimal form of a natural number consists of digits, stands for it, and
/// has no zero in front.
proof fn lemma_decimal_nat_stands_for(n: nat)
    ensures
        decimal_nat(n).len() > 0,
        forall|i: int| 0 <= i < decimal_nat(n).len() ==> '0' <= #[trigger] decimal_nat(n)[i] <= '9',
        digits_value(decimal_nat(n)) == n,
        n > 0 ==> decimal_nat(n)[0] != '0',
        n == 0 ==> decimal_nat(n).len() == 1,
    decreases n,
{
    if n < 10 {
        assert(decimal_nat(n).drop_last() == Seq::<char>::empty());
        assert(digits_value(Seq::<char>::empty()) == 0);
    } else {
        lemma_decimal_nat_stands_for(n / 10);
        assert(decimal_nat(n).drop_last() == decimal_nat(n / 10));
    }
}

/// The decimal form of an integer stands for it: digits whose value is its
/// distance from zero, without a zero in front, behind a minus sign if it is
/// negative.
pub proof fn law_decimal_stands_for_the_number(n: i64, res: String)
    requires
        call_ensures(decimal_text, (n,), res),
    ensures
        n < 0 <==> res@.len() > 0 && res@[0] == '-',
        ({
            let digits = if n < 0 {
                res@.skip(1)
            } else {
                res@
            };
            &&& digits.len() > 0
            &&& forall|i: int| 0 <= i < digits.len() ==> '0' <= #[trigger] digits[i] <= '9'
            &&& digits_value(digits) == if n < 0 {
                -n
            } else {
                n as int
            }
            &&& digits.len() > 1 ==> digits[0] != '0'
        }),
{
    if n < 0 {
        lemma_decimal_nat_stands_for((-n) as nat);
        assert(res@.skip(1) == decimal_nat((-n) as nat));
    } else {
        lemma_decimal_nat_stands_for(n as nat);
        assert(res@ == decimal_nat(n as nat));
        assert('0' <= res@[0] <= '9');
    }
}

} // verus!
