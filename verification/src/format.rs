//! Decimal formatting of unsigned integers.
//!
//! `spec_decimal` is the mathematical definition of the minimal base-10
//! representation; the `format_*` functions produce exactly that sequence of
//! ASCII digit characters for each supported width.

use vstd::prelude::*;
use vstd::string::StringExecFns;

verus! {

/// The ASCII character for the digit value `d` (digit values above 9 are
/// never used; they map to '9' so the function stays total).
pub open spec fn spec_digit(d: nat) -> char {
    if d == 0 {
        '0'
    } else if d == 1 {
        '1'
    } else if d == 2 {
        '2'
    } else if d == 3 {
        '3'
    } else if d == 4 {
        '4'
    } else if d == 5 {
        '5'
    } else if d == 6 {
        '6'
    } else if d == 7 {
        '7'
    } else if d == 8 {
        '8'
    } else {
        '9'
    }
}

/// The minimal decimal representation of `n`, most significant digit first:
/// no leading zeros, and the single digit '0' for zero itself.
pub open spec fn spec_decimal(n: nat) -> Seq<char>
    decreases n,
{
    if n < 10 {
        seq![spec_digit(n)]
    } else {
        spec_decimal(n / 10).push(spec_digit(n % 10))
    }
}

/// The one-character string for the digit value `d`.
fn digit_str(d: u8) -> (r: &'static str)
    requires
        d < 10,
    ensures
        r@ =~= seq![spec_digit(d as nat)],
{
    proof {
        reveal_strlit("0");
        reveal_strlit("1");
        reveal_strlit("2");
        reveal_strlit("3");
        reveal_strlit("4");
        reveal_strlit("5");
        reveal_strlit("6");
        reveal_strlit("7");
        reveal_strlit("8");
        reveal_strlit("9");
    }
    match d {
        0 => "0",
        1 => "1",
        2 => "2",
        3 => "3",
        4 => "4",
        5 => "5",
        6 => "6",
        7 => "7",
        8 => "8",
        _ => "9",
    }
}

/// The characters for a run of digit values listed least significant first,
/// rendered most significant first.
pub open spec fn chars_of_digits(ds: Seq<u8>) -> Seq<char>
    decreases ds.len(),
{
    if ds.len() == 0 {
        Seq::empty()
    } else {
        chars_of_digits(ds.drop_first()) + seq![spec_digit(ds.first() as nat)]
    }
}

proof fn lemma_chars_of_digits_push(ds: Seq<u8>, d: u8)
    ensures
        chars_of_digits(ds.push(d)) =~= seq![spec_digit(d as nat)] + chars_of_digits(ds),
    decreases ds.len(),
{
    if ds.len() == 0 {
        assert(ds.push(d).drop_first() =~= Seq::<u8>::empty());
        assert(ds =~= Seq::<u8>::empty());
    } else {
        assert(ds.push(d).drop_first() =~= ds.drop_first().push(d));
        lemma_chars_of_digits_push(ds.drop_first(), d);
    }
}

/// Formats `n` as its minimal decimal representation, by repeated digit
/// extraction into a run of at most 20 digit values.
pub fn format_u64(n: u64) -> (r: String)
    ensures
        r@ == spec_decimal(n as nat),
        r@.len() <= 20,
{
    proof {
        lemma_u64_digit_count(n);
    }
    let mut digits: Vec<u8> = Vec::new();
    let mut num: u64 = n;
    loop
        invariant_except_break
            digits@.len() == 0 ==> num == n,
            digits@.len() > 0 ==> num >= 1 && spec_decimal(n as nat) == spec_decimal(num as nat)
                + chars_of_digits(digits@),
            forall|j: int| 0 <= j < digits@.len() ==> digits@[j] < 10,
        ensures
            spec_decimal(n as nat) == chars_of_digits(digits@),
            forall|j: int| 0 <= j < digits@.len() ==> digits@[j] < 10,
        decreases num,
    {
        let d: u8 = (num % 10) as u8;
        let ghost prev_digits = digits@;
        let ghost prev_num = num;
        digits.push(d);
        num = num / 10;
        proof {
            lemma_chars_of_digits_push(prev_digits, d);
            if prev_digits.len() == 0 {
                if prev_num < 10 {
                    assert(chars_of_digits(digits@) =~= seq![spec_digit(d as nat)]);
                    assert(spec_decimal(n as nat) == chars_of_digits(digits@));
                } else {
                    assert(spec_decimal(prev_num as nat) == spec_decimal(prev_num as nat / 10).push(
                        spec_digit(prev_num as nat % 10)));
                    assert(spec_decimal(n as nat) =~= spec_decimal(num as nat) + chars_of_digits(
                        digits@));
                }
            } else {
                if prev_num < 10 {
                    assert(spec_decimal(prev_num as nat) =~= seq![spec_digit(d as nat)]);
                    assert(spec_decimal(n as nat) =~= chars_of_digits(digits@));
                } else {
                    assert(spec_decimal(prev_num as nat) == spec_decimal(prev_num as nat / 10).push(
                        spec_digit(prev_num as nat % 10)));
                    assert(spec_decimal(prev_num as nat) =~= spec_decimal(num as nat) + seq![
                        spec_digit(d as nat)]);
                    assert(spec_decimal(n as nat) =~= spec_decimal(num as nat) + chars_of_digits(
                        digits@));
                }
            }
        }
        if num == 0 {
            break ;
        }
    }
    let mut s = String::new();
    let mut i: usize = digits.len();
    while i > 0
        invariant
            i <= digits@.len(),
            s@ == chars_of_digits(digits@.skip(i as int)),
            forall|j: int| 0 <= j < digits@.len() ==> digits@[j] < 10,
        decreases i,
    {
        i = i - 1;
        let d: u8 = digits[i];
        s.append(digit_str(d));
        proof {
            assert(digits@.skip(i as int).drop_first() =~= digits@.skip(i as int + 1));
            assert(digits@.skip(i as int).first() == digits@[i as int]);
            assert(s@ =~= chars_of_digits(digits@.skip(i as int)));
        }
    }
    proof {
        assert(digits@.skip(0) =~= digits@);
    }
    s
}

/// Formats an 8-bit value: at most 3 digits.
pub fn format_u8(n: u8) -> (r: String)
    ensures
        r@ == spec_decimal(n as nat),
        r@.len() <= 3,
{
    proof {
        assert(pow10(3) == 1000) by {
            reveal_with_fuel(pow10, 4);
        }
        lemma_decimal_len(n as nat, 3);
    }
    format_u64(n as u64)
}

/// Formats a 16-bit value: at most 5 digits.
pub fn format_u16(n: u16) -> (r: String)
    ensures
        r@ == spec_decimal(n as nat),
        r@.len() <= 5,
{
    proof {
        assert(pow10(5) == 100000) by {
            reveal_with_fuel(pow10, 6);
        }
        lemma_decimal_len(n as nat, 5);
    }
    format_u64(n as u64)
}

/// Formats a 32-bit value: at most 10 digits.
pub fn format_u32(n: u32) -> (r: String)
    ensures
        r@ == spec_decimal(n as nat),
        r@.len() <= 10,
{
    proof {
        assert(pow10(10) == 10000000000) by {
            reveal_with_fuel(pow10, 11);
        }
        lemma_decimal_len(n as nat, 10);
    }
    format_u64(n as u64)
}

/// Every 64-bit value needs at most 20 digits.
pub proof fn lemma_u64_digit_count(n: u64)
    ensures
        spec_decimal(n as nat).len() <= 20,
{
    assert(pow10(20) == 100000000000000000000) by {
        reveal_with_fuel(pow10, 21);
    }
    lemma_decimal_len(n as nat, 20);
}

/// Ten raised to the power `k`: the count of values whose decimal form fits
/// in `k` digits.
pub open spec fn pow10(k: nat) -> nat
    decreases k,
{
    if k == 0 {
        1
    } else {
        10 * pow10((k - 1) as nat)
    }
}

/// Every value below `pow10(k)` needs at most `k` decimal digits.
pub proof fn lemma_decimal_len(n: nat, k: nat)
    requires
        1 <= k,
        n < pow10(k),
    ensures
        spec_decimal(n).len() <= k,
    decreases n,
{
    if n < 10 {
    } else {
        assert(pow10(k) == 10 * pow10((k - 1) as nat));
        assert(n / 10 < pow10((k - 1) as nat)) by {
            vstd::arithmetic::div_mod::lemma_multiply_divide_lt(
                n as int,
                10,
                pow10((k - 1) as nat) as int,
            );
        }
        lemma_decimal_len(n / 10, (k - 1) as nat);
    }
}

/// The digit value of an ASCII decimal digit character (other characters
/// map to zero so the function stays total).
pub open spec fn spec_digit_val(c: char) -> nat {
    if c == '1' {
        1
    } else if c == '2' {
        2
    } else if c == '3' {
        3
    } else if c == '4' {
        4
    } else if c == '5' {
        5
    } else if c == '6' {
        6
    } else if c == '7' {
        7
    } else if c == '8' {
        8
    } else if c == '9' {
        9
    } else {
        0
    }
}

/// The value of a sequence of decimal digit characters read in base 10.
pub open spec fn spec_parse(s: Seq<char>) -> nat
    decreases s.len(),
{
    if s.len() == 0 {
        0
    } else {
        spec_parse(s.drop_last()) * 10 + spec_digit_val(s.last())
    }
}

/// Round trip: reading the minimal decimal representation of `n` back in
/// base 10 yields exactly `n`.
pub proof fn lemma_parse_decimal(n: nat)
    ensures
        spec_parse(spec_decimal(n)) == n,
    decreases n,
{
    if n < 10 {
        reveal_with_fuel(spec_parse, 2);
        assert(spec_decimal(n).drop_last() =~= Seq::<char>::empty());
        assert(spec_decimal(n).last() == spec_digit(n));
        assert(spec_digit_val(spec_digit(n)) == n);
    } else {
        lemma_parse_decimal(n / 10);
        assert(spec_decimal(n) == spec_decimal(n / 10).push(spec_digit(n % 10)));
        assert(spec_decimal(n).drop_last() =~= spec_decimal(n / 10));
        assert(spec_digit_val(spec_digit(n % 10)) == n % 10);
        assert(n == (n / 10) * 10 + n % 10) by {
            vstd::arithmetic::div_mod::lemma_fundamental_div_mod(n as int, 10);
        }
    }
}

/// Whether `c` is an ASCII decimal digit character.
pub open spec fn is_digit_char(c: char) -> bool {
    c == '0' || c == '1' || c == '2' || c == '3' || c == '4' || c == '5' || c == '6' || c == '7'
        || c == '8' || c == '9'
}

/// The shape of every minimal decimal representation: non-empty, digit
/// characters only, and no leading zero except for the value zero itself,
/// which is exactly "0".
pub proof fn lemma_decimal_form(n: nat)
    ensures
        spec_decimal(n).len() >= 1,
        forall|i: int| 0 <= i < spec_decimal(n).len() ==> is_digit_char(#[trigger] spec_decimal(n)[i]),
        n == 0 ==> spec_decimal(n) =~= seq!['0'],
        n > 0 ==> spec_decimal(n)[0] != '0',
    decreases n,
{
    if n < 10 {
    } else {
        lemma_decimal_form(n / 10);
        assert(spec_decimal(n) == spec_decimal(n / 10).push(spec_digit(n % 10)));
        assert(spec_decimal(n)[0] == spec_decimal(n / 10)[0]);
        assert(spec_decimal(n).len() >= 2);
    }
}

} // verus!
