//! Prefix tests and decimal numerals on strings.

use vstd::prelude::*;
use vstd::string::*;

verus! {

/// Whether `text` begins with `prefix`, character by character.
pub fn starts_with(text: &str, prefix: &str) -> (r: bool)
    ensures
        r == prefix@.is_prefix_of(text@),
{
    let mut rest = text.chars();
    let mut wanted = prefix.chars();
    let ghost mut i: int = 0;
    loop
        invariant
            0 <= i <= prefix@.len(),
            i <= text@.len(),
            vstd::std_specs::iter::IteratorSpec::obeys_prophetic_iter_laws(&rest),
            vstd::std_specs::iter::IteratorSpec::obeys_prophetic_iter_laws(&wanted),
            vstd::std_specs::iter::IteratorSpec::remaining(&rest) == text@.skip(i),
            vstd::std_specs::iter::IteratorSpec::remaining(&wanted) == prefix@.skip(i),
            text@.take(i) == prefix@.take(i),
        decreases prefix@.len() - i,
    {
        match wanted.next() {
            None => {
                return true;
            },
            Some(c) => {
                match rest.next() {
                    None => {
                        return false;
                    },
                    Some(d) => {
                        if c != d {
                            return false;
                        }
                        proof {
                            i = i + 1;
                        }
                    },
                }
            },
        }
    }
}

/// The character of the decimal digit `d`.
pub open spec fn digit_char(d: nat) -> char
    recommends
        d < 10,
{
    (('0' as nat) + d) as char
}

/// The decimal numeral of `n`, without leading zeros.
pub open spec fn decimal(n: nat) -> Seq<char>
    decreases n,
{
    if n < 10 {
        seq![digit_char(n)]
    } else {
        decimal(n / 10).push(digit_char(n % 10))
    }
}

fn digit_str(d: u32) -> (r: &'static str)
    requires
        d < 10,
    ensures
        r@ == seq![digit_char(d as nat)],
{
    proof {
        reveal_strlit("0");
        reveal_strlit("1");
        reveal_strlit("2");
        reveal_strlit("3");
        reveal_strlit("4");
        reveal_strlit("5");
        reveal_strlit("6");
        reveal_strlit("7");
        reveal_strlit("8");
        reveal_strlit("9");
    }
    match d {
        0 => "0",
        1 => "1",
        2 => "2",
        3 => "3",
        4 => "4",
        5 => "5",
        6 => "6",
        7 => "7",
        8 => "8",
        _ => "9",
    }
}

/// Writes `n` as a decimal numeral.
pub fn decimal_string(n: u32) -> (r: String)
    ensures
        r@ == decimal(n as nat),
    decreases n,
{
    if n < 10 {
        digit_str(n).to_owned()
    } else {
        let mut text = decimal_string(n / 10);
        text.append(digit_str(n % 10));
        text
    }
}

/// A numeral consists of digits, so it is never empty and holds no `-`.
pub proof fn lemma_decimal_digits(n: nat)
    ensures
        decimal(n).len() > 0,
        forall|i: int| 0 <= i < decimal(n).len() ==> '0' <= #[trigger] decimal(n)[i] <= '9',
    decreases n,
{
    if n >= 10 {
        lemma_decimal_digits(n / 10);
    }
}

/// Different numbers have different numerals.
pub proof fn lemma_decimal_injective(m: nat, n: nat)
    requires
        decimal(m) == decimal(n),
    ensures
        m == n,
    decreases m,
{
    lemma_decimal_digits(m / 10);
    lemma_decimal_digits(n / 10);
    assert(decimal(n).last() == digit_char(n % 10));
    if m >= 10 && n >= 10 {
        assert(decimal(m).drop_last() =~= decimal(m / 10));
        assert(decimal(n).drop_last() =~= decimal(n / 10));
        lemma_decimal_injective(m / 10, n / 10);
    }
}

/// Reading a numeral back, digit after digit, gives the number.
proof fn lemma_decimal_value(n: nat)
    ensures
        decimal(n).fold_left(0int, |value: int, c: char| 10 * value + (c as int - '0' as int)) == n,
        decimal(n)[0] == '0' ==> n == 0,
    decreases n,
{
    let read = |value: int, c: char| 10 * value + (c as int - '0' as int);
    lemma_decimal_digits(n);
    if n < 10 {
        assert(decimal(n).drop_last() =~= Seq::<char>::empty());
        reveal_with_fuel(Seq::fold_left, 2);
    } else {
        lemma_decimal_value(n / 10);
        lemma_decimal_digits(n / 10);
        assert(decimal(n).drop_last() =~= decimal(n / 10));
        assert(decimal(n)[0] == decimal(n / 10)[0]);
        assert(decimal(n).fold_left(0int, read) == read(
            decimal(n / 10).fold_left(0int, read),
            decimal(n).last(),
        ));
    }
}

/// A number is written in decimal: what is written are digits only, read from left to
/// right they give the number back, and there is no leading zero.
pub proof fn law_numeral_reads_back(n: u32, r: String)
    requires
        call_ensures(decimal_string, (n,), r),
    ensures
        r@.len() > 0,
        forall|i: int| 0 <= i < r@.len() ==> '0' <= #[trigger] r@[i] <= '9',
        r@[0] == '0' ==> r@.len() == 1,
        r@.fold_left(0int, |value: int, c: char| 10 * value + (c as int - '0' as int)) == n,
{
    lemma_decimal_digits(n as nat);
    lemma_decimal_value(n as nat);
}

} // verus!
