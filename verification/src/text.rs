//! Numbers in text.
use vstd::prelude::*;

verus! {

/// The character of a digit.
pub open spec fn digit_char(d: nat) -> char
    recommends
        d < 10,
{
    ('0' as u32 + d) as char
}

/// A number in decimal notation.
pub open spec fn decimal(n: nat) -> Seq<char>
    decreases n,
{
    if n < 10 {
        seq![digit_char(n)]
    } else {
        decimal(n / 10).push(digit_char(n % 10))
    }
}

/// The number that a text of digits stands for.
pub open spec fn decimal_value(text: Seq<char>) -> int
    decreases text.len(),
{
    if text.len() == 0 {
        0
    } else {
        10 * decimal_value(text.drop_last()) + (text.last() as u32 - '0' as u32)
    }
}

/// The notation keeps the number: reading it back gives the number again.
pub proof fn decimal_keeps_the_number(n: nat)
    ensures
        decimal_value(decimal(n)) == n,
    decreases n,
{
    if n < 10 {
        assert(decimal(n).drop_last() =~= Seq::<char>::empty());
        assert(decimal_value(decimal(n).drop_last()) == 0);
    } else {
        decimal_keeps_the_number(n / 10);
        assert(decimal(n).drop_last() =~= decimal(n / 10));
    }
}

/// The notation of a number below `10^width` has at least one and at most `width` characters,
/// all of them ASCII.
pub(crate) proof fn lemma_decimal_shape(n: nat, width: nat)
    requires
        n < vstd::arithmetic::power::pow(10, width),
        width > 0,
    ensures
        1 <= decimal(n).len() <= width,
        vstd::utf8::is_ascii_chars(decimal(n)),
    decreases n,
{
    reveal(vstd::arithmetic::power::pow);
    if n >= 10 {
        if width == 1 {
            assert(vstd::arithmetic::power::pow(10, 0) == 1);
            assert(false);
        }
        assert(vstd::arithmetic::power::pow(10, width) == 10 * vstd::arithmetic::power::pow(
            10,
            (width - 1) as nat,
        ));
        lemma_decimal_shape(n / 10, (width - 1) as nat);
    }
}

fn digit_str(d: u32) -> (text: &'static str)
    requires
        d < 10,
    ensures
        text@ == seq![digit_char(d as nat)],
{
    proof {
        reveal_strlit("0");
        reveal_strlit("1");
        reveal_strlit("2");
        reveal_strlit("3");
        reveal_strlit("4");
        reveal_strlit("5");
        reveal_strlit("6");
        reveal_strlit("7");
        reveal_strlit("8");
        reveal_strlit("9");
    }
    match d {
        0 => "0",
        1 => "1",
        2 => "2",
        3 => "3",
        4 => "4",
        5 => "5",
        6 => "6",
        7 => "7",
        8 => "8",
        _ => "9",
    }
}

/// The decimal notation of `n`.
pub fn decimal_string(n: u32) -> (text: String)
    ensures
        text@ == decimal(n as nat),
    decreases n,
{
    if n < 10 {
        digit_str(n).to_owned()
    } else {
        let mut text: String = decimal_string(n / 10);
        text.append(digit_str(n % 10));
        text
    }
}

/// The notation is the usual one: only digits, and no zero in front but for the number zero
/// itself.
pub proof fn decimal_is_the_usual_notation(n: nat)
    ensures
        decimal(n).len() > 0,
        forall|i: int| 0 <= i < decimal(n).len() ==> '0' <= #[trigger] decimal(n)[i] <= '9',
        decimal(n)[0] == '0' ==> n == 0 && decimal(n).len() == 1,
    decreases n,
{
    if n >= 10 {
        decimal_is_the_usual_notation(n / 10);
        assert(decimal(n)[0] == decimal(n / 10)[0]);
        assert forall|i: int| 0 <= i < decimal(n).len() implies '0' <= #[trigger] decimal(n)[i]
            <= '9' by {
            if i < decimal(n).len() - 1 {
                assert(decimal(n)[i] == decimal(n / 10)[i]);
            }
        }
    }
}

/// Reading digits is what one expects: one more digit at the end is worth itself, and makes those
/// before it worth ten times as much.
pub proof fn a_digit_more_counts_tenfold(text: Seq<char>, digit: char)
    ensures
        decimal_value(Seq::empty()) == 0,
        decimal_value(text.push(digit)) == 10 * decimal_value(text) + digit as u32 - '0' as u32,
{
    assert(text.push(digit).drop_last() =~= text);
}

} // verus!
