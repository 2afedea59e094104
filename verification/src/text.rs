//! Textual renderings of attribute values.

use vstd::prelude::*;
use vstd::string::*;

verus! {

/// The character that stands for the decimal digit `d`.
pub open spec fn digit_char(d: nat) -> char {
    (48 + d) as char
}

/// The decimal rendering of `n`, most significant digit first, without
/// leading zeros (zero itself is rendered as one `0`).
pub open spec fn decimal(n: nat) -> Seq<char>
    decreases n,
{
    if n < 10 {
        seq![digit_char(n)]
    } else {
        decimal(n / 10).push(digit_char(n % 10))
    }
}

/// The rendering of a boolean: `true` or `false`.
pub open spec fn bool_text(b: bool) -> Seq<char> {
    if b { "true"@ } else { "false"@ }
}

/// The number that a string of decimal digits denotes.
pub open spec fn decimal_value(s: Seq<char>) -> int
    decreases s.len(),
{
    if s.len() == 0 {
        0
    } else {
        decimal_value(s.drop_last()) * 10 + (s.last() as int - 48)
    }
}

/// The decimal rendering of a number reads back as that number.
pub proof fn lemma_decimal_reads_back(n: nat)
    ensures
        decimal_value(decimal(n)) == n,
    decreases n,
{
    if n < 10 {
        assert(decimal(n).drop_last() =~= Seq::<char>::empty());
        assert(digit_char(n) as int == 48 + n);
        assert(decimal(n).last() == digit_char(n));
        assert(decimal_value(decimal(n)) == decimal_value(Seq::<char>::empty()) * 10 + (digit_char(n) as int - 48));
    } else {
        lemma_decimal_reads_back(n / 10);
        assert(decimal(n).drop_last() =~= decimal(n / 10));
        assert(digit_char(n % 10) as int == 48 + n % 10);
        assert(decimal(n).last() == digit_char(n % 10));
        vstd::arithmetic::div_mod::lemma_fundamental_div_mod(n as int, 10);
        assert(decimal_value(decimal(n)) == decimal_value(decimal(n / 10)) * 10 + (n % 10));
    }
}

/// Distinct numbers have distinct decimal renderings, so an attribute value
/// rendered from a number determines it.
pub proof fn lemma_decimal_injective(a: nat, b: nat)
    requires
        decimal(a) == decimal(b),
    ensures
        a == b,
{
    lemma_decimal_reads_back(a);
    lemma_decimal_reads_back(b);
}

/// A decimal rendering is canonical: it is not empty, every character is a
/// decimal digit, and a positive number never starts with the digit zero. With
/// `lemma_decimal_reads_back` this fixes the rendering of every number.
pub proof fn lemma_decimal_canonical(n: nat)
    ensures
        decimal(n).len() >= 1,
        forall|i: int| 0 <= i < decimal(n).len() ==> 48 <= #[trigger] (decimal(n)[i] as int) <= 57,
        n > 0 ==> decimal(n)[0] as int != 48,
        decimal(n).len() == 1 <==> n < 10,
    decreases n,
{
    if n < 10 {
        assert(digit_char(n) as int == 48 + n);
    } else {
        lemma_decimal_canonical(n / 10);
        assert(digit_char(n % 10) as int == 48 + n % 10);
        let d = decimal(n);
        assert forall|i: int| 0 <= i < d.len() implies 48 <= #[trigger] (d[i] as int) <= 57 by {
            if i < d.len() - 1 {
                assert(d[i] == decimal(n / 10)[i]);
            }
        }
        assert(d[0] == decimal(n / 10)[0]);
    }
}

fn digit_str(d: usize) -> (s: &'static str)
    requires
        d < 10,
    ensures
        s@ == seq![digit_char(d as nat)],
{
    proof {
        reveal_strlit("0");
        reveal_strlit("1");
        reveal_strlit("2");
        reveal_strlit("3");
        reveal_strlit("4");
        reveal_strlit("5");
        reveal_strlit("6");
        reveal_strlit("7");
        reveal_strlit("8");
        reveal_strlit("9");
    }
    match d {
        0 => "0",
        1 => "1",
        2 => "2",
        3 => "3",
        4 => "4",
        5 => "5",
        6 => "6",
        7 => "7",
        8 => "8",
        _ => "9",
    }
}

/// Renders `n` in decimal, as `usize::to_string` does.
pub fn usize_text(n: usize) -> (s: String)
    ensures
        s@ == decimal(n as nat),
        decimal_value(s@) == n,
        s@.len() >= 1,
        forall|i: int| 0 <= i < s@.len() ==> 48 <= #[trigger] (s@[i] as int) <= 57,
        n > 0 ==> s@[0] as int != 48,
    decreases n,
{
    proof {
        lemma_decimal_reads_back(n as nat);
        lemma_decimal_canonical(n as nat);
    }
    if n < 10 {
        String::from_str(digit_str(n))
    } else {
        let mut s = usize_text(n / 10);
        s.append(digit_str(n % 10));
        s
    }
}

/// Renders `b` as `bool::to_string` does.
pub fn bool_to_text(b: bool) -> (s: String)
    ensures
        s@ == bool_text(b),
        b ==> s@ == "true"@,
        !b ==> s@ == "false"@,
{
    if b {
        String::from_str("true")
    } else {
        String::from_str("false")
    }
}

} // verus!
