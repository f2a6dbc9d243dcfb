//! Small facts and routines about text: decimal numerals and joined lists.

use vstd::prelude::*;
use vstd::string::*;

verus! {

/// The character for one decimal digit.
pub open spec fn digit(d: int) -> char {
    if d == 0 {
        '0'
    } else if d == 1 {
        '1'
    } else if d == 2 {
        '2'
    } else if d == 3 {
        '3'
    } else if d == 4 {
        '4'
    } else if d == 5 {
        '5'
    } else if d == 6 {
        '6'
    } else if d == 7 {
        '7'
    } else if d == 8 {
        '8'
    } else {
        '9'
    }
}

/// The decimal numeral of a natural number, without leading zeros.
pub open spec fn decimal_nat(n: nat) -> Seq<char>
    decreases n,
{
    if n < 10 {
        seq![digit(n as int)]
    } else {
        decimal_nat(n / 10).push(digit((n % 10) as int))
    }
}

/// The decimal numeral of an integer: a `-` before the numeral of its
/// magnitude when it is negative.
pub open spec fn decimal(n: int) -> Seq<char> {
    if n < 0 {
        seq!['-'] + decimal_nat((-n) as nat)
    } else {
        decimal_nat(n as nat)
    }
}

/// A character that a decimal numeral can hold: a digit or the sign.
pub open spec fn is_numeral_char(c: char) -> bool {
    c == '-' || c == '0' || c == '1' || c == '2' || c == '3' || c == '4' || c == '5' || c == '6'
        || c == '7' || c == '8' || c == '9'
}

/// The numeral of a natural number is not empty and holds digits alone.
pub proof fn decimal_nat_holds_digits(n: nat)
    ensures
        decimal_nat(n).len() >= 1,
        n >= 10 ==> decimal_nat(n).len() >= 2,
        forall|i: int|
            0 <= i < decimal_nat(n).len() ==> is_numeral_char(#[trigger] decimal_nat(n)[i])
                && decimal_nat(n)[i] != '-',
    decreases n,
{
    if n >= 10 {
        decimal_nat_holds_digits(n / 10);
    }
}

/// Different natural numbers have different numerals.
pub proof fn decimal_nat_is_injective(a: nat, b: nat)
    requires
        decimal_nat(a) == decimal_nat(b),
    ensures
        a == b,
    decreases a,
{
    decimal_nat_holds_digits(a);
    decimal_nat_holds_digits(b);
    if a < 10 {
        assert(decimal_nat(a)[0] == digit(a as int));
        if b >= 10 {
            assert(false);
        } else {
            assert(decimal_nat(b)[0] == digit(b as int));
        }
    } else {
        if b < 10 {
            assert(false);
        } else {
            let front_a = decimal_nat(a / 10);
            let front_b = decimal_nat(b / 10);
            assert(decimal_nat(a).drop_last() =~= front_a);
            assert(decimal_nat(b).drop_last() =~= front_b);
            assert(decimal_nat(a).last() == digit((a % 10) as int));
            assert(decimal_nat(b).last() == digit((b % 10) as int));
            decimal_nat_is_injective(a / 10, b / 10);
        }
    }
}

/// The numeral of an integer is not empty and holds digits and the sign
/// alone.
pub proof fn decimal_holds_numeral_chars(n: int)
    ensures
        decimal(n).len() >= 1,
        forall|i: int| 0 <= i < decimal(n).len() ==> is_numeral_char(#[trigger] decimal(n)[i]),
{
    if n < 0 {
        decimal_nat_holds_digits((-n) as nat);
    } else {
        decimal_nat_holds_digits(n as nat);
    }
}

/// Different integers have different numerals.
pub proof fn decimal_is_injective(a: int, b: int)
    requires
        decimal(a) == decimal(b),
    ensures
        a == b,
{
    let magnitude_a = (if a < 0 { -a } else { a }) as nat;
    let magnitude_b = (if b < 0 { -b } else { b }) as nat;
    decimal_nat_holds_digits(magnitude_a);
    decimal_nat_holds_digits(magnitude_b);
    if a < 0 && b < 0 {
        assert(decimal(a).drop_first() =~= decimal_nat(magnitude_a));
        assert(decimal(b).drop_first() =~= decimal_nat(magnitude_b));
        decimal_nat_is_injective(magnitude_a, magnitude_b);
    } else if a >= 0 && b >= 0 {
        decimal_nat_is_injective(magnitude_a, magnitude_b);
    } else if a < 0 {
        assert(decimal(a)[0] == '-');
        assert(decimal(b)[0] == decimal_nat(magnitude_b)[0]);
    } else {
        assert(decimal(b)[0] == '-');
        assert(decimal(a)[0] == decimal_nat(magnitude_a)[0]);
    }
}

/// `parts` written one after another with `separator` between neighbours.
pub open spec fn joined(parts: Seq<Seq<char>>, separator: Seq<char>) -> Seq<char>
    decreases parts.len(),
{
    if parts.len() == 0 {
        Seq::empty()
    } else if parts.len() == 1 {
        parts[0]
    } else {
        joined(parts.drop_last(), separator) + separator + parts.last()
    }
}

/// Whether two pieces of text hold the same characters.
pub fn equal(left: &str, right: &str) -> (same: bool)
    ensures
        same == (left@ == right@),
{
    let left = left.to_owned();
    let right = right.to_owned();
    left == right
}

/// Joins `parts` with `separator`.
pub fn join(parts: &Vec<String>, separator: &str) -> (out: String)
    ensures
        out@ == joined(parts.deep_view(), separator@),
{
    let mut out = String::new();
    let mut i: usize = 0;
    while i < parts.len()
        invariant
            i <= parts.len(),
            out@ == joined(parts.deep_view().take(i as int), separator@),
        decreases parts.len() - i,
    {
        let ghost before = parts.deep_view().take(i as int);
        let ghost after = parts.deep_view().take(i + 1);
        proof {
            assert(after.drop_last() =~= before);
            assert(after.last() == parts[i as int]@);
        }
        if i > 0 {
            out.append(separator);
        }
        out.append(parts[i].as_str());
        proof {
            if i == 0 {
                assert(before =~= Seq::<Seq<char>>::empty());
                assert(out@ =~= parts[i as int]@);
            }
        }
        i = i + 1;
    }
    proof {
        assert(parts.deep_view().take(parts.len() as int) =~= parts.deep_view());
    }
    out
}

} // verus!
