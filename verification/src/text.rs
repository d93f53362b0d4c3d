//! Decimal rendering of unsigned peer identifiers.
use vstd::prelude::*;

verus! {

/// The character for a single decimal digit value.
pub open spec fn digit_char(d: nat) -> char {
    if d == 0 {
        '0'
    } else if d == 1 {
        '1'
    } else if d == 2 {
        '2'
    } else if d == 3 {
        '3'
    } else if d == 4 {
        '4'
    } else if d == 5 {
        '5'
    } else if d == 6 {
        '6'
    } else if d == 7 {
        '7'
    } else if d == 8 {
        '8'
    } else {
        '9'
    }
}

/// The usual decimal rendering of a number: most significant digit first,
/// no leading zeros (a single '0' for zero itself).
pub open spec fn u64_digits(n: nat) -> Seq<char>
    decreases n,
{
    if n < 10 {
        seq![digit_char(n)]
    } else {
        u64_digits(n / 10).push(digit_char(n % 10))
    }
}

/// A decimal rendering is never the empty string.
pub proof fn lemma_u64_digits_nonempty(n: nat)
    ensures
        u64_digits(n).len() >= 1,
    decreases n,
{
    if n >= 10 {
        lemma_u64_digits_nonempty(n / 10);
    }
}

fn append_u64_digits(s: &mut String, n: u64)
    ensures
        final(s)@ == old(s)@ + u64_digits(n as nat),
    decreases n,
{
    if n >= 10 {
        proof {
            assert(n / 10 < n) by (nonlinear_arith)
                requires
                    n >= 10,
            ;
        }
        append_u64_digits(s, n / 10);
    }
    let d: u64 = n % 10;
    let ds: &str = match d {
        0 => "0",
        1 => "1",
        2 => "2",
        3 => "3",
        4 => "4",
        5 => "5",
        6 => "6",
        7 => "7",
        8 => "8",
        _ => "9",
    };
    proof {
        reveal_strlit("0");
        reveal_strlit("1");
        reveal_strlit("2");
        reveal_strlit("3");
        reveal_strlit("4");
        reveal_strlit("5");
        reveal_strlit("6");
        reveal_strlit("7");
        reveal_strlit("8");
        reveal_strlit("9");
        assert(ds@ =~= seq![digit_char((n % 10) as nat)]);
    }
    s.append(ds);
    proof {
        assert(s@ =~= old(s)@ + u64_digits(n as nat));
    }
}

/// Renders a number in decimal, exactly as `u64_digits` describes.
pub fn u64_to_string(n: u64) -> (r: String)
    ensures
        r@ == u64_digits(n as nat),
{
    let mut s = String::new();
    append_u64_digits(&mut s, n);
    proof {
        assert(s@ =~= u64_digits(n as nat));
    }
    s
}

} // verus!
