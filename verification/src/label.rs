//! The shared label's text: a human-readable summary of the selection
//! state.
//!
//! The wording is fixed: `"No tracks selected"` while nothing is selected,
//! otherwise the count followed by `" tracks selected"` (the pluralization
//! is kept as-is even for a count of one).

use vstd::prelude::*;

verus! {

/// The decimal digit character for `d`.
pub open spec fn digit_char(d: nat) -> char {
    if d == 0 {
        '0'
    } else if d == 1 {
        '1'
    } else if d == 2 {
        '2'
    } else if d == 3 {
        '3'
    } else if d == 4 {
        '4'
    } else if d == 5 {
        '5'
    } else if d == 6 {
        '6'
    } else if d == 7 {
        '7'
    } else if d == 8 {
        '8'
    } else {
        '9'
    }
}

/// The usual decimal rendering of `n`: most significant digit first, no
/// leading zeros except for `n == 0` itself.
pub open spec fn decimal_digits(n: nat) -> Seq<char>
    decreases n,
{
    if n < 10 {
        seq![digit_char(n)]
    } else {
        decimal_digits(n / 10) + seq![digit_char(n % 10)]
    }
}

/// The label text summarizing a selection of `count` tracks.
pub open spec fn label_text_spec(count: nat) -> Seq<char> {
    if count == 0 {
        "No tracks selected"@
    } else {
        decimal_digits(count) + " tracks selected"@
    }
}

/// Appends the decimal rendering of `n` to `out`.
fn append_decimal(n: usize, out: &mut String)
    ensures
        final(out)@ == old(out)@ + decimal_digits(n as nat),
    decreases n,
{
    if n >= 10 {
        append_decimal(n / 10, out);
    }
    let digit: &str = match n % 10 {
        0 => "0",
        1 => "1",
        2 => "2",
        3 => "3",
        4 => "4",
        5 => "5",
        6 => "6",
        7 => "7",
        8 => "8",
        _ => "9",
    };
    proof {
        reveal_strlit("0");
        reveal_strlit("1");
        reveal_strlit("2");
        reveal_strlit("3");
        reveal_strlit("4");
        reveal_strlit("5");
        reveal_strlit("6");
        reveal_strlit("7");
        reveal_strlit("8");
        reveal_strlit("9");
        assert(digit@ =~= seq![digit_char((n % 10) as nat)]);
    }
    out.append(digit);
    proof {
        assert(out@ =~= old(out)@ + decimal_digits(n as nat));
    }
}

/// Builds the label text for a selection of `count` tracks.
pub fn label_text(count: usize) -> (r: String)
    ensures
        r@ == label_text_spec(count as nat),
{
    if count == 0 {
        String::from_str("No tracks selected")
    } else {
        let mut out = String::new();
        append_decimal(count, &mut out);
        out.append(" tracks selected");
        proof {
            assert(out@ =~= label_text_spec(count as nat));
        }
        out
    }
}

} // verus!
