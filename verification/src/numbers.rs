//! Decimal rendering of numeric data elements.
//!
//! Integers appear on the wire in plain decimal; fixed-width numeric fields
//! (the twelve-digit message size, date and time components) are zero-padded
//! on the left up to their declared width.

use vstd::prelude::*;

verus! {

use vstd::string::{StrSliceExecFns, StringExecFns};

/// The decimal digit character for a value below ten.
pub open spec fn dec_digit(d: nat) -> char {
    if d == 0 {
        '0'
    } else if d == 1 {
        '1'
    } else if d == 2 {
        '2'
    } else if d == 3 {
        '3'
    } else if d == 4 {
        '4'
    } else if d == 5 {
        '5'
    } else if d == 6 {
        '6'
    } else if d == 7 {
        '7'
    } else if d == 8 {
        '8'
    } else {
        '9'
    }
}

/// The plain decimal rendering of `n`, most significant digit first, with no
/// leading zeros (except for `n == 0`, which renders as a single `0`).
pub open spec fn dec_text(n: nat) -> Seq<char>
    decreases n,
{
    if n < 10 {
        seq![dec_digit(n)]
    } else {
        dec_text(n / 10) + seq![dec_digit(n % 10)]
    }
}

/// A run of `k` zero characters.
pub open spec fn zero_run(k: nat) -> Seq<char> {
    Seq::new(k, |i: int| '0')
}

/// The decimal rendering of `n` left-padded with zeros to at least `width`
/// characters.  A value too wide for the field keeps all its digits.
pub open spec fn dec_text_padded(n: nat, width: nat) -> Seq<char> {
    if dec_text(n).len() >= width {
        dec_text(n)
    } else {
        zero_run((width - dec_text(n).len()) as nat) + dec_text(n)
    }
}

/// Ten to the power `k`.
pub open spec fn pow10(k: nat) -> nat
    decreases k,
{
    if k == 0 {
        1
    } else {
        10 * pow10((k - 1) as nat)
    }
}

/// Every character of a decimal rendering is an ASCII digit.
pub proof fn lemma_dec_text_digits(n: nat)
    ensures
        forall|i: int|
            0 <= i < dec_text(n).len() ==> '0' <= #[trigger] dec_text(n)[i] && dec_text(n)[i]
                <= '9',
    decreases n,
{
    if n < 10 {
    } else {
        lemma_dec_text_digits(n / 10);
        let pre = dec_text(n / 10);
        assert forall|i: int| 0 <= i < dec_text(n).len() implies '0' <= #[trigger] dec_text(n)[i]
            && dec_text(n)[i] <= '9' by {
            if i < pre.len() {
                assert(dec_text(n)[i] == pre[i]);
            } else {
                assert(dec_text(n)[i] == dec_digit(n % 10));
            }
        }
    }
}

/// A decimal rendering is never empty.
pub proof fn lemma_dec_text_nonempty(n: nat)
    ensures
        dec_text(n).len() >= 1,
    decreases n,
{
    if n < 10 {
    } else {
        lemma_dec_text_nonempty(n / 10);
    }
}

/// A value below `pow10(k)` renders in at most `k` digits (for `k >= 1`).
pub proof fn lemma_dec_text_len(n: nat, k: nat)
    requires
        k >= 1,
        n < pow10(k),
    ensures
        dec_text(n).len() <= k,
    decreases n,
{
    if n < 10 {
    } else {
        assert(pow10(k) == 10 * pow10((k - 1) as nat));
        assert(n / 10 < pow10((k - 1) as nat)) by (nonlinear_arith)
            requires
                n < 10 * pow10((k - 1) as nat),
                n >= 10,
        ;
        assert(k >= 2) by {
            if k == 1 {
                assert(pow10(1nat) == 10);
            }
        }
        lemma_dec_text_len(n / 10, (k - 1) as nat);
    }
}

/// A value below `pow10(width)` pads to exactly `width` characters.
pub proof fn lemma_dec_text_padded_len(n: nat, width: nat)
    requires
        width >= 1,
        n < pow10(width),
    ensures
        dec_text_padded(n, width).len() == width,
{
    lemma_dec_text_len(n, width);
    lemma_dec_text_nonempty(n);
}

/// Every character of a padded decimal rendering is an ASCII digit.
pub proof fn lemma_dec_text_padded_digits(n: nat, width: nat)
    ensures
        forall|i: int|
            0 <= i < dec_text_padded(n, width).len() ==> '0' <= #[trigger] dec_text_padded(
                n,
                width,
            )[i] && dec_text_padded(n, width)[i] <= '9',
{
    lemma_dec_text_digits(n);
}

/// The decimal digit character for one value, as a borrowed literal.
fn digit_str(d: u64) -> (r: &'static str)
    requires
        d < 10,
    ensures
        r@ == seq![dec_digit(d as nat)],
{
    let r: &'static str = if d == 0 {
        "0"
    } else if d == 1 {
        "1"
    } else if d == 2 {
        "2"
    } else if d == 3 {
        "3"
    } else if d == 4 {
        "4"
    } else if d == 5 {
        "5"
    } else if d == 6 {
        "6"
    } else if d == 7 {
        "7"
    } else if d == 8 {
        "8"
    } else {
        "9"
    };
    proof {
        reveal_strlit("0");
        reveal_strlit("1");
        reveal_strlit("2");
        reveal_strlit("3");
        reveal_strlit("4");
        reveal_strlit("5");
        reveal_strlit("6");
        reveal_strlit("7");
        reveal_strlit("8");
        reveal_strlit("9");
        assert(r@ =~= seq![dec_digit(d as nat)]);
    }
    r
}

/// Render `n` in plain decimal.
pub fn u64_dec_text(n: u64) -> (r: String)
    ensures
        r@ == dec_text(n as nat),
    decreases n,
{
    if n < 10 {
        String::from_str(digit_str(n))
    } else {
        let mut r = u64_dec_text(n / 10);
        r.append(digit_str(n % 10));
        r
    }
}

/// Render `n` in decimal, zero-padded on the left to at least `width`
/// characters.
pub fn u64_dec_padded(n: u64, width: usize) -> (r: String)
    ensures
        r@ == dec_text_padded(n as nat, width as nat),
{
    let d = u64_dec_text(n);
    let len = d.as_str().unicode_len();
    if len >= width {
        d
    } else {
        let mut r = String::new();
        let mut j: usize = 0;
        proof {
            assert(r@ =~= zero_run(0));
        }
        while j < width - len
            invariant
                j <= width - len,
                r@ == zero_run(j as nat),
            decreases width - len - j,
        {
            r.append("0");
            proof {
                reveal_strlit("0");
                assert(zero_run(j as nat) + "0"@ =~= zero_run((j + 1) as nat));
            }
            j = j + 1;
        }
        r.append(d.as_str());
        r
    }
}

} // verus!
