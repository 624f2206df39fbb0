//! The per-message spending ceiling and its wire rendering.
//!
//! The service takes the ceiling as a decimal string. The ceiling is held
//! here in hundredths of the currency unit, and rendered the way a decimal
//! with at most two fractional digits prints: trailing fractional zeros are
//! dropped, so one hundredth renders as "0.01", fifty hundredths as "0.5",
//! and whole amounts without any fraction at all.

use vstd::prelude::*;

verus! {

/// The decimal digit character for `d`, as a one-character string view.
pub open spec fn spec_digit(d: nat) -> Seq<char> {
    if d == 0 {
        "0"@
    } else if d == 1 {
        "1"@
    } else if d == 2 {
        "2"@
    } else if d == 3 {
        "3"@
    } else if d == 4 {
        "4"@
    } else if d == 5 {
        "5"@
    } else if d == 6 {
        "6"@
    } else if d == 7 {
        "7"@
    } else if d == 8 {
        "8"@
    } else {
        "9"@
    }
}

/// The decimal rendering of `n`: most significant digit first, no leading
/// zeros (a lone zero for `n == 0`).
pub open spec fn spec_digits(n: nat) -> Seq<char>
    decreases n,
{
    if n < 10 {
        spec_digit(n)
    } else {
        spec_digits(n / 10) + spec_digit(n % 10)
    }
}

/// The decimal rendering of a price of `hundredths` hundredths: the whole
/// part in full, then the fraction with trailing zeros dropped.
pub open spec fn spec_price_string(hundredths: nat) -> Seq<char> {
    let whole = hundredths / 100;
    let frac = hundredths % 100;
    if frac == 0 {
        spec_digits(whole)
    } else if frac % 10 == 0 {
        spec_digits(whole) + "."@ + spec_digit(frac / 10)
    } else if frac < 10 {
        spec_digits(whole) + ".0"@ + spec_digit(frac)
    } else {
        spec_digits(whole) + "."@ + spec_digit(frac / 10) + spec_digit(frac % 10)
    }
}

/// The one-character string for digit `d`.
fn digit_str(d: u64) -> (r: &'static str)
    requires
        d < 10,
    ensures
        r@ == spec_digit(d as nat),
{
    if d == 0 {
        "0"
    } else if d == 1 {
        "1"
    } else if d == 2 {
        "2"
    } else if d == 3 {
        "3"
    } else if d == 4 {
        "4"
    } else if d == 5 {
        "5"
    } else if d == 6 {
        "6"
    } else if d == 7 {
        "7"
    } else if d == 8 {
        "8"
    } else {
        "9"
    }
}

/// Append the decimal rendering of `n` to `out`.
fn append_digits(n: u64, out: &mut String)
    ensures
        final(out)@ == old(out)@ + spec_digits(n as nat),
    decreases n,
{
    if n < 10 {
        out.append(digit_str(n));
    } else {
        append_digits(n / 10, out);
        out.append(digit_str(n % 10));
        assert(out@ =~= old(out)@ + spec_digits(n as nat));
    }
}

/// A per-message spending ceiling, in hundredths of the currency unit.
#[derive(Clone, Copy, Debug, PartialEq, Eq, Structural)]
pub struct MaxPrice {
    pub hundredths: u64,
}

impl MaxPrice {
    /// The decimal string this ceiling renders to.
    pub open spec fn spec_string(&self) -> Seq<char> {
        spec_price_string(self.hundredths as nat)
    }

    /// Render the ceiling as the decimal string the service expects.
    pub fn render(&self) -> (r: String)
        ensures
            r@ == self.spec_string(),
    {
        let whole: u64 = self.hundredths / 100;
        let frac: u64 = self.hundredths % 100;
        let mut out = String::new();
        append_digits(whole, &mut out);
        if frac == 0 {
        } else if frac % 10 == 0 {
            out.append(".");
            out.append(digit_str(frac / 10));
        } else if frac < 10 {
            out.append(".0");
            out.append(digit_str(frac));
        } else {
            out.append(".");
            out.append(digit_str(frac / 10));
            out.append(digit_str(frac % 10));
        }
        assert(out@ =~= self.spec_string());
        out
    }
}

} // verus!
