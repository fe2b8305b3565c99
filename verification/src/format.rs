use vstd::prelude::*;

use crate::color::hex_rgb_text;
use crate::text::{decimal, u64_to_decimal};
use crate::theme::Theme;

verus! {

/// The text of the fraction `num/den` as a dim superscript/subscript pair;
/// empty when there is at most one page (`den <= 1`).
pub open spec fn fraction_text(theme: Theme, num: nat, den: nat) -> Seq<char> {
    if den <= 1 {
        Seq::empty()
    } else {
        " <span line_height=\"1024\" foreground=\""@ + hex_rgb_text(theme.dim) + "\"><sup>"@ + decimal(num)
            + "</sup>/<sub>"@ + decimal(den) + "</sub></span>"@
    }
}

/// Shows `num/den` (e.g. the page of a paginated item) as pango markup.
pub fn fraction(theme: &Theme, num: usize, den: usize) -> (r: String)
    ensures
        r@ == fraction_text(*theme, num as nat, den as nat),
{
    if den <= 1 {
        return String::new();
    }
    // the `line_height` hack keeps the vertical alignment of the other text in the block
    let mut r = String::from_str(" <span line_height=\"1024\" foreground=\"");
    let dim = theme.dim.display_rgb();
    r.append(dim.as_str());
    r.append("\"><sup>");
    let n = u64_to_decimal(num as u64);
    r.append(n.as_str());
    r.append("</sup>/<sub>");
    let d = u64_to_decimal(den as u64);
    r.append(d.as_str());
    r.append("</sub></span>");
    r
}

/// How to show a number with a fractional part.
#[derive(Debug, Clone, Default, PartialEq, Eq, Structural)]
pub struct FloatFormat {
    /// The character to pad with, if any.
    pub pad: Option<char>,
    /// The width to pad to; by default wide enough for `100` plus the
    /// decimal separator and the digits after it.
    pub pad_count: Option<usize>,
    /// The number of digits after the decimal separator.
    pub precision: usize,
}

/// The width that numbers are padded to.
pub open spec fn pad_width(fmt: FloatFormat) -> nat {
    match fmt.pad_count {
        Some(c) => c as nat,
        None => if fmt.precision > 0 { (3 + 1 + fmt.precision) as nat } else { 3 },
    }
}

/// `n` copies of `c`.
pub open spec fn repeat_char(c: char, n: nat) -> Seq<char>
    decreases n,
{
    if n == 0 {
        Seq::empty()
    } else {
        repeat_char(c, (n - 1) as nat).push(c)
    }
}

/// The padding put before a number with `digits` digits in its integer part.
pub open spec fn float_padding_text(fmt: FloatFormat, digits: nat) -> Seq<char> {
    match fmt.pad {
        None => Seq::empty(),
        Some(c) => if digits >= pad_width(fmt) { Seq::empty() } else { repeat_char(c, (pad_width(fmt) - digits) as nat) },
    }
}

/// The padding put before a number whose integer part has `digits` digits.
pub fn float_padding(fmt: &FloatFormat, digits: usize) -> (r: String)
    requires
        fmt.precision <= usize::MAX - 4,
    ensures
        r@ == float_padding_text(*fmt, digits as nat),
{
    let pad_count = match fmt.pad_count {
        Some(c) => c,
        None => if fmt.precision > 0 { 3 + 1 + fmt.precision } else { 3 },
    };
    match fmt.pad {
        None => String::new(),
        Some(c) => {
            let mut r = String::new();
            if digits >= pad_count {
                return r;
            }
            let want = pad_count - digits;
            let mut i: usize = 0;
            while i < want
                invariant
                    i <= want,
                    r@ == repeat_char(c, i as nat),
                decreases want - i,
            {
                r.push(c);
                i = i + 1;
            }
            r
        },
    }
}

} // verus!
