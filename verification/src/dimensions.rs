//! The `Dimensions` value type: a width/height pair with a text rendering.

use vstd::prelude::*;
use crate::text::push_tenths;
use crate::text::tenths_text;

verus! {

/// A length in tenths of a millimeter.
///
/// The catalog's unit of account: every standard size is authored to at most
/// one decimal place of a millimeter, so tenths represent each entry exactly.
pub type TenthMillimeters = u64;

/// A width/height pair in tenths of a millimeter.
///
/// A plain value: two `Dimensions` with equal width and height are
/// interchangeable, and a value is never mutated after construction.
#[derive(Debug, Copy, Clone, PartialEq, Eq, Structural)]
pub struct Dimensions {
    pub width: TenthMillimeters,
    pub height: TenthMillimeters,
}

/// The display text of `d`: its width, then `x`, then its height, each in
/// millimeters with the tenths digit shown only when it is not zero
/// (width 2100, height 2970 reads `210x297`; 2159 by 3556 reads
/// `215.9x355.6`).
pub open spec fn dimensions_text(d: Dimensions) -> Seq<char> {
    tenths_text(d.width as nat) + seq!['x'] + tenths_text(d.height as nat)
}

impl Dimensions {
    /// Renders this pair as `<width>x<height>`.
    pub fn render(&self) -> (r: String)
        ensures
            r@ == dimensions_text(*self),
    {
        let mut s = String::new();
        push_tenths(&mut s, self.width);
        proof {
            reveal_strlit("x");
            assert("x"@ =~= seq!['x']);
        }
        s.append("x");
        push_tenths(&mut s, self.height);
        proof {
            assert(s@ =~= dimensions_text(*self));
        }
        s
    }
}

impl core::convert::From<(u64, u64)> for Dimensions {
    /// Builds a `Dimensions` from a raw `(width, height)` pair of tenths.
    fn from(value: (u64, u64)) -> (r: Self) {
        Dimensions { width: value.0, height: value.1 }
    }
}

impl vstd::std_specs::convert::FromSpecImpl<(u64, u64)> for Dimensions {
    open spec fn obeys_from_spec() -> bool {
        true
    }

    open spec fn from_spec(value: (u64, u64)) -> Self {
        Dimensions { width: value.0, height: value.1 }
    }
}

} // verus!
