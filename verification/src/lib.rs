//! A catalog of standard paper, envelope, business-card, and ID-card sizes.
//!
//! Each named size resolves to a fixed width and height. Dimensions are
//! stored exactly, as whole numbers of tenths of a millimeter, so every
//! catalog entry (all are authored to at most one decimal place of a
//! millimeter) is represented without rounding.

pub mod catalog;
pub mod dimensions;
pub mod text;

pub use catalog::Type;
pub use catalog::lemma_aliases;
pub use catalog::lemma_dimensions_positive;
pub use catalog::lemma_size_is_millimeters;
pub use catalog::millimeters_spec;
pub use catalog::size_spec;
pub use dimensions::Dimensions;
pub use dimensions::TenthMillimeters;
pub use dimensions::dimensions_text;
pub use text::dec_digits;
pub use text::digit_char;
pub use text::tenths_text;
