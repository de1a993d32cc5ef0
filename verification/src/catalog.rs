//! The size catalog: named standard sizes and their physical dimensions.
//!
//! Each identifier maps to exactly one (width, height) pair, authored
//! directly in tenths of a millimeter. The mapping is total and immutable.
//! Several identifiers are deliberate aliases of one physical standard
//! (noted beside the variants); they stay distinct identifiers so that
//! callers can look a size up under the name their domain uses, and they
//! resolve to identical dimension values.
//!
//! Each pair is stored exactly as its standard describes it: the catalog
//! does not normalize to "wider first" or "taller first", so callers must
//! not assume an orientation. (ArchE, for one, is stored wider than tall
//! while its siblings are taller than wide.)

use vstd::prelude::*;
use crate::dimensions::Dimensions;

verus! {

/// A named standard size. The set may grow in future revisions.
#[non_exhaustive]
#[derive(Debug, Copy, Clone)]
pub enum Type {
    // Standard US Sizes
    UsLetter,  // Same as AnsiA
    UsLegal,
    UsLedger,  // Same as AnsiB
    UsTabloid, // Same as AnsiB
    UsExecutive,
    UsJuniorLegal,
    UsHalfLetter,
    UsGovernmentLetter,
    UsGovernmentLegal,

    // US Envelope Sizes
    UsEnvelope6_25,
    UsEnvelope6_75,
    UsEnvelope7,
    UsEnvelope7_75Monarch,
    UsEnvelope8_625,
    UsEnvelope9,
    UsEnvelope10,
    UsEnvelope11,
    UsEnvelope12,
    UsEnvelope14,
    UsEnvelope16,
    UsEnvelopeA1,
    UsEnvelopeA2LadyGrey,
    UsEnvelopeA4,
    UsEnvelopeA6Thompsons,
    UsEnvelopeA7Besselheim,
    UsEnvelopeA8Carrs,
    UsEnvelopeA9Diplomat,
    UsEnvelopeA10Willow,
    UsEnvelopeALong,
    UsEnvelope1,
    UsEnvelope1_75,
    UsEnvelope3,
    UsEnvelope6,
    UsEnvelope8,
    UsEnvelope9_75,
    UsEnvelope10_5,
    UsEnvelope12_5,
    UsEnvelope13_5,
    UsEnvelope14_5,
    UsEnvelope15,
    UsEnvelope15_5,

    // ISO Envelopes
    IsoEnvelopeDL,
    IsoEnvelopeB4,
    IsoEnvelopeB5,
    IsoEnvelopeB6,
    IsoEnvelopeC3,
    IsoEnvelopeC4,
    IsoEnvelopeC4M,
    IsoEnvelopeC5,
    IsoEnvelopeC6,
    IsoEnvelopeC64M,
    IsoEnvelopeC7,
    IsoEnvelopeCE4,
    IsoEnvelopeCE64,
    IsoEnvelopeE4,
    IsoEnvelopeEC45,
    IsoEnvelopeEC5,
    IsoEnvelopeE5,
    IsoEnvelopeE56,
    IsoEnvelopeE6,
    IsoEnvelopeE65,
    IsoEnvelopeR7,
    IsoEnvelopeS4,
    IsoEnvelopeS5,
    IsoEnvelopeS65,
    IsoEnvelopeX5,
    IsoEnvelopeEX5,

    // Business cards
    UsBusinessCard,
    Iso216BusinessCard,
    EuropeanBusinessCard,
    ScandinavianBusinessCard,
    ChineseBusinessCard,
    JapaneseBusinessCard,
    IranianBusinessCarad,
    HungarianBusinessCard,

    // IDs and credit cards
    Iso7810Id1,
    CR80,          // Same as Iso7810Id1
    TD1,           // Same as Iso7810Id1
    CreditCard,    // Same as Iso7810Id1
    Iso7810Id2,
    Visa,          // Same as Iso7810Id2
    Iso7810Id3,
    Passport,      // Same as Iso7810Id3
    Iso7810Id0000,
    MiniSIM,       // Same as Iso7810Id0000

    // ISO A Sizes
    IsoA0,
    IsoA1,
    IsoA2,
    IsoA3,
    IsoA4,
    IsoA5,
    IsoA6,
    IsoA7,
    IsoA8,
    IsoA9,
    IsoA10,
    IsoA11,
    IsoA12,
    IsoA13,
    Iso2A0,
    Iso4A0,
    IsoA0Plus,
    IsoA1Plus,
    IsoA3Plus,

    // ISO B Sizes
    IsoB0,
    IsoB1,
    IsoB2,
    IsoB3,
    IsoB4,
    IsoB5,
    IsoB6,
    IsoB7,
    IsoB8,
    IsoB9,
    IsoB10,
    IsoB11,
    IsoB12,
    IsoB13,
    IsoB0Plus,
    IsoB1Plus,
    IsoB2Plus,

    // ISO C Sizes
    IsoC0,
    IsoC1,
    IsoC2,
    IsoC3,
    IsoC4,
    IsoC5,
    IsoC6,
    IsoC7,
    IsoC8,
    IsoC9,
    IsoC10,

    // North American ANSI Sizes
    AnsiE,
    AnsiD,
    AnsiC,
    AnsiB,
    AnsiA,

    // North American ARCH Sizes
    ArchE3,
    ArchE2,
    ArchE1,
    ArchE,
    ArchD,
    ArchC,
    ArchB,
    ArchA,
}

/// The dimension table: the width and height of `t`, in tenths of a
/// millimeter. This mapping is the catalog's single source of truth;
/// the accessors on [`Type`] return exactly these values.
pub open spec fn millimeters_spec(t: Type) -> Dimensions {
    match t {
        // Standard US Sizes
        Type::UsLetter => Dimensions { width: 2160, height: 2790 },
        Type::UsLegal => Dimensions { width: 2159, height: 3556 },
        Type::UsLedger => Dimensions { width: 2790, height: 4320 },
        Type::UsTabloid => Dimensions { width: 2790, height: 4320 },
        Type::UsExecutive => Dimensions { width: 1905, height: 2540 },
        Type::UsJuniorLegal => Dimensions { width: 2032, height: 1270 },
        Type::UsHalfLetter => Dimensions { width: 1400, height: 2160 },
        Type::UsGovernmentLetter => Dimensions { width: 2030, height: 2670 },
        Type::UsGovernmentLegal => Dimensions { width: 2160, height: 3300 },

        // US Envelope Sizes
        Type::UsEnvelope6_25 => Dimensions { width: 1520, height: 890 },
        Type::UsEnvelope6_75 => Dimensions { width: 1650, height: 920 },
        Type::UsEnvelope7 => Dimensions { width: 1720, height: 950 },
        Type::UsEnvelope7_75Monarch => Dimensions { width: 1910, height: 980 },
        Type::UsEnvelope8_625 => Dimensions { width: 2190, height: 920 },
        Type::UsEnvelope9 => Dimensions { width: 2250, height: 980 },
        Type::UsEnvelope10 => Dimensions { width: 2410, height: 1040 },
        Type::UsEnvelope11 => Dimensions { width: 2640, height: 1140 },
        Type::UsEnvelope12 => Dimensions { width: 2790, height: 1210 },
        Type::UsEnvelope14 => Dimensions { width: 2920, height: 1270 },
        Type::UsEnvelope16 => Dimensions { width: 3050, height: 1520 },
        Type::UsEnvelopeA1 => Dimensions { width: 920, height: 1300 },
        Type::UsEnvelopeA2LadyGrey => Dimensions { width: 1460, height: 1110 },
        Type::UsEnvelopeA4 => Dimensions { width: 1590, height: 1080 },
        Type::UsEnvelopeA6Thompsons => Dimensions { width: 1650, height: 1210 },
        Type::UsEnvelopeA7Besselheim => Dimensions { width: 1840, height: 1330 },
        Type::UsEnvelopeA8Carrs => Dimensions { width: 2060, height: 1400 },
        Type::UsEnvelopeA9Diplomat => Dimensions { width: 2220, height: 1460 },
        Type::UsEnvelopeA10Willow => Dimensions { width: 2410, height: 1520 },
        Type::UsEnvelopeALong => Dimensions { width: 2250, height: 980 },
        Type::UsEnvelope1 => Dimensions { width: 2290, height: 1520 },
        Type::UsEnvelope1_75 => Dimensions { width: 2410, height: 1520 },
        Type::UsEnvelope3 => Dimensions { width: 2540, height: 1780 },
        Type::UsEnvelope6 => Dimensions { width: 2670, height: 1910 },
        Type::UsEnvelope8 => Dimensions { width: 2860, height: 2100 },
        Type::UsEnvelope9_75 => Dimensions { width: 2860, height: 2220 },
        Type::UsEnvelope10_5 => Dimensions { width: 3050, height: 2290 },
        Type::UsEnvelope12_5 => Dimensions { width: 3180, height: 2410 },
        Type::UsEnvelope13_5 => Dimensions { width: 3300, height: 2540 },
        Type::UsEnvelope14_5 => Dimensions { width: 3680, height: 2920 },
        Type::UsEnvelope15 => Dimensions { width: 3810, height: 2540 },
        Type::UsEnvelope15_5 => Dimensions { width: 3940, height: 3050 },

        // ISO Envelopes
        Type::IsoEnvelopeDL => Dimensions { width: 1100, height: 2200 },
        Type::IsoEnvelopeB4 => Dimensions { width: 2500, height: 3530 },
        Type::IsoEnvelopeB5 => Dimensions { width: 1760, height: 2500 },
        Type::IsoEnvelopeB6 => Dimensions { width: 1250, height: 1760 },
        Type::IsoEnvelopeC3 => Dimensions { width: 3240, height: 4580 },
        Type::IsoEnvelopeC4 => Dimensions { width: 2290, height: 3240 },
        Type::IsoEnvelopeC4M => Dimensions { width: 3180, height: 2290 },
        Type::IsoEnvelopeC5 => Dimensions { width: 1620, height: 2290 },
        Type::IsoEnvelopeC6 => Dimensions { width: 1140, height: 1620 },
        Type::IsoEnvelopeC64M => Dimensions { width: 3180, height: 1140 },
        Type::IsoEnvelopeC7 => Dimensions { width: 810, height: 1140 },
        Type::IsoEnvelopeCE4 => Dimensions { width: 2290, height: 3100 },
        Type::IsoEnvelopeCE64 => Dimensions { width: 1140, height: 3100 },
        Type::IsoEnvelopeE4 => Dimensions { width: 2200, height: 3120 },
        Type::IsoEnvelopeEC45 => Dimensions { width: 2200, height: 2290 },
        Type::IsoEnvelopeEC5 => Dimensions { width: 1550, height: 2290 },
        Type::IsoEnvelopeE5 => Dimensions { width: 1150, height: 2200 },
        Type::IsoEnvelopeE56 => Dimensions { width: 1550, height: 1550 },
        Type::IsoEnvelopeE6 => Dimensions { width: 1100, height: 1550 },
        Type::IsoEnvelopeE65 => Dimensions { width: 1100, height: 2200 },
        Type::IsoEnvelopeR7 => Dimensions { width: 1200, height: 1350 },
        Type::IsoEnvelopeS4 => Dimensions { width: 2500, height: 3300 },
        Type::IsoEnvelopeS5 => Dimensions { width: 1850, height: 2550 },
        Type::IsoEnvelopeS65 => Dimensions { width: 1100, height: 2250 },
        Type::IsoEnvelopeX5 => Dimensions { width: 1050, height: 2160 },
        Type::IsoEnvelopeEX5 => Dimensions { width: 1550, height: 2160 },

        // Business cards
        Type::UsBusinessCard => Dimensions { width: 889, height: 508 },
        Type::Iso216BusinessCard => Dimensions { width: 740, height: 520 },
        Type::EuropeanBusinessCard => Dimensions { width: 850, height: 550 },
        Type::ScandinavianBusinessCard => Dimensions { width: 900, height: 550 },
        Type::ChineseBusinessCard => Dimensions { width: 900, height: 540 },
        Type::JapaneseBusinessCard => Dimensions { width: 910, height: 550 },
        Type::IranianBusinessCarad => Dimensions { width: 850, height: 480 },
        Type::HungarianBusinessCard => Dimensions { width: 900, height: 500 },

        // IDs and credit cards
        Type::Iso7810Id1 => Dimensions { width: 856, height: 540 },
        Type::CR80 => Dimensions { width: 856, height: 540 },
        Type::TD1 => Dimensions { width: 856, height: 540 },
        Type::CreditCard => Dimensions { width: 856, height: 540 },
        Type::Iso7810Id2 => Dimensions { width: 1050, height: 740 },
        Type::Visa => Dimensions { width: 1050, height: 740 },
        Type::Iso7810Id3 => Dimensions { width: 1250, height: 880 },
        Type::Passport => Dimensions { width: 1250, height: 880 },
        Type::Iso7810Id0000 => Dimensions { width: 250, height: 150 },
        Type::MiniSIM => Dimensions { width: 250, height: 150 },

        // ISO A Sizes
        Type::IsoA0 => Dimensions { width: 8410, height: 11890 },
        Type::IsoA1 => Dimensions { width: 5940, height: 8410 },
        Type::IsoA2 => Dimensions { width: 4200, height: 5940 },
        Type::IsoA3 => Dimensions { width: 2970, height: 4200 },
        Type::IsoA4 => Dimensions { width: 2100, height: 2970 },
        Type::IsoA5 => Dimensions { width: 1480, height: 2100 },
        Type::IsoA6 => Dimensions { width: 1050, height: 1480 },
        Type::IsoA7 => Dimensions { width: 740, height: 1050 },
        Type::IsoA8 => Dimensions { width: 520, height: 740 },
        Type::IsoA9 => Dimensions { width: 370, height: 520 },
        Type::IsoA10 => Dimensions { width: 260, height: 370 },
        Type::IsoA11 => Dimensions { width: 180, height: 240 },
        Type::IsoA12 => Dimensions { width: 130, height: 180 },
        Type::IsoA13 => Dimensions { width: 90, height: 130 },
        Type::Iso2A0 => Dimensions { width: 11890, height: 16820 },
        Type::Iso4A0 => Dimensions { width: 16820, height: 23780 },
        Type::IsoA0Plus => Dimensions { width: 9140, height: 12920 },
        Type::IsoA1Plus => Dimensions { width: 6090, height: 9140 },
        Type::IsoA3Plus => Dimensions { width: 3290, height: 4830 },

        // ISO B Sizes
        Type::IsoB0 => Dimensions { width: 10000, height: 14140 },
        Type::IsoB1 => Dimensions { width: 7070, height: 10000 },
        Type::IsoB2 => Dimensions { width: 5000, height: 7070 },
        Type::IsoB3 => Dimensions { width: 3530, height: 5000 },
        Type::IsoB4 => Dimensions { width: 2500, height: 3530 },
        Type::IsoB5 => Dimensions { width: 1760, height: 2500 },
        Type::IsoB6 => Dimensions { width: 1250, height: 1760 },
        Type::IsoB7 => Dimensions { width: 880, height: 1250 },
        Type::IsoB8 => Dimensions { width: 620, height: 880 },
        Type::IsoB9 => Dimensions { width: 440, height: 620 },
        Type::IsoB10 => Dimensions { width: 310, height: 440 },
        Type::IsoB11 => Dimensions { width: 220, height: 310 },
        Type::IsoB12 => Dimensions { width: 150, height: 220 },
        Type::IsoB13 => Dimensions { width: 110, height: 150 },
        Type::IsoB0Plus => Dimensions { width: 11180, height: 15800 },
        Type::IsoB1Plus => Dimensions { width: 7200, height: 10200 },
        Type::IsoB2Plus => Dimensions { width: 5200, height: 7200 },

        // ISO C Sizes
        Type::IsoC0 => Dimensions { width: 9170, height: 12970 },
        Type::IsoC1 => Dimensions { width: 6480, height: 9170 },
        Type::IsoC2 => Dimensions { width: 4580, height: 6480 },
        Type::IsoC3 => Dimensions { width: 3240, height: 4580 },
        Type::IsoC4 => Dimensions { width: 2290, height: 3240 },
        Type::IsoC5 => Dimensions { width: 1620, height: 2290 },
        Type::IsoC6 => Dimensions { width: 1140, height: 1620 },
        Type::IsoC7 => Dimensions { width: 810, height: 1140 },
        Type::IsoC8 => Dimensions { width: 570, height: 810 },
        Type::IsoC9 => Dimensions { width: 400, height: 570 },
        Type::IsoC10 => Dimensions { width: 280, height: 400 },

        // North American ANSI Sizes
        Type::AnsiE => Dimensions { width: 11180, height: 8640 },
        Type::AnsiD => Dimensions { width: 5590, height: 8640 },
        Type::AnsiC => Dimensions { width: 4320, height: 5590 },
        Type::AnsiB => Dimensions { width: 2790, height: 4320 },
        Type::AnsiA => Dimensions { width: 2160, height: 2790 },

        // North American ARCH Sizes
        Type::ArchE3 => Dimensions { width: 6860, height: 9910 },
        Type::ArchE2 => Dimensions { width: 6600, height: 9650 },
        Type::ArchE1 => Dimensions { width: 7620, height: 10670 },
        Type::ArchE => Dimensions { width: 19140, height: 12190 },
        Type::ArchD => Dimensions { width: 6100, height: 9140 },
        Type::ArchC => Dimensions { width: 4570, height: 6100 },
        Type::ArchB => Dimensions { width: 3050, height: 4570 },
        Type::ArchA => Dimensions { width: 2290, height: 3050 },
    }
}

/// `size` returns the same value as `millimeters` for every identifier:
/// millimeters are the canonical unit of storage, and `size` is defined
/// as that canonical lookup.
pub open spec fn size_spec(t: Type) -> Dimensions {
    millimeters_spec(t)
}

impl Type {
    /// The dimensions of this size, in the catalog's canonical unit.
    pub fn size(&self) -> (r: Dimensions)
        ensures
            r == size_spec(*self),
    {
        self.millimeters()
    }

    /// The dimensions of this size, in tenths of a millimeter.
    pub fn millimeters(&self) -> (r: Dimensions)
        ensures
            r == millimeters_spec(*self),
    {
        match self {
            // Standard US Sizes
            Self::UsLetter => Dimensions { width: 2160, height: 2790 },
            Self::UsLegal => Dimensions { width: 2159, height: 3556 },
            Self::UsLedger => Dimensions { width: 2790, height: 4320 },
            Self::UsTabloid => Dimensions { width: 2790, height: 4320 },
            Self::UsExecutive => Dimensions { width: 1905, height: 2540 },
            Self::UsJuniorLegal => Dimensions { width: 2032, height: 1270 },
            Self::UsHalfLetter => Dimensions { width: 1400, height: 2160 },
            Self::UsGovernmentLetter => Dimensions { width: 2030, height: 2670 },
            Self::UsGovernmentLegal => Dimensions { width: 2160, height: 3300 },

            // US Envelope Sizes
            Self::UsEnvelope6_25 => Dimensions { width: 1520, height: 890 },
            Self::UsEnvelope6_75 => Dimensions { width: 1650, height: 920 },
            Self::UsEnvelope7 => Dimensions { width: 1720, height: 950 },
            Self::UsEnvelope7_75Monarch => Dimensions { width: 1910, height: 980 },
            Self::UsEnvelope8_625 => Dimensions { width: 2190, height: 920 },
            Self::UsEnvelope9 => Dimensions { width: 2250, height: 980 },
            Self::UsEnvelope10 => Dimensions { width: 2410, height: 1040 },
            Self::UsEnvelope11 => Dimensions { width: 2640, height: 1140 },
            Self::UsEnvelope12 => Dimensions { width: 2790, height: 1210 },
            Self::UsEnvelope14 => Dimensions { width: 2920, height: 1270 },
            Self::UsEnvelope16 => Dimensions { width: 3050, height: 1520 },
            Self::UsEnvelopeA1 => Dimensions { width: 920, height: 1300 },
            Self::UsEnvelopeA2LadyGrey => Dimensions { width: 1460, height: 1110 },
            Self::UsEnvelopeA4 => Dimensions { width: 1590, height: 1080 },
            Self::UsEnvelopeA6Thompsons => Dimensions { width: 1650, height: 1210 },
            Self::UsEnvelopeA7Besselheim => Dimensions { width: 1840, height: 1330 },
            Self::UsEnvelopeA8Carrs => Dimensions { width: 2060, height: 1400 },
            Self::UsEnvelopeA9Diplomat => Dimensions { width: 2220, height: 1460 },
            Self::UsEnvelopeA10Willow => Dimensions { width: 2410, height: 1520 },
            Self::UsEnvelopeALong => Dimensions { width: 2250, height: 980 },
            Self::UsEnvelope1 => Dimensions { width: 2290, height: 1520 },
            Self::UsEnvelope1_75 => Dimensions { width: 2410, height: 1520 },
            Self::UsEnvelope3 => Dimensions { width: 2540, height: 1780 },
            Self::UsEnvelope6 => Dimensions { width: 2670, height: 1910 },
            Self::UsEnvelope8 => Dimensions { width: 2860, height: 2100 },
            Self::UsEnvelope9_75 => Dimensions { width: 2860, height: 2220 },
            Self::UsEnvelope10_5 => Dimensions { width: 3050, height: 2290 },
            Self::UsEnvelope12_5 => Dimensions { width: 3180, height: 2410 },
            Self::UsEnvelope13_5 => Dimensions { width: 3300, height: 2540 },
            Self::UsEnvelope14_5 => Dimensions { width: 3680, height: 2920 },
            Self::UsEnvelope15 => Dimensions { width: 3810, height: 2540 },
            Self::UsEnvelope15_5 => Dimensions { width: 3940, height: 3050 },

            // ISO Envelopes
            Self::IsoEnvelopeDL => Dimensions { width: 1100, height: 2200 },
            Self::IsoEnvelopeB4 => Dimensions { width: 2500, height: 3530 },
            Self::IsoEnvelopeB5 => Dimensions { width: 1760, height: 2500 },
            Self::IsoEnvelopeB6 => Dimensions { width: 1250, height: 1760 },
            Self::IsoEnvelopeC3 => Dimensions { width: 3240, height: 4580 },
            Self::IsoEnvelopeC4 => Dimensions { width: 2290, height: 3240 },
            Self::IsoEnvelopeC4M => Dimensions { width: 3180, height: 2290 },
            Self::IsoEnvelopeC5 => Dimensions { width: 1620, height: 2290 },
            Self::IsoEnvelopeC6 => Dimensions { width: 1140, height: 1620 },
            Self::IsoEnvelopeC64M => Dimensions { width: 3180, height: 1140 },
            Self::IsoEnvelopeC7 => Dimensions { width: 810, height: 1140 },
            Self::IsoEnvelopeCE4 => Dimensions { width: 2290, height: 3100 },
            Self::IsoEnvelopeCE64 => Dimensions { width: 1140, height: 3100 },
            Self::IsoEnvelopeE4 => Dimensions { width: 2200, height: 3120 },
            Self::IsoEnvelopeEC45 => Dimensions { width: 2200, height: 2290 },
            Self::IsoEnvelopeEC5 => Dimensions { width: 1550, height: 2290 },
            Self::IsoEnvelopeE5 => Dimensions { width: 1150, height: 2200 },
            Self::IsoEnvelopeE56 => Dimensions { width: 1550, height: 1550 },
            Self::IsoEnvelopeE6 => Dimensions { width: 1100, height: 1550 },
            Self::IsoEnvelopeE65 => Dimensions { width: 1100, height: 2200 },
            Self::IsoEnvelopeR7 => Dimensions { width: 1200, height: 1350 },
            Self::IsoEnvelopeS4 => Dimensions { width: 2500, height: 3300 },
            Self::IsoEnvelopeS5 => Dimensions { width: 1850, height: 2550 },
            Self::IsoEnvelopeS65 => Dimensions { width: 1100, height: 2250 },
            Self::IsoEnvelopeX5 => Dimensions { width: 1050, height: 2160 },
            Self::IsoEnvelopeEX5 => Dimensions { width: 1550, height: 2160 },

            // Business cards
            Self::UsBusinessCard => Dimensions { width: 889, height: 508 },
            Self::Iso216BusinessCard => Dimensions { width: 740, height: 520 },
            Self::EuropeanBusinessCard => Dimensions { width: 850, height: 550 },
            Self::ScandinavianBusinessCard => Dimensions { width: 900, height: 550 },
            Self::ChineseBusinessCard => Dimensions { width: 900, height: 540 },
            Self::JapaneseBusinessCard => Dimensions { width: 910, height: 550 },
            Self::IranianBusinessCarad => Dimensions { width: 850, height: 480 },
            Self::HungarianBusinessCard => Dimensions { width: 900, height: 500 },

            // IDs and credit cards
            Self::Iso7810Id1 => Dimensions { width: 856, height: 540 },
            Self::CR80 => Dimensions { width: 856, height: 540 },
            Self::TD1 => Dimensions { width: 856, height: 540 },
            Self::CreditCard => Dimensions { width: 856, height: 540 },
            Self::Iso7810Id2 => Dimensions { width: 1050, height: 740 },
            Self::Visa => Dimensions { width: 1050, height: 740 },
            Self::Iso7810Id3 => Dimensions { width: 1250, height: 880 },
            Self::Passport => Dimensions { width: 1250, height: 880 },
            Self::Iso7810Id0000 => Dimensions { width: 250, height: 150 },
            Self::MiniSIM => Dimensions { width: 250, height: 150 },

            // ISO A Sizes
            Self::IsoA0 => Dimensions { width: 8410, height: 11890 },
            Self::IsoA1 => Dimensions { width: 5940, height: 8410 },
            Self::IsoA2 => Dimensions { width: 4200, height: 5940 },
            Self::IsoA3 => Dimensions { width: 2970, height: 4200 },
            Self::IsoA4 => Dimensions { width: 2100, height: 2970 },
            Self::IsoA5 => Dimensions { width: 1480, height: 2100 },
            Self::IsoA6 => Dimensions { width: 1050, height: 1480 },
            Self::IsoA7 => Dimensions { width: 740, height: 1050 },
            Self::IsoA8 => Dimensions { width: 520, height: 740 },
            Self::IsoA9 => Dimensions { width: 370, height: 520 },
            Self::IsoA10 => Dimensions { width: 260, height: 370 },
            Self::IsoA11 => Dimensions { width: 180, height: 240 },
            Self::IsoA12 => Dimensions { width: 130, height: 180 },
            Self::IsoA13 => Dimensions { width: 90, height: 130 },
            Self::Iso2A0 => Dimensions { width: 11890, height: 16820 },
            Self::Iso4A0 => Dimensions { width: 16820, height: 23780 },
            Self::IsoA0Plus => Dimensions { width: 9140, height: 12920 },
            Self::IsoA1Plus => Dimensions { width: 6090, height: 9140 },
            Self::IsoA3Plus => Dimensions { width: 3290, height: 4830 },

            // ISO B Sizes
            Self::IsoB0 => Dimensions { width: 10000, height: 14140 },
            Self::IsoB1 => Dimensions { width: 7070, height: 10000 },
            Self::IsoB2 => Dimensions { width: 5000, height: 7070 },
            Self::IsoB3 => Dimensions { width: 3530, height: 5000 },
            Self::IsoB4 => Dimensions { width: 2500, height: 3530 },
            Self::IsoB5 => Dimensions { width: 1760, height: 2500 },
            Self::IsoB6 => Dimensions { width: 1250, height: 1760 },
            Self::IsoB7 => Dimensions { width: 880, height: 1250 },
            Self::IsoB8 => Dimensions { width: 620, height: 880 },
            Self::IsoB9 => Dimensions { width: 440, height: 620 },
            Self::IsoB10 => Dimensions { width: 310, height: 440 },
            Self::IsoB11 => Dimensions { width: 220, height: 310 },
            Self::IsoB12 => Dimensions { width: 150, height: 220 },
            Self::IsoB13 => Dimensions { width: 110, height: 150 },
            Self::IsoB0Plus => Dimensions { width: 11180, height: 15800 },
            Self::IsoB1Plus => Dimensions { width: 7200, height: 10200 },
            Self::IsoB2Plus => Dimensions { width: 5200, height: 7200 },

            // ISO C Sizes
            Self::IsoC0 => Dimensions { width: 9170, height: 12970 },
            Self::IsoC1 => Dimensions { width: 6480, height: 9170 },
            Self::IsoC2 => Dimensions { width: 4580, height: 6480 },
            Self::IsoC3 => Dimensions { width: 3240, height: 4580 },
            Self::IsoC4 => Dimensions { width: 2290, height: 3240 },
            Self::IsoC5 => Dimensions { width: 1620, height: 2290 },
            Self::IsoC6 => Dimensions { width: 1140, height: 1620 },
            Self::IsoC7 => Dimensions { width: 810, height: 1140 },
            Self::IsoC8 => Dimensions { width: 570, height: 810 },
            Self::IsoC9 => Dimensions { width: 400, height: 570 },
            Self::IsoC10 => Dimensions { width: 280, height: 400 },

            // North American ANSI Sizes
            Self::AnsiE => Dimensions { width: 11180, height: 8640 },
            Self::AnsiD => Dimensions { width: 5590, height: 8640 },
            Self::AnsiC => Dimensions { width: 4320, height: 5590 },
            Self::AnsiB => Dimensions { width: 2790, height: 4320 },
            Self::AnsiA => Dimensions { width: 2160, height: 2790 },

            // North American ARCH Sizes
            Self::ArchE3 => Dimensions { width: 6860, height: 9910 },
            Self::ArchE2 => Dimensions { width: 6600, height: 9650 },
            Self::ArchE1 => Dimensions { width: 7620, height: 10670 },
            Self::ArchE => Dimensions { width: 19140, height: 12190 },
            Self::ArchD => Dimensions { width: 6100, height: 9140 },
            Self::ArchC => Dimensions { width: 4570, height: 6100 },
            Self::ArchB => Dimensions { width: 3050, height: 4570 },
            Self::ArchA => Dimensions { width: 2290, height: 3050 },
        }
    }
}

/// For every identifier, `size` and `millimeters` yield identical values.
pub proof fn lemma_size_is_millimeters(t: Type)
    ensures
        size_spec(t) == millimeters_spec(t),
{
}

/// Every identifier's width and height are strictly positive.
pub proof fn lemma_dimensions_positive(t: Type)
    ensures
        millimeters_spec(t).width > 0,
        millimeters_spec(t).height > 0,
{
}

/// Identifiers documented as aliases of one physical standard resolve to
/// exactly equal dimensions: the ISO 7810 card formats and their trade
/// names, the ledger/tabloid pair, and the ANSI sizes that equal US sizes.
pub proof fn lemma_aliases()
    ensures
        millimeters_spec(Type::CR80) == millimeters_spec(Type::Iso7810Id1),
        millimeters_spec(Type::TD1) == millimeters_spec(Type::Iso7810Id1),
        millimeters_spec(Type::CreditCard) == millimeters_spec(Type::Iso7810Id1),
        millimeters_spec(Type::Visa) == millimeters_spec(Type::Iso7810Id2),
        millimeters_spec(Type::Passport) == millimeters_spec(Type::Iso7810Id3),
        millimeters_spec(Type::MiniSIM) == millimeters_spec(Type::Iso7810Id0000),
        millimeters_spec(Type::UsTabloid) == millimeters_spec(Type::UsLedger),
        millimeters_spec(Type::AnsiA) == millimeters_spec(Type::UsLetter),
        millimeters_spec(Type::AnsiB) == millimeters_spec(Type::UsLedger),
        millimeters_spec(Type::AnsiB) == millimeters_spec(Type::UsTabloid),
{
}

} // verus!
