use standard_paper_sizes::Dimensions;
use standard_paper_sizes::Type;

#[test]
fn size_equals_millimeters() {
    let samples = vec![
        Type::UsLetter,
        Type::UsLegal,
        Type::UsEnvelope10,
        Type::IsoEnvelopeDL,
        Type::UsBusinessCard,
        Type::Iso7810Id1,
        Type::IsoA4,
        Type::IsoB5,
        Type::IsoC6,
        Type::AnsiE,
        Type::ArchE,
        Type::ArchA,
    ];
    for t in samples {
        assert_eq!(t.size(), t.millimeters());
    }
}

#[test]
fn alias_groups_resolve_to_equal_dimensions() {
    assert_eq!(Type::CR80.size(), Type::Iso7810Id1.size());
    assert_eq!(Type::TD1.size(), Type::Iso7810Id1.size());
    assert_eq!(Type::CreditCard.size(), Type::Iso7810Id1.size());
    assert_eq!(Type::Visa.size(), Type::Iso7810Id2.size());
    assert_eq!(Type::Passport.size(), Type::Iso7810Id3.size());
    assert_eq!(Type::MiniSIM.size(), Type::Iso7810Id0000.size());
    assert_eq!(Type::UsTabloid.size(), Type::UsLedger.size());
    assert_eq!(Type::AnsiA.size(), Type::UsLetter.size());
    assert_eq!(Type::AnsiB.size(), Type::UsLedger.size());
    assert_eq!(Type::AnsiB.size(), Type::UsTabloid.size());
}

#[test]
fn dimensions_are_strictly_positive() {
    let samples = vec![
        Type::UsLetter,
        Type::UsJuniorLegal,
        Type::UsEnvelope6_25,
        Type::IsoEnvelopeX5,
        Type::HungarianBusinessCard,
        Type::Iso7810Id0000,
        Type::IsoA13,
        Type::IsoB13,
        Type::IsoC10,
        Type::Iso4A0,
        Type::AnsiA,
        Type::ArchE3,
    ];
    for t in samples {
        let d = t.size();
        assert!(d.width > 0);
        assert!(d.height > 0);
    }
}

#[test]
fn raw_pair_matches_card_lookup() {
    let raw = Dimensions::from((856, 540));
    assert_eq!(raw, Type::Iso7810Id1.size());
    assert_eq!(raw.width, 856);
    assert_eq!(raw.height, 540);
}

#[test]
fn end_to_end_lookups() {
    assert_eq!(Type::IsoA4.size(), Dimensions { width: 2100, height: 2970 });
    assert_eq!(Type::UsLetter.size(), Dimensions { width: 2160, height: 2790 });
    assert_eq!(Type::AnsiA.size(), Dimensions { width: 2160, height: 2790 });
    assert_eq!(Type::AnsiA.size(), Type::UsLetter.size());
    // ArchE is authored wider than tall, unlike its ARCH siblings.
    assert_eq!(Type::ArchE.size(), Dimensions { width: 19140, height: 12190 });
}

#[test]
fn orientation_is_stored_as_authored() {
    // Letter paper is narrower than tall; many envelopes are wider than tall.
    let letter = Type::UsLetter.size();
    assert!(letter.width < letter.height);
    let envelope = Type::UsEnvelope10.size();
    assert!(envelope.width > envelope.height);
    // ArchE's siblings are taller than wide; ArchE itself is not.
    let arch_d = Type::ArchD.size();
    assert!(arch_d.width < arch_d.height);
    let arch_e = Type::ArchE.size();
    assert!(arch_e.width > arch_e.height);
}

#[test]
fn fractional_entries_are_exact_in_tenths() {
    assert_eq!(Type::UsLegal.size(), Dimensions { width: 2159, height: 3556 });
    assert_eq!(Type::UsExecutive.size(), Dimensions { width: 1905, height: 2540 });
    assert_eq!(Type::UsBusinessCard.size(), Dimensions { width: 889, height: 508 });
}
