use standard_paper_sizes::Dimensions;
use standard_paper_sizes::Type;

#[test]
fn whole_millimeters_render_without_fraction() {
    let d = Dimensions::from((2100, 2970));
    assert_eq!(d.render(), "210x297");
}

#[test]
fn fractional_millimeters_render_with_one_digit() {
    let d = Dimensions::from((2159, 3556));
    assert_eq!(d.render(), "215.9x355.6");
}

#[test]
fn catalog_lookups_render() {
    assert_eq!(Type::IsoA4.size().render(), "210x297");
    assert_eq!(Type::UsLegal.size().render(), "215.9x355.6");
    assert_eq!(Type::UsBusinessCard.size().render(), "88.9x50.8");
    assert_eq!(Type::ArchE.size().render(), "1914x1219");
    assert_eq!(Type::Iso7810Id0000.size().render(), "25x15");
}

#[test]
fn single_digit_values_render() {
    assert_eq!(Dimensions::from((90, 130)).render(), "9x13");
    assert_eq!(Dimensions::from((95, 5)).render(), "9.5x0.5");
}

#[test]
fn zero_renders_as_zero() {
    assert_eq!(Dimensions::from((0, 0)).render(), "0x0");
    assert_eq!(Dimensions::from((0, 5)).render(), "0x0.5");
}

#[test]
fn largest_value_renders() {
    let d = Dimensions::from((u64::MAX, 10));
    assert_eq!(d.render(), "1844674407370955161.5x1");
}
