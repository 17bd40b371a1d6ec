use librobot::units::MilliMeter;

#[test]
fn mm_to_meter() {
    let x = MilliMeter(56000);
    assert_eq!(x.as_meters(), 56);
}

#[test]
fn mm_to_centimeter() {
    let x = MilliMeter(560);
    assert_eq!(x.as_centimeters(), 56);
}

#[test]
fn mm_arithmetic_operations() {
    let x = MilliMeter(43);
    let y = MilliMeter(5);
    assert_eq!(x.plus(y), MilliMeter(48));
    assert_eq!(x.minus(y), MilliMeter(38));
    assert_eq!(x.div_by(y), MilliMeter(8));
    assert_eq!(x.times(y), MilliMeter(215));
}

#[test]
fn mm_negative_values_truncate_toward_zero() {
    assert_eq!(MilliMeter(-56999).as_meters(), -56);
    assert_eq!(MilliMeter(-19).as_centimeters(), -1);
    assert_eq!(MilliMeter(-7).div_by(MilliMeter(2)), MilliMeter(-3));
}
