use measure::unit::{Amount, Unit, UnitValue};

#[test]
fn unit_to_string() {
    let unit = Unit::Giga;

    assert_eq!(unit.to_string(), String::from("Gi"));
}

#[test]
fn amount_new() {
    let amount = Amount::new(100, Unit::Giga);

    assert_eq!(amount.bytes, 100);
    assert_eq!(amount.unit, Unit::Giga);
}

#[test]
fn amount_auto_detect() {
    assert_eq!(Amount::auto_detect(42).unit, Unit::Byte);
    assert_eq!(Amount::auto_detect(2048).unit, Unit::Kilo);
    assert_eq!(Amount::auto_detect(1234567).unit, Unit::Mega);
    assert_eq!(Amount::auto_detect(1234567890).unit, Unit::Giga);
    assert_eq!(Amount::auto_detect(1234567890123).unit, Unit::Tera);
}

#[test]
fn amount_display() {
    assert_eq!(Amount::auto_detect(42).to_string(), "42.0 B");
    assert_eq!(Amount::auto_detect(200124).to_string(), "195.4 KiB");
}

#[test]
fn unit_prefixes() {
    assert_eq!(Unit::Byte.to_string(), "");
    assert_eq!(Unit::Kilo.to_string(), "Ki");
    assert_eq!(Unit::Mega.to_string(), "Mi");
    assert_eq!(Unit::Giga.to_string(), "Gi");
    assert_eq!(Unit::Tera.to_string(), "Ti");
}

#[test]
fn unit_values() {
    assert_eq!(Unit::Byte.to_value(), 1);
    assert_eq!(Unit::Kilo.to_value(), 1024);
    assert_eq!(Unit::Mega.to_value(), 1 << 20);
    assert_eq!(Unit::Giga.to_value(), 1 << 30);
    assert_eq!(Unit::Tera.to_value(), 1 << 40);
    assert_eq!(UnitValue::Tera.value(), 1 << 40);
}

#[test]
fn quantity_is_never_rescaled() {
    assert_eq!(Amount::new(100, Unit::Giga).to_string(), "0.0 GiB");
}

#[test]
fn auto_detect_at_most_one_byte() {
    assert_eq!(Amount::auto_detect(0).unit, Unit::Byte);
    assert_eq!(Amount::auto_detect(1).unit, Unit::Byte);
    assert_eq!(Amount::auto_detect(0).to_string(), "0.0 B");
}

#[test]
fn auto_detect_band_edges() {
    assert_eq!(Amount::auto_detect(1024).unit, Unit::Byte);
    assert_eq!(Amount::auto_detect(1025).unit, Unit::Kilo);
    assert_eq!(Amount::auto_detect(1 << 20).unit, Unit::Kilo);
    assert_eq!(Amount::auto_detect((1 << 20) + 1).unit, Unit::Mega);
    assert_eq!(Amount::auto_detect(1 << 30).unit, Unit::Mega);
    assert_eq!(Amount::auto_detect((1 << 30) + 1).unit, Unit::Giga);
    assert_eq!(Amount::auto_detect(1 << 40).unit, Unit::Giga);
    assert_eq!(Amount::auto_detect((1 << 40) + 1).unit, Unit::Tera);
    assert_eq!(Amount::auto_detect(u64::MAX).unit, Unit::Tera);
}

#[test]
fn rounding_to_one_digit() {
    assert_eq!(Amount::new(200124, Unit::Kilo).quantity_tenths(), 1954);
    // 0.25 KiB is a tie and goes to the even digit, 0.75 KiB to the even one above
    assert_eq!(Amount::new(256, Unit::Kilo).to_string(), "0.2 KiB");
    assert_eq!(Amount::new(768, Unit::Kilo).to_string(), "0.8 KiB");
    assert_eq!(Amount::new(1023, Unit::Kilo).to_string(), "1.0 KiB");
    assert_eq!(Amount::new(5 << 40, Unit::Tera).to_string(), "5.0 TiB");
    assert_eq!(Amount::new(1536, Unit::Mega).to_string(), "0.0 MiB");
}

#[test]
fn largest_count_in_bytes() {
    assert_eq!(
        Amount::new(u64::MAX, Unit::Byte).to_string(),
        "18446744073709551615.0 B"
    );
}
