use rdpclient::pin::{entropy_seeded_rng, format_pin, generate_pin};

#[test]
fn format_pin_zero_pads() {
    assert_eq!(format_pin(0), "00000000");
}

#[test]
fn format_pin_small_value() {
    assert_eq!(format_pin(42), "00000042");
}

#[test]
fn format_pin_mid_value() {
    assert_eq!(format_pin(12345678), "12345678");
}

#[test]
fn format_pin_max_value() {
    assert_eq!(format_pin(99999999), "99999999");
}

#[test]
fn format_pin_each_digit() {
    assert_eq!(format_pin(1987654), "01987654");
}

#[test]
fn generated_pin_is_eight_decimal_digits() {
    let mut rng = entropy_seeded_rng();
    for _ in 0..16 {
        let pin = generate_pin(&mut rng);
        assert_eq!(pin.len(), 8);
        assert!(pin.chars().all(|c| c.is_ascii_digit()));
    }
}
