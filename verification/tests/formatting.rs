use stage2::display::Displayable;
use stage2::format::{format_u16, format_u32, format_u64, format_u8};

#[test]
fn digit_form_concrete() {
    // Non-empty, digits only, no leading zero.
    for &n in &[1u64, 7, 10, 42, 907, 1000, 123456789] {
        let s = format_u64(n);
        assert!(!s.is_empty());
        assert!(s.chars().all(|c| c.is_ascii_digit()));
        assert!(!s.starts_with('0'));
    }
    assert_eq!(format_u64(0), "0");
    assert_eq!(format_u32(907), "907");
}

#[test]
fn length_bounds() {
    assert!(format_u8(255).len() <= 3);
    assert!(format_u16(65535).len() <= 5);
    assert!(format_u32(4294967295).len() <= 10);
    assert!(format_u64(18446744073709551615).len() <= 20);
    assert_eq!(format_u64(18446744073709551615).len(), 20);
}

#[test]
fn round_trip_concrete() {
    for &n in &[0u64, 1, 9, 10, 99, 100, 65535, 4294967296, 18446744073709551615] {
        let s = format_u64(n);
        assert_eq!(s.parse::<u64>().unwrap(), n);
    }
    assert_eq!(format_u8(200).parse::<u8>().unwrap(), 200u8);
    assert_eq!(format_u16(5000).parse::<u16>().unwrap(), 5000u16);
    assert_eq!(format_u32(70000).parse::<u32>().unwrap(), 70000u32);
}

#[test]
fn boundary_values() {
    assert_eq!(format_u8(0), "0");
    assert_eq!(format_u8(255), "255");
    assert_eq!(format_u16(65535), "65535");
    assert_eq!(format_u32(4294967295), "4294967295");
    assert_eq!(format_u64(18446744073709551615), "18446744073709551615");
}

#[test]
fn static_text_passes_through() {
    assert_eq!(Displayable::Text("hello").to_text(), "hello");
    assert_eq!(Displayable::Text("").to_text(), "");
    assert_eq!(Displayable::Text("Panic!").to_text(), "Panic!");
}

#[test]
fn displayable_integers_format() {
    assert_eq!(Displayable::U8(8).to_text(), "8");
    assert_eq!(Displayable::U16(16).to_text(), "16");
    assert_eq!(Displayable::U32(32).to_text(), "32");
    assert_eq!(Displayable::U64(64).to_text(), "64");
}
