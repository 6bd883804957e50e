use rustwlc::xkb::Keysym;

#[test]
fn sanity_test() {
    assert!(true);
    assert_eq!(1, 1);
}

#[test]
fn keysym_validity() {
    // NoSymbol and VoidSymbol are the two reserved codes.
    assert!(!Keysym::from(0u32).is_valid());
    assert!(!Keysym::from(0xffffffffu32).is_valid());
    // The keysym of 'a'.
    assert!(Keysym::from(0x61u32).is_valid());
    assert!(Keysym::from(1u32).is_valid());
}

#[test]
fn keysym_from_value() {
    let a = Keysym::from(0x61u32);
    let b = Keysym::from(0x61u32);
    assert_eq!(a, b);
    assert_ne!(a, Keysym::from(0x62u32));
}
