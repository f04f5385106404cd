use mushak::profiles::needs_native_wheel;

#[test]
fn higher_integrity_requires_native_wheel_input() {
    assert!(needs_native_wheel(Some(0x2000), Some(0x3000)));
}

#[test]
fn same_or_lower_integrity_can_use_injection() {
    assert!(!needs_native_wheel(Some(0x2000), Some(0x2000)));
    assert!(!needs_native_wheel(Some(0x3000), Some(0x2000)));
}

#[test]
fn an_unknown_integrity_level_fails_closed_to_native_input() {
    assert!(needs_native_wheel(None, Some(0x3000)));
    assert!(needs_native_wheel(Some(0x2000), None));
}
