use mushak::state::needs_native_wheel_fallback;

#[test]
fn elevated_foreground_fails_closed_without_the_helper() {
    assert!(needs_native_wheel_fallback(true, false, false));
    assert!(!needs_native_wheel_fallback(true, true, false));
    assert!(!needs_native_wheel_fallback(false, false, false));
    assert!(needs_native_wheel_fallback(false, true, true));
}
