use window_core::error::WindowError;

#[test]
fn registration_failure_names_the_code_in_hex() {
    let error = WindowError::ClassRegistrationFailed(1410);
    assert_eq!(error.message(), "Failed to register windowclass! (Code: 0x582)");
    assert_eq!(error.code(), 1410);
}

#[test]
fn creation_failure_names_the_code_in_hex() {
    let error = WindowError::WindowCreationFailed(0x57);
    assert_eq!(error.message(), "Failed to create window! (Code: 0x57)");
    assert_eq!(error.code(), 0x57);
}

#[test]
fn code_zero_is_a_single_digit() {
    assert_eq!(
        WindowError::WindowCreationFailed(0).message(),
        "Failed to create window! (Code: 0x0)"
    );
}

#[test]
fn hex_digits_are_upper_case_without_leading_zeros() {
    assert_eq!(
        WindowError::ClassRegistrationFailed(0xABCDEF).message(),
        "Failed to register windowclass! (Code: 0xABCDEF)"
    );
    assert_eq!(
        WindowError::ClassRegistrationFailed(u32::MAX).message(),
        "Failed to register windowclass! (Code: 0xFFFFFFFF)"
    );
    assert_eq!(
        WindowError::ClassRegistrationFailed(0x10).message(),
        "Failed to register windowclass! (Code: 0x10)"
    );
}

#[test]
fn message_agrees_with_std_formatting() {
    let mut code: u32 = 1;
    for _ in 0..200 {
        assert_eq!(
            WindowError::WindowCreationFailed(code).message(),
            format!("Failed to create window! (Code: {:#X})", code)
        );
        assert_eq!(
            WindowError::ClassRegistrationFailed(code).message(),
            format!("Failed to register windowclass! (Code: {:#X})", code)
        );
        code = code.wrapping_mul(2654435761).wrapping_add(12345) >> (code % 7);
    }
}
