use chat_hub::error::CustomError;
use chat_hub::error_handler::CustomError as StoreError;
use chat_hub::helpers::{generate_otp_code, OTP_EXPIRATION_MINUTES};
use chat_hub::password::validate_password;

fn s(x: &str) -> String {
    x.to_string()
}

#[test]
fn password_length_is_bounded() {
    let short = validate_password("Ab1defg");
    assert_eq!(short, Err(CustomError::BadRequestError(s("Password must be between 8 and 20 characters long."))));
    let long = validate_password("Ab1defghijklmnopqrstu");
    assert_eq!(long, Err(CustomError::BadRequestError(s("Password must be between 8 and 20 characters long."))));
    assert_eq!(validate_password("Ab1defgh"), Ok(()));
    assert_eq!(validate_password("Ab1defghijklmnopqrst"), Ok(()));
}

#[test]
fn password_needs_all_three_kinds() {
    let msg = s("Password must include at least one uppercase letter, one lowercase letter, and one number.");
    assert_eq!(validate_password("abcdefg1"), Err(CustomError::BadRequestError(msg.clone())));
    assert_eq!(validate_password("ABCDEFG1"), Err(CustomError::BadRequestError(msg.clone())));
    assert_eq!(validate_password("Abcdefgh"), Err(CustomError::BadRequestError(msg)));
}

#[test]
fn password_length_counts_bytes() {
    // four two-byte letters plus four ASCII characters: 12 bytes, 8 characters
    assert_eq!(validate_password("Éééé1abc"), Ok(()));
    // seven characters but nine bytes
    assert_eq!(validate_password("Ééa1bcd"), Ok(()));
}

#[test]
fn error_status_codes_and_messages() {
    let e = CustomError::NotFoundError(s("post"));
    assert_eq!(e.status_code(), 404);
    assert_eq!(e.error_code(), "NOT_FOUND_ERROR");
    assert_eq!(e.message(), "Not Found: post");
    assert_eq!(CustomError::UnauthenticatedError(s("x")).status_code(), 401);
    assert_eq!(CustomError::ConflictError(s("x")).status_code(), 409);
    assert_eq!(CustomError::ValidationError(s("x")).error_code(), "VALIDATION_ERROR");
    assert_eq!(CustomError::BadRequestError(s("x")).message(), "Bad Request: x");
}

#[test]
fn store_error_status_codes_and_messages() {
    let e = StoreError::DuplicateError(s("email"));
    assert_eq!(e.status_code(), 409);
    assert_eq!(e.error_code(), "DUPLICATE_ERROR");
    assert_eq!(e.message(), "Duplicate Error: email");
    assert_eq!(StoreError::NotFoundError(s("x")).message(), "Not Found Error: x");
    assert_eq!(StoreError::InternalServerError(s("x")).status_code(), 500);
}

#[test]
fn otp_code_is_six_digits() {
    for _ in 0..50 {
        let code = generate_otp_code();
        assert_eq!(code.len(), 6);
        let n: u32 = code.parse().unwrap();
        assert!((100000..999999).contains(&n));
    }
    assert_eq!(OTP_EXPIRATION_MINUTES, 10);
}
