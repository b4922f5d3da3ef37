use rcli::{parse_text_sign_format, verify_file, verify_path, CryptoError, TextSignFormat};

#[test]
fn test_verify_file() {
    assert_eq!(verify_file("-", false), Ok("-".into()));
    assert_eq!(verify_file("*", false), Err("File does not exist"));
    assert_eq!(verify_file("Cargo.toml", true), Ok("Cargo.toml".into()));
    assert_eq!(verify_file("not-exist", false), Err("File does not exist"));
}

#[test]
fn test_verify_path() {
    assert_eq!(verify_path("fixtures", true, true), Ok("fixtures".into()));
    assert_eq!(
        verify_path("fixtures", true, false),
        Err("path does not exist or is not a directory")
    );
    assert_eq!(
        verify_path("missing", false, false),
        Err("path does not exist or is not a directory")
    );
}

#[test]
fn test_parse_text_sign_format() {
    assert_eq!(parse_text_sign_format("blake3"), Ok(TextSignFormat::Blake3));
    assert_eq!(
        parse_text_sign_format("ed25519"),
        Ok(TextSignFormat::Ed25519)
    );
    assert_eq!(
        parse_text_sign_format("sha256"),
        Err(CryptoError::InvalidFormat)
    );
    assert_eq!(parse_text_sign_format(""), Err(CryptoError::InvalidFormat));
}

#[test]
fn test_format_names() {
    assert_eq!(TextSignFormat::Blake3.name(), "blake3");
    assert_eq!(TextSignFormat::Ed25519.name(), "ed25519");
    assert_eq!(
        parse_text_sign_format(TextSignFormat::Blake3.name()),
        Ok(TextSignFormat::Blake3)
    );
    assert_eq!(
        parse_text_sign_format(TextSignFormat::Ed25519.name()),
        Ok(TextSignFormat::Ed25519)
    );
}
