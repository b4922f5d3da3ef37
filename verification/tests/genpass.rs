use rcli::process_genpass;

const UPPER: &[u8] = b"ABCDEFGHJKLMNPQRSTUVWXYZ";
const LOWER: &[u8] = b"abcdefjhijkmnopqrstuvwxyz";
const NUMBER: &[u8] = b"123456789";
const SYMBOL: &[u8] = b"!@#$%^&*_";

#[test]
fn test_upper_and_number_only() {
    let p = process_genpass(16, true, false, true, false).unwrap();
    let bytes = p.as_bytes();
    assert_eq!(bytes.len(), 16);
    for b in bytes {
        assert!(UPPER.contains(b) || NUMBER.contains(b));
    }
    assert!(bytes.iter().any(|b| UPPER.contains(b)));
    assert!(bytes.iter().any(|b| NUMBER.contains(b)));
}

#[test]
fn test_all_classes() {
    let p = process_genpass(32, true, true, true, true).unwrap();
    let bytes = p.as_bytes();
    assert_eq!(bytes.len(), 32);
    for b in bytes {
        assert!(
            UPPER.contains(b) || LOWER.contains(b) || NUMBER.contains(b) || SYMBOL.contains(b)
        );
    }
    assert!(bytes.iter().any(|b| UPPER.contains(b)));
    assert!(bytes.iter().any(|b| LOWER.contains(b)));
    assert!(bytes.iter().any(|b| NUMBER.contains(b)));
    assert!(bytes.iter().any(|b| SYMBOL.contains(b)));
}

#[test]
fn test_single_class_minimal_length() {
    let p = process_genpass(1, false, false, true, false).unwrap();
    let bytes = p.as_bytes();
    assert_eq!(bytes.len(), 1);
    assert!(NUMBER.contains(&bytes[0]));
}

#[test]
fn test_empty_password() {
    let p = process_genpass(0, false, false, false, false).unwrap();
    assert_eq!(p.len(), 0);
}

#[test]
fn test_symbol_only() {
    let p = process_genpass(8, false, false, false, true).unwrap();
    let bytes = p.as_bytes();
    assert_eq!(bytes.len(), 8);
    for b in bytes {
        assert!(SYMBOL.contains(b));
    }
}
