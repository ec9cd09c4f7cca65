use gitbrowser::codec::{base64_decode, base64_encode};

#[test]
fn test_base64_roundtrip() {
    let data = b"Hello, GitBrowser!";
    let encoded = base64_encode(data);
    let decoded = base64_decode(&encoded).unwrap();
    assert_eq!(decoded, data);
}

#[test]
fn test_base64_decode_invalid() {
    let result = base64_decode("!!!not-base64!!!");
    assert!(result.is_err());
}

#[test]
fn test_base64_encode_known_value() {
    assert_eq!(base64_encode(b"Hello, GitBrowser!"), "SGVsbG8sIEdpdEJyb3dzZXIh");
    assert_eq!(base64_encode(b""), "");
}
