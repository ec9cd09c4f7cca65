use gitbrowser::credential::EncryptedData;
use gitbrowser::crypto::{CryptoService, CryptoServiceTrait, KEY_LENGTH, NONCE_LENGTH, SALT_LENGTH, TAG_LENGTH};
use gitbrowser::errors::CryptoError;

#[test]
fn test_derive_key_produces_correct_length() {
    let service = CryptoService::new();
    let salt = service.generate_salt().unwrap();
    let key = service.derive_key("test_password", &salt).unwrap();
    assert_eq!(key.len(), KEY_LENGTH);
}

#[test]
fn test_derive_key_deterministic() {
    let service = CryptoService::new();
    let salt = vec![1u8; SALT_LENGTH];
    let key1 = service.derive_key("password", &salt).unwrap();
    let key2 = service.derive_key("password", &salt).unwrap();
    assert_eq!(key1, key2);
}

#[test]
fn test_derive_key_different_passwords_produce_different_keys() {
    let service = CryptoService::new();
    let salt = service.generate_salt().unwrap();
    let key1 = service.derive_key("password1", &salt).unwrap();
    let key2 = service.derive_key("password2", &salt).unwrap();
    assert_ne!(key1, key2);
}

#[test]
fn test_derive_key_different_salts_produce_different_keys() {
    let service = CryptoService::new();
    let salt1 = vec![1u8; SALT_LENGTH];
    let salt2 = vec![2u8; SALT_LENGTH];
    let key1 = service.derive_key("password", &salt1).unwrap();
    let key2 = service.derive_key("password", &salt2).unwrap();
    assert_ne!(key1, key2);
}

#[test]
fn test_derive_key_known_vector() {
    // PBKDF2-HMAC-SHA256, 100000 iterations, password "password", salt "salt".
    let service = CryptoService::new();
    let key = service.derive_key("password", b"salt").unwrap();
    let hex: String = key.iter().map(|b| format!("{:02x}", b)).collect();
    assert_eq!(hex, "0394a2ede332c9a13eb82e9b24631604c31df978b4e2f0fbd2c549944f9d79a5");
}

#[test]
fn test_encrypt_decrypt_roundtrip() {
    let service = CryptoService::new();
    let key = service.generate_random_bytes(KEY_LENGTH).unwrap();
    let plaintext = b"Hello, GitBrowser!";

    let encrypted = service.encrypt_aes256gcm(plaintext, &key).unwrap();
    let decrypted = service.decrypt_aes256gcm(&encrypted, &key).unwrap();

    assert_eq!(decrypted, plaintext);
}

#[test]
fn test_encrypt_produces_correct_iv_length() {
    let service = CryptoService::new();
    let key = service.generate_random_bytes(KEY_LENGTH).unwrap();
    let encrypted = service.encrypt_aes256gcm(b"test", &key).unwrap();
    assert_eq!(encrypted.iv.len(), NONCE_LENGTH);
}

#[test]
fn test_encrypt_produces_correct_tag_length() {
    let service = CryptoService::new();
    let key = service.generate_random_bytes(KEY_LENGTH).unwrap();
    let encrypted = service.encrypt_aes256gcm(b"test", &key).unwrap();
    assert_eq!(encrypted.auth_tag.len(), TAG_LENGTH);
}

#[test]
fn test_encrypt_invalid_key_length() {
    let service = CryptoService::new();
    let short_key = vec![0u8; 16]; // Too short
    let result = service.encrypt_aes256gcm(b"test", &short_key);
    assert!(result.is_err());
    assert!(matches!(result, Err(CryptoError::InvalidKey(_))));
}

#[test]
fn test_decrypt_invalid_key_length() {
    let service = CryptoService::new();
    let encrypted = EncryptedData {
        ciphertext: vec![0u8; 10],
        iv: vec![0u8; NONCE_LENGTH],
        auth_tag: vec![0u8; TAG_LENGTH],
    };
    let short_key = vec![0u8; 16];
    let result = service.decrypt_aes256gcm(&encrypted, &short_key);
    assert!(result.is_err());
    assert!(matches!(result, Err(CryptoError::InvalidKey(_))));
}

#[test]
fn test_decrypt_with_wrong_key_fails() {
    let service = CryptoService::new();
    let key1 = service.generate_random_bytes(KEY_LENGTH).unwrap();
    let key2 = service.generate_random_bytes(KEY_LENGTH).unwrap();
    let plaintext = b"secret data";

    let encrypted = service.encrypt_aes256gcm(plaintext, &key1).unwrap();
    let result = service.decrypt_aes256gcm(&encrypted, &key2);
    assert!(result.is_err());
}

#[test]
fn test_generate_salt_correct_length() {
    let service = CryptoService::new();
    let salt = service.generate_salt().unwrap();
    assert_eq!(salt.len(), SALT_LENGTH);
}

#[test]
fn test_generate_salt_unique() {
    let service = CryptoService::new();
    let salt1 = service.generate_salt().unwrap();
    let salt2 = service.generate_salt().unwrap();
    assert_ne!(salt1, salt2);
}

#[test]
fn test_generate_random_bytes_correct_length() {
    let service = CryptoService::new();
    assert_eq!(service.generate_random_bytes(0).unwrap().len(), 0);
    assert_eq!(service.generate_random_bytes(1).unwrap().len(), 1);
    assert_eq!(service.generate_random_bytes(64).unwrap().len(), 64);
    assert_eq!(service.generate_random_bytes(256).unwrap().len(), 256);
}

#[test]
fn test_zeroize_memory_clears_buffer() {
    let service = CryptoService::new();
    let mut data = vec![0xFFu8; 32];
    service.zeroize_memory(&mut data);
    assert!(data.iter().all(|&b| b == 0));
    assert_eq!(data.len(), 32);
}

#[test]
fn test_encrypt_empty_plaintext() {
    let service = CryptoService::new();
    let key = service.generate_random_bytes(KEY_LENGTH).unwrap();
    let plaintext = b"";

    let encrypted = service.encrypt_aes256gcm(plaintext, &key).unwrap();
    let decrypted = service.decrypt_aes256gcm(&encrypted, &key).unwrap();

    assert_eq!(decrypted, plaintext);
}

#[test]
fn crypto_service_test_different_plaintexts_produce_different_ciphertexts() {
    let service = CryptoService::new();
    let key = service.generate_random_bytes(KEY_LENGTH).unwrap();

    let encrypted1 = service.encrypt_aes256gcm(b"plaintext1", &key).unwrap();
    let encrypted2 = service.encrypt_aes256gcm(b"plaintext2", &key).unwrap();

    assert_ne!(encrypted1.ciphertext, encrypted2.ciphertext);
}

#[test]
fn test_decrypt_invalid_iv_length() {
    let service = CryptoService::new();
    let key = service.generate_random_bytes(KEY_LENGTH).unwrap();
    let encrypted = EncryptedData {
        ciphertext: vec![0u8; 10],
        iv: vec![0u8; 8], // Wrong length
        auth_tag: vec![0u8; TAG_LENGTH],
    };
    let result = service.decrypt_aes256gcm(&encrypted, &key);
    assert!(result.is_err());
}

#[test]
fn test_decrypt_invalid_tag_length() {
    let service = CryptoService::new();
    let key = service.generate_random_bytes(KEY_LENGTH).unwrap();
    let encrypted = EncryptedData {
        ciphertext: vec![0u8; 10],
        iv: vec![0u8; NONCE_LENGTH],
        auth_tag: vec![0u8; 8], // Wrong length
    };
    let result = service.decrypt_aes256gcm(&encrypted, &key);
    assert!(result.is_err());
}

#[test]
fn test_decrypt_tampered_ciphertext_fails() {
    let service = CryptoService::new();
    let key = service.generate_random_bytes(KEY_LENGTH).unwrap();
    let plaintext = b"sensitive data";

    let mut encrypted = service.encrypt_aes256gcm(plaintext, &key).unwrap();
    if !encrypted.ciphertext.is_empty() {
        encrypted.ciphertext[0] ^= 0xFF;
    }
    let result = service.decrypt_aes256gcm(&encrypted, &key);
    assert!(result.is_err());
}

#[test]
fn test_decrypt_tampered_auth_tag_fails() {
    let service = CryptoService::new();
    let key = service.generate_random_bytes(KEY_LENGTH).unwrap();
    let plaintext = b"sensitive data";

    let mut encrypted = service.encrypt_aes256gcm(plaintext, &key).unwrap();
    encrypted.auth_tag[0] ^= 0xFF;
    let result = service.decrypt_aes256gcm(&encrypted, &key);
    assert!(result.is_err());
}

#[test]
fn crypto_service_test_test_different_plaintexts_produce_different_ciphertexts() {
    let service = CryptoService::new();
    let salt = service.generate_salt().unwrap();
    let key = service.derive_key("master_password", &salt).unwrap();

    let encrypted_a = service.encrypt_aes256gcm(b"username:alice", &key).unwrap();
    let encrypted_b = service.encrypt_aes256gcm(b"username:bob", &key).unwrap();

    assert_ne!(encrypted_a.ciphertext, encrypted_b.ciphertext);
}

#[test]
fn test_decryption_with_wrong_key_fails() {
    let service = CryptoService::new();
    let salt = service.generate_salt().unwrap();
    let correct_key = service.derive_key("correct_password", &salt).unwrap();
    let wrong_key = service.derive_key("wrong_password", &salt).unwrap();
    let encrypted = service.encrypt_aes256gcm(b"super_secret_password_123", &correct_key).unwrap();
    let result = service.decrypt_aes256gcm(&encrypted, &wrong_key);
    assert!(result.is_err(), "Decryption with a wrong key must return an error");
}

#[test]
fn test_zeroize_memory_clears_buffer_to_zeros() {
    let service = CryptoService::new();
    let mut sensitive_data = vec![0xABu8; 64];
    assert!(sensitive_data.iter().any(|&b| b != 0));
    service.zeroize_memory(&mut sensitive_data);
    assert!(sensitive_data.iter().all(|&b| b == 0), "All bytes must be zero after zeroize_memory");
}

#[test]
fn test_crypto_wrong_key_fails() {
    let svc = CryptoService::new();
    let salt = svc.generate_salt().unwrap();
    let key1 = svc.derive_key("password1", &salt).unwrap();
    let key2 = svc.derive_key("password2", &salt).unwrap();
    let encrypted = svc.encrypt_aes256gcm(b"secret data", &key1).unwrap();
    let result = svc.decrypt_aes256gcm(&encrypted, &key2);
    assert!(result.is_err(), "Decryption with wrong key must fail");
}

#[test]
fn test_crypto_tampered_ciphertext_fails() {
    let svc = CryptoService::new();
    let salt = svc.generate_salt().unwrap();
    let key = svc.derive_key("password", &salt).unwrap();
    let mut encrypted = svc.encrypt_aes256gcm(b"secret data", &key).unwrap();
    if let Some(byte) = encrypted.ciphertext.first_mut() {
        *byte ^= 0xFF;
    }
    let result = svc.decrypt_aes256gcm(&encrypted, &key);
    assert!(result.is_err(), "Tampered ciphertext must fail decryption");
}

#[test]
fn test_crypto_tampered_auth_tag_fails() {
    let svc = CryptoService::new();
    let salt = svc.generate_salt().unwrap();
    let key = svc.derive_key("password", &salt).unwrap();
    let mut encrypted = svc.encrypt_aes256gcm(b"secret data", &key).unwrap();
    if let Some(byte) = encrypted.auth_tag.first_mut() {
        *byte ^= 0xFF;
    }
    let result = svc.decrypt_aes256gcm(&encrypted, &key);
    assert!(result.is_err(), "Tampered auth tag must fail decryption");
}

#[test]
fn test_crypto_tampered_iv_fails() {
    let svc = CryptoService::new();
    let salt = svc.generate_salt().unwrap();
    let key = svc.derive_key("password", &salt).unwrap();
    let mut encrypted = svc.encrypt_aes256gcm(b"secret data", &key).unwrap();
    if let Some(byte) = encrypted.iv.first_mut() {
        *byte ^= 0xFF;
    }
    let result = svc.decrypt_aes256gcm(&encrypted, &key);
    assert!(result.is_err(), "Tampered IV must fail decryption");
}

#[test]
fn test_crypto_empty_ciphertext_fails() {
    let svc = CryptoService::new();
    let salt = svc.generate_salt().unwrap();
    let key = svc.derive_key("password", &salt).unwrap();
    let encrypted = EncryptedData { ciphertext: vec![], iv: vec![0u8; 12], auth_tag: vec![0u8; 16] };
    let result = svc.decrypt_aes256gcm(&encrypted, &key);
    assert!(result.is_err());
}

#[test]
fn test_every_single_byte_flip_is_detected() {
    let svc = CryptoService::new();
    let key = svc.generate_random_bytes(KEY_LENGTH).unwrap();
    let encrypted = svc.encrypt_aes256gcm(b"payload", &key).unwrap();
    for i in 0..encrypted.ciphertext.len() {
        let mut t = encrypted.clone();
        t.ciphertext[i] ^= 0x01;
        assert!(matches!(svc.decrypt_aes256gcm(&t, &key), Err(CryptoError::Decryption(_))));
    }
    for i in 0..NONCE_LENGTH {
        let mut t = encrypted.clone();
        t.iv[i] ^= 0x01;
        assert!(svc.decrypt_aes256gcm(&t, &key).is_err());
    }
    for i in 0..TAG_LENGTH {
        let mut t = encrypted.clone();
        t.auth_tag[i] ^= 0x01;
        assert!(svc.decrypt_aes256gcm(&t, &key).is_err());
    }
}

#[test]
fn test_same_plaintext_twice_uses_fresh_nonce() {
    let svc = CryptoService::new();
    let key = svc.generate_random_bytes(KEY_LENGTH).unwrap();
    let a = svc.encrypt_aes256gcm(b"same", &key).unwrap();
    let b = svc.encrypt_aes256gcm(b"same", &key).unwrap();
    assert_ne!(a.iv, b.iv);
    assert_ne!(a.ciphertext, b.ciphertext);
    assert_eq!(a.ciphertext.len(), 4);
    assert_ne!(a.ciphertext, b"same".to_vec());
}
