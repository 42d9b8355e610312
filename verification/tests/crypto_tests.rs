use kplock::crypto::{
    confirm_passphrase, decrypt_keyfile, decryption_result, encrypt_keyfile,
    encrypt_with_passphrase, CryptoError, DecryptFailure, AGE_V1_INTRO,
};

#[test]
fn mismatched_passphrases_are_refused_and_wiped() {
    let mut p = "correct horse".to_string();
    let mut c = "correct house".to_string();
    assert_eq!(encrypt_keyfile(b"secret", &mut p, &mut c), Err(CryptoError::PassphraseMismatch));
    assert!(p.is_empty());
    assert!(c.is_empty());
}

#[test]
fn confirm_passphrase_wipes_the_confirmation() {
    let mut p = "pass".to_string();
    let mut c = "pass".to_string();
    assert_eq!(confirm_passphrase(&mut p, &mut c), Ok(()));
    assert_eq!(p, "pass");
    assert!(c.is_empty());

    let mut p = "pass".to_string();
    let mut c = "Pass".to_string();
    assert_eq!(confirm_passphrase(&mut p, &mut c), Err(CryptoError::PassphraseMismatch));
    assert!(p.is_empty());
    assert!(c.is_empty());
}

#[test]
fn encrypt_then_decrypt_gives_back_the_keyfile() {
    let keyfile = b"0123456789abcdef keyfile contents".to_vec();
    let mut p = "hunter2".to_string();
    let mut c = "hunter2".to_string();
    let encrypted = encrypt_keyfile(&keyfile, &mut p, &mut c).unwrap();
    assert!(p.is_empty());
    assert!(c.is_empty());
    assert!(encrypted.starts_with(AGE_V1_INTRO.as_bytes()));
    let lines: Vec<&[u8]> = encrypted.split(|b| *b == b'\n').collect();
    assert!(lines[1].starts_with(b"-> scrypt "));
    assert!(lines[3].starts_with(b"--- "));
    assert!(encrypted.len() > keyfile.len());
    assert!(encrypted.windows(keyfile.len()).all(|w| w != &keyfile[..]));

    let mut d = "hunter2".to_string();
    assert_eq!(decrypt_keyfile(&encrypted, &mut d), Ok(keyfile.clone()));
    assert!(d.is_empty());

    let mut wrong = "hunter3".to_string();
    assert_eq!(decrypt_keyfile(&encrypted, &mut wrong), Err(CryptoError::WrongPassphraseOrCorrupted));
    assert!(wrong.is_empty());

    let truncated = &encrypted[..encrypted.len() - 5];
    let mut d = "hunter2".to_string();
    assert_eq!(decrypt_keyfile(truncated, &mut d), Err(CryptoError::UnreadablePayload));
}

#[test]
fn empty_keyfile_round_trip() {
    let mut p = "x".to_string();
    let encrypted = encrypt_with_passphrase(b"", &mut p);
    assert!(p.is_empty());
    assert!(encrypted.starts_with(b"age-encryption.org/v1\n"));
    let mut d = "x".to_string();
    assert_eq!(decrypt_keyfile(&encrypted, &mut d), Ok(Vec::new()));
}

#[test]
fn data_without_an_age_header_is_refused() {
    let mut p = "pw".to_string();
    assert_eq!(decrypt_keyfile(b"not an age file", &mut p), Err(CryptoError::UnreadableHeader));
    assert!(p.is_empty());
    let mut p = "pw".to_string();
    assert_eq!(decrypt_keyfile(b"", &mut p), Err(CryptoError::UnreadableHeader));
    let mut p = "pw".to_string();
    assert_eq!(
        decrypt_keyfile(b"age-encryption.org/v1\n-> broken", &mut p),
        Err(CryptoError::UnreadableHeader)
    );
}

#[test]
fn crypto_error_messages() {
    assert_eq!(CryptoError::PassphraseMismatch.message(), "Passphrases do not match");
    assert_eq!(CryptoError::UnreadableHeader.message(), "Error reading encrypted file header");
    assert_eq!(
        CryptoError::WrongPassphraseOrCorrupted.message(),
        "Decryption error: wrong passphrase or corrupted file"
    );
    assert_eq!(CryptoError::UnreadablePayload.message(), "Error reading decrypted data");
}

#[test]
fn decryption_outcomes_map_to_library_errors() {
    assert_eq!(decryption_result(Ok(vec![1, 2, 3])), Ok(vec![1, 2, 3]));
    assert_eq!(decryption_result(Ok(Vec::new())), Ok(Vec::new()));
    assert_eq!(
        decryption_result(Err(DecryptFailure::Read)),
        Err(CryptoError::UnreadablePayload)
    );
    assert_eq!(
        decryption_result(Err(DecryptFailure::Rejected)),
        Err(CryptoError::WrongPassphraseOrCorrupted)
    );
}

#[test]
fn corrupted_payload_with_the_right_passphrase_is_a_read_error() {
    let mut p = "pw".to_string();
    let mut encrypted = encrypt_with_passphrase(b"keyfile bytes", &mut p);
    let last = encrypted.len() - 1;
    encrypted[last] ^= 0x01;
    let mut d = "pw".to_string();
    assert_eq!(decrypt_keyfile(&encrypted, &mut d), Err(CryptoError::UnreadablePayload));
    assert!(d.is_empty());
    let mut wrong = "other".to_string();
    assert_eq!(
        decrypt_keyfile(&encrypted, &mut wrong),
        Err(CryptoError::WrongPassphraseOrCorrupted)
    );
}
