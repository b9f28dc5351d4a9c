use crypto::digest::Digest;
use crypto::symmetriccipher::SynchronousStreamCipher;
use gitmotion::error::GourceError;
use gitmotion::token::decrypt_token;

fn encrypt(plain: &str, secret: &str, iv: &[u8; 16]) -> String {
    let mut hasher = crypto::sha2::Sha256::new();
    hasher.input_str(secret);
    let mut key = vec![0u8; 32];
    hasher.result(&mut key);
    let mut cipher = crypto::aes::ctr(crypto::aes::KeySize::KeySize256, &key, iv);
    let mut out = vec![0u8; plain.len()];
    cipher.process(plain.as_bytes(), &mut out);
    format!("{}:{}", hex::encode(iv), hex::encode(out))
}

const IV: [u8; 16] = [7, 1, 2, 3, 4, 5, 6, 7, 8, 9, 10, 11, 12, 13, 14, 15];

#[test]
fn token_round_trip() {
    let token = encrypt("ghp_exampletoken1234567890", "server secret", &IV);
    assert_eq!(
        decrypt_token(&token, "server secret"),
        Ok("ghp_exampletoken1234567890".to_string())
    );
}

#[test]
fn token_round_trip_with_upper_case_hex() {
    let token = encrypt("abc", "k", &IV).to_uppercase();
    assert_eq!(decrypt_token(&token, "k"), Ok("abc".to_string()));
}

#[test]
fn wrong_secret_does_not_give_the_plaintext() {
    let token = encrypt("ghp_exampletoken1234567890", "server secret", &IV);
    let r = decrypt_token(&token, "another secret");
    assert_ne!(r, Ok("ghp_exampletoken1234567890".to_string()));
}

#[test]
fn token_without_separator_fails() {
    assert_eq!(decrypt_token("00112233", "k"), Err(GourceError::DecryptionFailed));
}

#[test]
fn token_with_two_separators_fails() {
    let token = encrypt("abc", "k", &IV);
    assert_eq!(
        decrypt_token(&format!("{}:00", token), "k"),
        Err(GourceError::DecryptionFailed)
    );
}

#[test]
fn token_with_invalid_hex_fails() {
    assert_eq!(
        decrypt_token("000102030405060708090a0b0c0d0e0f:zz", "k"),
        Err(GourceError::DecryptionFailed)
    );
    assert_eq!(
        decrypt_token("000102030405060708090a0b0c0d0e0f:abc", "k"),
        Err(GourceError::DecryptionFailed)
    );
}

#[test]
fn token_with_short_iv_fails() {
    assert_eq!(decrypt_token("0001:6162", "k"), Err(GourceError::DecryptionFailed));
}

#[test]
fn token_with_non_utf8_plaintext_fails() {
    // Find a ciphertext whose decryption is not UTF-8: encrypt 0xff bytes.
    let mut hasher = crypto::sha2::Sha256::new();
    hasher.input_str("k");
    let mut key = vec![0u8; 32];
    hasher.result(&mut key);
    let mut cipher = crypto::aes::ctr(crypto::aes::KeySize::KeySize256, &key, &IV);
    let plain = [0xffu8, 0xfe, 0xfd];
    let mut out = vec![0u8; 3];
    cipher.process(&plain, &mut out);
    let token = format!("{}:{}", hex::encode(IV), hex::encode(out));
    assert_eq!(decrypt_token(&token, "k"), Err(GourceError::DecryptionFailed));
}

#[test]
fn empty_ciphertext_decrypts_to_empty_text() {
    let token = format!("{}:", hex::encode(IV));
    assert_eq!(decrypt_token(&token, "k"), Ok(String::new()));
}

#[test]
fn error_messages() {
    assert_eq!(GourceError::DecryptionFailed.message(), "Failed to decrypt access token");
    assert_eq!(GourceError::InvalidUrl.message(), "Invalid URL");
    assert_eq!(
        GourceError::UnsupportedRepository.message(),
        "Only GitHub repositories are supported"
    );
    assert_eq!(GourceError::CloneFailed.message(), "Failed to clone repository");
}
