//! Access tokens: `hex(iv) ":" hex(ciphertext)`, AES-256 in counter mode
//! under a key that is the SHA-256 digest of a server secret.

use vstd::prelude::*;
use vstd::utf8::{decode_utf8, encode_utf8, valid_utf8};
use vstd::slice::slice_subrange;
use crypto::digest::Digest;
use crypto::symmetriccipher::SynchronousStreamCipher;
use crate::error::GourceError;

verus! {

/// The byte of `':'`.
pub const SEPARATOR: u8 = 58;
/// Length in bytes of a counter-mode initialization vector.
pub const IV_LEN: usize = 16;

/// The SHA-256 digest of `bytes`.
pub uninterp spec fn sha256_digest(bytes: Seq<u8>) -> Seq<u8>;

/// The AES-256 counter-mode keystream for `key` and `iv`, `len` bytes long.
pub uninterp spec fn aes256_ctr_keystream(key: Seq<u8>, iv: Seq<u8>, len: nat) -> Seq<u8>;

/// `a` with each byte xor-ed with the byte of `b` at the same place.
pub open spec fn xor_bytes(a: Seq<u8>, b: Seq<u8>) -> Seq<u8> {
    Seq::new(a.len(), |i: int| a[i] ^ b[i])
}

/// What AES-256 in counter mode makes of `data`; the same operation
/// encrypts and decrypts.
pub open spec fn ctr_apply(key: Seq<u8>, iv: Seq<u8>, data: Seq<u8>) -> Seq<u8> {
    xor_bytes(data, aes256_ctr_keystream(key, iv, data.len()))
}

pub open spec fn is_hex_digit(b: u8) -> bool {
    (48 <= b <= 57) || (97 <= b <= 102) || (65 <= b <= 70)
}

pub open spec fn hex_digit_value(b: u8) -> int {
    if 48 <= b <= 57 {
        b - 48
    } else if 97 <= b <= 102 {
        b - 87
    } else {
        b - 55
    }
}

/// An even number of hexadecimal digits, of either case.
pub open spec fn is_hex(s: Seq<u8>) -> bool {
    s.len() % 2 == 0 && forall|i: int| 0 <= i < s.len() ==> is_hex_digit(#[trigger] s[i])
}

/// The bytes that the digit pairs of `s` stand for.
pub open spec fn hex_bytes(s: Seq<u8>) -> Seq<u8> {
    Seq::new(
        s.len() / 2,
        |i: int| (hex_digit_value(s[2 * i]) * 16 + hex_digit_value(s[2 * i + 1])) as u8,
    )
}

/// The lower-case hexadecimal digit of `v`, which lies in `0..16`.
pub open spec fn lower_hex_digit(v: int) -> u8 {
    if v < 10 {
        (48 + v) as u8
    } else {
        (87 + v) as u8
    }
}

/// `b` written in lower-case hexadecimal, two digits per byte.
pub open spec fn hex_text(b: Seq<u8>) -> Seq<u8> {
    Seq::new(
        2 * b.len(),
        |i: int|
            if i % 2 == 0 {
                lower_hex_digit(b[i / 2] as int / 16)
            } else {
                lower_hex_digit(b[i / 2] as int % 16)
            },
    )
}

/// `i` is the place of the one and only separator of `t`.
pub open spec fn single_separator_at(t: Seq<u8>, i: int) -> bool {
    &&& 0 <= i < t.len()
    &&& t[i] == SEPARATOR
    &&& forall|j: int| 0 <= j < t.len() && j != i ==> t[j] != SEPARATOR
}

/// The two parts of a token around its single separator, if it has exactly
/// one.
pub open spec fn split_token(t: Seq<u8>) -> Option<(Seq<u8>, Seq<u8>)> {
    if exists|i: int| single_separator_at(t, i) {
        let i = choose|i: int| single_separator_at(t, i);
        Some((t.subrange(0, i), t.subrange(i + 1, t.len() as int)))
    } else {
        None
    }
}

/// The text that the token bytes `t` hold under the secret bytes `secret`,
/// or `None` where decryption fails.
pub open spec fn token_plaintext(t: Seq<u8>, secret: Seq<u8>) -> Option<Seq<char>> {
    match split_token(t) {
        None => None,
        Some((iv_hex, data_hex)) => {
            if is_hex(iv_hex) && is_hex(data_hex) && hex_bytes(iv_hex).len() == IV_LEN {
                let plain = ctr_apply(sha256_digest(secret), hex_bytes(iv_hex), hex_bytes(data_hex));
                if valid_utf8(plain) {
                    Some(decode_utf8(plain))
                } else {
                    None
                }
            } else {
                None
            }
        },
    }
}

/// The token for `iv` and the encrypted bytes `data`.
pub open spec fn token_bytes(iv: Seq<u8>, data: Seq<u8>) -> Seq<u8> {
    hex_text(iv) + seq![SEPARATOR] + hex_text(data)
}

/// Lower-case hex text is hex, holds no separator, and decodes to the bytes
/// it was written from.
proof fn lemma_hex_text_decodes(b: Seq<u8>)
    ensures
        is_hex(hex_text(b)),
        hex_bytes(hex_text(b)) == b,
        forall|i: int| 0 <= i < hex_text(b).len() ==> hex_text(b)[i] != SEPARATOR,
{
    let h = hex_text(b);
    assert forall|i: int| 0 <= i < h.len() implies is_hex_digit(#[trigger] h[i]) && h[i]
        != SEPARATOR by {
        let v = b[i / 2] as int;
        assert(0 <= v / 16 < 16 && 0 <= v % 16 < 16);
    }
    assert forall|i: int| 0 <= i < b.len() implies #[trigger] hex_bytes(h)[i] == b[i] by {
        let v = b[i] as int;
        assert((2 * i) / 2 == i && (2 * i) % 2 == 0);
        assert((2 * i + 1) / 2 == i && (2 * i + 1) % 2 == 1);
        assert(hex_digit_value(lower_hex_digit(v / 16)) == v / 16);
        assert(hex_digit_value(lower_hex_digit(v % 16)) == v % 16);
        assert(v / 16 * 16 + v % 16 == v);
    }
    assert(hex_bytes(h) =~= b);
}

/// Counter mode undoes itself under the same key and IV.
proof fn lemma_ctr_involution(key: Seq<u8>, iv: Seq<u8>, data: Seq<u8>)
    ensures
        ctr_apply(key, iv, ctr_apply(key, iv, data)) == data,
{
    let once = ctr_apply(key, iv, data);
    let ks = aes256_ctr_keystream(key, iv, data.len());
    assert forall|i: int| 0 <= i < data.len() implies #[trigger] ctr_apply(key, iv, once)[i]
        == data[i] by {
        let a = data[i];
        let k = ks[i];
        assert((a ^ k) ^ k == a) by (bit_vector);
    }
    assert(ctr_apply(key, iv, once) =~= data);
}

/// Token round trip: plain UTF-8 bytes encrypted under the key derived from
/// `secret` with a 16-byte IV, written as a token, decrypt with the same
/// secret to the text they encode.
pub proof fn lemma_token_round_trip(secret: Seq<u8>, iv: Seq<u8>, plain: Seq<u8>)
    requires
        iv.len() == IV_LEN,
        valid_utf8(plain),
    ensures
        token_plaintext(token_bytes(iv, ctr_apply(sha256_digest(secret), iv, plain)), secret)
            == Some(decode_utf8(plain)),
{
    let key = sha256_digest(secret);
    let data = ctr_apply(key, iv, plain);
    let t = token_bytes(iv, data);
    let hi = hex_text(iv);
    let hd = hex_text(data);
    lemma_hex_text_decodes(iv);
    lemma_hex_text_decodes(data);
    let at = hi.len() as int;
    assert forall|j: int| 0 <= j < t.len() && j != at implies t[j] != SEPARATOR by {
        if j < at {
            assert(t[j] == hi[j]);
        } else {
            assert(t[j] == hd[j - at - 1]);
        }
    }
    assert(single_separator_at(t, at));
    let i = choose|i: int| single_separator_at(t, i);
    assert(i == at);
    assert(t.subrange(0, at) =~= hi);
    assert(t.subrange(at + 1, t.len() as int) =~= hd);
    lemma_ctr_involution(key, iv, plain);
}

/// A token without exactly one separator, or whose parts are not hex, or
/// whose IV is not 16 bytes, decrypts to nothing, whatever the secret.
pub proof fn lemma_malformed_token_fails(t: Seq<u8>, secret: Seq<u8>)
    requires
        match split_token(t) {
            None => true,
            Some((iv_hex, data_hex)) => !is_hex(iv_hex) || !is_hex(data_hex) || hex_bytes(
                iv_hex,
            ).len() != IV_LEN,
        },
    ensures
        token_plaintext(t, secret) is None,
{
}

#[verifier::external_type_specification]
#[verifier::external_body]
pub struct ExFromHexError(hex::FromHexError);

#[verifier::external_type_specification]
#[verifier::external_body]
pub struct ExFromUtf8Error(std::string::FromUtf8Error);

/// Relies on rust-crypto's `Sha256` (`input_str`, `result`): the 32-byte
/// SHA-256 digest of the secret's UTF-8 bytes.
#[verifier::external_body]
fn derive_key(secret_key: &str) -> (r: Vec<u8>)
    ensures
        r@ == sha256_digest(encode_utf8(secret_key@)),
        r@.len() == 32,
{
    let mut hasher = crypto::sha2::Sha256::new();
    hasher.input_str(secret_key);
    let mut hashed_key = vec![0u8; 32];
    hasher.result(&mut hashed_key);
    hashed_key
}

/// Relies on `hex::decode`: an even number of hex digits of either case
/// decode pair by pair; anything else is an error.
#[verifier::external_body]
fn decode_hex(s: &[u8]) -> (r: Result<Vec<u8>, hex::FromHexError>)
    ensures
        r is Ok <==> is_hex(s@),
        r is Ok ==> r->Ok_0@ == hex_bytes(s@),
{
    hex::decode(s)
}

/// Relies on rust-crypto's `aes::ctr` with a 256-bit key and on
/// `SynchronousStreamCipher::process`: each byte is xor-ed with the
/// keystream. The key must be 32 bytes and the IV 16, else the cipher panics.
#[verifier::external_body]
fn aes256_ctr(key: &[u8], iv: &[u8], data: &[u8]) -> (r: Vec<u8>)
    requires
        key@.len() == 32,
        iv@.len() == IV_LEN,
    ensures
        r@ == xor_bytes(data@, aes256_ctr_keystream(key@, iv@, data@.len())),
{
    let mut cipher = crypto::aes::ctr(crypto::aes::KeySize::KeySize256, key, iv);
    let mut out = vec![0u8; data.len()];
    cipher.process(data, &mut out);
    out
}

/// Relies on `String::from_utf8`: accepts exactly the valid UTF-8 byte
/// sequences and decodes them.
#[verifier::external_body]
fn utf8_string(bytes: Vec<u8>) -> (r: Result<String, std::string::FromUtf8Error>)
    ensures
        r is Ok <==> valid_utf8(bytes@),
        r is Ok ==> r->Ok_0@ == decode_utf8(bytes@),
{
    String::from_utf8(bytes)
}

/// The place of the single separator in `t`, if there is exactly one.
fn find_separator(t: &[u8]) -> (r: Option<usize>)
    ensures
        r is Some ==> single_separator_at(t@, r->Some_0 as int),
        r is None ==> !exists|i: int| single_separator_at(t@, i),
{
    let mut found: Option<usize> = None;
    let mut k: usize = 0;
    while k < t.len()
        invariant
            k <= t@.len(),
            found is None ==> forall|j: int| 0 <= j < k ==> t@[j] != SEPARATOR,
            found is Some ==> {
                let i = found->Some_0 as int;
                &&& i < k
                &&& t@[i] == SEPARATOR
                &&& forall|j: int| 0 <= j < k && j != i ==> t@[j] != SEPARATOR
            },
        decreases t@.len() - k,
    {
        if t[k] == SEPARATOR {
            if let Some(i) = found {
                assert forall|m: int| !single_separator_at(t@, m) by {
                    if single_separator_at(t@, m) {
                        assert(m == i as int || m == k as int);
                    }
                }
                return None;
            }
            found = Some(k);
        }
        k = k + 1;
    }
    proof {
        if found is None {
            assert forall|m: int| !single_separator_at(t@, m) by {
                if single_separator_at(t@, m) {
                    assert(t@[m] != SEPARATOR);
                }
            }
        }
    }
    found
}

/// Recovers the access credential from `encrypted_token` with the server's
/// `secret_key`. Every malformed token, bad hex, wrong IV length or
/// non-UTF-8 plaintext is `DecryptionFailed`.
pub fn decrypt_token(encrypted_token: &str, secret_key: &str) -> (r: Result<String, GourceError>)
    ensures
        match r {
            Ok(s) => token_plaintext(encode_utf8(encrypted_token@), encode_utf8(secret_key@))
                == Some(s@),
            Err(e) => e == GourceError::DecryptionFailed && token_plaintext(
                encode_utf8(encrypted_token@),
                encode_utf8(secret_key@),
            ) is None,
        },
{
    let t = encrypted_token.as_bytes();
    let sep = match find_separator(t) {
        Some(i) => i,
        None => return Err(GourceError::DecryptionFailed),
    };
    proof {
        let i = choose|i: int| single_separator_at(t@, i);
        assert(i == sep as int);
    }
    let n = t.len();
    assert(sep < n);
    let iv_hex = slice_subrange(t, 0, sep);
    let data_hex = slice_subrange(t, sep + 1, n);
    let iv = match decode_hex(iv_hex) {
        Ok(v) => v,
        Err(_) => return Err(GourceError::DecryptionFailed),
    };
    let data = match decode_hex(data_hex) {
        Ok(v) => v,
        Err(_) => return Err(GourceError::DecryptionFailed),
    };
    if iv.len() != IV_LEN {
        return Err(GourceError::DecryptionFailed);
    }
    let key = derive_key(secret_key);
    let plain = aes256_ctr(key.as_slice(), iv.as_slice(), data.as_slice());
    match utf8_string(plain) {
        Ok(s) => Ok(s),
        Err(_) => Err(GourceError::DecryptionFailed),
    }
}

} // verus!
