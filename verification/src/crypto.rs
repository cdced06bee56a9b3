use vstd::prelude::*;

use chacha20poly1305::{
    aead::{Aead, AeadCore, KeyInit, OsRng},
    Key, XChaCha20Poly1305, XNonce,
};
use rand::SeedableRng;
use sha2::Digest;
use vstd::string::StrSliceExecFns;
use vstd::utf8::{decode_utf8, encode_utf8, valid_utf8};

verus! {

broadcast use vstd::utf8::encode_utf8_valid_utf8, vstd::utf8::encode_utf8_decode_utf8, vstd::utf8::decode_utf8_encode_utf8;

/// The largest plaintext the cipher accepts; longer inputs are refused
/// rather than handed to the cipher.
pub const MAX_SEAL_LEN: usize = 0xffff_ffff;

/// Lower-case hex digit for a value below sixteen.
pub open spec fn hex_digit_char(n: u8) -> char {
    if n == 0 {
        '0'
    } else if n == 1 {
        '1'
    } else if n == 2 {
        '2'
    } else if n == 3 {
        '3'
    } else if n == 4 {
        '4'
    } else if n == 5 {
        '5'
    } else if n == 6 {
        '6'
    } else if n == 7 {
        '7'
    } else if n == 8 {
        '8'
    } else if n == 9 {
        '9'
    } else if n == 10 {
        'a'
    } else if n == 11 {
        'b'
    } else if n == 12 {
        'c'
    } else if n == 13 {
        'd'
    } else if n == 14 {
        'e'
    } else {
        'f'
    }
}

/// The lower-case hex encoding of a byte sequence: two digits per byte,
/// high digit first.
pub open spec fn hex_of(bytes: Seq<u8>) -> Seq<char> {
    Seq::new(
        bytes.len() * 2,
        |i: int|
            if i % 2 == 0 {
                hex_digit_char(bytes[i / 2] / 16)
            } else {
                hex_digit_char(bytes[i / 2] % 16)
            },
    )
}

/// Upper- or lower-case hex digit.
pub open spec fn is_hex_digit(c: char) -> bool {
    (48 <= c as u32 && c as u32 <= 57) || (97 <= c as u32 && c as u32 <= 102) || (65 <= c as u32
        && c as u32 <= 70)
}

/// The value of one hex digit.
pub open spec fn hex_val(c: char) -> u8 {
    if 48 <= c as u32 && c as u32 <= 57 {
        (c as u32 - 48) as u8
    } else if 97 <= c as u32 && c as u32 <= 102 {
        (c as u32 - 87) as u8
    } else if 65 <= c as u32 && c as u32 <= 70 {
        (c as u32 - 55) as u8
    } else {
        0
    }
}

/// A well-formed hex string: even length, hex digits throughout.
pub open spec fn valid_hex(s: Seq<char>) -> bool {
    s.len() % 2 == 0 && forall|i: int| 0 <= i < s.len() ==> is_hex_digit(s[i])
}

/// The bytes a hex string decodes to.
pub open spec fn spec_hex_decoded(s: Seq<char>) -> Seq<u8> {
    Seq::new(s.len() / 2, |i: int| (hex_val(s[2 * i]) * 16 + hex_val(s[2 * i + 1])) as u8)
}

/// Encoding a digit and reading it back is the identity.
proof fn lemma_hex_digit(n: u8)
    requires
        n < 16,
    ensures
        is_hex_digit(hex_digit_char(n)),
        hex_val(hex_digit_char(n)) == n,
{
}

/// Hex encoding round-trips: the encoding is well-formed hex and decodes
/// to the original bytes.
pub proof fn lemma_hex_round_trip(bytes: Seq<u8>)
    ensures
        valid_hex(hex_of(bytes)),
        hex_of(bytes).len() == 2 * bytes.len(),
        spec_hex_decoded(hex_of(bytes)) == bytes,
{
    let h = hex_of(bytes);
    assert forall|i: int| 0 <= i < h.len() implies is_hex_digit(h[i]) by {
        let b = bytes[i / 2];
        if i % 2 == 0 {
            lemma_hex_digit(b / 16);
        } else {
            lemma_hex_digit(b % 16);
        }
    }
    assert forall|i: int| 0 <= i < bytes.len() implies spec_hex_decoded(h)[i] == bytes[i] by {
        let b = bytes[i];
        assert(h[2 * i] == hex_digit_char(b / 16));
        assert(h[2 * i + 1] == hex_digit_char(b % 16));
        lemma_hex_digit(b / 16);
        lemma_hex_digit(b % 16);
        assert((b / 16) * 16 + (b % 16) == b);
    }
    assert(spec_hex_decoded(h) =~= bytes);
}

/// Relies on hex::encode: lower-case hex, two digits per byte, high digit
/// first.
#[verifier::external_body]
fn hex_encode(bytes: &Vec<u8>) -> (r: String)
    ensures
        r@ == hex_of(bytes@),
{
    hex::encode(bytes)
}

/// Relies on hex::decode: accepts exactly the even-length strings of hex
/// digits (either case) and returns their bytes.
#[verifier::external_body]
fn hex_decode(s: &str) -> (r: Option<Vec<u8>>)
    ensures
        r is Some <==> valid_hex(s@),
        r matches Some(v) ==> v@ == spec_hex_decoded(s@),
{
    hex::decode(s).ok()
}

/// What the authenticated cipher produces for a key, nonce and plaintext:
/// a function of those arguments alone.
pub uninterp spec fn seal_of(key: Seq<u8>, nonce: Seq<u8>, plaintext: Seq<u8>) -> Seq<u8>;

/// The encryption key derived from a pass-key string: a function of that
/// string alone.
pub uninterp spec fn key_of(unique_key: Seq<char>) -> Seq<u8>;

/// Relies on sha2::Sha256 hashed into rand::rngs::StdRng and
/// XChaCha20Poly1305::generate_key: the same pass-key always yields the
/// same 32-byte cipher key.
#[verifier::external_body]
fn derive_key(unique_key: &str) -> (r: Vec<u8>)
    ensures
        r@ == key_of(unique_key@),
        r@.len() == 32,
{
    let mut hasher = sha2::Sha256::new();
    hasher.update(unique_key.as_bytes());
    let hash = hasher.finalize();
    let mut seed = rand::rngs::StdRng::from_seed(hash.into());
    let key = XChaCha20Poly1305::generate_key(&mut seed);
    key.to_vec()
}

/// Relies on XChaCha20Poly1305::generate_nonce with the operating system's
/// randomness: nothing is promised of the value beyond its length.
#[verifier::external_body]
fn fresh_nonce() -> (r: Vec<u8>)
    ensures
        r@.len() == 24,
{
    XChaCha20Poly1305::generate_nonce(&mut OsRng).to_vec()
}

/// Relies on XChaCha20Poly1305::encrypt: deterministic in key, nonce and
/// plaintext; the ciphertext is the plaintext's length plus a 16-byte tag;
/// within the cipher's length bound it cannot fail.
#[verifier::external_body]
fn aead_seal(key: &Vec<u8>, nonce: &Vec<u8>, plaintext: &Vec<u8>) -> (r: Option<Vec<u8>>)
    requires
        key@.len() == 32,
        nonce@.len() == 24,
        plaintext@.len() <= MAX_SEAL_LEN,
    ensures
        r is Some,
        r matches Some(ct) ==> ct@ == seal_of(key@, nonce@, plaintext@),
        r matches Some(ct) ==> ct@.len() == plaintext@.len() + 16,
{
    let cipher = XChaCha20Poly1305::new(Key::from_slice(key));
    cipher.encrypt(XNonce::from_slice(nonce), plaintext.as_slice()).ok()
}

/// Holds of a decryption result that inverts [`seal_of`]: every sealed
/// payload under this key and nonce is returned as its plaintext.
pub open spec fn opens_sealed(
    key: Seq<u8>,
    nonce: Seq<u8>,
    ciphertext: Seq<u8>,
    r: Option<Vec<u8>>,
) -> bool {
    forall|pt: Seq<u8>|
        (pt.len() <= MAX_SEAL_LEN && ciphertext == #[trigger] seal_of(key, nonce, pt)) ==> (
        r matches Some(p) && p@ == pt)
}

/// Relies on XChaCha20Poly1305::decrypt: it inverts encryption under the
/// same key and nonce, and it succeeds only on ciphertexts that encryption
/// could have produced (the tag authenticates everything else away).
#[verifier::external_body]
fn aead_open(key: &Vec<u8>, nonce: &Vec<u8>, ciphertext: &Vec<u8>) -> (r: Option<Vec<u8>>)
    requires
        key@.len() == 32,
        nonce@.len() == 24,
    ensures
        r matches Some(pt) ==> ciphertext@ == seal_of(key@, nonce@, pt@),
        r matches Some(pt) ==> pt@.len() + 16 == ciphertext@.len(),
        opens_sealed(key@, nonce@, ciphertext@, r),
{
    let cipher = XChaCha20Poly1305::new(Key::from_slice(key));
    cipher.decrypt(XNonce::from_slice(nonce), ciphertext.as_slice()).ok()
}

#[verifier::external_type_specification]
#[verifier::external_body]
pub struct ExFromUtf8Error(std::string::FromUtf8Error);

/// Relies on String::from_utf8: valid UTF-8 decodes to its character
/// sequence, and only valid UTF-8 is accepted.
pub assume_specification[ String::from_utf8 ](v: Vec<u8>) -> (r: Result<
    String,
    std::string::FromUtf8Error,
>)
    ensures
        r is Ok <==> valid_utf8(v@),
        r matches Ok(s) ==> s@ == decode_utf8(v@),
;

/// What one stored ciphertext looks like for a key, nonce and plaintext:
/// the hex encoding of the nonce followed by the sealed bytes.
pub open spec fn spec_encrypted(key: Seq<u8>, nonce: Seq<u8>, plaintext: Seq<char>) -> Seq<char> {
    hex_of(nonce + seal_of(key, nonce, encode_utf8(plaintext)))
}

/// A stored ciphertext is genuine for `key` and plaintext `out` when its
/// hex decoding is a 24-byte nonce followed by `out`'s bytes sealed under
/// that nonce: only such payloads decrypt successfully.
pub open spec fn genuine_ciphertext(key: Seq<u8>, ciphertext: Seq<char>, out: Seq<char>) -> bool {
    exists|nonce: Seq<u8>|
        nonce.len() == 24 && valid_hex(ciphertext) && spec_hex_decoded(ciphertext) == nonce
            + #[trigger] seal_of(key, nonce, encode_utf8(out))
}

/// A failure to encrypt or decrypt a secret: the payload was truncated,
/// tampered with, made with another key, or too large.
#[derive(Debug)]
pub enum PassEncryptorError {
    CipherError(String),
}

/// Encrypts and decrypts stored passwords with a key derived from a
/// machine-unique identifier or an operator-supplied pass-key.
#[derive(Debug)]
pub struct PassEncryptor {
    pub secret: Vec<u8>,
}

/// Relies on machine_uid::get: a stable identifier of this machine, when
/// one can be read. Nothing is promised of the value.
#[verifier::external_body]
fn machine_id() -> (r: Option<String>)
{
    machine_uid::get().ok()
}

impl PassEncryptor {
    /// The derived cipher key is always 32 bytes.
    pub open spec fn wf(&self) -> bool {
        self.secret@.len() == 32
    }

    /// Derives the cipher key from the given pass-key, or else from the
    /// machine's unique identifier, or else from a fixed fallback phrase.
    pub fn new(unique_key: Option<String>) -> (r: Self)
        ensures
            r.wf(),
            unique_key matches Some(k) ==> r.secret@ == key_of(k@),
    {
        let source: String = match unique_key {
            Some(k) => k,
            None => match machine_id() {
                Some(m) => m,
                None => "openconnect-rs-2024".to_string(),
            },
        };
        PassEncryptor { secret: derive_key(source.as_str()) }
    }

    /// Encrypts a password: a fresh random nonce is drawn, the password's
    /// UTF-8 bytes are sealed under it, and the nonce and sealed bytes are
    /// stored together as one hex string. Only a plaintext over the
    /// cipher's length bound is refused.
    pub fn encrypt(&self, plaintext: &str) -> (r: Result<String, PassEncryptorError>)
        requires
            self.wf(),
        ensures
            encode_utf8(plaintext@).len() <= MAX_SEAL_LEN ==> r is Ok,
            r matches Ok(c) ==> exists|nonce: Seq<u8>|
                nonce.len() == 24 && c@ == #[trigger] spec_encrypted(self.secret@, nonce, plaintext@),
    {
        let pt = plaintext.as_bytes_vec();
        if pt.len() > MAX_SEAL_LEN {
            return Err(
                PassEncryptorError::CipherError("Failed to encrypt password".to_string()),
            );
        }
        let mut nonce = fresh_nonce();
        match aead_seal(&self.secret, &nonce, &pt) {
            Some(mut ct) => {
                let ghost nonce_bytes = nonce@;
                nonce.append(&mut ct);
                let encoded = hex_encode(&nonce);
                proof {
                    assert(encoded@ == spec_encrypted(self.secret@, nonce_bytes, plaintext@));
                }
                Ok(encoded)
            },
            None => Err(
                PassEncryptorError::CipherError("Failed to encrypt password".to_string()),
            ),
        }
    }

    /// Decrypts a stored password. Every hex string that
    /// [`PassEncryptor::encrypt`] can produce under the same key decrypts
    /// back to the original password; a payload that is not a genuine
    /// encryption under this key — truncated, tampered with, or oddly
    /// encoded — is rejected with a `CipherError`, never a panic.
    pub fn decrypt(&self, ciphertext: &str) -> (r: Result<String, PassEncryptorError>)
        requires
            self.wf(),
        ensures
            forall|nonce: Seq<u8>, s: Seq<char>|
                nonce.len() == 24 && encode_utf8(s).len() <= MAX_SEAL_LEN && ciphertext@
                    == #[trigger] spec_encrypted(self.secret@, nonce, s) ==> (r matches Ok(out)
                    && out@ == s),
            r matches Ok(out) ==> genuine_ciphertext(self.secret@, ciphertext@, out@),
    {
        let decoded = match hex_decode(ciphertext) {
            Some(v) => v,
            None => {
                proof {
                    assert forall|nonce: Seq<u8>, s: Seq<char>|
                        nonce.len() == 24 && encode_utf8(s).len() <= MAX_SEAL_LEN && ciphertext@
                            == #[trigger] spec_encrypted(self.secret@, nonce, s) implies false by {
                        lemma_hex_round_trip(nonce + seal_of(self.secret@, nonce, encode_utf8(s)));
                    }
                }
                return Err(
                    PassEncryptorError::CipherError("Failed to decrypt password".to_string()),
                );
            },
        };
        if decoded.len() < 24 {
            proof {
                assert forall|nonce: Seq<u8>, s: Seq<char>|
                    nonce.len() == 24 && encode_utf8(s).len() <= MAX_SEAL_LEN && ciphertext@
                        == #[trigger] spec_encrypted(self.secret@, nonce, s) implies false by {
                    lemma_hex_round_trip(nonce + seal_of(self.secret@, nonce, encode_utf8(s)));
                }
            }
            return Err(
                PassEncryptorError::CipherError("Failed to decrypt password".to_string()),
            );
        }
        let mut nonce_part = decoded;
        let ct_part = nonce_part.split_off(24);
        proof {
            assert forall|nonce: Seq<u8>, s: Seq<char>|
                nonce.len() == 24 && encode_utf8(s).len() <= MAX_SEAL_LEN && ciphertext@
                    == #[trigger] spec_encrypted(self.secret@, nonce, s) implies nonce_part@
                == nonce && ct_part@ == seal_of(self.secret@, nonce, encode_utf8(s)) by {
                lemma_hex_round_trip(nonce + seal_of(self.secret@, nonce, encode_utf8(s)));
                let whole = nonce + seal_of(self.secret@, nonce, encode_utf8(s));
                assert(nonce_part@ =~= whole.subrange(0, 24));
                assert(nonce =~= whole.subrange(0, 24));
                assert(ct_part@ =~= whole.subrange(24, whole.len() as int));
                assert(seal_of(self.secret@, nonce, encode_utf8(s)) =~= whole.subrange(
                    24,
                    whole.len() as int,
                ));
            }
        }
        let opened = match aead_open(&self.secret, &nonce_part, &ct_part) {
            Some(p) => p,
            None => {
                proof {
                    assert forall|nonce: Seq<u8>, s: Seq<char>|
                        nonce.len() == 24 && encode_utf8(s).len() <= MAX_SEAL_LEN && ciphertext@
                            == #[trigger] spec_encrypted(self.secret@, nonce, s) implies false by {
                        assert(nonce_part@ == nonce && ct_part@ == seal_of(
                            self.secret@,
                            nonce,
                            encode_utf8(s),
                        ));
                        assert(ct_part@ == seal_of(self.secret@, nonce_part@, encode_utf8(s)));
                    }
                }
                return Err(
                    PassEncryptorError::CipherError("Failed to decrypt password".to_string()),
                );
            },
        };
        match String::from_utf8(opened) {
            Ok(s) => {
                proof {
                    assert forall|nonce: Seq<u8>, ss: Seq<char>|
                        nonce.len() == 24 && encode_utf8(ss).len() <= MAX_SEAL_LEN && ciphertext@
                            == #[trigger] spec_encrypted(self.secret@, nonce, ss) implies s@
                        == ss by {
                        assert(nonce_part@ == nonce && ct_part@ == seal_of(
                            self.secret@,
                            nonce,
                            encode_utf8(ss),
                        ));
                        assert(ct_part@ == seal_of(self.secret@, nonce_part@, encode_utf8(ss)));
                        assert(opened@ == encode_utf8(ss));
                        assert(s@ == decode_utf8(encode_utf8(ss)));
                    }
                    assert(ct_part@ == seal_of(self.secret@, nonce_part@, opened@));
                    assert(encode_utf8(s@) == encode_utf8(decode_utf8(opened@)));
                    assert(encode_utf8(s@) == opened@);
                    assert(spec_hex_decoded(ciphertext@) =~= nonce_part@ + ct_part@);
                    assert(nonce_part@.len() == 24 && valid_hex(ciphertext@) && spec_hex_decoded(
                        ciphertext@,
                    ) == nonce_part@ + seal_of(self.secret@, nonce_part@, encode_utf8(s@)));
                    assert(genuine_ciphertext(self.secret@, ciphertext@, s@));
                }
                Ok(s)
            },
            Err(_) => {
                proof {
                    assert forall|nonce: Seq<u8>, ss: Seq<char>|
                        nonce.len() == 24 && encode_utf8(ss).len() <= MAX_SEAL_LEN && ciphertext@
                            == #[trigger] spec_encrypted(self.secret@, nonce, ss) implies false by {
                        assert(nonce_part@ == nonce && ct_part@ == seal_of(
                            self.secret@,
                            nonce,
                            encode_utf8(ss),
                        ));
                        assert(ct_part@ == seal_of(self.secret@, nonce_part@, encode_utf8(ss)));
                        assert(opened@ == encode_utf8(ss));
                    }
                }
                Err(PassEncryptorError::CipherError("Failed to decrypt password".to_string()))
            },
        }
    }
}

impl Default for PassEncryptor {
    fn default() -> (r: Self)
        ensures
            r.wf(),
    {
        PassEncryptor::new(None)
    }
}

} // verus!
