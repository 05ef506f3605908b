//! The credential vault: password-based encryption of SSH deploy keys in the
//! OpenSSL `Salted__` envelope (PBKDF2-SHA256 key derivation, AES-256-CBC with
//! PKCS#7 padding, base64 transport encoding), plus Ed25519 deploy-key
//! generation and public-key recovery from an encrypted private key.
//!
//! The outside cryptographic calls are deterministic functions of their
//! arguments; each is named by an uninterpreted spec function, and the vault's
//! contracts are exact over those names. In particular `encrypt_key` promises
//! that the blob it returns decrypts, under `decrypt_spec`, to the plaintext
//! it was given.

use vstd::prelude::*;
use vstd::string::*;
use vstd::utf8::{encode_utf8, decode_utf8, valid_utf8};
use vstd::utf8::{encode_utf8_valid_utf8, encode_utf8_decode_utf8};
use base64::Engine;
use cbc::cipher::{BlockDecryptMut, BlockEncryptMut, KeyIvInit};
use cbc::cipher::block_padding::Pkcs7;

verus! {

/// An Ed25519 deploy keypair: the OpenSSH public-key line and the private key
/// in OpenSSH PEM form. The private key leaves `generate_deploy_key`
/// unencrypted; callers pass it through `encrypt_key` before persisting it.
pub struct KeyPair {
    pub public_key: String,
    pub encrypted_private_key: String,
}

/// PBKDF2 iteration count of the OpenSSL-compatible envelope.
pub const KDF_ROUNDS: u32 = 10000;

/// What `pbkdf2::pbkdf2_hmac::<sha2::Sha256>` writes into an `out_len`-byte
/// buffer for the given password, salt and round count.
pub uninterp spec fn pbkdf2_sha256_of(password: Seq<u8>, salt: Seq<u8>, rounds: u32, out_len: usize) -> Seq<u8>;

/// The AES-256-CBC/PKCS#7 ciphertext for the given 32-byte key, 16-byte IV and
/// plaintext.
pub uninterp spec fn aes256_cbc_enc_of(key: Seq<u8>, iv: Seq<u8>, pt: Seq<u8>) -> Seq<u8>;

/// The result of AES-256-CBC/PKCS#7 decryption: `None` when the padding check
/// rejects the ciphertext under that key and IV.
pub uninterp spec fn aes256_cbc_dec_of(key: Seq<u8>, iv: Seq<u8>, ct: Seq<u8>) -> Option<Seq<u8>>;

/// The standard base64 encoding of a byte sequence.
pub uninterp spec fn base64_of(bytes: Seq<u8>) -> Seq<char>;

/// The result of standard base64 decoding: `None` on text that is not valid
/// base64.
pub uninterp spec fn base64_decoded(s: Seq<char>) -> Option<Seq<u8>>;

/// The OpenSSH public-key line derived from an OpenSSH private-key file:
/// `None` when the text does not parse as an OpenSSH private key (or its
/// public half cannot be exported), the public line otherwise.
pub uninterp spec fn openssh_public_of(pem: Seq<char>) -> Option<Seq<char>>;

/// Relies on `pbkdf2::pbkdf2_hmac` with `sha2::Sha256`: it fills the output
/// buffer with key material that is a pure function of password, salt and
/// round count.
#[verifier::external_body]
fn pbkdf2_sha256(password: &[u8], salt: &[u8], rounds: u32, out_len: usize) -> (r: Vec<u8>)
    ensures
        r@ == pbkdf2_sha256_of(password@, salt@, rounds, out_len),
        r@.len() == out_len,
{
    let mut out = vec![0u8; out_len];
    pbkdf2::pbkdf2_hmac::<sha2::Sha256>(password, salt, rounds, &mut out);
    out
}

/// Relies on `cipher::BlockEncryptMut::encrypt_padded_vec_mut` for
/// `cbc::Encryptor<aes::Aes256>`: the ciphertext is a pure function of key, IV
/// and plaintext, and decrypting it with the same key and IV yields the
/// plaintext again.
#[verifier::external_body]
fn aes256_cbc_encrypt(key: &[u8], iv: &[u8], pt: &[u8]) -> (r: Vec<u8>)
    requires
        key@.len() == 32,
        iv@.len() == 16,
    ensures
        r@ == aes256_cbc_enc_of(key@, iv@, pt@),
        r@.len() == pt@.len() + 16 - pt@.len() % 16,
        aes256_cbc_dec_of(key@, iv@, r@) == Some(pt@),
{
    let enc = cbc::Encryptor::<aes::Aes256>::new_from_slices(key, iv).unwrap();
    enc.encrypt_padded_vec_mut::<Pkcs7>(pt)
}

/// Relies on `cipher::BlockDecryptMut::decrypt_padded_vec_mut` for
/// `cbc::Decryptor<aes::Aes256>`: it returns the unpadded plaintext, or an
/// error when the ciphertext length or the PKCS#7 padding is invalid.
#[verifier::external_body]
fn aes256_cbc_decrypt(key: &[u8], iv: &[u8], ct: &[u8]) -> (r: Option<Vec<u8>>)
    requires
        key@.len() == 32,
        iv@.len() == 16,
    ensures
        r matches Some(v) ==> aes256_cbc_dec_of(key@, iv@, ct@) == Some(v@),
        r is None ==> aes256_cbc_dec_of(key@, iv@, ct@) is None,
{
    let dec = cbc::Decryptor::<aes::Aes256>::new_from_slices(key, iv).unwrap();
    dec.decrypt_padded_vec_mut::<Pkcs7>(ct).ok()
}

/// Relies on `base64::Engine::encode` with the STANDARD engine: the output is
/// a pure function of the input bytes, and decoding it returns those bytes.
#[verifier::external_body]
pub fn base64_encode(bytes: &[u8]) -> (r: String)
    ensures
        r@ == base64_of(bytes@),
        base64_decoded(r@) == Some(bytes@),
{
    base64::engine::general_purpose::STANDARD.encode(bytes)
}

/// Relies on `base64::Engine::decode` with the STANDARD engine: it returns the
/// decoded bytes, or an error on text that is not valid base64.
#[verifier::external_body]
pub fn base64_decode(s: &str) -> (r: Option<Vec<u8>>)
    ensures
        r matches Some(v) ==> base64_decoded(s@) == Some(v@),
        r is None ==> base64_decoded(s@) is None,
{
    base64::engine::general_purpose::STANDARD.decode(s).ok()
}

/// Relies on std's `String::from_utf8`: it succeeds exactly on valid UTF-8 and
/// decodes the bytes.
#[verifier::external_body]
pub fn bytes_to_string(v: Vec<u8>) -> (r: Option<String>)
    ensures
        r matches Some(s) ==> valid_utf8(v@) && s@ == decode_utf8(v@),
        r is None ==> !valid_utf8(v@),
{
    String::from_utf8(v).ok()
}

/// Relies on `rand::random` for an 8-byte array: nothing is assumed of the
/// value beyond its length.
#[verifier::external_body]
fn random_salt() -> (r: Vec<u8>)
    ensures
        r@.len() == 8,
{
    rand::random::<[u8; 8]>().to_vec()
}

/// Relies on `ssh_key::PrivateKey::random` (Ed25519),
/// `ssh_key::PublicKey::to_openssh` and `ssh_key::PrivateKey::to_openssh`:
/// the keypair is random, but whatever comes back, the returned public line
/// is the one derived from the returned private-key file — parsing the PEM
/// again recovers the same key, so `openssh_public_of` maps it to exactly
/// this public line.
#[verifier::external_body]
fn ssh_generate_ed25519() -> (r: Result<(String, String), String>)
    ensures
        r matches Ok(p) ==> openssh_public_of(p.1@) == Some(p.0@),
{
    let private_key =
        match ssh_key::PrivateKey::random(&mut rand::thread_rng(), ssh_key::Algorithm::Ed25519) {
            Ok(k) => k,
            Err(e) => return Err(format!("Key generation failed: {}", e)),
        };
    let public_openssh = match private_key.public_key().to_openssh() {
        Ok(s) => s,
        Err(e) => return Err(format!("Public key export failed: {}", e)),
    };
    let private_pem = match private_key.to_openssh(ssh_key::LineEnding::LF) {
        Ok(s) => s,
        Err(e) => return Err(format!("Private key export failed: {}", e)),
    };
    Ok((public_openssh, private_pem.to_string()))
}

/// Relies on `ssh_key::PrivateKey::from_openssh` and
/// `ssh_key::PublicKey::to_openssh`: whether a private-key file parses, and
/// the public key recovered from it, are pure functions of the file's text.
#[verifier::external_body]
fn ssh_public_from_pem(pem: &str) -> (r: Result<String, String>)
    ensures
        r matches Ok(s) ==> openssh_public_of(pem@) == Some(s@),
        r is Err ==> openssh_public_of(pem@) is None,
{
    let key = match ssh_key::PrivateKey::from_openssh(pem) {
        Ok(k) => k,
        Err(e) => return Err(format!("Parse private key failed: {}", e)),
    };
    key.public_key().to_openssh().map_err(|e| format!("Public key export failed: {}", e))
}

/// The 8 ASCII bytes `Salted__` that open every encrypted blob.
pub open spec fn salted_magic() -> Seq<u8> {
    seq![0x53u8, 0x61u8, 0x6cu8, 0x74u8, 0x65u8, 0x64u8, 0x5fu8, 0x5fu8]
}

fn salted_magic_vec() -> (v: Vec<u8>)
    ensures
        v@ == salted_magic(),
{
    let mut v: Vec<u8> = Vec::new();
    v.push(0x53);
    v.push(0x61);
    v.push(0x6c);
    v.push(0x74);
    v.push(0x65);
    v.push(0x64);
    v.push(0x5f);
    v.push(0x5f);
    proof {
        assert(v@ =~= salted_magic());
    }
    v
}

/// The 32-byte AES key: the first 32 of the 48 derived bytes.
pub open spec fn vault_key_of(pw: Seq<u8>, salt: Seq<u8>) -> Seq<u8> {
    pbkdf2_sha256_of(pw, salt, KDF_ROUNDS, 48).subrange(0, 32)
}

/// The 16-byte IV: the last 16 of the 48 derived bytes.
pub open spec fn vault_iv_of(pw: Seq<u8>, salt: Seq<u8>) -> Seq<u8> {
    pbkdf2_sha256_of(pw, salt, KDF_ROUNDS, 48).subrange(32, 48)
}

/// The byte layout of an encrypted blob before base64 encoding:
/// `Salted__`, the 8-byte salt, then the ciphertext.
pub open spec fn sealed_bytes(pt: Seq<u8>, pw: Seq<u8>, salt: Seq<u8>) -> Seq<u8> {
    salted_magic() + salt + aes256_cbc_enc_of(vault_key_of(pw, salt), vault_iv_of(pw, salt), pt)
}

/// The plaintext bytes recovered from decoded blob bytes: the magic prefix
/// must be present, then the salt is read and the ciphertext decrypted under
/// the re-derived key and IV.
pub open spec fn unsealed_bytes(data: Seq<u8>, pw: Seq<u8>) -> Option<Seq<u8>> {
    if data.len() >= 16 && data.subrange(0, 8) == salted_magic() {
        aes256_cbc_dec_of(
            vault_key_of(pw, data.subrange(8, 16)),
            vault_iv_of(pw, data.subrange(8, 16)),
            data.subrange(16, data.len() as int),
        )
    } else {
        None
    }
}

/// The plaintext bytes recovered from a base64 blob under a password's bytes.
pub open spec fn decrypted_bytes(blob: Seq<char>, pw: Seq<u8>) -> Option<Seq<u8>> {
    match base64_decoded(blob) {
        Some(data) => unsealed_bytes(data, pw),
        None => None,
    }
}

/// What `decrypt_key` returns for a blob and a password: the recovered
/// plaintext when base64 decoding, the magic prefix, the padding check and
/// UTF-8 decoding all pass, and nothing otherwise. A wrong password and a
/// corrupt blob are indistinguishable here, both give `None`.
pub open spec fn decrypt_spec(blob: Seq<char>, pw: Seq<char>) -> Option<Seq<char>> {
    match decrypted_bytes(blob, encode_utf8(pw)) {
        Some(b) => if valid_utf8(b) {
            Some(decode_utf8(b))
        } else {
            None
        },
        None => None,
    }
}

/// Derives the AES key and IV from a password and salt: PBKDF2-SHA256 with
/// `KDF_ROUNDS` rounds produces 48 bytes, split into a 32-byte key and a
/// 16-byte IV.
pub fn derive_key_iv(password: &[u8], salt: &[u8]) -> (r: (Vec<u8>, Vec<u8>))
    ensures
        r.0@ == vault_key_of(password@, salt@),
        r.1@ == vault_iv_of(password@, salt@),
        r.0@.len() == 32,
        r.1@.len() == 16,
{
    let mut derived = pbkdf2_sha256(password, salt, KDF_ROUNDS, 48);
    let iv = derived.split_off(32);
    (derived, iv)
}

/// Encrypts a private key under a password: fresh 8-byte salt, derived
/// key/IV, AES-256-CBC with PKCS#7 padding, assembled as
/// `Salted__ || salt || ciphertext` and base64-encoded.
///
/// The contract carries the vault's round-trip law: every blob this returns
/// decrypts, under the same password, to exactly the plaintext given here
/// (`decrypt_spec` is the contract of `decrypt_key`), and its base64 decoding
/// is at least 16 bytes long and starts with the `Salted__` magic.
pub fn encrypt_key(private_key: String, password: String) -> (r: Result<String, String>)
    ensures
        r is Ok,
        r matches Ok(blob) ==> decrypt_spec(blob@, password@) == Some(private_key@),
        r matches Ok(blob) ==> (base64_decoded(blob@) matches Some(data) && data.len() == 16 + (
        encode_utf8(private_key@).len() + 16 - encode_utf8(private_key@).len() % 16)
            && data.subrange(0, 8) == salted_magic()),
        r matches Ok(blob) ==> exists|salt: Seq<u8>|
            salt.len() == 8 && blob@ == base64_of(
                #[trigger] sealed_bytes(encode_utf8(private_key@), encode_utf8(password@), salt),
            ),
{
    let salt = random_salt();
    let pw_bytes = utf8_bytes(&password);
    let (key, iv) = derive_key_iv(pw_bytes.as_slice(), salt.as_slice());
    let pt_bytes = utf8_bytes(&private_key);
    let ct = aes256_cbc_encrypt(key.as_slice(), iv.as_slice(), pt_bytes.as_slice());

    let mut out = salted_magic_vec();
    out.extend_from_slice(salt.as_slice());
    out.extend_from_slice(ct.as_slice());
    let blob = base64_encode(out.as_slice());

    proof {
        let pw = encode_utf8(password@);
        let pt = encode_utf8(private_key@);
        assert(out@.subrange(0, 8) =~= salted_magic());
        assert(out@.subrange(8, 16) =~= salt@);
        assert(out@.subrange(16, out@.len() as int) =~= ct@);
        assert(out@ =~= sealed_bytes(pt, pw, salt@));
        encode_utf8_valid_utf8(private_key@);
        encode_utf8_decode_utf8(private_key@);
        assert(decrypt_spec(blob@, password@) == Some(private_key@));
    }
    Ok(blob)
}

/// The UTF-8 bytes of a string; used for both passwords and plaintext.
fn utf8_bytes(s: &String) -> (r: Vec<u8>)
    ensures
        r@ == encode_utf8(s@),
{
    s.as_str().as_bytes_vec()
}

/// Decrypts a blob produced by `encrypt_key` (or by OpenSSL's
/// `enc -aes-256-cbc -pbkdf2 -base64` with 10000 rounds): base64-decodes,
/// checks the `Salted__` magic, re-derives key and IV from the embedded salt,
/// decrypts and removes the padding, and decodes the plaintext as UTF-8.
///
/// Returns `Ok` exactly when `decrypt_spec` yields a plaintext; every failure
/// (bad base64, short input, missing magic, padding rejection, invalid UTF-8)
/// returns `Err`, so a wrong password is indistinguishable from corrupt
/// ciphertext.
pub fn decrypt_key(encrypted: String, password: String) -> (r: Result<String, String>)
    ensures
        r matches Ok(s) ==> decrypt_spec(encrypted@, password@) == Some(s@),
        r is Err <==> decrypt_spec(encrypted@, password@) is None,
{
    let data = match base64_decode(encrypted.as_str()) {
        Some(d) => d,
        None => {
            return Err(String::from_str("Base64 decode failed"));
        },
    };
    if data.len() < 16 {
        return Err(String::from_str("Invalid encrypted data format"));
    }
    let ghost data0 = data@;
    let magic = salted_magic_vec();
    let mut i: usize = 0;
    while i < 8
        invariant
            i <= 8,
            data0.len() >= 16,
            data@ == data0,
            magic@ == salted_magic(),
            base64_decoded(encrypted@) == Some(data0),
            forall|j: int| 0 <= j < i ==> data0[j] == salted_magic()[j],
        decreases 8 - i,
    {
        if data[i] != magic[i] {
            proof {
                assert(data0.subrange(0, 8) != salted_magic()) by {
                    assert(data0.subrange(0, 8)[i as int] != salted_magic()[i as int]);
                }
            }
            return Err(String::from_str("Invalid encrypted data format"));
        }
        i += 1;
    }
    proof {
        assert(data0.subrange(0, 8) =~= salted_magic());
    }
    let mut rest = data;
    let mut rest2 = rest.split_off(8);
    let ct = rest2.split_off(8);
    let salt = rest2;
    proof {
        assert(salt@ =~= data0.subrange(8, 16));
        assert(ct@ =~= data0.subrange(16, data0.len() as int));
    }
    let pw_bytes = utf8_bytes(&password);
    let (key, iv) = derive_key_iv(pw_bytes.as_slice(), salt.as_slice());
    match aes256_cbc_decrypt(key.as_slice(), iv.as_slice(), ct.as_slice()) {
        Some(pt) => match bytes_to_string(pt) {
            Some(s) => Ok(s),
            None => Err(String::from_str("UTF-8 decode failed")),
        },
        None => Err(String::from_str("Decryption failed - wrong password?")),
    }
}

/// Reports whether a password opens a blob, without exposing the plaintext:
/// true exactly when `decrypt_key` would succeed.
pub fn verify_password(encrypted: String, password: String) -> (r: bool)
    ensures
        r == (decrypt_spec(encrypted@, password@) is Some),
{
    decrypt_key(encrypted, password).is_ok()
}

/// Decrypts a blob and returns only the OpenSSH public key of the private key
/// inside it; the decrypted private key does not leave this function. It
/// succeeds exactly when the password opens the blob and the decrypted text
/// is an OpenSSH private key; the errors are decryption failure, parse
/// failure and export failure, nothing else.
pub fn public_key_from_encrypted(encrypted: String, password: String) -> (r: Result<String, String>)
    ensures
        r matches Ok(s) ==> (decrypt_spec(encrypted@, password@) matches Some(pem)
            && openssh_public_of(pem) == Some(s@)),
        r is Ok <==> (decrypt_spec(encrypted@, password@) matches Some(pem) && openssh_public_of(
            pem,
        ) is Some),
{
    let pem = match decrypt_key(encrypted, password) {
        Ok(p) => p,
        Err(e) => {
            return Err(e);
        },
    };
    ssh_public_from_pem(pem.as_str())
}

/// Generates a fresh Ed25519 deploy keypair. The `encrypted_private_key`
/// field holds the still-unencrypted OpenSSH PEM, as the callers immediately
/// pass it through `encrypt_key`. The keypair is random, but whatever comes
/// back, the public line is the one derived from the private-key file, so
/// encrypting the private key and later recovering the public key through
/// `public_key_from_encrypted` yields exactly `public_key` again.
pub fn generate_deploy_key() -> (r: Result<KeyPair, String>)
    ensures
        r matches Ok(kp) ==> openssh_public_of(kp.encrypted_private_key@) == Some(kp.public_key@),
{
    match ssh_generate_ed25519() {
        Ok((public_key, private_pem)) => Ok(
            KeyPair { public_key, encrypted_private_key: private_pem },
        ),
        Err(e) => Err(e),
    }
}

} // verus!
