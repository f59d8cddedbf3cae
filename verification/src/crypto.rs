//! Hybrid encryption of file payloads: the payload goes under a fresh
//! symmetric key in CBC mode with PKCS#7 padding, and the symmetric key goes
//! under the recipient's public key with PKCS#1 v1.5 padding.
//!
//! No authentication tag is computed: a payload's integrity rests on the
//! validity of its padding alone.

use aes::Aes256;
use block_modes::block_padding::Pkcs7;
use block_modes::{BlockMode, Cbc};
use rand::{RngCore, SeedableRng};
use rsa::pkcs1::{DecodeRsaPrivateKey, DecodeRsaPublicKey};
use vstd::prelude::*;
use vstd::slice::slice_to_vec;
use crate::error::CryptoError;

verus! {

/// The length of the symmetric key, in bytes.
pub const KEY_LENGTH: usize = 32;

/// The length of the initialization vector, in bytes.
pub const IV_LENGTH: usize = 16;

/// The length of a cipher block, in bytes.
pub const BLOCK_LENGTH: usize = 16;

/// The length of the seed of a generator of padding or of primes, in bytes.
pub const SEED_LENGTH: usize = 32;

/// The error of `rsa`, carried through and never looked into.
#[verifier::external_type_specification]
#[verifier::external_body]
pub struct ExRsaError(rsa::Error);

/// The error of a cipher mode of `block_modes`: a ciphertext of no whole
/// number of blocks, or padding that does not check.
#[verifier::external_type_specification]
#[verifier::external_body]
pub struct ExBlockModeError(block_modes::BlockModeError);

/// The error of `block_modes` for a key or a vector of the wrong length.
#[verifier::external_type_specification]
#[verifier::external_body]
pub struct ExInvalidKeyIvLength(block_modes::InvalidKeyIvLength);

/// The error of `rand`, carried through and never looked into.
#[verifier::external_type_specification]
#[verifier::external_body]
pub struct ExRandError(rand::Error);

/// The ciphertext of AES-256 in CBC mode with PKCS#7 padding, or `None` where
/// the key is not of 32 bytes or the vector not of 16.
pub uninterp spec fn cbc_encrypted(key: Seq<u8>, iv: Seq<u8>, plain: Seq<u8>) -> Option<Seq<u8>>;

/// The plaintext that AES-256 in CBC mode recovers from a ciphertext under a
/// key of 32 bytes and a vector of 16, or `None` where the ciphertext is no
/// whole number of blocks or what comes out is not padded.
pub uninterp spec fn cbc_decrypted(key: Seq<u8>, iv: Seq<u8>, cipher: Seq<u8>) -> Option<Seq<u8>>;

/// What PKCS#1 v1.5 decryption recovers from `wrapped` under the private key
/// that a PKCS#1 PEM text holds, or `None` where the text holds no key or the
/// decryption fails.
pub uninterp spec fn rsa_unwrapped(private_pem: Seq<char>, wrapped: Seq<u8>) -> Option<Seq<u8>>;

/// What PKCS#1 v1.5 encryption makes of `key` under the public key that a
/// PKCS#1 PEM text holds, with its padding drawn from the ChaCha20 generator
/// that starts from `seed`; `None` where the text holds no key or the key is
/// too short for `key` and its padding.
pub uninterp spec fn rsa_wrapped(public_pem: Seq<char>, key: Seq<u8>, seed: Seq<u8>) -> Option<
    Seq<u8>,
>;

/// `OsRng::try_fill_bytes` on a buffer of `n` bytes, for the few bytes of a
/// key, a vector or a seed: on success the buffer, filled by the operating
/// system's generator.
#[verifier::external_body]
pub(crate) fn random_bytes(n: usize) -> (r: Result<Vec<u8>, rand::Error>)
    requires
        n <= SEED_LENGTH,
    ensures
        r matches Ok(b) ==> b@.len() == n,
{
    let mut buffer = vec![0u8; n];
    rand::rngs::OsRng.try_fill_bytes(&mut buffer)?;
    Ok(buffer)
}

/// `Cbc::<Aes256, Pkcs7>::new_from_slices` and `encrypt_vec`. The key must be
/// of 32 bytes and the vector of 16, else the call fails. The ciphertext is
/// the plaintext padded to the next whole block, so always longer, and
/// decrypting it under the same key and vector gives the plaintext back.
#[verifier::external_body]
fn cbc_encrypt(key: &[u8], iv: &[u8], plain: &[u8]) -> (r: Result<
    Vec<u8>,
    block_modes::InvalidKeyIvLength,
>)
    requires
        plain@.len() + BLOCK_LENGTH <= usize::MAX,
    ensures
        r.is_ok() == (key@.len() == KEY_LENGTH && iv@.len() == IV_LENGTH),
        match r {
            Ok(c) => cbc_encrypted(key@, iv@, plain@) == Some(c@) && cbc_decrypted(key@, iv@, c@)
                == Some(plain@) && c@.len() == (plain@.len() / BLOCK_LENGTH as nat + 1)
                * BLOCK_LENGTH,
            Err(_) => cbc_encrypted(key@, iv@, plain@) is None,
        },
{
    Ok(Cbc::<Aes256, Pkcs7>::new_from_slices(key, iv)?.encrypt_vec(plain))
}

/// `Cbc::<Aes256, Pkcs7>::new_from_slices` and `decrypt_vec`, for a key of 32
/// bytes and a vector of 16: the function of key, vector and ciphertext that
/// `cbc_decrypted` names.
#[verifier::external_body]
fn cbc_decrypt(key: &[u8], iv: &[u8], cipher: &[u8]) -> (r: Result<
    Vec<u8>,
    block_modes::BlockModeError,
>)
    requires
        key@.len() == KEY_LENGTH,
        iv@.len() == IV_LENGTH,
    ensures
        match r {
            Ok(p) => cbc_decrypted(key@, iv@, cipher@) == Some(p@),
            Err(_) => cbc_decrypted(key@, iv@, cipher@) is None,
        },
{
    match Cbc::<Aes256, Pkcs7>::new_from_slices(key, iv) {
        Ok(mode) => mode.decrypt_vec(cipher),
        Err(_) => Err(block_modes::BlockModeError),
    }
}

/// `RsaPublicKey::from_pkcs1_pem` and `RsaPublicKey::encrypt` with
/// `Pkcs1v15Encrypt` on the generator that `ChaCha20Rng::from_seed` makes of
/// a seed of 32 bytes. The padding is drawn from that generator alone, so
/// the result is the function of key text, key and seed that `rsa_wrapped`
/// names.
#[verifier::external_body]
fn rsa_wrap(public_pem: &str, key: &[u8], seed: &[u8]) -> (r: Result<Vec<u8>, rsa::Error>)
    requires
        seed@.len() == SEED_LENGTH,
    ensures
        match r {
            Ok(w) => rsa_wrapped(public_pem@, key@, seed@) == Some(w@),
            Err(_) => rsa_wrapped(public_pem@, key@, seed@) is None,
        },
{
    let mut start = [0u8; 32];
    start.copy_from_slice(seed);
    let mut generator = rand_chacha::ChaCha20Rng::from_seed(start);
    let public = rsa::RsaPublicKey::from_pkcs1_pem(public_pem)?;
    public.encrypt(&mut generator, rsa::Pkcs1v15Encrypt, key)
}

/// `RsaPrivateKey::from_pkcs1_pem` and `RsaPrivateKey::decrypt` with
/// `Pkcs1v15Encrypt`, which uses no randomness: the function of key text and
/// wrapped bytes that `rsa_unwrapped` names.
#[verifier::external_body]
fn rsa_unwrap(private_pem: &str, wrapped: &[u8]) -> (r: Result<Vec<u8>, rsa::Error>)
    ensures
        match r {
            Ok(k) => rsa_unwrapped(private_pem@, wrapped@) == Some(k@),
            Err(_) => rsa_unwrapped(private_pem@, wrapped@) is None,
        },
{
    rsa::RsaPrivateKey::from_pkcs1_pem(private_pem)?.decrypt(rsa::Pkcs1v15Encrypt, wrapped)
}

/// Whether `cipher` is `plain` encrypted under `key` and `iv`, so that
/// decrypting it under the same two gives `plain` back.
pub open spec fn sealed_under(plain: Seq<u8>, key: Seq<u8>, iv: Seq<u8>, cipher: Seq<u8>) -> bool {
    &&& key.len() == KEY_LENGTH
    &&& iv.len() == IV_LENGTH
    &&& cbc_encrypted(key, iv, plain) == Some(cipher)
    &&& cbc_decrypted(key, iv, cipher) == Some(plain)
    &&& cipher.len() == (plain.len() / BLOCK_LENGTH as nat + 1) * BLOCK_LENGTH
}

/// What `decrypt_file` returns: the failure of the unwrapping, of the key's or
/// the vector's length and of the padding are one and the same error.
pub open spec fn decrypt_spec(
    wrapped: Seq<u8>,
    cipher: Seq<u8>,
    iv: Seq<u8>,
    private_pem: Seq<char>,
) -> Result<Seq<u8>, CryptoError> {
    match rsa_unwrapped(private_pem, wrapped) {
        None => Err(CryptoError),
        Some(key) => if key.len() != KEY_LENGTH || iv.len() != IV_LENGTH {
            Err(CryptoError)
        } else {
            match cbc_decrypted(key, iv, cipher) {
                Some(plain) => Ok(plain),
                None => Err(CryptoError),
            }
        },
    }
}

/// The view of a result that holds bytes.
pub open spec fn bytes_view(r: Result<Vec<u8>, CryptoError>) -> Result<Seq<u8>, CryptoError> {
    match r {
        Ok(v) => Ok(v@),
        Err(e) => Err(e),
    }
}

/// Encrypts a payload under a given key and vector: succeeds exactly for a key
/// of 32 bytes, a vector of 16 and a payload that leaves room for its padding.
pub fn encrypt_with_key(file_data: &[u8], key: &[u8], iv: &[u8]) -> (r: Result<
    Vec<u8>,
    CryptoError,
>)
    ensures
        r is Ok <==> key@.len() == KEY_LENGTH && iv@.len() == IV_LENGTH && file_data@.len()
            + BLOCK_LENGTH <= usize::MAX,
        r matches Ok(c) ==> sealed_under(file_data@, key@, iv@, c@),
{
    if file_data.len() > usize::MAX - BLOCK_LENGTH {
        return Err(CryptoError);
    }
    match cbc_encrypt(key, iv, file_data) {
        Ok(c) => Ok(c),
        Err(_) => Err(CryptoError),
    }
}

/// What `encrypt_with` returns: the wrapped key, the ciphertext and the
/// vector. It fails where the key is not of 32 bytes, the vector not of 16 or
/// the seed not of 32, where the payload leaves no room for its padding, and
/// where the key cannot be wrapped under the public key.
pub open spec fn encrypt_spec(
    file_data: Seq<u8>,
    public_pem: Seq<char>,
    key: Seq<u8>,
    iv: Seq<u8>,
    seed: Seq<u8>,
) -> Result<(Seq<u8>, Seq<u8>, Seq<u8>), CryptoError> {
    if key.len() != KEY_LENGTH || iv.len() != IV_LENGTH || seed.len() != SEED_LENGTH
        || file_data.len() + BLOCK_LENGTH > usize::MAX {
        Err(CryptoError)
    } else {
        match (cbc_encrypted(key, iv, file_data), rsa_wrapped(public_pem, key, seed)) {
            (Some(cipher), Some(wrapped)) => Ok((wrapped, cipher, iv)),
            _ => Err(CryptoError),
        }
    }
}

/// The view of a result that holds a wrapped key, a ciphertext and a vector.
pub open spec fn triple_view(r: Result<(Vec<u8>, Vec<u8>, Vec<u8>), CryptoError>) -> Result<
    (Seq<u8>, Seq<u8>, Seq<u8>),
    CryptoError,
> {
    match r {
        Ok(out) => Ok((out.0@, out.1@, out.2@)),
        Err(e) => Err(e),
    }
}

/// Encrypts a payload under the symmetric key and the vector given, and wraps
/// that key under the public key that the PKCS#1 PEM text `public_key` holds,
/// with the padding that comes of `seed`. Returns the wrapped key, the
/// ciphertext and the vector.
pub fn encrypt_with(file_data: &[u8], public_key: &str, key: &[u8], iv: &[u8], seed: &[u8]) -> (r:
    Result<(Vec<u8>, Vec<u8>, Vec<u8>), CryptoError>)
    ensures
        triple_view(r) == encrypt_spec(file_data@, public_key@, key@, iv@, seed@),
        r matches Ok(out) ==> sealed_under(file_data@, key@, out.2@, out.1@),
{
    if seed.len() != SEED_LENGTH {
        return Err(CryptoError);
    }
    let cipher = match encrypt_with_key(file_data, key, iv) {
        Ok(c) => c,
        Err(e) => {
            return Err(e);
        },
    };
    match rsa_wrap(public_key, key, seed) {
        Ok(wrapped) => Ok((wrapped, cipher, slice_to_vec(iv))),
        Err(_) => Err(CryptoError),
    }
}

/// Whether `out` is what the encryption of `file_data` for the holder of
/// `public_pem` returns where it draws `key` and `seed`: the wrapping of
/// `key` under the public key, the encryption of `file_data` under `key` and
/// the vector of `out`, and that vector.
pub open spec fn encrypted_for(
    file_data: Seq<u8>,
    public_pem: Seq<char>,
    key: Seq<u8>,
    seed: Seq<u8>,
    out: (Seq<u8>, Seq<u8>, Seq<u8>),
) -> bool {
    &&& encrypt_spec(file_data, public_pem, key, out.2, seed) == Ok::<
        (Seq<u8>, Seq<u8>, Seq<u8>),
        CryptoError,
    >(out)
    &&& sealed_under(file_data, key, out.2, out.1)
}

/// Encrypts a payload for the holder of the private half of `public_key`, a
/// PKCS#1 PEM text. Returns the wrapped symmetric key, the ciphertext and the
/// initialization vector.
///
/// The symmetric key, the vector and the seed of the padding are drawn afresh
/// from the operating system's generator on every call, so what is stated
/// holds of every outcome: what comes out is what `encrypt_with` makes of
/// some key and some seed, with the key that sealed the payload being the
/// key that was wrapped. A failure of the generator fails the call.
pub fn encrypt_file(file_data: &[u8], public_key: &str) -> (r: Result<
    (Vec<u8>, Vec<u8>, Vec<u8>),
    CryptoError,
>)
    ensures
        match r {
            Ok(out) => exists|key: Seq<u8>| #[trigger] sealed_under(file_data@, key, out.2@, out.1@),
            Err(_) => true,
        },
        r matches Ok(out) ==> exists|key: Seq<u8>, seed: Seq<u8>| #[trigger]
            encrypted_for(file_data@, public_key@, key, seed, (out.0@, out.1@, out.2@)),
        file_data@.len() + BLOCK_LENGTH > usize::MAX ==> r is Err,
{
    let key = match random_bytes(KEY_LENGTH) {
        Ok(k) => k,
        Err(_) => {
            return Err(CryptoError);
        },
    };
    let iv = match random_bytes(IV_LENGTH) {
        Ok(v) => v,
        Err(_) => {
            return Err(CryptoError);
        },
    };
    let seed = match random_bytes(SEED_LENGTH) {
        Ok(s) => s,
        Err(_) => {
            return Err(CryptoError);
        },
    };
    let r = encrypt_with(file_data, public_key, key.as_slice(), iv.as_slice(), seed.as_slice());
    proof {
        if r is Ok {
            let out = r->Ok_0;
            assert(sealed_under(file_data@, key@, out.2@, out.1@));
            assert(encrypted_for(file_data@, public_key@, key@, seed@, (out.0@, out.1@, out.2@)));
        }
    }
    r
}

/// Decrypts a payload with the private key that a PKCS#1 PEM text holds. A
/// key that does not unwrap, and padding that does not check, give the same
/// error.
pub fn decrypt_file(
    encrypted_aes_key: Vec<u8>,
    encrypted_file: Vec<u8>,
    iv: Vec<u8>,
    user_private_key: &str,
) -> (r: Result<Vec<u8>, CryptoError>)
    ensures
        bytes_view(r) == decrypt_spec(
            encrypted_aes_key@,
            encrypted_file@,
            iv@,
            user_private_key@,
        ),
{
    let key = match rsa_unwrap(user_private_key, encrypted_aes_key.as_slice()) {
        Ok(k) => k,
        Err(_) => {
            return Err(CryptoError);
        },
    };
    if key.len() != KEY_LENGTH || iv.len() != IV_LENGTH {
        return Err(CryptoError);
    }
    match cbc_decrypt(key.as_slice(), iv.as_slice(), encrypted_file.as_slice()) {
        Ok(plain) => Ok(plain),
        Err(_) => Err(CryptoError),
    }
}

/// Decryption undoes encryption: a payload sealed under a symmetric key opens
/// to the same bytes with every private key that unwraps that symmetric key.
pub proof fn lemma_round_trip(
    plain: Seq<u8>,
    key: Seq<u8>,
    iv: Seq<u8>,
    cipher: Seq<u8>,
    wrapped: Seq<u8>,
    private_pem: Seq<char>,
)
    requires
        sealed_under(plain, key, iv, cipher),
        rsa_unwrapped(private_pem, wrapped) == Some(key),
    ensures
        decrypt_spec(wrapped, cipher, iv, private_pem) == Ok::<Seq<u8>, CryptoError>(plain),
{
}

/// A private key that does not unwrap the symmetric key opens nothing, and
/// whatever private key opens the payload to other bytes has unwrapped
/// another symmetric key.
pub proof fn lemma_wrong_key(
    plain: Seq<u8>,
    key: Seq<u8>,
    iv: Seq<u8>,
    cipher: Seq<u8>,
    wrapped: Seq<u8>,
    other_pem: Seq<char>,
)
    requires
        sealed_under(plain, key, iv, cipher),
    ensures
        rsa_unwrapped(other_pem, wrapped) is None ==> decrypt_spec(wrapped, cipher, iv, other_pem)
            == Err::<Seq<u8>, CryptoError>(CryptoError),
        decrypt_spec(wrapped, cipher, iv, other_pem) matches Ok(p) ==> p == plain
            || rsa_unwrapped(other_pem, wrapped) != Some(key),
{
}

} // verus!
