//! Key pairs: their generation, the form in which the public half is stored
//! on the user's record, and the store of the private halves.
//!
//! A private key never enters a user's record. It lives in the private key
//! store alone, under the user's identity. Generating a second pair for a user
//! replaces the first without a safeguard: what was encrypted for the old
//! public key can no longer be opened.

use base64::Engine;
use rand::SeedableRng;
use rsa::pkcs1::{EncodeRsaPrivateKey, EncodeRsaPublicKey};
use vstd::prelude::*;
use crate::crypto::{random_bytes, SEED_LENGTH};
use crate::db::Database;
use crate::error::{CryptoError, ServiceError};
use crate::ident::ObjectId;
use crate::models::{User, UserView};

verus! {

/// The size of a generated modulus, in bits.
pub const KEY_BITS: usize = 2048;

/// The largest modulus that is generated, in bits.
pub const MAX_KEY_BITS: usize = 4096;

/// The decoding error of `base64`, carried through and never looked into.
#[verifier::external_type_specification]
#[verifier::external_body]
pub struct ExBase64DecodeError(base64::DecodeError);

/// The error of `String::from_utf8`, carried through and never looked into.
#[verifier::external_type_specification]
#[verifier::external_body]
pub struct ExFromUtf8Error(std::string::FromUtf8Error);

/// The standard base64 text of some bytes, with padding.
pub uninterp spec fn base64_text(bytes: Seq<u8>) -> Seq<char>;

/// The bytes that a standard base64 text with padding stands for, or `None`
/// where the text is no such text.
pub uninterp spec fn base64_bytes(text: Seq<char>) -> Option<Seq<u8>>;

/// The private and the public PKCS#1 PEM, with line feeds, of the key pair
/// with a modulus of `bits` bits whose primes are found with the ChaCha20
/// generator that starts from `seed`; `None` where no pair of that size is
/// made.
pub uninterp spec fn rsa_generated(bits: usize, seed: Seq<u8>) -> Option<(Seq<char>, Seq<char>)>;

/// `RsaPrivateKey::new` on the generator that `ChaCha20Rng::from_seed` makes
/// of a seed of 32 bytes, `RsaPublicKey::from` and `to_pkcs1_pem` with line
/// feeds on both halves. The primes are drawn from that generator alone, so
/// the result is the function of size and seed that `rsa_generated` names.
/// The size is held to what the library takes for a modulus, so that the
/// search for the primes stays within bounds.
#[verifier::external_body]
fn rsa_generate(bits: usize, seed: &[u8]) -> (r: Result<(String, String), rsa::Error>)
    requires
        bits <= MAX_KEY_BITS,
        seed@.len() == SEED_LENGTH,
    ensures
        match r {
            Ok(pair) => rsa_generated(bits, seed@) == Some((pair.0@, pair.1@)),
            Err(_) => rsa_generated(bits, seed@) is None,
        },
{
    let mut start = [0u8; 32];
    start.copy_from_slice(seed);
    let private = rsa::RsaPrivateKey::new(&mut rand_chacha::ChaCha20Rng::from_seed(start), bits)?;
    let public = rsa::RsaPublicKey::from(&private);
    let private_pem = private.to_pkcs1_pem(rsa::pkcs1::LineEnding::LF)?.to_string();
    let public_pem = public.to_pkcs1_pem(rsa::pkcs1::LineEnding::LF)?;
    Ok((private_pem, public_pem))
}

/// `STANDARD.encode`: the text that `base64_text` names, which decodes to the
/// bytes it was made from.
#[verifier::external_body]
fn base64_encode(bytes: &[u8]) -> (r: String)
    ensures
        r@ == base64_text(bytes@),
        base64_bytes(r@) == Some(bytes@),
{
    base64::engine::general_purpose::STANDARD.encode(bytes)
}

/// `STANDARD.decode`: the bytes that `base64_bytes` names.
#[verifier::external_body]
fn base64_decode(text: &str) -> (r: Result<Vec<u8>, base64::DecodeError>)
    ensures
        match r {
            Ok(b) => base64_bytes(text@) == Some(b@),
            Err(_) => base64_bytes(text@) is None,
        },
{
    base64::engine::general_purpose::STANDARD.decode(text)
}

/// `String::from_utf8`: the text of bytes that are valid UTF-8, and an error
/// for all other bytes.
#[verifier::external_body]
fn string_from_utf8(bytes: Vec<u8>) -> (r: Result<String, std::string::FromUtf8Error>)
    ensures
        r.is_ok() == vstd::utf8::valid_utf8(bytes@),
        r matches Ok(s) ==> s@ == vstd::utf8::decode_utf8(bytes@),
{
    String::from_utf8(bytes)
}

/// The form in which a public key's PEM is stored on a user's record.
pub open spec fn stored_form(public_pem: Seq<char>) -> Seq<char> {
    base64_text(vstd::utf8::encode_utf8(public_pem))
}

/// The PEM that a stored public key holds: the text of its base64 bytes, or
/// `None` where it is no base64 text or the bytes are no UTF-8.
pub open spec fn read_stored(stored: Seq<char>) -> Option<Seq<char>> {
    match base64_bytes(stored) {
        Some(bytes) => if vstd::utf8::valid_utf8(bytes) {
            Some(vstd::utf8::decode_utf8(bytes))
        } else {
            None
        },
        None => None,
    }
}

/// Writes a public key's PEM in the form in which it is stored.
pub fn encode_public_key(public_pem: &str) -> (r: String)
    ensures
        r@ == stored_form(public_pem@),
        read_stored(r@) == Some(public_pem@),
{
    proof {
        vstd::utf8::encode_utf8_valid_utf8(public_pem@);
        vstd::utf8::encode_utf8_decode_utf8(public_pem@);
    }
    base64_encode(public_pem.as_bytes())
}

/// Reads the PEM out of a stored public key.
pub fn decode_public_key(stored: &str) -> (r: Result<String, CryptoError>)
    ensures
        match r {
            Ok(pem) => read_stored(stored@) == Some(pem@),
            Err(_) => read_stored(stored@) is None,
        },
{
    let bytes = match base64_decode(stored) {
        Ok(b) => b,
        Err(_) => {
            return Err(CryptoError);
        },
    };
    match string_from_utf8(bytes) {
        Ok(s) => Ok(s),
        Err(_) => Err(CryptoError),
    }
}

/// The private keys, each a PKCS#1 PEM under the identity of its user. Of two
/// keys under one identity the later one counts.
pub struct PrivateKeyStore {
    entries: Vec<(ObjectId, String)>,
}

/// The key that counts for `id` among `entries`.
pub open spec fn key_of(entries: Seq<(ObjectId, String)>, id: ObjectId) -> Option<Seq<char>>
    decreases entries.len(),
{
    if entries.len() == 0 {
        None
    } else if entries.last().0 == id {
        Some(entries.last().1@)
    } else {
        key_of(entries.drop_last(), id)
    }
}

/// The name of the file that holds the private key of the user `id`.
pub open spec fn file_name_of(id: ObjectId) -> Seq<char> {
    id.hex() + ".pem"@
}

impl PrivateKeyStore {
    /// What was put into the store, in the order of the puts.
    pub closed spec fn entries(&self) -> Seq<(ObjectId, String)> {
        self.entries@
    }

    /// The private key of the user `id`, if the store holds one.
    pub open spec fn key(&self, id: ObjectId) -> Option<Seq<char>> {
        key_of(self.entries(), id)
    }

    /// A store without keys.
    pub fn new() -> (store: PrivateKeyStore)
        ensures
            store.entries().len() == 0,
            forall|id: ObjectId| store.key(id) is None,
    {
        PrivateKeyStore { entries: Vec::new() }
    }

    /// Puts a private key under an identity, in place of the one that may be
    /// there. The keys of all other identities stay.
    pub fn put(&mut self, id: ObjectId, private_pem: String)
        ensures
            final(self).entries() == old(self).entries().push((id, private_pem)),
            final(self).key(id) == Some(private_pem@),
            forall|other: ObjectId|
                other != id ==> #[trigger] final(self).key(other) == old(self).key(other),
    {
        self.entries.push((id, private_pem));
        proof {
            let after = self.entries@;
            assert(after.drop_last() =~= old(self).entries@);
            assert(after.last() == (id, private_pem));
        }
    }

    /// The private key of the user `id`; `NotFound` where the store holds
    /// none, as it does when the generation of the user's keys never
    /// completed.
    pub fn load_private_key(&self, id: ObjectId) -> (r: Result<&String, ServiceError>)
        ensures
            match r {
                Ok(pem) => self.key(id) == Some(pem@),
                Err(e) => e == ServiceError::NotFound && self.key(id) is None,
            },
    {
        let mut i: usize = self.entries.len();
        assert(self.entries@.take(i as int) =~= self.entries@);
        while i > 0
            invariant
                i <= self.entries@.len(),
                key_of(self.entries@, id) == key_of(self.entries@.take(i as int), id),
            decreases i,
        {
            i -= 1;
            proof {
                let upto = self.entries@.take(i + 1);
                assert(upto.last() == self.entries@[i as int]);
                assert(upto.drop_last() =~= self.entries@.take(i as int));
            }
            if self.entries[i].0 == id {
                return Ok(&self.entries[i].1);
            }
        }
        Err(ServiceError::NotFound)
    }

    /// The name of the file that holds the private key of the user `id`: the
    /// identity in hexadecimal digits, and the ending `.pem`.
    pub fn file_name(id: ObjectId) -> (r: String)
        ensures
            r@ == file_name_of(id),
    {
        id.to_hex().concat(".pem")
    }
}

/// Attaches a key pair to the user `user_id`: the public half goes onto the
/// user's record in its stored form, in place of the one that may be there,
/// and the private half into the private key store, in place of the one that
/// may be there. The keys are attached whether or not the store knows the
/// user.
pub fn attach_keys(
    db: &mut Database,
    keys: &mut PrivateKeyStore,
    user_id: ObjectId,
    private_pem: String,
    public_pem: &str,
)
    requires
        old(db).wf(),
    ensures
        final(db).wf(),
        final(db).shares() == old(db).shares(),
        final(keys).entries() == old(keys).entries().push((user_id, private_pem)),
        pair_attached(
            old(db).users(),
            final(db).users(),
            final(keys).key(user_id),
            user_id,
            private_pem@,
            public_pem@,
        ),
        forall|other: ObjectId|
            other != user_id ==> #[trigger] final(keys).key(other) == old(keys).key(other),
{
    let stored = encode_public_key(public_pem);
    let _ = db.update_public_key(user_id, stored);
    keys.put(user_id, private_pem);
}

/// The two halves of a key pair, each as a PKCS#1 PEM.
#[derive(Debug)]
pub struct KeyPair {
    pub private_pem: String,
    pub public_pem: String,
}

/// What `pair_from_seed` returns: the private and the public PEM of the pair
/// that comes of the seed. None comes for more than `MAX_KEY_BITS` bits, and
/// none of a seed that is not of 32 bytes.
pub open spec fn pair_spec(bits: usize, seed: Seq<u8>) -> Result<
    (Seq<char>, Seq<char>),
    CryptoError,
> {
    if bits > MAX_KEY_BITS || seed.len() != SEED_LENGTH {
        Err(CryptoError)
    } else {
        match rsa_generated(bits, seed) {
            Some(pair) => Ok(pair),
            None => Err(CryptoError),
        }
    }
}

/// The view of a result that holds a key pair.
pub open spec fn pair_view(r: Result<KeyPair, CryptoError>) -> Result<
    (Seq<char>, Seq<char>),
    CryptoError,
> {
    match r {
        Ok(pair) => Ok((pair.private_pem@, pair.public_pem@)),
        Err(e) => Err(e),
    }
}

/// Generates the key pair with a modulus of `bits` bits that comes of `seed`.
/// The same size and seed give the same pair again.
pub fn pair_from_seed(bits: usize, seed: &[u8]) -> (r: Result<KeyPair, CryptoError>)
    ensures
        pair_view(r) == pair_spec(bits, seed@),
{
    if bits > MAX_KEY_BITS || seed.len() != SEED_LENGTH {
        return Err(CryptoError);
    }
    match rsa_generate(bits, seed) {
        Ok((private_pem, public_pem)) => Ok(KeyPair { private_pem, public_pem }),
        Err(_) => Err(CryptoError),
    }
}

/// Whether the two texts are the private and the public PEM of the pair with
/// a modulus of `bits` bits that comes of `seed`.
pub open spec fn generated(bits: usize, seed: Seq<u8>, private_pem: Seq<char>, public_pem: Seq<char>)
    -> bool {
    pair_spec(bits, seed) == Ok::<(Seq<char>, Seq<char>), CryptoError>((private_pem, public_pem))
}

/// Generates a key pair with a modulus of `bits` bits from a fresh seed of
/// the operating system's generator. The seed is not known beforehand, so
/// what is stated holds of every outcome: a pair that comes out is the one
/// that `pair_from_seed` makes of some seed. None comes for more than
/// `MAX_KEY_BITS` bits, and a failure of the generator fails the call.
pub fn new_pair(bits: usize) -> (r: Result<KeyPair, CryptoError>)
    ensures
        bits > MAX_KEY_BITS ==> r is Err,
        r matches Ok(pair) ==> exists|seed: Seq<u8>| #[trigger]
            generated(bits, seed, pair.private_pem@, pair.public_pem@),
{
    if bits > MAX_KEY_BITS {
        return Err(CryptoError);
    }
    let seed = match random_bytes(SEED_LENGTH) {
        Ok(s) => s,
        Err(_) => {
            return Err(CryptoError);
        },
    };
    let r = pair_from_seed(bits, seed.as_slice());
    proof {
        if r is Ok {
            assert(generated(bits, seed@, r->Ok_0.private_pem@, r->Ok_0.public_pem@));
        }
    }
    r
}

/// Generates a key pair of `KEY_BITS` bits for the user `user_id` and
/// attaches it as `attach_keys` does.
///
/// The pair comes of a fresh seed, so what is stated holds of every seed: the
/// pair that is attached is the one of `KEY_BITS` bits that `pair_from_seed`
/// makes of some seed, its private half is the last that was put into the
/// private key store, and its public half stands on the user's record in its
/// stored form. Where the generation fails, nothing changes.
pub fn generate_key(db: &mut Database, keys: &mut PrivateKeyStore, user_id: ObjectId) -> (r:
    Result<(), CryptoError>)
    requires
        old(db).wf(),
    ensures
        final(db).wf(),
        final(db).shares() == old(db).shares(),
        final(db).users().len() == old(db).users().len(),
        match r {
            Ok(_) => exists|private_pem: Seq<char>, public_pem: Seq<char>| #[trigger]
                pair_attached(
                    old(db).users(),
                    final(db).users(),
                    final(keys).key(user_id),
                    user_id,
                    private_pem,
                    public_pem,
                ),
            Err(_) => final(db).users() == old(db).users() && final(keys).entries() == old(
                keys,
            ).entries(),
        },
        r is Ok ==> exists|seed: Seq<u8>, private_pem: Seq<char>, public_pem: Seq<char>| #[trigger]
            key_generated(
                old(db).users(),
                final(db).users(),
                old(keys).entries(),
                final(keys).entries(),
                user_id,
                seed,
                private_pem,
                public_pem,
            ),
        forall|other: ObjectId|
            other != user_id ==> #[trigger] final(keys).key(other) == old(keys).key(other),
{
    let KeyPair { private_pem, public_pem } = match new_pair(KEY_BITS) {
        Ok(pair) => pair,
        Err(e) => {
            return Err(e);
        },
    };
    let ghost private_text = private_pem@;
    let ghost seed = choose|seed: Seq<u8>| #[trigger]
        generated(KEY_BITS, seed, private_pem@, public_pem@);
    attach_keys(db, keys, user_id, private_pem, public_pem.as_str());
    proof {
        assert(pair_attached(
            old(db).users(),
            db.users(),
            keys.key(user_id),
            user_id,
            private_text,
            public_pem@,
        ));
        assert(generated(KEY_BITS, seed, private_text, public_pem@));
        assert(keys.entries().drop_last() =~= old(keys).entries());
        assert(keys.entries().last().1@ == private_text);
        assert(key_attached(old(db).users(), db.users(), user_id, public_pem@));
        assert(key_generated(
            old(db).users(),
            db.users(),
            old(keys).entries(),
            keys.entries(),
            user_id,
            seed,
            private_text,
            public_pem@,
        ));
    }
    Ok(())
}

/// Whether the key pair of `KEY_BITS` bits that comes of `seed` has been
/// generated for the user `id` and attached: the store of private keys has
/// one more entry, the private half under the user's identity, and the
/// public half stands on the user's record in its stored form.
pub open spec fn key_generated(
    users_before: Seq<User>,
    users_after: Seq<User>,
    keys_before: Seq<(ObjectId, String)>,
    keys_after: Seq<(ObjectId, String)>,
    id: ObjectId,
    seed: Seq<u8>,
    private_pem: Seq<char>,
    public_pem: Seq<char>,
) -> bool {
    &&& generated(KEY_BITS, seed, private_pem, public_pem)
    &&& keys_after.len() == keys_before.len() + 1
    &&& keys_after.drop_last() == keys_before
    &&& keys_after.last().0 == id
    &&& keys_after.last().1@ == private_pem
    &&& key_attached(users_before, users_after, id, public_pem)
}

/// Whether a key pair has been attached to the user `id`: the private half is
/// what the private key store holds for the user, and the public half stands
/// on the user's record.
pub open spec fn pair_attached(
    before: Seq<User>,
    after: Seq<User>,
    held: Option<Seq<char>>,
    id: ObjectId,
    private_pem: Seq<char>,
    public_pem: Seq<char>,
) -> bool {
    held == Some(private_pem) && key_attached(before, after, id, public_pem)
}

/// Whether `after` is `before` with the stored form of `public_pem` as the
/// public key of the user `id`, and nothing else changed.
pub open spec fn key_attached(
    before: Seq<User>,
    after: Seq<User>,
    id: ObjectId,
    public_pem: Seq<char>,
) -> bool {
    &&& after.len() == before.len()
    &&& read_stored(stored_form(public_pem)) == Some(public_pem)
    &&& forall|i: int|
        0 <= i < before.len() ==> {
            let b = #[trigger] before[i];
            after[i]@ == (UserView {
                public_key: if b._id == id {
                    stored_form(public_pem)
                } else {
                    b.public_key@
                },
                ..b@
            })
        }
}

} // verus!
