//! Key derivation and the signature primitives.
//!
//! `derive_keys_from_seed` maps a 32-byte seed to an ML-DSA-44 signature
//! keypair.  One seed is special: the fallback seed served by a degraded
//! [`DimensionalRift`](crate::dimensional_rift::DimensionalRift) is
//! recognised exactly and answered with the fallback keypair, the keypair
//! derived from one embedded constant seed, so it is the same bytes on every
//! call and in every process.  Every other seed is ignored and a fresh
//! random keypair is generated; the caller's seed is never mixed into
//! generation, it only gates which branch runs.

use ml_dsa::EncodedVerifyingKey;
use ml_dsa::ExpandedSigningKey;
use ml_dsa::ExpandedSigningKeyBytes;
use ml_dsa::Keypair;
use ml_dsa::MlDsa44;
use ml_dsa::Signature;
use ml_dsa::SigningKey;
use ml_dsa::VerifyingKey;
use vstd::prelude::*;

use crate::dimensional_rift::DimensionalRift;
use crate::dimensional_rift::FALLBACK_SEED_BYTE;
use crate::dimensional_rift::FALLBACK_THRESHOLD;
use crate::dimensional_rift::fallback_seed;
use crate::dimensional_rift::random_seed;

verus! {

/// Length in bytes of an encoded ML-DSA-44 public (verifying) key.
pub const PUBLIC_KEY_LEN: usize = 1312;

/// Length in bytes of an expanded ML-DSA-44 secret (signing) key.
pub const SECRET_KEY_LEN: usize = 2560;

/// Length in bytes of an encoded ML-DSA-44 detached signature.
pub const SIGNATURE_LEN: usize = 2420;

/// First byte of the eta-packed coefficient regions (s1 then s2) inside an
/// expanded ML-DSA-44 secret key, after the 32-byte rho, 32-byte K and
/// 64-byte tr seeds.
pub const SK_ETA_REGION_START: usize = 128;

/// First byte past the eta-packed regions; the t0 region that follows
/// accepts every bit pattern.
pub const SK_ETA_REGION_END: usize = 896;

/// One group of three bytes from an eta-packed region carries eight 3-bit
/// coefficient fields, packed little-endian.  A group is acceptable when
/// every field is at most 4: ML-DSA-44 stores coefficients of s1 and s2 as
/// values 0 through 4, and its expanded-key decoder aborts on anything
/// larger.
pub open spec fn eta_group_ok(b0: u8, b1: u8, b2: u8) -> bool {
    let x = (b0 as int) + 256 * (b1 as int) + 65536 * (b2 as int);
    x % 8 <= 4 && x / 8 % 8 <= 4 && x / 64 % 8 <= 4 && x / 512 % 8 <= 4 && x / 4096 % 8 <= 4 && x
        / 32768 % 8 <= 4 && x / 262144 % 8 <= 4 && x / 2097152 % 8 <= 4
}

/// A well-formed expanded ML-DSA-44 secret key: the exact length, and every
/// 3-bit coefficient field in the eta-packed s1 and s2 regions at most 4.
/// Key generation only ever produces such keys, and the scheme's
/// expanded-key decoder accepts exactly them, so signing demands them.
pub open spec fn sk_well_formed(sk: Seq<u8>) -> bool {
    sk.len() == SECRET_KEY_LEN && forall|g: int|
        0 <= g < 256 ==> #[trigger] eta_group_ok(
            sk[SK_ETA_REGION_START + 3 * g],
            sk[SK_ETA_REGION_START + 3 * g + 1],
            sk[SK_ETA_REGION_START + 3 * g + 2],
        )
}

/// The seed the embedded fallback keypair is derived from: a constant fixed
/// when the system is built, standing in for key material generated once,
/// out of band.
pub const FRACTURED_KEY_SEED: [u8; 32] = [
    0x01, 0x02, 0x03, 0x04, 0x05, 0x06, 0x07, 0x08, 0x09, 0x0a, 0x0b, 0x0c, 0x0d, 0x0e, 0x0f,
    0x10, 0x11, 0x12, 0x13, 0x14, 0x15, 0x16, 0x17, 0x18, 0x19, 0x1a, 0x1b, 0x1c, 0x1d, 0x1e,
    0x1f, 0x20,
];

/// The encoded public key of the keypair ML-DSA-44 derives from this seed.
/// Key generation is a function of the seed alone, so this is one fixed
/// byte string per seed.
pub uninterp spec fn derived_pk(seed: Seq<u8>) -> Seq<u8>;

/// The expanded secret key of the keypair ML-DSA-44 derives from this seed.
pub uninterp spec fn derived_sk(seed: Seq<u8>) -> Seq<u8>;

/// The detached signature ML-DSA-44's deterministic variant produces for
/// this message under this expanded secret key: a function of the two
/// arguments alone.
pub uninterp spec fn signature_of(message: Seq<u8>, secret_key: Seq<u8>) -> Seq<u8>;

/// Whether these bytes are a well-formed encoded ML-DSA-44 signature.
pub uninterp spec fn sig_decodes(signature: Seq<u8>) -> bool;

/// Whether ML-DSA-44 accepts this well-formed signature for this message
/// under this encoded public key.
pub uninterp spec fn sig_verifies(signature: Seq<u8>, message: Seq<u8>, public_key: Seq<u8>) -> bool;

/// A public and a secret key that belong together: for every message, the
/// signature made with the secret key is well formed and verifies under the
/// public key.
pub open spec fn keypair_correct(public_key: Seq<u8>, secret_key: Seq<u8>) -> bool {
    forall|m: Seq<u8>|
        #![trigger signature_of(m, secret_key)]
        sig_decodes(signature_of(m, secret_key)) && sig_verifies(
            signature_of(m, secret_key),
            m,
            public_key,
        )
}

/// The embedded fallback public key: derived from the embedded constant
/// seed, hence the same bytes in every call and every process.
pub open spec fn fractured_public_key() -> Seq<u8> {
    derived_pk(FRACTURED_KEY_SEED@)
}

/// The embedded fallback secret key.
pub open spec fn fractured_secret_key() -> Seq<u8> {
    derived_sk(FRACTURED_KEY_SEED@)
}

/// Determinism of fallback: derivation from the fallback seed is pinned to
/// the one embedded fallback keypair, so any two of its results are
/// byte-identical, however far apart the calls.
pub proof fn lemma_fallback_determinism(
    first_pk: Seq<u8>,
    first_sk: Seq<u8>,
    second_pk: Seq<u8>,
    second_sk: Seq<u8>,
)
    requires
        first_pk == fractured_public_key(),
        first_sk == fractured_secret_key(),
        second_pk == fractured_public_key(),
        second_sk == fractured_secret_key(),
    ensures
        first_pk == second_pk,
        first_sk == second_sk,
{
}

/// Sign/verify round trip: for any message, the signature made with the
/// secret key of a correct keypair is well formed and verifies under the
/// matching public key.
pub proof fn lemma_sign_verify_roundtrip(public_key: Seq<u8>, secret_key: Seq<u8>, message: Seq<u8>)
    requires
        keypair_correct(public_key, secret_key),
    ensures
        sig_decodes(signature_of(message, secret_key)),
        sig_verifies(signature_of(message, secret_key), message, public_key),
{
}

/// Relies on `ml_dsa::SigningKey::from_seed`, FIPS 204's
/// `ML-DSA.KeyGen_internal`: the keypair is a function of the seed alone, so
/// equal seeds yield byte-identical keypairs; the encodings have the
/// scheme's fixed sizes; key generation samples the s1 and s2 coefficients
/// inside the eta range, so their packed fields are at most 4 and the
/// expanded secret key is well formed; and the scheme is correct, so a
/// deterministic signature made with the secret key decodes and verifies
/// under the public key.
#[verifier::external_body]
#[allow(deprecated)]
fn mldsa_keypair_from_seed(seed: &[u8; 32]) -> (keys: (Vec<u8>, Vec<u8>))
    ensures
        keys.0@ == derived_pk(seed@),
        keys.1@ == derived_sk(seed@),
        keys.0@.len() == PUBLIC_KEY_LEN,
        keys.1@.len() == SECRET_KEY_LEN,
        sk_well_formed(keys.1@),
        keypair_correct(keys.0@, keys.1@),
{
    let sk = SigningKey::<MlDsa44>::from_seed(&(*seed).into());
    let pk_bytes = sk.verifying_key().encode().to_vec();
    let sk_bytes = sk.expanded_key().to_expanded().to_vec();
    (pk_bytes, sk_bytes)
}

/// Relies on `ml_dsa::ExpandedSigningKey::from_expanded`, which accepts
/// exactly the well-formed expanded keys (its eta-region decoder aborts on
/// a coefficient field over 4, so the precondition keeps those bytes out),
/// and on `sign_deterministic`, FIPS 204's optional deterministic
/// `ML-DSA.Sign`: the signature is a function of the key and the message
/// alone, its encoding has the scheme's fixed size and decodes again, and
/// the only failure, a context string over 255 bytes, cannot occur because
/// the context here is empty.
#[verifier::external_body]
#[allow(deprecated)]
fn mldsa_sign(message: &[u8], sk_bytes: &[u8]) -> (signature: Vec<u8>)
    requires
        sk_well_formed(sk_bytes@),
    ensures
        signature@ == signature_of(message@, sk_bytes@),
        signature@.len() == SIGNATURE_LEN,
        sig_decodes(signature@),
{
    let enc = ExpandedSigningKeyBytes::<MlDsa44>::try_from(sk_bytes).unwrap();
    let sk = ExpandedSigningKey::<MlDsa44>::from_expanded(&enc);
    sk.sign_deterministic(message, &[]).unwrap().encode().to_vec()
}

/// Relies on `ml_dsa::VerifyingKey::decode`, which is total for byte arrays
/// of the encoded-key size, on `ml_dsa::Signature::try_from`, which fails
/// exactly on a wrong length or a malformed encoding, and on
/// `verify_with_context` with the empty context, FIPS 204's
/// `ML-DSA.Verify`: a function of key, message and signature alone.  Any
/// decode failure yields `false`, never a fault.
#[verifier::external_body]
fn mldsa_verify(message: &[u8], signature: &[u8], pk_bytes: &[u8]) -> (r: bool)
    ensures
        pk_bytes@.len() == PUBLIC_KEY_LEN && sig_decodes(signature@) ==> r == sig_verifies(
            signature@,
            message@,
            pk_bytes@,
        ),
        pk_bytes@.len() != PUBLIC_KEY_LEN || !sig_decodes(signature@) ==> !r,
{
    let pk_enc = match EncodedVerifyingKey::<MlDsa44>::try_from(pk_bytes) {
        Ok(enc) => enc,
        Err(_) => return false,
    };
    let pk = VerifyingKey::<MlDsa44>::decode(&pk_enc);
    let sig = match Signature::<MlDsa44>::try_from(signature) {
        Ok(sig) => sig,
        Err(_) => return false,
    };
    pk.verify_with_context(message, &[], &sig)
}

/// True exactly when these bytes are a well-formed expanded ML-DSA-44
/// secret key, the form `sign_message` demands.  Keys from
/// `derive_keys_from_seed` and `generate_identity` always are; this check
/// lets a caller guard key bytes that arrived from anywhere else.
pub fn is_well_formed_secret_key(sk_bytes: &[u8]) -> (r: bool)
    ensures
        r == sk_well_formed(sk_bytes@),
{
    if sk_bytes.len() != SECRET_KEY_LEN {
        return false;
    }
    let mut g: usize = 0;
    while g < 256
        invariant
            sk_bytes@.len() == SECRET_KEY_LEN,
            0 <= g <= 256,
            forall|h: int|
                0 <= h < g ==> #[trigger] eta_group_ok(
                    sk_bytes@[SK_ETA_REGION_START + 3 * h],
                    sk_bytes@[SK_ETA_REGION_START + 3 * h + 1],
                    sk_bytes@[SK_ETA_REGION_START + 3 * h + 2],
                ),
        decreases 256 - g,
    {
        let i = SK_ETA_REGION_START + 3 * g;
        let b0 = sk_bytes[i];
        let b1 = sk_bytes[i + 1];
        let b2 = sk_bytes[i + 2];
        let x: u32 = (b0 as u32) + 256 * (b1 as u32) + 65536 * (b2 as u32);
        if x % 8 > 4 || x / 8 % 8 > 4 || x / 64 % 8 > 4 || x / 512 % 8 > 4 || x / 4096 % 8 > 4 || x
            / 32768 % 8 > 4 || x / 262144 % 8 > 4 || x / 2097152 % 8 > 4 {
            proof {
                assert(x as int == (b0 as int) + 256 * (b1 as int) + 65536 * (b2 as int));
                assert(!eta_group_ok(b0, b1, b2));
            }
            return false;
        }
        g = g + 1;
    }
    true
}

/// True exactly when the seed is the fallback seed: all 32 bytes equal.
pub fn is_fallback_seed(seed: &[u8; 32]) -> (r: bool)
    ensures
        r == (seed@ == fallback_seed()),
{
    let mut i: usize = 0;
    while i < 32
        invariant
            0 <= i <= 32,
            forall|j: int| 0 <= j < i ==> seed@[j] == FALLBACK_SEED_BYTE,
        decreases 32 - i,
    {
        if seed[i] != FALLBACK_SEED_BYTE {
            proof {
                assert(seed@[i as int] != fallback_seed()[i as int]);
            }
            return false;
        }
        i = i + 1;
    }
    proof {
        assert(seed@ =~= fallback_seed());
    }
    true
}

/// Derives a keypair from a seed.  The fallback seed is recognised exactly
/// and answered with the embedded fallback keypair, the same bytes on every
/// call; any other seed is ignored and a fresh random keypair is generated.
/// Either way the two keys belong together.
pub fn derive_keys_from_seed(seed: &[u8; 32]) -> (keys: (Vec<u8>, Vec<u8>))
    ensures
        keys.0@.len() == PUBLIC_KEY_LEN,
        keys.1@.len() == SECRET_KEY_LEN,
        sk_well_formed(keys.1@),
        keypair_correct(keys.0@, keys.1@),
        seed@ == fallback_seed() ==> keys.0@ == fractured_public_key() && keys.1@
            == fractured_secret_key(),
{
    if is_fallback_seed(seed) {
        mldsa_keypair_from_seed(&FRACTURED_KEY_SEED)
    } else {
        let fresh = random_seed();
        mldsa_keypair_from_seed(&fresh)
    }
}

/// A username bound to the keypair derived for it.  The secret key is meant
/// to stay with the identity's holder; nothing here enforces that.
pub struct Identity {
    pub username: String,
    pub public_key: Vec<u8>,
    pub secret_key: Vec<u8>,
}

/// The key-management layer: stateless, every operation is a pure call.
pub struct KeyManager {}

impl KeyManager {
    pub fn new() -> (r: Self) {
        Self {  }
    }

    /// Produces a full identity for a username: draws a seed from the rift,
    /// derives a keypair from it, and packages the result.  While the
    /// rift's stability is below the fallback threshold the identity
    /// carries the embedded fallback keypair.
    pub fn generate_identity(&self, username: &str, rift: &mut DimensionalRift) -> (identity:
        Identity)
        ensures
            identity.username@ == username@,
            *final(rift) == *old(rift),
            identity.public_key@.len() == PUBLIC_KEY_LEN,
            identity.secret_key@.len() == SECRET_KEY_LEN,
            sk_well_formed(identity.secret_key@),
            keypair_correct(identity.public_key@, identity.secret_key@),
            old(rift).stability < FALLBACK_THRESHOLD ==> identity.public_key@
                == fractured_public_key() && identity.secret_key@ == fractured_secret_key(),
    {
        let seed = rift.get_entropy_seed();
        let keys = derive_keys_from_seed(&seed);
        Identity { username: username.to_string(), public_key: keys.0, secret_key: keys.1 }
    }

    /// Verifies a detached signature on a message against public-key bytes.
    /// Malformed key or signature bytes yield `false`, never a fault.
    pub fn verify_signature(&self, message: &[u8], signature: &[u8], pk_bytes: &[u8]) -> (r: bool)
        ensures
            pk_bytes@.len() == PUBLIC_KEY_LEN && sig_decodes(signature@) ==> r == sig_verifies(
                signature@,
                message@,
                pk_bytes@,
            ),
            pk_bytes@.len() != PUBLIC_KEY_LEN || !sig_decodes(signature@) ==> !r,
    {
        mldsa_verify(message, signature, pk_bytes)
    }

    /// Signs a message with a well-formed expanded secret key, the form
    /// that key derivation produces and `is_well_formed_secret_key`
    /// recognises.
    pub fn sign_message(&self, message: &[u8], sk_bytes: &[u8]) -> (signature: Vec<u8>)
        requires
            sk_well_formed(sk_bytes@),
        ensures
            signature@ == signature_of(message@, sk_bytes@),
            signature@.len() == SIGNATURE_LEN,
            sig_decodes(signature@),
    {
        mldsa_sign(message, sk_bytes)
    }
}

} // verus!
