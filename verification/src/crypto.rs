//! Ed25519 signing, through trusted wrappers around ed25519-dalek.
//!
//! Key material crosses the library boundary as plain bytes: a keypair is the
//! 64-byte form that `Keypair::to_bytes` produces (secret half, then public
//! half), a public key its 32-byte form, a signature its 64-byte form.

use ed25519_dalek::Signer;
use ed25519_dalek::Verifier;
use vstd::prelude::*;

verus! {

/// Whether 64 bytes parse back into a keypair through
/// `ed25519_dalek::Keypair::from_bytes`.
pub uninterp spec fn keypair_wf(kp: Seq<u8>) -> bool;

/// The 32 public-key bytes of a well-formed keypair's bytes.
pub uninterp spec fn public_key_of(kp: Seq<u8>) -> Seq<u8>;

/// The ed25519 signature of a message under a keypair. Ed25519 signing is
/// deterministic: a function of the key bytes and the message alone.
pub uninterp spec fn signature_of(kp: Seq<u8>, msg: Seq<char>) -> Seq<u8>;

/// Whether a signature verifies for a message under a public key; bytes that
/// parse as no key or no signature verify as false.
pub uninterp spec fn signature_verifies(pk: Seq<u8>, msg: Seq<char>, sig: Seq<u8>) -> bool;

/// Relies on `ed25519_dalek::Keypair::generate` and `to_bytes`: 64 bytes of
/// a fresh keypair, which `from_bytes` accepts again.
#[verifier::external_body]
fn generate_keypair_bytes() -> (r: Vec<u8>)
    ensures
        r@.len() == 64,
        keypair_wf(r@),
{
    let mut csprng = rand::rngs::OsRng;
    let keypair = ed25519_dalek::Keypair::generate(&mut csprng);
    keypair.to_bytes().to_vec()
}

/// Relies on `ed25519_dalek::Keypair::from_bytes` and `Signer::sign`:
/// deterministic EdDSA signing, whose signature verifies under the keypair's
/// own public key.
#[verifier::external_body]
fn sign_message(kp: &[u8], msg: &str) -> (r: Vec<u8>)
    requires
        keypair_wf(kp@),
    ensures
        r@ == signature_of(kp@, msg@),
        r@.len() == 64,
        signature_verifies(public_key_of(kp@), msg@, r@),
{
    let keypair = ed25519_dalek::Keypair::from_bytes(kp).unwrap();
    let signature = keypair.sign(msg.as_bytes());
    signature.to_bytes().to_vec()
}

/// Relies on `ed25519_dalek::Keypair::from_bytes` and `PublicKey::to_bytes`:
/// the public half of the keypair bytes.
#[verifier::external_body]
fn keypair_public_bytes(kp: &[u8]) -> (r: Vec<u8>)
    requires
        keypair_wf(kp@),
    ensures
        r@ == public_key_of(kp@),
        r@.len() == 32,
{
    let keypair = ed25519_dalek::Keypair::from_bytes(kp).unwrap();
    keypair.public.to_bytes().to_vec()
}

/// Relies on `ed25519_dalek::PublicKey::verify` (with `PublicKey::from_bytes`
/// and `Signature::from_bytes`): deterministic in the key, message and
/// signature bytes; a parse failure verifies as false.
#[verifier::external_body]
pub(crate) fn verify_signature_bytes(pk: &[u8], msg: &str, sig: &[u8]) -> (r: bool)
    ensures
        r == signature_verifies(pk@, msg@, sig@),
{
    let public_key = match ed25519_dalek::PublicKey::from_bytes(pk) {
        Ok(p) => p,
        Err(_) => return false,
    };
    let signature = match ed25519_dalek::Signature::from_bytes(sig) {
        Ok(s) => s,
        Err(_) => return false,
    };
    public_key.verify(msg.as_bytes(), &signature).is_ok()
}

/// A freshly generated ed25519 keypair, held as its 64-byte form.
pub struct SigningKeypair {
    bytes: Vec<u8>,
}

impl SigningKeypair {
    #[verifier::type_invariant]
    spec fn type_inv(self) -> bool {
        self.bytes@.len() == 64 && keypair_wf(self.bytes@)
    }

    /// The keypair's bytes, the value the signing spec functions speak of.
    pub closed spec fn key_bytes(self) -> Seq<u8> {
        self.bytes@
    }

    /// Draw a fresh random keypair.
    pub fn generate() -> SigningKeypair {
        SigningKeypair { bytes: generate_keypair_bytes() }
    }

    /// The public half of the keypair, as plain bytes.
    pub fn public_key(&self) -> (r: Vec<u8>)
        ensures
            r@ == public_key_of(self.key_bytes()),
    {
        proof {
            use_type_invariant(self);
        }
        keypair_public_bytes(self.bytes.as_slice())
    }

    /// Sign a message with this keypair.
    pub(crate) fn sign_str(&self, msg: &str) -> (r: Vec<u8>)
        ensures
            r@ == signature_of(self.key_bytes(), msg@),
            signature_verifies(public_key_of(self.key_bytes()), msg@, r@),
    {
        proof {
            use_type_invariant(self);
        }
        sign_message(self.bytes.as_slice(), msg)
    }
}

} // verus!
