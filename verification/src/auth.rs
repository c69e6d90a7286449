//! The signature authorization protocol and the per-signer nonce ledger.
//!
//! A request is authorized only when its signature proves that the claimed
//! signer authorized exactly this request, exactly once: the signature must
//! verify over the canonical message built from the submitted arguments, and
//! the submitted nonce must equal the signer's stored nonce, which is then
//! consumed.

use vstd::prelude::*;
use crate::bytes::clone_bytes;
use crate::codec::{build_payload, payload};
use crate::errors::Error;
use crate::storage::{DataKey, DataKeyV, Identifier, Store, StoredVal, StoredValV};

verus! {

/// Whether Ed25519 verification accepts `signature` on `message` under
/// `public_key`: the outside verifier's answer, a pure function of the three
/// byte strings.
pub uninterp spec fn ed25519_verifies(public_key: Seq<u8>, message: Seq<u8>, signature: Seq<u8>) -> bool;

/// Relies on `ed25519_dalek::VerifyingKey::verify_strict` (and the byte
/// decoding done by `VerifyingKey::from_bytes` and `Signature::from_bytes`):
/// whether a signature verifies is a deterministic function of the public-key,
/// message and signature bytes, with no other input.
#[verifier::external_body]
fn verify_ed25519(public_key: &Vec<u8>, message: &Vec<u8>, signature: &Vec<u8>) -> (r: bool)
    requires
        public_key@.len() == 32,
        signature@.len() == 64,
    ensures
        r == ed25519_verifies(public_key@, message@, signature@),
{
    let Ok(pk) = <&[u8] as TryInto<&[u8; 32]>>::try_into(public_key.as_slice()) else {
        return false;
    };
    let Ok(vk) = ed25519_dalek::VerifyingKey::from_bytes(pk) else {
        return false;
    };
    let Ok(sig_bytes) = <&[u8] as TryInto<&[u8; 64]>>::try_into(signature.as_slice()) else {
        return false;
    };
    let sig = ed25519_dalek::Signature::from_bytes(sig_bytes);
    vk.verify_strict(message.as_slice(), &sig).is_ok()
}

/// An Ed25519 signature together with the public key it asserts; the signer's
/// identity is always derived from this payload, never from a separate
/// caller-supplied field.
pub struct Signature {
    pub public_key: Vec<u8>,
    pub sig_bytes: Vec<u8>,
}

impl Signature {
    /// A signature carries a 32-byte public key and 64 signature bytes.
    pub open spec fn wf(&self) -> bool {
        self.public_key@.len() == 32 && self.sig_bytes@.len() == 64
    }

    /// The identity asserted by this signature: its public key.
    pub fn get_identifier(&self) -> (r: Identifier)
        ensures
            r@ == self.public_key@,
    {
        Identifier { public_key: clone_bytes(&self.public_key) }
    }
}

/// The signer's nonce in a store: the stored counter, zero when absent. A
/// slot of another class under the signer's key counts as unseen, though the
/// registry's invariant rules that out.
pub open spec fn nonce_in(m: Map<DataKeyV, StoredValV>, signer: Seq<u8>) -> u64 {
    if m.contains_key(DataKeyV::Nonce(signer)) {
        match m[DataKeyV::Nonce(signer)] {
            StoredValV::Count(n) => n,
            _ => 0,
        }
    } else {
        0
    }
}

/// Reads the signer's current nonce: the stored value, or zero for a signer
/// never seen. No side effect; never fails.
pub fn read_nonce(store: &Store, id: &Identifier) -> (r: u64)
    requires
        store.wf(),
    ensures
        r == nonce_in(store@, id@),
{
    let key = DataKey::Nonce(id.clone());
    match store.get(&key) {
        Some(StoredVal::Count(n)) => *n,
        Some(_) => 0,
        None => 0,
    }
}

/// Returns the nonce current before the call and stores its successor under
/// the signer's key: the ledger's only mutator, run exactly once per
/// successful authorization.
pub fn read_and_increment_nonce(store: &mut Store, id: &Identifier) -> (r: u64)
    requires
        old(store).wf(),
        nonce_in(old(store)@, id@) < u64::MAX,
    ensures
        final(store).wf(),
        r == nonce_in(old(store)@, id@),
        final(store)@ == old(store)@.insert(
            DataKeyV::Nonce(id@),
            StoredValV::Count((r + 1) as u64),
        ),
{
    let nonce = read_nonce(store, id);
    store.set(DataKey::Nonce(id.clone()), StoredVal::Count(nonce + 1));
    nonce
}

/// Authorizes one request (the canonical-message protocol):
/// verifies the signature over the payload built from the submitted operation
/// name, network value and argument bytes, compares the submitted nonce to the
/// signer's ledger nonce, and on success consumes that nonce. Any failure
/// leaves the store untouched and is `AuthenticationFailed`.
pub fn check_auth(
    store: &mut Store,
    sig: &Signature,
    nonce: u64,
    function: &Vec<u8>,
    network: &Vec<u8>,
    args: &Vec<u8>,
) -> (r: Result<(), Error>)
    requires
        old(store).wf(),
        sig.wf(),
        nonce < u64::MAX,
    ensures
        final(store).wf(),
        ({
            let authorized = ed25519_verifies(
                sig.public_key@,
                payload(function@, network@, args@),
                sig.sig_bytes@,
            ) && nonce_in(old(store)@, sig.public_key@) == nonce;
            &&& (r is Ok <==> authorized)
            &&& authorized ==> final(store)@ == old(store)@.insert(
                DataKeyV::Nonce(sig.public_key@),
                StoredValV::Count((nonce + 1) as u64),
            )
            &&& !authorized ==> *final(store) == *old(store) && r == Err::<(), Error>(
                Error::AuthenticationFailed,
            )
        }),
{
    let msg = build_payload(function, network, args);
    if !verify_ed25519(&sig.public_key, &msg, &sig.sig_bytes) {
        return Err(Error::AuthenticationFailed);
    }
    let id = sig.get_identifier();
    let current = read_nonce(store, &id);
    if current != nonce {
        return Err(Error::AuthenticationFailed);
    }
    read_and_increment_nonce(store, &id);
    Ok(())
}

} // verus!
