//! Laws of the authorization protocol, stated over the registry's
//! specification and proved once for all states.

use vstd::prelude::*;
use crate::codec::lemma_write_iden_payload_injective;
use crate::registry::IdentityContract;

verus! {

/// A consumed nonce cannot authorize again: once a write authorized with
/// nonce `n` has advanced the signer's ledger to `n + 1`, no request carrying
/// `n` for that signer is authorized in the new state, whatever key or
/// signature it presents.
pub proof fn lemma_replay_rejected(
    pre: IdentityContract,
    post: IdentityContract,
    signer: Seq<u8>,
    n: u64,
    key: Seq<u8>,
    sig: Seq<u8>,
    key2: Seq<u8>,
    sig2: Seq<u8>,
)
    requires
        pre.write_authorized(signer, n, key, sig),
        n < u64::MAX,
        post.nonce_of(signer) == n + 1,
    ensures
        !post.write_authorized(signer, n, key2, sig2),
{
}

/// Authorization reads only the deployment's network value and the signer's
/// own ledger nonce: the records, the admin slot and every other signer's
/// nonce have no effect on whether a write is accepted. In particular, a
/// signer with a valid nonce may overwrite a record some other signer wrote.
pub proof fn lemma_authorization_reads_only_nonce(
    s1: IdentityContract,
    s2: IdentityContract,
    signer: Seq<u8>,
    n: u64,
    key: Seq<u8>,
    sig: Seq<u8>,
)
    requires
        s1.network_of() == s2.network_of(),
        s1.nonce_of(signer) == s2.nonce_of(signer),
        s1.write_authorized(signer, n, key, sig),
    ensures
        s2.write_authorized(signer, n, key, sig),
{
}

/// The canonical message pins every signed argument: within one deployment,
/// two request tuples that sign as the same message are the same signer, the
/// same nonce and the same key — so a signature over one tuple can never be
/// presented, tampered, for another.
pub proof fn lemma_signed_arguments_pinned(
    state: IdentityContract,
    signer1: Seq<u8>,
    nonce1: u64,
    key1: Seq<u8>,
    signer2: Seq<u8>,
    nonce2: u64,
    key2: Seq<u8>,
)
    requires
        signer1.len() == 32,
        key1.len() == 32,
        signer2.len() == 32,
        key2.len() == 32,
        crate::codec::write_iden_payload(state.network_of(), signer1, nonce1, key1)
            == crate::codec::write_iden_payload(state.network_of(), signer2, nonce2, key2),
    ensures
        signer1 == signer2,
        nonce1 == nonce2,
        key1 == key2,
{
    lemma_write_iden_payload_injective(
        state.network_of(),
        signer1,
        nonce1,
        key1,
        signer2,
        nonce2,
        key2,
    );
}

} // verus!
