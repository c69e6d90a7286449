//! The registry service: the public operations over the flat store.

use vstd::prelude::*;
use crate::auth::{check_auth, ed25519_verifies, nonce_in, read_nonce, Signature};
use crate::bytes::push_all;
use crate::codec::{u64_to_bytes, write_iden_args, write_iden_name_bytes, write_iden_payload};
use crate::errors::Error;
use crate::storage::{
    links_view, DataKey, DataKeyV, Identifier, Identity, IdentityV, Link, Store, StoredVal,
    StoredValV,
};

verus! {

/// The registry: one flat store, plus the network value that scopes every
/// signature to this deployment.
pub struct IdentityContract {
    store: Store,
    network: Vec<u8>,
}

impl IdentityContract {
    /// Each key class holds its own kind of value: records under `Registered`
    /// keys, counters under `Nonce` keys, an identity in the admin slot.
    pub closed spec fn classes_ok(self) -> bool {
        &&& forall|k: Seq<u8>|
            self.store@.contains_key(DataKeyV::Registered(k))
                ==> self.store@[DataKeyV::Registered(k)] is Record
        &&& forall|s: Seq<u8>|
            self.store@.contains_key(DataKeyV::Nonce(s))
                ==> self.store@[DataKeyV::Nonce(s)] is Count
        &&& self.store@.contains_key(DataKeyV::Admin) ==> self.store@[DataKeyV::Admin] is AdminId
    }

    /// The registry's invariant, established by `new` and preserved by every
    /// operation.
    pub closed spec fn wf(self) -> bool {
        self.store.wf() && self.classes_ok()
    }

    /// The deployment-scoping value every signed message must name.
    pub closed spec fn network_of(self) -> Seq<u8> {
        self.network@
    }

    /// The admin identity, if one was ever set.
    pub closed spec fn admin_of(self) -> Option<Seq<u8>> {
        if self.store@.contains_key(DataKeyV::Admin) {
            match self.store@[DataKeyV::Admin] {
                StoredValV::AdminId(a) => Some(a),
                _ => None,
            }
        } else {
            None
        }
    }

    /// The signer's current ledger nonce; zero for a signer never seen.
    pub closed spec fn nonce_of(self, signer: Seq<u8>) -> u64 {
        nonce_in(self.store@, signer)
    }

    /// The record registered under a key, if any successful write created one.
    pub closed spec fn record_of(self, key: Seq<u8>) -> Option<IdentityV> {
        if self.store@.contains_key(DataKeyV::Registered(key)) {
            match self.store@[DataKeyV::Registered(key)] {
                StoredValV::Record(r) => Some(r),
                _ => None,
            }
        } else {
            None
        }
    }

    /// When a write request is authorized: its signature verifies over the
    /// canonical message built from the submitted arguments under this
    /// deployment's network value, and the submitted nonce equals the signer's
    /// ledger nonce.
    pub open spec fn write_authorized(
        self,
        signer: Seq<u8>,
        nonce: u64,
        key: Seq<u8>,
        sig_bytes: Seq<u8>,
    ) -> bool {
        &&& ed25519_verifies(
            signer,
            write_iden_payload(self.network_of(), signer, nonce, key),
            sig_bytes,
        )
        &&& self.nonce_of(signer) == nonce
    }

    /// A fresh registry for one deployment: no records, no admin, and every
    /// signer's nonce at zero.
    pub fn new(network: Vec<u8>) -> (r: Self)
        ensures
            r.wf(),
            r.network_of() == network@,
            r.admin_of() is None,
            forall|s: Seq<u8>| r.nonce_of(s) == 0,
            forall|k: Seq<u8>| r.record_of(k) is None,
    {
        IdentityContract { store: Store::empty(), network }
    }

    /// Fills the admin slot, once: fails with `AlreadyInitialized` exactly
    /// when an admin already exists, and changes nothing else either way.
    pub fn set_admin(&mut self, admin: Identifier) -> (r: Result<(), Error>)
        requires
            old(self).wf(),
        ensures
            final(self).wf(),
            (r is Ok <==> old(self).admin_of() is None),
            r is Ok ==> final(self).admin_of() == Some(admin@),
            r is Ok ==> final(self).network_of() == old(self).network_of(),
            r is Ok ==> forall|s: Seq<u8>| final(self).nonce_of(s) == old(self).nonce_of(s),
            r is Ok ==> forall|k: Seq<u8>| final(self).record_of(k) == old(self).record_of(k),
            r is Err ==> *final(self) == *old(self) && r == Err::<(), Error>(
                Error::AlreadyInitialized,
            ),
    {
        if self.store.has(&DataKey::Admin) {
            return Err(Error::AlreadyInitialized);
        }
        self.store.set(DataKey::Admin, StoredVal::AdminId(admin));
        Ok(())
    }

    /// The admin identity; `NotFound` before any successful `set_admin`.
    pub fn get_admin(&self) -> (r: Result<Identifier, Error>)
        requires
            self.wf(),
        ensures
            (r is Ok <==> self.admin_of() is Some),
            match r {
                Ok(a) => self.admin_of() == Some(a@),
                Err(e) => e == Error::NotFound && self.admin_of() is None,
            },
    {
        match self.store.get(&DataKey::Admin) {
            Some(StoredVal::AdminId(a)) => Ok(a.clone()),
            Some(_) => Err(Error::NotFound),
            None => Err(Error::NotFound),
        }
    }

    /// The record under `id_key`, verbatim as last written; `NotFound` when no
    /// successful write has registered the key. Reads are public.
    pub fn get_iden(&self, id_key: Vec<u8>) -> (r: Result<Identity, Error>)
        requires
            self.wf(),
        ensures
            (r is Ok <==> self.record_of(id_key@) is Some),
            match r {
                Ok(rec) => self.record_of(id_key@) == Some(rec@),
                Err(e) => e == Error::NotFound && self.record_of(id_key@) is None,
            },
    {
        match self.store.get(&DataKey::Registered(id_key)) {
            Some(StoredVal::Record(rec)) => Ok(rec.clone()),
            Some(_) => Err(Error::NotFound),
            None => Err(Error::NotFound),
        }
    }

    /// The signer's current nonce; public, no authorization.
    pub fn nonce(&self, id: Identifier) -> (r: u64)
        requires
            self.wf(),
        ensures
            r == self.nonce_of(id@),
    {
        read_nonce(&self.store, &id)
    }

    /// Writes an identity record under a 32-byte key, authorized by the
    /// signature protocol: succeeds exactly when the request is authorized in
    /// the starting state, and then stores the record with the signer as
    /// owner — unconditionally overwriting any prior record at the key — and
    /// advances the signer's nonce by one. Any failure is
    /// `AuthenticationFailed` and leaves the registry untouched.
    pub fn write_iden(
        &mut self,
        id_key: Vec<u8>,
        name: Vec<u8>,
        descr: Vec<u8>,
        links: Vec<Link>,
        admin: Signature,
        nonce: u64,
    ) -> (r: Result<(), Error>)
        requires
            old(self).wf(),
            id_key@.len() == 32,
            admin.wf(),
            nonce < u64::MAX,
        ensures
            final(self).wf(),
            (r is Ok <==> old(self).write_authorized(
                admin.public_key@,
                nonce,
                id_key@,
                admin.sig_bytes@,
            )),
            r is Ok ==> final(self).record_of(id_key@) == Some(IdentityV {
                name: name@,
                descr: descr@,
                links: links_view(links@),
                admin: admin.public_key@,
            }),
            r is Ok ==> final(self).nonce_of(admin.public_key@) == nonce + 1,
            r is Ok ==> forall|s: Seq<u8>|
                s != admin.public_key@ ==> final(self).nonce_of(s) == old(self).nonce_of(s),
            r is Ok ==> forall|k: Seq<u8>|
                k != id_key@ ==> final(self).record_of(k) == old(self).record_of(k),
            r is Ok ==> final(self).admin_of() == old(self).admin_of(),
            r is Ok ==> final(self).network_of() == old(self).network_of(),
            r is Err ==> *final(self) == *old(self) && r == Err::<(), Error>(
                Error::AuthenticationFailed,
            ),
    {
        let admin_id = admin.get_identifier();
        let function = write_iden_name_bytes();
        let mut args: Vec<u8> = Vec::new();
        push_all(&mut args, &admin_id.public_key);
        let nb = u64_to_bytes(nonce);
        push_all(&mut args, &nb);
        push_all(&mut args, &id_key);
        proof {
            assert(args@ =~= write_iden_args(admin.public_key@, nonce, id_key@));
        }
        match check_auth(&mut self.store, &admin, nonce, &function, &self.network, &args) {
            Err(e) => {
                return Err(e);
            },
            Ok(_) => {},
        }
        let iden = Identity::new(name, descr, links, admin_id);
        self.store.set(DataKey::Registered(id_key), StoredVal::Record(iden));
        Ok(())
    }
}

} // verus!
