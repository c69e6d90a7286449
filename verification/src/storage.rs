//! The registry's data types and the flat key-value store that holds them.
//!
//! One key space serves all three key classes: registered records, per-signer
//! nonces, and the single admin slot. Keys are matched by exact equality.

use vstd::prelude::*;
use crate::bytes::{bytes_eq, clone_bytes};

verus! {

/// The identity of a signer: the 32 bytes of an Ed25519 public key.
pub struct Identifier {
    pub public_key: Vec<u8>,
}

impl View for Identifier {
    type V = Seq<u8>;

    open spec fn view(&self) -> Seq<u8> {
        self.public_key@
    }
}

impl Identifier {
    /// An identifier carries exactly one public key's worth of bytes.
    pub open spec fn wf(&self) -> bool {
        self@.len() == 32
    }
}

impl Clone for Identifier {
    fn clone(&self) -> (r: Self)
        ensures
            r@ == self@,
    {
        Identifier { public_key: clone_bytes(&self.public_key) }
    }
}

/// One link of a record: a human-readable description and a URL, both opaque
/// byte sequences.
pub struct Link {
    pub descr: Vec<u8>,
    pub link: Vec<u8>,
}

/// The mathematical value of a `Link`.
pub struct LinkV {
    pub descr: Seq<u8>,
    pub link: Seq<u8>,
}

impl View for Link {
    type V = LinkV;

    open spec fn view(&self) -> LinkV {
        LinkV { descr: self.descr@, link: self.link@ }
    }
}

impl Clone for Link {
    fn clone(&self) -> (r: Self)
        ensures
            r@ == self@,
    {
        Link { descr: clone_bytes(&self.descr), link: clone_bytes(&self.link) }
    }
}

/// The values of a sequence of links.
pub open spec fn links_view(s: Seq<Link>) -> Seq<LinkV> {
    s.map_values(|l: Link| l@)
}

/// A fresh vector holding the same links as `v`.
pub fn clone_links(v: &Vec<Link>) -> (r: Vec<Link>)
    ensures
        links_view(r@) == links_view(v@),
{
    let mut r: Vec<Link> = Vec::new();
    let mut i: usize = 0;
    while i < v.len()
        invariant
            i <= v.len(),
            r@.len() == i,
            forall|j: int| 0 <= j < i ==> r@[j]@ == v@[j]@,
        decreases v.len() - i,
    {
        r.push(v[i].clone());
        i += 1;
    }
    proof {
        assert(links_view(r@) =~= links_view(v@));
    }
    r
}

/// A registered identity record: immutable after each write; `admin` is the
/// identity that authorized the record's last write.
pub struct Identity {
    pub name: Vec<u8>,
    pub descr: Vec<u8>,
    pub links: Vec<Link>,
    pub admin: Identifier,
}

/// The mathematical value of an `Identity`.
pub struct IdentityV {
    pub name: Seq<u8>,
    pub descr: Seq<u8>,
    pub links: Seq<LinkV>,
    pub admin: Seq<u8>,
}

impl View for Identity {
    type V = IdentityV;

    open spec fn view(&self) -> IdentityV {
        IdentityV {
            name: self.name@,
            descr: self.descr@,
            links: links_view(self.links@),
            admin: self.admin@,
        }
    }
}

impl Clone for Identity {
    fn clone(&self) -> (r: Self)
        ensures
            r@ == self@,
    {
        Identity {
            name: clone_bytes(&self.name),
            descr: clone_bytes(&self.descr),
            links: clone_links(&self.links),
            admin: self.admin.clone(),
        }
    }
}

impl Identity {
    /// Builds a record from its parts, taking them verbatim.
    pub fn new(name: Vec<u8>, descr: Vec<u8>, links: Vec<Link>, admin: Identifier) -> (r: Self)
        ensures
            r@ == (IdentityV {
                name: name@,
                descr: descr@,
                links: links_view(links@),
                admin: admin@,
            }),
    {
        Identity { name, descr, links, admin }
    }
}

/// A key of the flat key space.
pub enum DataKey {
    /// The record registered under a 32-byte identifier.
    Registered(Vec<u8>),
    /// The stored nonce of one signer.
    Nonce(Identifier),
    /// The one admin slot.
    Admin,
}

/// The mathematical value of a `DataKey`.
pub enum DataKeyV {
    Registered(Seq<u8>),
    Nonce(Seq<u8>),
    Admin,
}

impl View for DataKey {
    type V = DataKeyV;

    open spec fn view(&self) -> DataKeyV {
        match self {
            DataKey::Registered(k) => DataKeyV::Registered(k@),
            DataKey::Nonce(id) => DataKeyV::Nonce(id@),
            DataKey::Admin => DataKeyV::Admin,
        }
    }
}

/// Whether two keys address the same slot.
pub fn key_eq(a: &DataKey, b: &DataKey) -> (r: bool)
    ensures
        r == (a@ == b@),
{
    match (a, b) {
        (DataKey::Registered(x), DataKey::Registered(y)) => bytes_eq(x, y),
        (DataKey::Nonce(x), DataKey::Nonce(y)) => bytes_eq(&x.public_key, &y.public_key),
        (DataKey::Admin, DataKey::Admin) => true,
        _ => false,
    }
}

/// A value of the flat key space; which variant sits under a key follows the
/// key's class.
pub enum StoredVal {
    /// An identity record, under a `Registered` key.
    Record(Identity),
    /// A nonce counter, under a `Nonce` key.
    Count(u64),
    /// The admin identity, under the `Admin` key.
    AdminId(Identifier),
}

/// The mathematical value of a `StoredVal`.
pub enum StoredValV {
    Record(IdentityV),
    Count(u64),
    AdminId(Seq<u8>),
}

impl View for StoredVal {
    type V = StoredValV;

    open spec fn view(&self) -> StoredValV {
        match self {
            StoredVal::Record(r) => StoredValV::Record(r@),
            StoredVal::Count(n) => StoredValV::Count(*n),
            StoredVal::AdminId(a) => StoredValV::AdminId(a@),
        }
    }
}

/// The map described by a sequence of entries; a later entry would shadow an
/// earlier one with the same key, but `Store::wf` keeps keys unique.
pub closed spec fn entries_map(s: Seq<(DataKey, StoredVal)>) -> Map<DataKeyV, StoredValV>
    decreases s.len(),
{
    if s.len() == 0 {
        Map::empty()
    } else {
        entries_map(s.drop_last()).insert(s.last().0@, s.last().1@)
    }
}

/// Keys that appear in no entry are absent from the map.
proof fn lemma_entries_map_absent(s: Seq<(DataKey, StoredVal)>, k: DataKeyV)
    requires
        forall|j: int| 0 <= j < s.len() ==> s[j].0@ != k,
    ensures
        !entries_map(s).contains_key(k),
    decreases s.len(),
{
    if s.len() > 0 {
        assert(s.last().0@ != k);
        lemma_entries_map_absent(s.drop_last(), k);
    }
}

/// An entry whose key repeats in no later entry gives the map's value at that
/// key.
proof fn lemma_entries_map_found(s: Seq<(DataKey, StoredVal)>, k: DataKeyV, i: int)
    requires
        0 <= i < s.len(),
        s[i].0@ == k,
        forall|j: int| i < j < s.len() ==> s[j].0@ != k,
    ensures
        entries_map(s).contains_key(k),
        entries_map(s)[k] == s[i].1@,
    decreases s.len(),
{
    if i == s.len() - 1 {
    } else {
        assert(s.last().0@ != k);
        lemma_entries_map_found(s.drop_last(), k, i);
    }
}

/// Replacing the entry at `i` by one with the same key updates the map at that
/// key alone.
proof fn lemma_entries_map_update(s: Seq<(DataKey, StoredVal)>, i: int, e: (DataKey, StoredVal))
    requires
        0 <= i < s.len(),
        e.0@ == s[i].0@,
        forall|p: int, q: int| 0 <= p < q < s.len() ==> s[p].0@ != s[q].0@,
    ensures
        entries_map(s.update(i, e)) == entries_map(s).insert(e.0@, e.1@),
    decreases s.len(),
{
    let s2 = s.update(i, e);
    let k = e.0@;
    if i == s.len() - 1 {
        assert(s2.drop_last() =~= s.drop_last());
        assert(entries_map(s2) == entries_map(s.drop_last()).insert(k, e.1@));
        assert(entries_map(s).insert(k, e.1@) =~= entries_map(s.drop_last()).insert(k, e.1@));
    } else {
        assert(s2.drop_last() =~= s.drop_last().update(i, e));
        assert(s2.last() == s.last());
        assert(s[i].0@ != s[s.len() - 1].0@);
        lemma_entries_map_update(s.drop_last(), i, e);
        assert(entries_map(s2) == entries_map(s.drop_last()).insert(k, e.1@).insert(
            s.last().0@,
            s.last().1@,
        ));
        assert(entries_map(s.drop_last()).insert(k, e.1@).insert(s.last().0@, s.last().1@)
            =~= entries_map(s.drop_last()).insert(s.last().0@, s.last().1@).insert(k, e.1@));
    }
}

/// The flat store: a mapping from structured keys to structured values,
/// addressed by exact key equality, with presence-check, get and set.
pub struct Store {
    entries: Vec<(DataKey, StoredVal)>,
}

impl View for Store {
    type V = Map<DataKeyV, StoredValV>;

    closed spec fn view(&self) -> Map<DataKeyV, StoredValV> {
        entries_map(self.entries@)
    }
}

impl Store {
    /// No two entries address the same slot.
    pub closed spec fn wf(self) -> bool {
        forall|p: int, q: int|
            0 <= p < q < self.entries@.len() ==> self.entries@[p].0@ != self.entries@[q].0@
    }

    /// A store holding nothing.
    pub fn empty() -> (r: Self)
        ensures
            r.wf(),
            r@ == Map::<DataKeyV, StoredValV>::empty(),
    {
        Store { entries: Vec::new() }
    }

    /// The value stored under `key`, if any.
    pub fn get<'a>(&'a self, key: &DataKey) -> (r: Option<&'a StoredVal>)
        requires
            self.wf(),
        ensures
            match r {
                Some(v) => self@.contains_key(key@) && v@ == self@[key@],
                None => !self@.contains_key(key@),
            },
    {
        let mut i: usize = 0;
        while i < self.entries.len()
            invariant
                self.wf(),
                i <= self.entries@.len(),
                forall|j: int| 0 <= j < i ==> self.entries@[j].0@ != key@,
            decreases self.entries@.len() - i,
        {
            let entry = &self.entries[i];
            if key_eq(&entry.0, key) {
                proof {
                    assert forall|j: int| i < j < self.entries@.len() implies self.entries@[j].0@
                        != key@ by {
                        assert(self.entries@[i as int].0@ != self.entries@[j].0@);
                    }
                    lemma_entries_map_found(self.entries@, key@, i as int);
                }
                return Some(&entry.1);
            }
            i += 1;
        }
        proof {
            lemma_entries_map_absent(self.entries@, key@);
        }
        None
    }

    /// Whether anything is stored under `key`.
    pub fn has(&self, key: &DataKey) -> (r: bool)
        requires
            self.wf(),
        ensures
            r == self@.contains_key(key@),
    {
        self.get(key).is_some()
    }

    /// Stores `value` under `key`, replacing whatever was there.
    pub fn set(&mut self, key: DataKey, value: StoredVal)
        requires
            old(self).wf(),
        ensures
            final(self).wf(),
            final(self)@ == old(self)@.insert(key@, value@),
    {
        let ghost key_v = key@;
        let mut i: usize = 0;
        while i < self.entries.len()
            invariant
                old(self).wf(),
                self == old(self),
                key@ == key_v,
                i <= self.entries@.len(),
                forall|j: int| 0 <= j < i ==> self.entries@[j].0@ != key@,
            decreases self.entries@.len() - i,
        {
            let found = key_eq(&self.entries[i].0, &key);
            if found {
                proof {
                    lemma_entries_map_update(self.entries@, i as int, (key, value));
                }
                self.entries.set(i, (key, value));
                proof {
                    assert forall|p: int, q: int|
                        0 <= p < q < self.entries@.len() implies self.entries@[p].0@
                        != self.entries@[q].0@ by {
                        assert(old(self).entries@[p].0@ != old(self).entries@[q].0@);
                    }
                }
                return;
            }
            i += 1;
        }
        proof {
            lemma_entries_map_absent(self.entries@, key@);
        }
        self.entries.push((key, value));
        proof {
            assert(self.entries@.drop_last() =~= old(self).entries@);
            assert(entries_map(self.entries@) == old(self)@.insert(key_v, value@));
            assert forall|p: int, q: int|
                0 <= p < q < self.entries@.len() implies self.entries@[p].0@
                != self.entries@[q].0@ by {
                if q < self.entries@.len() - 1 {
                    assert(old(self).entries@[p].0@ != old(self).entries@[q].0@);
                } else {
                    assert(old(self).entries@[p].0@ != key_v);
                }
            }
        }
    }
}

} // verus!
