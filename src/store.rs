//! The durable key-value store, reached through sled.

use vstd::prelude::*;

verus! {

#[verifier::external_type_specification]
#[verifier::external_body]
pub struct ExDb(sled::Db);

#[verifier::external_type_specification]
#[verifier::external_body]
pub struct ExSledError(sled::Error);

/// What the tree behind a database handle holds: keys and values as bytes.
/// Only the handle that a `Store` opened and keeps to itself is ever given
/// to the calls below: sled locks the database's files for the process that
/// opened them, no clone of the handle is made, and so its contents change
/// only through `store_insert` on it.
pub uninterp spec fn store_contents(db: sled::Db) -> Map<Seq<u8>, Seq<u8>>;

/// The value that a map holds for a key, if any.
pub open spec fn lookup(m: Map<Seq<u8>, Seq<u8>>, key: Seq<u8>) -> Option<Seq<u8>> {
    if m.contains_key(key) {
        Some(m[key])
    } else {
        None
    }
}

pub open spec fn bytes_of(v: Option<Vec<u8>>) -> Option<Seq<u8>> {
    match v {
        Some(b) => Some(b@),
        None => None,
    }
}

/// Relies on sled::open: opens (or creates) the database at a path; fails
/// where its files cannot be opened or are locked by another opener.
#[verifier::external_body]
fn open_db(path: &str) -> (r: Result<sled::Db, sled::Error>) {
    sled::open(path)
}

/// Relies on sled::Config::temporary and sled::Config::open: a fresh database
/// removed when its handle is dropped.
#[verifier::external_body]
fn open_temporary_db() -> (r: Result<sled::Db, sled::Error>) {
    sled::Config::new().temporary(true).open()
}

/// Relies on sled::Tree::get (through Db's Deref): `Ok(Some(v))` when the key
/// holds `v`, `Ok(None)` when it holds nothing.
#[verifier::external_body]
fn store_get(db: &sled::Db, key: &[u8]) -> (r: Result<Option<Vec<u8>>, sled::Error>)
    ensures
        r matches Ok(v) ==> bytes_of(v) == lookup(store_contents(*db), key@),
{
    db.get(key).map(|v| v.map(|b| b.to_vec()))
}

/// Relies on sled::Tree::insert (through Db's Deref): on success the key holds
/// the new value and every other key is unchanged.
#[verifier::external_body]
fn store_insert(db: &mut sled::Db, key: &[u8], value: Vec<u8>) -> (r: Result<(), sled::Error>)
    ensures
        r is Ok ==> store_contents(*final(db)) == store_contents(*old(db)).insert(key@, value@),
{
    db.insert(key, value).map(|_| ())
}

/// A durable key-value store that the library alone writes to. It cannot be
/// cloned, and its handle is never handed out.
pub struct Store {
    db: sled::Db,
}

impl Store {
    /// The records that the store holds.
    pub closed spec fn contents(&self) -> Map<Seq<u8>, Seq<u8>> {
        store_contents(self.db)
    }

    /// Opens the store kept at `path`, with what it held before.
    pub fn open(path: &str) -> (r: Result<Store, sled::Error>) {
        match open_db(path) {
            Ok(db) => Ok(Store { db }),
            Err(e) => Err(e),
        }
    }

    /// Opens a store that is removed when it is dropped.
    pub fn temporary() -> (r: Result<Store, sled::Error>) {
        match open_temporary_db() {
            Ok(db) => Ok(Store { db }),
            Err(e) => Err(e),
        }
    }

    /// The value held for `key`, if any.
    pub fn get(&self, key: &[u8]) -> (r: Result<Option<Vec<u8>>, sled::Error>)
        ensures
            r matches Ok(v) ==> bytes_of(v) == lookup(self.contents(), key@),
    {
        store_get(&self.db, key)
    }

    /// Makes `key` hold `value`, leaving every other key as it was.
    pub fn insert(&mut self, key: &[u8], value: Vec<u8>) -> (r: Result<(), sled::Error>)
        ensures
            r is Ok ==> final(self).contents() == old(self).contents().insert(key@, value@),
    {
        store_insert(&mut self.db, key, value)
    }
}

} // verus!
