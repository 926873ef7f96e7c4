//! The directory store: a durable map from byte-string keys to byte-string values.

use vstd::prelude::*;

verus! {

#[verifier::external_type_specification]
#[verifier::external_body]
pub struct ExDb(sled::Db);

#[verifier::external_type_specification]
#[verifier::external_body]
pub struct ExSledError(sled::Error);

/// What a sled database holds: each key with its value.
pub uninterp spec fn db_entries(db: sled::Db) -> Map<Seq<u8>, Seq<u8>>;

/// Relies on sled's `Tree::insert` (reached through `Db`'s `Deref`): on success the
/// key is set to the value, and the value it replaced, if any, is handed back.
#[verifier::external_body]
fn db_insert(db: &mut sled::Db, key: &[u8], value: Vec<u8>) -> (r: Result<
    Option<Vec<u8>>,
    sled::Error,
>)
    ensures
        r is Ok ==> db_entries(*final(db)) == db_entries(*old(db)).insert(key@, value@),
        r matches Ok(Some(p)) ==> db_entries(*old(db)).contains_key(key@) && p@ == db_entries(
            *old(db),
        )[key@],
        r matches Ok(None) ==> !db_entries(*old(db)).contains_key(key@),
{
    match db.insert(key, value) {
        Ok(Some(p)) => Ok(Some(p.to_vec())),
        Ok(None) => Ok(None),
        Err(e) => Err(e),
    }
}

/// Relies on sled's `Tree::flush`: writes all buffered updates to disk and syncs.
/// It changes no entry.
#[verifier::external_body]
fn db_flush(db: &sled::Db) -> (r: Result<usize, sled::Error>) {
    db.flush()
}

/// Relies on sled's `Tree::get`: the value stored under the key, if any.
#[verifier::external_body]
fn db_get(db: &sled::Db, key: &[u8]) -> (r: Result<Option<Vec<u8>>, sled::Error>)
    ensures
        r matches Ok(Some(v)) ==> db_entries(*db).contains_key(key@) && v@ == db_entries(
            *db,
        )[key@],
        r matches Ok(None) ==> !db_entries(*db).contains_key(key@),
{
    match db.get(key) {
        Ok(Some(v)) => Ok(Some(v.to_vec())),
        Ok(None) => Ok(None),
        Err(e) => Err(e),
    }
}

/// A failure of the storage engine or of the disk under it.
#[derive(Clone, Copy, Debug, PartialEq, Eq, Structural)]
pub enum StoreError {
    /// A write did not complete; it must be taken as not having happened.
    StoreWriteError,
    /// A read did not complete; nothing is known of the value.
    StoreReadError,
}

/// The durable map from topic keys to encoded owner records.
pub struct DirectoryStore {
    db: sled::Db,
}

impl View for DirectoryStore {
    type V = Map<Seq<u8>, Seq<u8>>;

    closed spec fn view(&self) -> Map<Seq<u8>, Seq<u8>> {
        db_entries(self.db)
    }
}

impl DirectoryStore {
    /// A store over an open database handle, holding what the database holds.
    pub fn new(db: sled::Db) -> (r: DirectoryStore)
        ensures
            r@ == db_entries(db),
    {
        DirectoryStore { db }
    }

    /// Writes `value` under `key`, replacing any earlier value, and makes the
    /// write durable before returning. Returns the value that was replaced.
    pub fn put(&mut self, key: &[u8], value: Vec<u8>) -> (r: Result<Option<Vec<u8>>, StoreError>)
        ensures
            r is Ok ==> final(self)@ == old(self)@.insert(key@, value@),
            r matches Ok(Some(p)) ==> old(self)@.contains_key(key@) && p@ == old(self)@[key@],
            r matches Ok(None) ==> !old(self)@.contains_key(key@),
            r matches Err(e) ==> e == StoreError::StoreWriteError,
    {
        match db_insert(&mut self.db, key, value) {
            Ok(previous) => match db_flush(&self.db) {
                Ok(_) => Ok(previous),
                Err(_) => Err(StoreError::StoreWriteError),
            },
            Err(_) => Err(StoreError::StoreWriteError),
        }
    }

    /// The value stored under `key`, or `None` if it was never written.
    pub fn get(&self, key: &[u8]) -> (r: Result<Option<Vec<u8>>, StoreError>)
        ensures
            r matches Ok(Some(v)) ==> self@.contains_key(key@) && v@ == self@[key@],
            r matches Ok(None) ==> !self@.contains_key(key@),
            r matches Err(e) ==> e == StoreError::StoreReadError,
    {
        match db_get(&self.db, key) {
            Ok(v) => Ok(v),
            Err(_) => Err(StoreError::StoreReadError),
        }
    }
}

} // verus!
