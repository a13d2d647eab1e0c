//! The store behind a reader-writer lock: many concurrent lookups proceed
//! side by side, a creation holds exclusive access for the single map access
//! it performs, and releasing the write lock is the visibility barrier that
//! makes a finished creation observable to every later lookup on any thread.

use vstd::prelude::*;
use vstd::rwlock::RwLock;
use vstd::rwlock::RwLockPredicate;

use crate::movie::Movie;
use crate::store::canonical_uuid;
use crate::store::MovieStore;
use crate::store::NotFound;

verus! {

/// What every value behind the lock satisfies: the store's own invariant.
pub struct StoreInv;

impl RwLockPredicate<MovieStore> for StoreInv {
    open spec fn inv(self, v: MovieStore) -> bool {
        v.wf()
    }
}

/// One store instance shared by all request handlers of a process: a handle
/// to it can be passed to any number of threads, each calling `create` and
/// `get` freely.
pub struct SharedStore {
    lock: RwLock<MovieStore, StoreInv>,
}

impl SharedStore {
    /// The shared store starts empty.
    pub fn new() -> (s: Self) {
        SharedStore { lock: RwLock::new(MovieStore::new(), Ghost(StoreInv)) }
    }

    /// Creates a record under exclusive access: what is returned was stored,
    /// with the caller's fields taken as-is and a generated identifier in
    /// canonical form that no stored record carried before. `None` only on an
    /// identifier collision, which the identifier scheme makes practically
    /// unreachable; the store is then unchanged.
    pub fn create(&self, name: String, year: u16, was_good: bool) -> (r: Option<Movie>)
        ensures
            r matches Some(m) ==> m@.name == name@ && m@.year == year && m@.was_good == was_good
                && canonical_uuid(m@.id),
    {
        let (mut store, handle) = self.lock.acquire_write();
        let r = store.create(name, year, was_good);
        handle.release_write(store);
        r
    }

    /// Looks the identifier up in the current snapshot, sharing access with
    /// other concurrent lookups: a copy of the record stored under it, which
    /// carries exactly that identifier, or `NotFound` when the snapshot has
    /// no record under it.
    pub fn get(&self, id: &String) -> (r: Result<Movie, NotFound>)
        ensures
            r matches Ok(m) ==> m@.id == id@,
    {
        let handle = self.lock.acquire_read();
        let r = handle.borrow().get(id);
        handle.release_read();
        r
    }
}

} // verus!
