use crate::errors::Error;
use crate::lock::acquire;
use std::collections::HashMap;
use std::hash::Hash;
use std::sync::{Mutex, MutexGuard};
use vstd::prelude::*;
use vstd::pervasive::strictly_cloned;
use vstd::std_specs::hash::obeys_key_model;

verus! {

/// Key types on which the store's contracts speak: their `Eq` and `Hash`
/// agree with spec equality (vstd's hash-table key model, which holds of the
/// primitive types), and `clone` hands back an equal key.
pub open spec fn lawful_key<K: Clone>() -> bool {
    &&& obeys_key_model::<K>()
    &&& forall|a: K, b: K| #[trigger] strictly_cloned(a, b) ==> a == b
}

/// What a read of key `k` gives on a store whose entries are `m`.
pub open spec fn lookup<K, V>(m: Map<K, V>, k: K) -> Result<V, Error> {
    if m.contains_key(k) {
        Ok(m[k])
    } else {
        Err(Error::ItemDoesNotExist)
    }
}

/// A key-value store whose entries are only touched while its lock is held.
///
/// The map sits beside the lock rather than inside it, so that its entries
/// stay visible to the contracts; `get_item` and `set_item` each take the
/// lock and keep its guard alive for the whole map access.
///
/// # Example Usage
///
/// ```
/// use minmus::DataStore;
///
/// // A store whose keys are `&str` and whose values are `i32`.
/// let new_ds = DataStore::<&str, i32>::new();
/// ```
pub struct DataStore<K, V> {
    lock: Mutex<()>,
    data: HashMap<K, V>,
}

impl<K, V> View for DataStore<K, V> {
    type V = Map<K, V>;

    /// The entries of the store, key to value.
    closed spec fn view(&self) -> Map<K, V> {
        self.data@
    }
}

impl<K, V> DataStore<K, V> where V: Clone + Copy, K: Clone + Eq + Hash {
    /// Create an empty data store.
    pub fn new() -> (s: Self)
        ensures
            s@ == Map::<K, V>::empty(),
            s@.dom().finite(),
    {
        DataStore { lock: Mutex::new(()), data: HashMap::new() }
    }

    /// What `set_item` does once its lock attempt has come back: with the
    /// lock held (`held` is `Some`), the entry of `key` becomes `value`, and
    /// the lock is released on return; without it, nothing is written.
    fn set_with_lock(
        data: &mut HashMap<K, V>,
        held: Option<MutexGuard<'_, ()>>,
        key: &K,
        value: &V,
    ) -> (r: Option<Error>)
        ensures
            r is None <==> held is Some,
            r is None || r == Some(Error::UnableToObtainLock),
            r is None ==> (lawful_key::<K>() ==> final(data)@ == old(data)@.insert(*key, *value)),
            r is Some ==> final(data)@ == old(data)@,
    {
        match held {
            Some(_guard) => {
                let k = key.clone();
                assert(strictly_cloned(*key, k));
                data.insert(k, *value);
                None
            },
            None => Some(Error::UnableToObtainLock),
        }
    }

    /// What `get_item` does once its lock attempt has come back: with the
    /// lock held (`held` is `Some`), a copy of the value stored under `key`
    /// or `ItemDoesNotExist`; without it, `UnableToObtainLock`.
    fn get_with_lock(data: &HashMap<K, V>, held: Option<MutexGuard<'_, ()>>, key: &K) -> (r:
        Result<V, Error>)
        ensures
            held is None ==> r == Err::<V, Error>(Error::UnableToObtainLock),
            held is Some ==> r is Ok || r == Err::<V, Error>(Error::ItemDoesNotExist),
            held is Some ==> (lawful_key::<K>() ==> r == lookup(data@, *key)),
    {
        match held {
            Some(_guard) => match data.get(key) {
                Some(value) => Ok(*value),
                None => Err(Error::ItemDoesNotExist),
            },
            None => Err(Error::UnableToObtainLock),
        }
    }

    /// Get an item from the data store.
    ///
    /// Holds the lock while it looks `key` up. `Ok` carries a copy of the
    /// stored value; otherwise either the item did not exist or the lock
    /// could not be obtained. The entries are left as they were.
    pub fn get_item(&mut self, key: &K) -> (r: Result<V, Error>)
        ensures
            final(self)@ == old(self)@,
            final(self)@.dom().finite(),
            r != Err::<V, Error>(Error::UnableToObtainLock) ==> (lawful_key::<K>() ==> r == lookup(
                old(self)@,
                *key,
            )),
    {
        let held = acquire(&mut self.lock);
        Self::get_with_lock(&self.data, held, key)
    }

    /// Set the value of an item.
    ///
    /// Holds the lock while the entry of `key` becomes `value`. `None` means
    /// the entry was written; `Some(UnableToObtainLock)` means the lock could
    /// not be obtained and the entries are left as they were.
    pub fn set_item(&mut self, key: &K, value: &V) -> (r: Option<Error>)
        ensures
            r is None || r == Some(Error::UnableToObtainLock),
            r is None ==> (lawful_key::<K>() ==> final(self)@ == old(self)@.insert(*key, *value)),
            r is Some ==> final(self)@ == old(self)@,
            final(self)@.dom().finite(),
    {
        let held = acquire(&mut self.lock);
        Self::set_with_lock(&mut self.data, held, key, value)
    }
}

} // verus!
