//! The store: one mapping from text keys to byte values, with an explicit
//! terminal state for a store that can no longer be trusted.
//!
//! Exclusive access while writing and a consistent snapshot while reading are
//! those of the borrow rules: every operation that changes the mapping takes
//! `&mut self`, every operation that only reads it takes `&self`.

use vstd::hash_map::StringHashMap;
use vstd::prelude::*;

verus! {

/// Why a store operation gave no value.
#[derive(Clone, Copy, Debug, PartialEq, Eq, Structural)]
pub enum StoreError {
    /// The key holds no value.
    NotFound,
    /// The store was marked unusable; no operation on it succeeds any more.
    Corrupted,
}

/// What a store is, mathematically: its entries, and whether it is unusable.
pub struct StoreView {
    pub entries: Map<Seq<char>, Seq<u8>>,
    pub corrupted: bool,
}

impl StoreView {
    /// The usable store without entries.
    pub open spec fn empty() -> StoreView {
        StoreView { entries: Map::empty(), corrupted: false }
    }

    /// Whether a usable store holds a value at `key`.
    pub open spec fn holds(self, key: Seq<char>) -> bool {
        !self.corrupted && self.entries.contains_key(key)
    }

    /// The outcome of reading `key`.
    pub open spec fn get(self, key: Seq<char>) -> Result<Seq<u8>, StoreError> {
        if self.corrupted {
            Err(StoreError::Corrupted)
        } else if self.entries.contains_key(key) {
            Ok(self.entries[key])
        } else {
            Err(StoreError::NotFound)
        }
    }

    /// The store after writing `value` at `key`. An unusable store stays as it is.
    pub open spec fn put(self, key: Seq<char>, value: Seq<u8>) -> StoreView {
        if self.corrupted {
            self
        } else {
            StoreView { entries: self.entries.insert(key, value), corrupted: false }
        }
    }

    /// The store after removing `key`. An unusable store stays as it is.
    pub open spec fn delete(self, key: Seq<char>) -> StoreView {
        if self.corrupted {
            self
        } else {
            StoreView { entries: self.entries.remove(key), corrupted: false }
        }
    }

    /// The store after removing every key. An unusable store stays as it is.
    pub open spec fn clear(self) -> StoreView {
        if self.corrupted {
            self
        } else {
            StoreView::empty()
        }
    }

    /// The store after it was marked unusable. Its entries are kept, out of reach.
    pub open spec fn poison(self) -> StoreView {
        StoreView { entries: self.entries, corrupted: true }
    }

    /// What a write, a removal or a wipe reports: failure exactly on an unusable store.
    pub open spec fn write_outcome(self) -> Result<(), StoreError> {
        if self.corrupted {
            Err(StoreError::Corrupted)
        } else {
            Ok(())
        }
    }
}

/// The view of what a read returned.
pub open spec fn read_view(r: Result<Vec<u8>, StoreError>) -> Result<Seq<u8>, StoreError> {
    match r {
        Ok(bytes) => Ok(bytes@),
        Err(e) => Err(e),
    }
}

/// The shared state of the service: the key-value mapping.
pub struct AppState {
    db: StringHashMap<Vec<u8>>,
    corrupted: bool,
}

impl View for AppState {
    type V = StoreView;

    closed spec fn view(&self) -> StoreView {
        StoreView {
            entries: Map::new(
                |k: Seq<char>| self.db@.contains_key(k),
                |k: Seq<char>| self.db@[k]@,
            ),
            corrupted: self.corrupted,
        }
    }
}

impl AppState {
    /// A usable store without entries.
    pub fn new() -> (s: Self)
        ensures
            s@ == StoreView::empty(),
    {
        let s = AppState { db: StringHashMap::new(), corrupted: false };
        assert(s@.entries =~= Map::<Seq<char>, Seq<u8>>::empty());
        s
    }

    /// Reads the value at `key`: a copy of its bytes, `NotFound` where the key
    /// holds none, `Corrupted` where the store is unusable.
    pub fn get(&self, key: &str) -> (r: Result<Vec<u8>, StoreError>)
        ensures
            read_view(r) == self@.get(key@),
    {
        if self.corrupted {
            return Err(StoreError::Corrupted);
        }
        match self.db.get(key) {
            Some(bytes) => {
                let copy = bytes.clone();
                assert(copy@ =~= bytes@);
                Ok(copy)
            },
            None => Err(StoreError::NotFound),
        }
    }

    /// Writes `value` at `key`, replacing what the key held. Fails, and changes
    /// nothing, exactly where the store is unusable.
    pub fn put(&mut self, key: String, value: Vec<u8>) -> (r: Result<(), StoreError>)
        ensures
            final(self)@ == old(self)@.put(key@, value@),
            r == old(self)@.write_outcome(),
    {
        if self.corrupted {
            return Err(StoreError::Corrupted);
        }
        let ghost before = self@;
        let ghost k = key@;
        let ghost v = value@;
        self.db.insert(key, value);
        assert(self@.entries =~= before.entries.insert(k, v));
        Ok(())
    }

    /// Removes `key`; a key that holds nothing is no error. Fails, and changes
    /// nothing, exactly where the store is unusable.
    pub fn delete(&mut self, key: &str) -> (r: Result<(), StoreError>)
        ensures
            final(self)@ == old(self)@.delete(key@),
            r == old(self)@.write_outcome(),
    {
        if self.corrupted {
            return Err(StoreError::Corrupted);
        }
        let ghost before = self@;
        self.db.remove(key);
        assert(self@.entries =~= before.entries.remove(key@));
        Ok(())
    }

    /// Removes every key. Fails, and changes nothing, exactly where the store
    /// is unusable.
    pub fn clear(&mut self) -> (r: Result<(), StoreError>)
        ensures
            final(self)@ == old(self)@.clear(),
            r == old(self)@.write_outcome(),
    {
        if self.corrupted {
            return Err(StoreError::Corrupted);
        }
        self.db.clear();
        assert(self@.entries =~= Map::<Seq<char>, Seq<u8>>::empty());
        Ok(())
    }

    /// Marks the store unusable, for good: the server calls this when it finds
    /// the lock around the store poisoned.
    pub fn poison(&mut self)
        ensures
            final(self)@ == old(self)@.poison(),
    {
        self.corrupted = true;
        assert(self@.entries =~= old(self)@.entries);
    }

    /// Whether the store was marked unusable.
    pub fn is_corrupted(&self) -> (b: bool)
        ensures
            b == self@.corrupted,
    {
        self.corrupted
    }
}

impl Default for AppState {
    fn default() -> (s: Self)
        ensures
            s@ == StoreView::empty(),
    {
        AppState::new()
    }
}

} // verus!
