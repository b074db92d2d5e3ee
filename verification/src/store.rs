//! The record store: at most one record at each address, created once, read
//! and updated in place, never removed.

use vstd::prelude::*;
use crate::address::Address;
use crate::error::ErrorCode;
use crate::state::{Record, RecordView};

verus! {

/// A record and the address at which it lives.
struct Entry {
    address: Address,
    record: Record,
}

/// A store of records keyed by address. Its view is the map from the addresses
/// in use to the records that live there.
pub struct RecordStore {
    /// The records in order of creation. No address occurs twice.
    entries: Vec<Entry>,
}

impl View for RecordStore {
    type V = Map<Seq<u8>, RecordView>;

    closed spec fn view(&self) -> Map<Seq<u8>, RecordView> {
        Map::new(
            |address: Seq<u8>| self.holds(address),
            |address: Seq<u8>| self.entries[self.position(address)].record@,
        )
    }
}

impl RecordStore {
    /// What holds of every store: one entry for each address in use.
    #[verifier::type_invariant]
    spec fn well_formed(self) -> bool {
        &&& self.distinct()
        &&& self@.dom().finite()
        &&& self@.dom().len() == self.entries.len()
    }

    /// No address occurs twice.
    spec fn distinct(self) -> bool {
        forall|i: int, j: int|
            0 <= i < j < self.entries.len() ==> (#[trigger] self.entries[i]).address@ != (
            #[trigger] self.entries[j]).address@
    }

    /// Some entry lives at the address.
    spec fn holds(self, address: Seq<u8>) -> bool {
        exists|i: int| 0 <= i < self.entries.len() && (#[trigger] self.entries[i]).address@ == address
    }

    /// The index of an entry that lives at the address.
    spec fn position(self, address: Seq<u8>) -> int {
        choose|i: int| 0 <= i < self.entries.len() && (#[trigger] self.entries[i]).address@ == address
    }

    /// The entry at index `i` is what the view shows at its address.
    proof fn lemma_entry_is_viewed(self, i: int)
        requires
            self.distinct(),
            0 <= i < self.entries.len(),
        ensures
            self@.contains_key(self.entries[i].address@),
            self@[self.entries[i].address@] == self.entries[i].record@,
    {
        // the position chosen for this address is `i`: no other entry has it
        assert(self.position(self.entries[i].address@) == i);
    }

    /// A store without entries is well formed, and its view is the empty map.
    proof fn lemma_empty(self)
        requires
            self.entries.len() == 0,
        ensures
            self.well_formed(),
            self@ == Map::<Seq<u8>, RecordView>::empty(),
    {
    }

    /// A store with one more entry, at a free address, is well formed, and its
    /// view has the record inserted at that address.
    proof fn lemma_pushed(self, later: RecordStore, entry: Entry)
        requires
            self.well_formed(),
            !self.holds(entry.address@),
            later.entries@ == self.entries@.push(entry),
        ensures
            later.well_formed(),
            later@ == self@.insert(entry.address@, entry.record@),
    {
        let address = entry.address@;
        let last = self.entries.len() as int;
        assert forall|a: Seq<u8>| #[trigger]
            later@.contains_key(a) == self@.insert(address, entry.record@).contains_key(a) by {
            if self.holds(a) {
                assert(later.entries[self.position(a)].address@ == a);
            }
            if a == address {
                assert(later.entries[last].address@ == a);
            }
        }
        assert forall|a: Seq<u8>| #[trigger] later@.contains_key(a) implies later@[a] == self@.insert(
            address,
            entry.record@,
        )[a] by {
            let i = later.position(a);
            later.lemma_entry_is_viewed(i);
            if a != address {
                self.lemma_entry_is_viewed(i);
            } else {
                later.lemma_entry_is_viewed(last);
            }
        }
        assert(later@.dom() =~= self@.dom().insert(address));
    }

    /// A store with the entry at index `i` replaced by one at the same address
    /// is well formed, and its view has the record inserted at that address.
    proof fn lemma_replaced(self, later: RecordStore, i: int, entry: Entry)
        requires
            self.well_formed(),
            0 <= i < self.entries.len(),
            self.entries[i].address@ == entry.address@,
            later.entries@ == self.entries@.update(i, entry),
        ensures
            later.well_formed(),
            later@ == self@.insert(entry.address@, entry.record@),
    {
        let address = entry.address@;
        assert(forall|j: int|
            0 <= j < later.entries.len() ==> (#[trigger] later.entries[j]).address@
                == self.entries[j].address@);
        assert forall|a: Seq<u8>| #[trigger]
            later@.contains_key(a) == self@.insert(address, entry.record@).contains_key(a) by {
            if self.holds(a) {
                assert(later.entries[self.position(a)].address@ == a);
            }
        }
        assert forall|a: Seq<u8>| #[trigger] later@.contains_key(a) implies later@[a] == self@.insert(
            address,
            entry.record@,
        )[a] by {
            let p = later.position(a);
            later.lemma_entry_is_viewed(p);
            if a != address {
                self.lemma_entry_is_viewed(p);
            } else {
                later.lemma_entry_is_viewed(i);
            }
        }
        assert(later@.dom() =~= self@.dom());
    }

    /// An empty store.
    pub fn new() -> (store: RecordStore)
        ensures
            store@ == Map::<Seq<u8>, RecordView>::empty(),
    {
        let entries: Vec<Entry> = Vec::new();
        proof {
            (RecordStore { entries }).lemma_empty();
        }
        RecordStore { entries }
    }

    /// How many records the store holds.
    pub fn len(&self) -> (count: usize)
        ensures
            self@.dom().finite(),
            count == self@.dom().len(),
    {
        proof {
            use_type_invariant(self);
        }
        self.entries.len()
    }

    /// The index of the entry at the address, if there is one.
    fn find(&self, address: &Address) -> (found: Option<usize>)
        ensures
            match found {
                Some(i) => i < self.entries.len() && self.entries[i as int].address@ == address@,
                None => !self.holds(address@),
            },
    {
        let mut i: usize = 0;
        while i < self.entries.len()
            invariant
                i <= self.entries.len(),
                forall|j: int| 0 <= j < i ==> (#[trigger] self.entries[j]).address@ != address@,
            decreases self.entries.len() - i,
        {
            if self.entries[i].address == *address {
                return Some(i);
            }
            i += 1;
        }
        None
    }

    /// Whether a record lives at the address.
    pub fn contains(&self, address: &Address) -> (occupied: bool)
        ensures
            occupied == self@.contains_key(address@),
    {
        self.find(address).is_some()
    }

    /// Creates the record at the address, unless the address is taken: then the
    /// call fails with `RecordAlreadyExists` and the store stays as it was.
    pub fn create(&mut self, address: Address, record: Record) -> (outcome: Result<(), ErrorCode>)
        ensures
            old(self)@.contains_key(address@) ==> outcome == Err::<(), ErrorCode>(
                ErrorCode::RecordAlreadyExists,
            ) && final(self)@ == old(self)@,
            !old(self)@.contains_key(address@) ==> outcome is Ok && final(self)@ == old(self)@.insert(
                address@,
                record@,
            ),
    {
        proof {
            use_type_invariant(&*self);
        }
        if self.find(&address).is_some() {
            return Err(ErrorCode::RecordAlreadyExists);
        }
        let ghost before = *self;
        let entry = Entry { address, record };
        // the entries change outside the store, which is well formed whenever it is borrowed
        let mut entries: Vec<Entry> = Vec::new();
        proof {
            (RecordStore { entries }).lemma_empty();
        }
        core::mem::swap(&mut self.entries, &mut entries);
        entries.push(entry);
        proof {
            before.lemma_pushed(RecordStore { entries }, entry);
        }
        core::mem::swap(&mut self.entries, &mut entries);
        Ok(())
    }

    /// Reads the record at the address, or fails with `RecordNotFound` if none lives there.
    pub fn read(&self, address: &Address) -> (outcome: Result<Record, ErrorCode>)
        ensures
            match outcome {
                Ok(record) => self@.contains_key(address@) && record@ == self@[address@],
                Err(e) => !self@.contains_key(address@) && e == ErrorCode::RecordNotFound,
            },
    {
        proof {
            use_type_invariant(self);
        }
        match self.find(address) {
            Some(i) => {
                proof {
                    self.lemma_entry_is_viewed(i as int);
                }
                Ok(self.entries[i].record.clone())
            },
            None => Err(ErrorCode::RecordNotFound),
        }
    }

    /// Replaces the record at the address, or fails with `RecordNotFound` if
    /// none lives there: then the store stays as it was.
    pub fn update(&mut self, address: &Address, record: Record) -> (outcome: Result<(), ErrorCode>)
        ensures
            old(self)@.contains_key(address@) ==> outcome is Ok && final(self)@ == old(self)@.insert(
                address@,
                record@,
            ),
            !old(self)@.contains_key(address@) ==> outcome == Err::<(), ErrorCode>(
                ErrorCode::RecordNotFound,
            ) && final(self)@ == old(self)@,
    {
        proof {
            use_type_invariant(&*self);
        }
        let i = match self.find(address) {
            Some(i) => i,
            None => {
                return Err(ErrorCode::RecordNotFound);
            },
        };
        let ghost before = *self;
        let entry = Entry { address: *address, record };
        // the entries change outside the store, which is well formed whenever it is borrowed
        let mut entries: Vec<Entry> = Vec::new();
        proof {
            (RecordStore { entries }).lemma_empty();
        }
        core::mem::swap(&mut self.entries, &mut entries);
        entries.set(i, entry);
        proof {
            before.lemma_replaced(RecordStore { entries }, i as int, entry);
        }
        core::mem::swap(&mut self.entries, &mut entries);
        Ok(())
    }
}

} // verus!
