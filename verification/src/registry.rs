//! The store of auction records: one record per auction identifier.
//!
//! Records are added and replaced, never removed: a closed auction stays on
//! file, and its identifier is not given out again.

use vstd::prelude::*;
use crate::key::AccountKey;
use crate::record::{Auction, AuctionRecord};

verus! {

/// A mapping from auction identifiers to auction records.
pub struct AuctionRegistry {
    records: Vec<Auction>,
}

impl View for AuctionRegistry {
    type V = Map<AccountKey, AuctionRecord>;

    closed spec fn view(&self) -> Map<AccountKey, AuctionRecord> {
        Map::new(
            |id: AccountKey| self.holds(id),
            |id: AccountKey| self.records[self.slot_of(id)]@,
        )
    }
}

impl AuctionRegistry {
    #[verifier::type_invariant]
    closed spec fn inv(self) -> bool {
        forall|i: int, j: int|
            0 <= i < j < self.records.len() ==> (#[trigger] self.records[i])@.id != (
            #[trigger] self.records[j])@.id
    }

    /// Whether some slot holds the record of `id`.
    closed spec fn holds(self, id: AccountKey) -> bool {
        exists|i: int| 0 <= i < self.records.len() && (#[trigger] self.records[i])@.id == id
    }

    /// A slot that holds the record of `id`, if one does.
    closed spec fn slot_of(self, id: AccountKey) -> int {
        choose|i: int| 0 <= i < self.records.len() && (#[trigger] self.records[i])@.id == id
    }

    /// A store without records.
    pub fn new() -> (r: AuctionRegistry)
        ensures
            r@ == Map::<AccountKey, AuctionRecord>::empty(),
    {
        let r = AuctionRegistry { records: Vec::new() };
        assert(r@ =~= Map::<AccountKey, AuctionRecord>::empty());
        r
    }

    /// Moves the records out, leaving the store empty for the moment.
    fn take_records(&mut self) -> (r: Vec<Auction>)
        ensures
            r == old(self).records,
    {
        let mut held = AuctionRegistry { records: Vec::new() };
        core::mem::swap(self, &mut held);
        held.records
    }

    /// The slot of the record of `id`, if the store has one.
    fn find(&self, id: AccountKey) -> (r: Option<usize>)
        ensures
            match r {
                Some(i) => i < self.records.len() && self.records[i as int]@.id == id
                    && self.holds(id) && self.slot_of(id) == i,
                None => !self.holds(id),
            },
    {
        proof {
            use_type_invariant(self);
        }
        let mut i: usize = 0;
        while i < self.records.len()
            invariant
                self.inv(),
                i <= self.records.len(),
                forall|j: int| 0 <= j < i ==> (#[trigger] self.records[j])@.id != id,
            decreases self.records.len() - i,
        {
            if self.records[i].record().id == id {
                proof {
                    assert(self.records[i as int]@.id == id);
                    let j = self.slot_of(id);
                    assert(self.records[j]@.id == id);
                }
                return Some(i);
            }
            i += 1;
        }
        None
    }

    /// The record stored under `id`, if there is one.
    pub fn get(&self, id: AccountKey) -> (r: Option<Auction>)
        ensures
            r is Some <==> self@.contains_key(id),
            r matches Some(a) ==> a@ == self@[id] && a@.id == id,
    {
        match self.find(id) {
            Some(i) => Some(self.records[i]),
            None => None,
        }
    }

    /// Stores the record of a new auction under its identifier. A record is
    /// already on file under that identifier exactly when the result is
    /// `false`, and then nothing changes.
    pub fn allocate(&mut self, auction: Auction) -> (r: bool)
        ensures
            r == !old(self)@.contains_key(auction@.id),
            r ==> final(self)@ == old(self)@.insert(auction@.id, auction@),
            !r ==> final(self)@ == old(self)@,
    {
        let id = auction.record().id;
        match self.find(id) {
            Some(_) => false,
            None => {
                proof {
                    use_type_invariant(&*self);
                }
                let ghost before = *self;
                let mut records = self.take_records();
                records.push(auction);
                *self = AuctionRegistry { records };
                proof {
                    let n = before.records.len() as int;
                    assert(self.records[n]@.id == id);
                    assert forall|k: AccountKey| self.holds(k) <==> (k == id || before.holds(
                        k,
                    )) by {
                        if before.holds(k) {
                            let i = before.slot_of(k);
                            assert(self.records[i] == before.records[i]);
                        }
                        if self.holds(k) && k != id {
                            let i = self.slot_of(k);
                            assert(before.records[i] == self.records[i]);
                        }
                    }
                    assert forall|k: AccountKey| self.holds(k) implies self.records[self.slot_of(
                        k,
                    )]@ == (if k == id {
                        auction@
                    } else {
                        before.records[before.slot_of(k)]@
                    }) by {
                        let i = self.slot_of(k);
                        if k != id {
                            assert(before.records[i] == self.records[i]);
                            let j = before.slot_of(k);
                            assert(self.records[j] == before.records[j]);
                        }
                    }
                    assert(self@ =~= before@.insert(id, auction@));
                }
                true
            },
        }
    }

    /// Replaces the record on file under the identifier of `auction`. No
    /// record is on file under that identifier exactly when the result is
    /// `false`, and then nothing changes.
    pub fn update(&mut self, auction: Auction) -> (r: bool)
        ensures
            r == old(self)@.contains_key(auction@.id),
            r ==> final(self)@ == old(self)@.insert(auction@.id, auction@),
            !r ==> final(self)@ == old(self)@,
    {
        let id = auction.record().id;
        match self.find(id) {
            None => false,
            Some(slot) => {
                proof {
                    use_type_invariant(&*self);
                }
                let ghost before = *self;
                let mut records = self.take_records();
                records[slot] = auction;
                *self = AuctionRegistry { records };
                proof {
                    assert forall|k: AccountKey| self.holds(k) <==> before.holds(k) by {
                        if before.holds(k) {
                            let i = before.slot_of(k);
                            assert(self.records[i]@.id == k);
                        }
                        if self.holds(k) {
                            let i = self.slot_of(k);
                            assert(before.records[i]@.id == k);
                        }
                    }
                    assert forall|k: AccountKey| self.holds(k) implies self.records[self.slot_of(
                        k,
                    )]@ == (if k == id {
                        auction@
                    } else {
                        before.records[before.slot_of(k)]@
                    }) by {
                        let i = self.slot_of(k);
                        let j = before.slot_of(k);
                        assert(before.records[i]@.id == k);
                        assert(self.records[j]@.id == k);
                    }
                    assert(self@ =~= before@.insert(id, auction@));
                }
                true
            },
        }
    }
}

} // verus!
