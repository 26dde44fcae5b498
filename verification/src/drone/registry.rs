//! The registry: one record for each drone, found by the text that names the
//! drone's source (the Bluetooth device, or the identifier the drone sends).

use super::entity::{Drone, DroneError, DroneView};
use crate::odid::entity::{OdidMessage, OdidMessageView};
use crate::web::drone_dto::{DroneDto, DroneDtoView};
use vstd::prelude::*;

verus! {

/// One record with the key it is filed under.
#[derive(Debug)]
pub struct RegistryEntry {
    pub key: String,
    pub drone: Drone,
}

/// The records of all drones heard so far. No key is held twice.
///
/// The entries stand in a vector and are found by comparing keys one by one:
/// the drones in range of one station are few, a record is changed where it
/// stands, and the contracts need nothing of a hasher.
#[derive(Debug)]
pub struct DroneRegistry {
    entries: Vec<RegistryEntry>,
}

/// What the store is to be asked after a merge.
#[derive(Debug)]
pub enum StoreAction {
    /// The record is not complete, or there is nothing new to tell: no call.
    Nothing,
    /// The record is complete and not in the store yet: insert it.
    Insert(DroneDto),
    /// The record is complete and in the store: write it anew.
    Update(DroneDto),
}

/// A `StoreAction` over the view of its record.
pub enum StoreActionView {
    Nothing,
    Insert(DroneDtoView),
    Update(DroneDtoView),
}

impl View for StoreAction {
    type V = StoreActionView;

    open spec fn view(&self) -> StoreActionView {
        match self {
            StoreAction::Nothing => StoreActionView::Nothing,
            StoreAction::Insert(dto) => StoreActionView::Insert(dto@),
            StoreAction::Update(dto) => StoreActionView::Update(dto@),
        }
    }
}

/// What the store is to be asked for one record: nothing while the record
/// cannot be published, an insert while it is not in the store, an update
/// once it is and `update_wanted` holds.
pub open spec fn store_action_for(record: DroneView, update_wanted: bool) -> StoreActionView {
    if !record.publishable() {
        StoreActionView::Nothing
    } else if !record.in_store {
        StoreActionView::Insert(record.published())
    } else if update_wanted {
        StoreActionView::Update(record.published())
    } else {
        StoreActionView::Nothing
    }
}

/// What the store is to be asked for the record filed under `key`; nothing
/// where no record is filed there.
pub open spec fn store_action_at(
    records: Map<Seq<char>, DroneView>,
    key: Seq<char>,
    update_wanted: bool,
) -> StoreActionView {
    if records.contains_key(key) {
        store_action_for(records[key], update_wanted)
    } else {
        StoreActionView::Nothing
    }
}

/// A well-formed record can be published exactly when it is complete.
pub proof fn lemma_complete_records_are_publishable(record: DroneView)
    requires
        record.wf(),
    ensures
        record.publishable() <==> record.payload_ready(),
{
}

/// The views of the messages of `messages`, in their order.
pub open spec fn messages_view(messages: Seq<OdidMessage>) -> Seq<OdidMessageView> {
    Seq::new(messages.len(), |i: int| messages[i]@)
}

/// The record filed under `key`, or an empty one where there is none.
pub open spec fn record_or_empty(records: Map<Seq<char>, DroneView>, key: Seq<char>) -> DroneView {
    if records.contains_key(key) {
        records[key]
    } else {
        DroneView::empty()
    }
}

impl DroneRegistry {
    /// No key is held twice.
    pub closed spec fn wf(&self) -> bool {
        forall|i: int, j: int|
            0 <= i < j < self.entries@.len() ==> self.entries@[i].key@ != self.entries@[j].key@
    }

    /// Whether some entry is filed under `key`.
    spec fn holds(&self, key: Seq<char>) -> bool {
        exists|i: int| 0 <= i < self.entries@.len() && #[trigger] self.entries@[i].key@ == key
    }

    /// The place of an entry that is filed under `key`.
    spec fn place_of(&self, key: Seq<char>) -> int {
        choose|i: int| 0 <= i < self.entries@.len() && #[trigger] self.entries@[i].key@ == key
    }

    /// The registry as a map from keys to records.
    pub closed spec fn view(&self) -> Map<Seq<char>, DroneView> {
        Map::new(
            |key: Seq<char>| self.holds(key),
            |key: Seq<char>| self.entries@[self.place_of(key)].drone@,
        )
    }

    /// The keys of the entries, in the order of the entries.
    spec fn keys(&self) -> Seq<Seq<char>> {
        Seq::new(self.entries@.len(), |i: int| self.entries@[i].key@)
    }

    /// The registry holds as many records as it has entries.
    proof fn lemma_count(&self)
        requires
            self.wf(),
        ensures
            self@.dom().finite(),
            self@.dom().len() == self.entries@.len(),
    {
        let keys = self.keys();
        assert(keys.no_duplicates());
        keys.unique_seq_to_set();
        assert(keys.to_set() =~= self@.dom()) by {
            assert forall|k: Seq<char>| keys.to_set().contains(k) <==> self@.dom().contains(k) by {
                if keys.contains(k) {
                    let i = choose|i: int| 0 <= i < keys.len() && keys[i] == k;
                    assert(self.entries@[i].key@ == k);
                    assert(self.holds(k));
                }
                if self.holds(k) {
                    let i = self.place_of(k);
                    assert(keys[i] == k);
                    assert(keys.contains(k));
                }
            }
        }
    }

    /// The entry at place `i` is the one that the map holds under its key.
    proof fn lemma_entry_in_view(&self, i: int)
        requires
            self.wf(),
            0 <= i < self.entries@.len(),
        ensures
            self@.contains_key(self.entries@[i].key@),
            self@[self.entries@[i].key@] == self.entries@[i].drone@,
            self.place_of(self.entries@[i].key@) == i,
    {
        let key = self.entries@[i].key@;
        assert(self.holds(key));
        let j = self.place_of(key);
        assert(0 <= j < self.entries@.len() && self.entries@[j].key@ == key);
        if j < i {
            assert(self.entries@[j].key@ != self.entries@[i].key@);
        } else if i < j {
            assert(self.entries@[i].key@ != self.entries@[j].key@);
        }
    }

    /// A registry without records.
    pub fn new() -> (r: DroneRegistry)
        ensures
            r.wf(),
            r@ == Map::<Seq<char>, DroneView>::empty(),
    {
        let r = DroneRegistry { entries: Vec::new() };
        assert(r@ =~= Map::<Seq<char>, DroneView>::empty());
        r
    }

    /// How many records the registry holds.
    pub fn len(&self) -> (n: usize)
        requires
            self.wf(),
        ensures
            self@.dom().finite(),
            n == self@.dom().len(),
    {
        proof {
            self.lemma_count();
        }
        self.entries.len()
    }

    /// The place of the entry filed under `key`, if there is one.
    fn position(&self, key: &String) -> (r: Option<usize>)
        requires
            self.wf(),
        ensures
            match r {
                Some(i) => i < self.entries@.len() && self.entries@[i as int].key@ == key@
                    && self@.contains_key(key@) && self@[key@] == self.entries@[i as int].drone@,
                None => !self@.contains_key(key@) && forall|i: int|
                    0 <= i < self.entries@.len() ==> self.entries@[i].key@ != key@,
            },
    {
        let mut i: usize = 0;
        while i < self.entries.len()
            invariant
                i <= self.entries@.len(),
                self.wf(),
                forall|k: int| 0 <= k < i ==> self.entries@[k].key@ != key@,
            decreases self.entries@.len() - i,
        {
            if self.entries[i].key == *key {
                proof {
                    self.lemma_entry_in_view(i as int);
                }
                return Some(i);
            }
            i = i + 1;
        }
        assert(!self.holds(key@));
        None
    }

    /// Whether a record is filed under `key`.
    pub fn contains_key(&self, key: &str) -> (r: bool)
        requires
            self.wf(),
        ensures
            r == self@.contains_key(key@),
    {
        let owned = key.to_owned();
        self.position(&owned).is_some()
    }

    /// The record filed under `key`.
    pub fn get(&self, key: &str) -> (r: Option<&Drone>)
        requires
            self.wf(),
        ensures
            r is Some <==> self@.contains_key(key@),
            r matches Some(drone) ==> drone@ == self@[key@],
    {
        let owned = key.to_owned();
        match self.position(&owned) {
            Some(i) => Some(&self.entries[i].drone),
            None => None,
        }
    }

    /// Files `drone` under `key`, in place of the record that was there.
    pub fn insert(&mut self, key: String, drone: Drone)
        requires
            old(self).wf(),
        ensures
            final(self).wf(),
            final(self)@ == old(self)@.insert(key@, drone@),
    {
        match self.position(&key) {
            Some(i) => {
                let ghost before = *self;
                let entry = &mut self.entries[i];
                entry.drone = drone;
                proof {
                    self.lemma_replaced(before, i as int);
                }
            },
            None => {
                let ghost before = *self;
                self.entries.push(RegistryEntry { key, drone });
                proof {
                    self.lemma_appended(before);
                }
            },
        }
    }

    /// A registry that differs from `before` in the record at place `i` only
    /// is `before` with that record filed anew under its key.
    proof fn lemma_replaced(&self, before: DroneRegistry, i: int)
        requires
            before.wf(),
            0 <= i < before.entries@.len(),
            self.entries@.len() == before.entries@.len(),
            forall|k: int|
                0 <= k < before.entries@.len() ==> self.entries@[k].key@ == before.entries@[k].key@,
            forall|k: int|
                0 <= k < before.entries@.len() && k != i ==> self.entries@[k].drone@
                    == before.entries@[k].drone@,
        ensures
            self.wf(),
            self@ == before@.insert(before.entries@[i].key@, self.entries@[i].drone@),
    {
        let key = before.entries@[i].key@;
        let expected = before@.insert(key, self.entries@[i].drone@);
        assert(self.wf()) by {
            assert forall|a: int, b: int| 0 <= a < b < self.entries@.len() implies self.entries@[a].key@
                != self.entries@[b].key@ by {
                assert(before.entries@[a].key@ != before.entries@[b].key@);
            }
        }
        assert forall|k: Seq<char>| self@.contains_key(k) <==> expected.contains_key(k) by {
            if self.holds(k) {
                let j = self.place_of(k);
                assert(before.entries@[j].key@ == k);
                assert(before.holds(k));
            }
            if before.holds(k) {
                let j = before.place_of(k);
                assert(self.entries@[j].key@ == k);
                assert(self.holds(k));
            }
            if k == key {
                assert(self.entries@[i].key@ == k);
                assert(self.holds(k));
            }
        }
        assert forall|k: Seq<char>| self@.contains_key(k) implies self@[k] == expected[k] by {
            let j = self.place_of(k);
            self.lemma_entry_in_view(j);
            before.lemma_entry_in_view(j);
            if j == i {
            } else {
                assert(k != key) by {
                    if j < i {
                        assert(before.entries@[j].key@ != before.entries@[i].key@);
                    } else {
                        assert(before.entries@[i].key@ != before.entries@[j].key@);
                    }
                }
            }
        }
        assert(self@ =~= expected);
    }

    /// A registry that is `before` with one entry more, under a key that
    /// `before` does not hold, is `before` with that entry filed.
    proof fn lemma_appended(&self, before: DroneRegistry)
        requires
            before.wf(),
            self.entries@.len() == before.entries@.len() + 1,
            forall|k: int| 0 <= k < before.entries@.len() ==> self.entries@[k] == before.entries@[k],
            forall|k: int|
                0 <= k < before.entries@.len() ==> before.entries@[k].key@ != self.entries@.last().key@,
        ensures
            self.wf(),
            self@ == before@.insert(self.entries@.last().key@, self.entries@.last().drone@),
    {
        let n = before.entries@.len() as int;
        let key = self.entries@[n].key@;
        let expected = before@.insert(key, self.entries@[n].drone@);
        assert(self.wf()) by {
            assert forall|a: int, b: int| 0 <= a < b < self.entries@.len() implies self.entries@[a].key@
                != self.entries@[b].key@ by {
                if b < n {
                    assert(before.entries@[a].key@ != before.entries@[b].key@);
                }
            }
        }
        assert forall|k: Seq<char>| self@.contains_key(k) <==> expected.contains_key(k) by {
            if self.holds(k) {
                let j = self.place_of(k);
                if j < n {
                    assert(before.entries@[j].key@ == k);
                    assert(before.holds(k));
                }
            }
            if before.holds(k) {
                let j = before.place_of(k);
                assert(self.entries@[j].key@ == k);
                assert(self.holds(k));
            }
            if k == key {
                assert(self.entries@[n].key@ == k);
                assert(self.holds(k));
            }
        }
        assert forall|k: Seq<char>| self@.contains_key(k) implies self@[k] == expected[k] by {
            let j = self.place_of(k);
            self.lemma_entry_in_view(j);
            if j < n {
                before.lemma_entry_in_view(j);
            }
        }
        assert(self@ =~= expected);
    }

    /// The place of the record filed under `key`; an empty record is filed
    /// first where there is none.
    fn place_for(&mut self, key: &String) -> (i: usize)
        requires
            old(self).wf(),
        ensures
            final(self).wf(),
            i < final(self).entries@.len(),
            final(self).entries@[i as int].key@ == key@,
            final(self).entries@[i as int].drone@ == record_or_empty(old(self)@, key@),
            final(self)@ == old(self)@.insert(key@, record_or_empty(old(self)@, key@)),
    {
        match self.position(key) {
            Some(i) => {
                assert(self@ =~= self@.insert(key@, self@[key@]));
                i
            },
            None => {
                let ghost before = *self;
                let drone = Drone::default();
                self.entries.push(RegistryEntry { key: key.clone(), drone });
                proof {
                    self.lemma_appended(before);
                }
                self.entries.len() - 1
            },
        }
    }

    /// Merges one decoded message into the record filed under `key`. Where
    /// there is no such record, an empty one is filed first.
    pub fn apply(&mut self, key: &str, message: &OdidMessage)
        requires
            old(self).wf(),
        ensures
            final(self).wf(),
            final(self)@ == old(self)@.insert(
                key@,
                record_or_empty(old(self)@, key@).with_message(message@),
            ),
    {
        let owned = key.to_owned();
        let i = self.place_for(&owned);
        let ghost before = *self;
        let entry = &mut self.entries[i];
        entry.drone.apply(message);
        proof {
            self.lemma_replaced(before, i as int);
            assert(self@ =~= old(self)@.insert(
                key@,
                record_or_empty(old(self)@, key@).with_message(message@),
            ));
        }
    }

    /// Merges decoded messages, in their order, into the record filed under
    /// `key`. Where there is no such record, an empty one is filed first.
    pub fn apply_all(&mut self, key: &str, messages: &Vec<OdidMessage>)
        requires
            old(self).wf(),
        ensures
            final(self).wf(),
            final(self)@ == old(self)@.insert(
                key@,
                record_or_empty(old(self)@, key@).with_messages(messages_view(messages@)),
            ),
    {
        let owned = key.to_owned();
        let i = self.place_for(&owned);
        let ghost filed = *self;
        let ghost start = record_or_empty(old(self)@, key@);
        let ghost all = messages_view(messages@);
        let mut done: usize = 0;
        proof {
            assert(all.subrange(0, 0) =~= Seq::<OdidMessageView>::empty());
        }
        while done < messages.len()
            invariant
                self.wf(),
                filed.wf(),
                i < self.entries@.len(),
                self.entries@.len() == filed.entries@.len(),
                forall|k: int|
                    0 <= k < filed.entries@.len() ==> self.entries@[k].key@ == filed.entries@[k].key@,
                forall|k: int|
                    0 <= k < filed.entries@.len() && k != i ==> self.entries@[k].drone@
                        == filed.entries@[k].drone@,
                done <= messages@.len(),
                all == messages_view(messages@),
                self.entries@[i as int].drone@ == start.with_messages(all.subrange(0, done as int)),
            decreases messages@.len() - done,
        {
            let ghost before = *self;
            let ghost taken = all.subrange(0, done as int);
            let entry = &mut self.entries[i];
            entry.drone.apply(&messages[done]);
            proof {
                self.lemma_replaced(before, i as int);
                let longer = all.subrange(0, done + 1);
                assert(longer.drop_last() =~= taken);
                assert(longer.last() == messages@[done as int]@);
            }
            done = done + 1;
        }
        proof {
            assert(all.subrange(0, done as int) =~= all);
            self.lemma_replaced(filed, i as int);
            assert(self@ =~= old(self)@.insert(key@, start.with_messages(all)));
        }
    }

    /// Marks the record filed under `key` as stored under `id`. A key without
    /// a record is `None`; else the answer is that of the record's own
    /// `mark_stored`.
    pub fn mark_stored(&mut self, key: &str, id: i64) -> (r: Option<Result<(), DroneError>>)
        requires
            old(self).wf(),
        ensures
            final(self).wf(),
            r is Some <==> old(self)@.contains_key(key@),
            r matches Some(answer) ==> answer == old(self)@[key@].mark_stored_result(id)
                && final(self)@ == old(self)@.insert(key@, old(self)@[key@].after_mark_stored(id)),
            r is None ==> final(self)@ == old(self)@,
    {
        let owned = key.to_owned();
        match self.position(&owned) {
            Some(i) => {
                let ghost before = *self;
                let entry = &mut self.entries[i];
                let answer = entry.drone.mark_stored(id);
                proof {
                    self.lemma_replaced(before, i as int);
                }
                Some(answer)
            },
            None => None,
        }
    }

    /// Decides what the store is to be asked for the record filed under
    /// `key`: an insert for a complete record that is not stored, an update
    /// for a complete record that is stored if `update_wanted` holds, and
    /// nothing else.
    pub fn store_action(&self, key: &str, update_wanted: bool) -> (action: StoreAction)
        requires
            self.wf(),
        ensures
            action@ == store_action_at(self@, key@, update_wanted),
    {
        match self.get(key) {
            Some(drone) => {
                match DroneDto::from_drone(drone) {
                    Some(dto) => {
                        if !drone.in_store {
                            StoreAction::Insert(dto)
                        } else if update_wanted {
                            StoreAction::Update(dto)
                        } else {
                            StoreAction::Nothing
                        }
                    },
                    None => StoreAction::Nothing,
                }
            },
            None => StoreAction::Nothing,
        }
    }

    /// The published form of the record filed under `key`, if there is such a
    /// record and it can be published.
    pub fn snapshot(&self, key: &str) -> (r: Option<DroneDto>)
        requires
            self.wf(),
        ensures
            r is Some <==> (self@.contains_key(key@) && self@[key@].publishable()),
            r matches Some(dto) ==> dto@ == self@[key@].published(),
    {
        match self.get(key) {
            Some(drone) => DroneDto::from_drone(drone),
            None => None,
        }
    }
}

} // verus!
