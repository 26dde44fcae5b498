//! The record that gathers what one drone has broadcast so far.

use crate::odid::entity::{
    BasicId, BasicIdView, Location, OdidMessage, OdidMessageView, Operator, OperatorView,
    SystemMessage,
};
use vstd::prelude::*;

verus! {

/// Why a record refused to be marked as stored.
#[derive(Debug, Clone, Copy, PartialEq, Eq, Structural)]
pub enum DroneError {
    /// The record is in the store already, under another id.
    AlreadyStored,
    /// The store hands out positive ids only.
    InvalidStoreId,
}

/// What is known of one drone. `location_history` holds every location that
/// `last_location` has replaced, and before them the first location once more,
/// as the point the drone was first seen at.
#[derive(Debug)]
pub struct Drone {
    pub in_store: bool,
    pub store_id: i64,
    pub basic_id: Option<BasicId>,
    pub last_location: Option<Location>,
    pub location_history: Vec<Location>,
    pub system_message: Option<SystemMessage>,
    pub operator: Option<Operator>,
}

/// A `Drone` as a mathematical value.
pub struct DroneView {
    pub in_store: bool,
    pub store_id: i64,
    pub basic_id: Option<BasicIdView>,
    pub last_location: Option<Location>,
    pub location_history: Seq<Location>,
    pub system_message: Option<SystemMessage>,
    pub operator: Option<OperatorView>,
}

/// The view of an optional value.
pub open spec fn view_of<T: View>(o: Option<T>) -> Option<T::V> {
    match o {
        Some(t) => Some(t@),
        None => None,
    }
}

impl DroneView {
    /// A record of a drone of which nothing is known yet.
    pub open spec fn empty() -> DroneView {
        DroneView {
            in_store: false,
            store_id: 0,
            basic_id: None,
            last_location: None,
            location_history: Seq::empty(),
            system_message: None,
            operator: None,
        }
    }

    /// A fresh record that starts from the given messages. A first location
    /// is also the first entry of the history.
    pub open spec fn new(
        basic_id: Option<BasicIdView>,
        last_location: Option<Location>,
        system_message: Option<SystemMessage>,
        operator: Option<OperatorView>,
    ) -> DroneView {
        DroneView {
            in_store: false,
            store_id: 0,
            basic_id,
            last_location,
            location_history: match last_location {
                Some(l) => seq![l],
                None => Seq::empty(),
            },
            system_message,
            operator,
        }
    }

    /// The record after a BasicId message.
    pub open spec fn with_basic_id(self, basic_id: BasicIdView) -> DroneView {
        DroneView { basic_id: Some(basic_id), ..self }
    }

    /// The record after a Location message: the location it replaces goes to
    /// the history, or, where it replaces none, the new location itself.
    pub open spec fn with_location(self, location: Location) -> DroneView {
        DroneView {
            last_location: Some(location),
            location_history: self.location_history.push(
                match self.last_location {
                    Some(previous) => previous,
                    None => location,
                },
            ),
            ..self
        }
    }

    /// The record after a System message.
    pub open spec fn with_system_message(self, system_message: SystemMessage) -> DroneView {
        DroneView { system_message: Some(system_message), ..self }
    }

    /// The record after an OperatorId message.
    pub open spec fn with_operator(self, operator: OperatorView) -> DroneView {
        DroneView { operator: Some(operator), ..self }
    }

    /// The record after any one message. Messages that the record has no
    /// place for leave it as it is.
    pub open spec fn with_message(self, message: OdidMessageView) -> DroneView {
        match message {
            OdidMessageView::BasicId(b) => self.with_basic_id(b),
            OdidMessageView::Location(l) => self.with_location(l),
            OdidMessageView::System(s) => self.with_system_message(s),
            OdidMessageView::OperatorId(o) => self.with_operator(o),
            _ => self,
        }
    }

    /// The record after the messages of `messages`, taken in their order.
    pub open spec fn with_messages(self, messages: Seq<OdidMessageView>) -> DroneView
        decreases messages.len(),
    {
        if messages.len() == 0 {
            self
        } else {
            self.with_messages(messages.drop_last()).with_message(messages.last())
        }
    }

    /// The record after the locations of `locations`, taken in their order.
    pub open spec fn with_locations(self, locations: Seq<Location>) -> DroneView
        decreases locations.len(),
    {
        if locations.len() == 0 {
            self
        } else {
            self.with_locations(locations.drop_last()).with_location(locations.last())
        }
    }

    /// A record is complete when it holds all four messages.
    pub open spec fn payload_ready(self) -> bool {
        self.basic_id is Some && self.last_location is Some && self.system_message is Some
            && self.operator is Some
    }

    /// How many of the four messages the record holds.
    pub open spec fn payload_progress(self) -> int {
        (if self.basic_id is Some {
            1int
        } else {
            0int
        }) + (if self.last_location is Some {
            1int
        } else {
            0int
        }) + (if self.system_message is Some {
            1int
        } else {
            0int
        }) + (if self.operator is Some {
            1int
        } else {
            0int
        })
    }

    /// What holds of every record that the operations of this module made:
    /// there is a history exactly when there is a location, and the record
    /// has a positive store id exactly when it is in the store; else the id
    /// is 0.
    pub open spec fn wf(self) -> bool {
        &&& (self.last_location is Some <==> self.location_history.len() > 0)
        &&& (self.in_store ==> self.store_id > 0)
        &&& (!self.in_store ==> self.store_id == 0)
    }

    /// Whether the store may be told of `id` for this record: the record is
    /// not stored yet and `id` is positive, or it is stored under `id` itself.
    pub open spec fn accepts_store_id(self, id: i64) -> bool {
        if self.in_store {
            id == self.store_id
        } else {
            id > 0
        }
    }

    /// The record once it is stored under `id`.
    pub open spec fn stored_as(self, id: i64) -> DroneView {
        DroneView { in_store: true, store_id: id, ..self }
    }

    /// What `mark_stored` answers for `id`.
    pub open spec fn mark_stored_result(self, id: i64) -> Result<(), DroneError> {
        if self.in_store {
            if id == self.store_id {
                Ok(())
            } else {
                Err(DroneError::AlreadyStored)
            }
        } else if id > 0 {
            Ok(())
        } else {
            Err(DroneError::InvalidStoreId)
        }
    }

    /// The record after `mark_stored` was called with `id`.
    pub open spec fn after_mark_stored(self, id: i64) -> DroneView {
        if self.mark_stored_result(id) is Ok {
            self.stored_as(id)
        } else {
            self
        }
    }
}

impl View for Drone {
    type V = DroneView;

    open spec fn view(&self) -> DroneView {
        DroneView {
            in_store: self.in_store,
            store_id: self.store_id,
            basic_id: view_of(self.basic_id),
            last_location: self.last_location,
            location_history: self.location_history@,
            system_message: self.system_message,
            operator: view_of(self.operator),
        }
    }
}

impl Default for Drone {
    fn default() -> (r: Drone)
        ensures
            r@ == DroneView::empty(),
    {
        Drone {
            in_store: false,
            store_id: 0,
            basic_id: None,
            last_location: None,
            location_history: Vec::new(),
            system_message: None,
            operator: None,
        }
    }
}

impl Clone for Drone {
    fn clone(&self) -> (r: Self)
        ensures
            r@ == self@,
    {
        let basic_id = match &self.basic_id {
            Some(b) => Some(b.clone()),
            None => None,
        };
        let operator = match &self.operator {
            Some(o) => Some(o.clone()),
            None => None,
        };
        Drone {
            in_store: self.in_store,
            store_id: self.store_id,
            basic_id,
            last_location: self.last_location,
            location_history: self.location_history.clone(),
            system_message: self.system_message,
            operator,
        }
    }
}

impl Drone {
    /// Starts a record from the messages at hand. The record is not in the
    /// store; a first location is also the first entry of its history.
    pub fn new(
        basic_id: Option<BasicId>,
        last_location: Option<Location>,
        system_message: Option<SystemMessage>,
        operator: Option<Operator>,
    ) -> (r: Drone)
        ensures
            r@ == DroneView::new(view_of(basic_id), last_location, system_message, view_of(operator)),
            r@.wf(),
    {
        let mut location_history: Vec<Location> = Vec::new();
        if let Some(location) = last_location {
            location_history.push(location);
        }
        Drone {
            in_store: false,
            store_id: 0,
            basic_id,
            last_location,
            location_history,
            system_message,
            operator,
        }
    }

    /// Marks the record as stored under `id`. Allowed once: `id` must be
    /// positive, and a record that is stored already accepts only the id it
    /// has. A refused call changes nothing.
    pub fn mark_stored(&mut self, id: i64) -> (r: Result<(), DroneError>)
        ensures
            r == old(self)@.mark_stored_result(id),
            final(self)@ == old(self)@.after_mark_stored(id),
            old(self)@.wf() ==> final(self)@.wf(),
            old(self)@.in_store ==> final(self)@ == old(self)@,
    {
        if self.in_store {
            if id == self.store_id {
                Ok(())
            } else {
                Err(DroneError::AlreadyStored)
            }
        } else if id > 0 {
            self.in_store = true;
            self.store_id = id;
            Ok(())
        } else {
            Err(DroneError::InvalidStoreId)
        }
    }

    /// Tells the record whether it is in the store, and under which id. With
    /// `in_db` set this is `mark_stored(db_id)`. Without it the call only
    /// confirms that the record is not stored: a stored record never leaves
    /// the store, so for one the call is refused.
    pub fn set_in_db(&mut self, in_db: bool, db_id: i64) -> (r: Result<(), DroneError>)
        ensures
            in_db ==> r == old(self)@.mark_stored_result(db_id) && final(self)@ == old(
                self,
            )@.after_mark_stored(db_id),
            !in_db ==> final(self)@ == old(self)@ && (r is Ok <==> !old(self)@.in_store) && (r is Err
                ==> r == Err::<(), DroneError>(DroneError::AlreadyStored)),
    {
        if in_db {
            self.mark_stored(db_id)
        } else if self.in_store {
            Err(DroneError::AlreadyStored)
        } else {
            Ok(())
        }
    }

    /// Replaces the BasicId message.
    pub fn update_basic_id(&mut self, basic_id: BasicId)
        ensures
            final(self)@ == old(self)@.with_basic_id(basic_id@),
    {
        self.basic_id = Some(basic_id);
    }

    /// Replaces the System message.
    pub fn update_system_message(&mut self, system_message: SystemMessage)
        ensures
            final(self)@ == old(self)@.with_system_message(system_message),
    {
        self.system_message = Some(system_message);
    }

    /// Replaces the OperatorId message.
    pub fn update_operator(&mut self, operator: Operator)
        ensures
            final(self)@ == old(self)@.with_operator(operator@),
    {
        self.operator = Some(operator);
    }

    /// Takes a new location. The location it replaces is appended to the
    /// history; where there was none, the new location itself is appended, as
    /// the point the drone was first seen at.
    pub fn update_location(&mut self, location: Location)
        ensures
            final(self)@ == old(self)@.with_location(location),
            old(self)@.wf() ==> final(self)@.wf(),
    {
        match self.last_location {
            Some(previous) => {
                self.location_history.push(previous);
            },
            None => {
                self.location_history.push(location);
            },
        }
        self.last_location = Some(location);
    }

    /// Merges one decoded message into the record.
    pub fn apply(&mut self, message: &OdidMessage)
        ensures
            final(self)@ == old(self)@.with_message(message@),
            old(self)@.wf() ==> final(self)@.wf(),
    {
        match message {
            OdidMessage::BasicId(basic_id) => self.update_basic_id(basic_id.clone()),
            OdidMessage::Location(location) => self.update_location(*location),
            OdidMessage::System(system_message) => self.update_system_message(*system_message),
            OdidMessage::OperatorId(operator) => self.update_operator(operator.clone()),
            _ => {},
        }
    }

    /// Whether the record is complete: it holds a BasicId, a location, a
    /// System message and an OperatorId.
    pub fn payload_ready(&self) -> (r: bool)
        ensures
            r == self@.payload_ready(),
            r <==> (self.basic_id is Some && self.last_location is Some && self.system_message
                is Some && self.operator is Some),
    {
        self.basic_id.is_some() && self.last_location.is_some() && self.system_message.is_some()
            && self.operator.is_some()
    }

    /// How many of the four messages the record holds.
    pub fn payload_progress(&self) -> (r: i32)
        ensures
            r == self@.payload_progress(),
            0 <= r <= 4,
            r == 4 <==> self@.payload_ready(),
    {
        let mut progress: i32 = 0;
        if self.basic_id.is_some() {
            progress += 1;
        }
        if self.last_location.is_some() {
            progress += 1;
        }
        if self.system_message.is_some() {
            progress += 1;
        }
        if self.operator.is_some() {
            progress += 1;
        }
        progress
    }
}

/// Whatever messages a record has taken, it counts as complete only while it
/// holds all four: a BasicId, a location, a System message and an OperatorId.
pub proof fn lemma_ready_means_complete(d: DroneView, messages: Seq<OdidMessageView>)
    ensures
        d.with_messages(messages).payload_ready() <==> (d.with_messages(messages).basic_id is Some
            && d.with_messages(messages).last_location is Some && d.with_messages(
            messages,
        ).system_message is Some && d.with_messages(messages).operator is Some),
        d.with_messages(messages).payload_ready() <==> d.with_messages(messages).payload_progress()
            == 4,
{
}

/// Every update keeps a record well formed.
pub proof fn lemma_updates_keep_wf(d: DroneView, message: OdidMessageView)
    requires
        d.wf(),
    ensures
        d.with_message(message).wf(),
{
}

/// A run of messages keeps a record well formed.
pub proof fn lemma_messages_keep_wf(d: DroneView, messages: Seq<OdidMessageView>)
    requires
        d.wf(),
    ensures
        d.with_messages(messages).wf(),
    decreases messages.len(),
{
    if messages.len() > 0 {
        lemma_messages_keep_wf(d, messages.drop_last());
        lemma_updates_keep_wf(d.with_messages(messages.drop_last()), messages.last());
    }
}

/// After `n` location updates the history is `n` entries longer, every other
/// part of the record is as before, and the record holds a location as soon
/// as `n` is not 0.
pub proof fn lemma_location_updates_grow_history(d: DroneView, locations: Seq<Location>)
    ensures
        d.with_locations(locations).location_history.len() == d.location_history.len()
            + locations.len(),
        locations.len() > 0 ==> d.with_locations(locations).last_location == Some(
            locations.last(),
        ),
        locations.len() == 0 ==> d.with_locations(locations) == d,
        d.with_locations(locations).basic_id == d.basic_id,
        d.with_locations(locations).system_message == d.system_message,
        d.with_locations(locations).operator == d.operator,
        d.with_locations(locations).in_store == d.in_store,
        d.with_locations(locations).store_id == d.store_id,
    decreases locations.len(),
{
    if locations.len() > 0 {
        lemma_location_updates_grow_history(d, locations.drop_last());
    }
}

/// On a record that starts without a location, `n` location updates leave a
/// history whose length, plus one for the location held, is `n`, plus one
/// where `n` is not 0: the first location is counted twice.
pub proof fn lemma_history_counts_first_location_twice(locations: Seq<Location>)
    ensures
        ({
            let d = DroneView::empty().with_locations(locations);
            d.location_history.len() + (if d.last_location is Some {
                1int
            } else {
                0int
            }) == locations.len() + (if locations.len() > 0 {
                1int
            } else {
                0int
            })
        }),
        locations.len() > 0 ==> DroneView::empty().with_locations(locations).location_history[0]
            == locations[0],
    decreases locations.len(),
{
    lemma_location_updates_grow_history(DroneView::empty(), locations);
    if locations.len() > 0 {
        let earlier = locations.drop_last();
        lemma_location_updates_grow_history(DroneView::empty(), earlier);
        if earlier.len() > 0 {
            lemma_history_counts_first_location_twice(earlier);
            assert(earlier[0] == locations[0]);
        }
    }
}

/// A record enters the store once and never leaves it: once `mark_stored`
/// has succeeded, every later call with another id is refused, and no later
/// call changes the record.
pub proof fn lemma_stored_once(d: DroneView, first: i64, second: i64)
    requires
        d.wf(),
        d.mark_stored_result(first) is Ok,
    ensures
        d.after_mark_stored(first).in_store,
        d.after_mark_stored(first).store_id == first,
        first > 0,
        second != first ==> d.after_mark_stored(first).mark_stored_result(second) == Err::<
            (),
            DroneError,
        >(DroneError::AlreadyStored),
        d.after_mark_stored(first).after_mark_stored(second) == d.after_mark_stored(first),
{
}

} // verus!
