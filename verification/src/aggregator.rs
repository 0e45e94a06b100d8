//! The aggregator's schedule: for each vehicle, the time of the last message
//! that led to an update of its recent positions. A message leads to an
//! update when it is the vehicle's first, or comes at least a whole minute
//! after the last one that did.
use vstd::prelude::*;
use std::collections::HashMap;
use crate::telemetry::{
    Message, Timestamp, chrono_whole_minutes, spec_whole_minutes_between, total_nanos,
    whole_minutes_between,
};

verus! {

broadcast use vstd::std_specs::hash::group_hash_axioms;

/// Whether a message at `t` leads to an update, given the time `last` of the
/// vehicle's last update, if it had one.
pub open spec fn needs_update(last: Option<Timestamp>, t: Timestamp) -> bool {
    match last {
        None => true,
        Some(p) => spec_whole_minutes_between(t, p) >= 1,
    }
}

/// The last update time of vehicle `id` in `schedule`.
pub open spec fn last_update(schedule: Map<u64, Timestamp>, id: u64) -> Option<Timestamp> {
    if schedule.contains_key(id) {
        Some(schedule[id])
    } else {
        None
    }
}

/// The schedule after a message of vehicle `id` at `t`.
pub open spec fn schedule_after(schedule: Map<u64, Timestamp>, id: u64, t: Timestamp) -> Map<
    u64,
    Timestamp,
> {
    if needs_update(last_update(schedule, id), t) {
        schedule.insert(id, t)
    } else {
        schedule
    }
}

/// Decides, message by message, whether the recent positions of a vehicle
/// are to be updated.
pub struct Aggregator {
    update_timestamps: HashMap<u64, Timestamp>,
}

impl View for Aggregator {
    type V = Map<u64, Timestamp>;

    closed spec fn view(&self) -> Map<u64, Timestamp> {
        self.update_timestamps@
    }
}

impl Aggregator {
    /// An aggregator that has seen no message.
    pub fn new() -> (agg: Aggregator)
        ensures
            agg@ == Map::<u64, Timestamp>::empty(),
    {
        Aggregator { update_timestamps: HashMap::new() }
    }

    /// The time of the last update of vehicle `id`, if there was one.
    pub fn last_update(&self, id: u64) -> (t: Option<Timestamp>)
        ensures
            t == last_update(self@, id),
    {
        match self.update_timestamps.get(&id) {
            Some(t) => Some(*t),
            None => None,
        }
    }

    /// Takes in one message; returns whether the recent positions of its
    /// vehicle are to be updated with it.
    pub fn aggregate(&mut self, message: &Message) -> (update: bool)
        ensures
            update == needs_update(last_update(old(self)@, message.payload.id), message.timestamp),
            final(self)@ == schedule_after(old(self)@, message.payload.id, message.timestamp),
            last_update(old(self)@, message.payload.id) == Some(message.timestamp) ==> !update,
            update && old(self)@.contains_key(message.payload.id) && message.timestamp@.1
                < 1_000_000_000 && old(self)@[message.payload.id]@.1 < 1_000_000_000 ==> total_nanos(
                message.timestamp@.0,
                message.timestamp@.1,
            ) - total_nanos(
                old(self)@[message.payload.id]@.0,
                old(self)@[message.payload.id]@.1,
            ) >= 60_000_000_000,
    {
        self.aggregate_single_vehicle(message)
    }

    /// Takes in one message of one vehicle; when it is the vehicle's first
    /// or comes at least a whole minute after its last update, records its
    /// time as the vehicle's last update and returns `true`.
    pub fn aggregate_single_vehicle(&mut self, message: &Message) -> (update: bool)
        ensures
            update == needs_update(last_update(old(self)@, message.payload.id), message.timestamp),
            final(self)@ == schedule_after(old(self)@, message.payload.id, message.timestamp),
            last_update(old(self)@, message.payload.id) == Some(message.timestamp) ==> !update,
            update && old(self)@.contains_key(message.payload.id) && message.timestamp@.1
                < 1_000_000_000 && old(self)@[message.payload.id]@.1 < 1_000_000_000 ==> total_nanos(
                message.timestamp@.0,
                message.timestamp@.1,
            ) - total_nanos(
                old(self)@[message.payload.id]@.0,
                old(self)@[message.payload.id]@.1,
            ) >= 60_000_000_000,
    {
        let id = message.payload.id;
        let update = match self.update_timestamps.get(&id) {
            Some(timestamp) => whole_minutes_between(message.timestamp, *timestamp) >= 1,
            None => true,
        };
        if update {
            self.update_timestamps.insert(id, message.timestamp);
        }
        update
    }
}

/// A message of one vehicle leaves the schedule of every other vehicle as it was.
pub proof fn lemma_other_vehicles_unchanged(
    schedule: Map<u64, Timestamp>,
    id: u64,
    t: Timestamp,
    other: u64,
)
    requires
        other != id,
    ensures
        last_update(schedule_after(schedule, id, t), other) == last_update(schedule, other),
{
}

/// A vehicle's first message always leads to an update, and afterwards the
/// vehicle has a last update at that message's time.
pub proof fn lemma_first_message_updates(schedule: Map<u64, Timestamp>, id: u64, t: Timestamp)
    requires
        !schedule.contains_key(id),
    ensures
        needs_update(last_update(schedule, id), t),
        last_update(schedule_after(schedule, id, t), id) == Some(t),
{
}

/// Two updates of one vehicle are at least a whole minute apart, as chrono
/// counts minutes: when a message at `t` leads to an update, `t` comes at
/// least one whole minute after the vehicle's previous update.
pub proof fn lemma_updates_a_minute_apart(schedule: Map<u64, Timestamp>, id: u64, t: Timestamp)
    requires
        schedule.contains_key(id),
        needs_update(last_update(schedule, id), t),
    ensures
        spec_whole_minutes_between(t, schedule[id]) >= 1,
{
}

/// The update rule in terms of chrono's minute count: a vehicle's first
/// message always leads to an update, and a later message leads to one
/// exactly when at least one whole minute (as chrono counts) has passed since
/// the vehicle's last update, however long the gap.
pub proof fn lemma_update_rule(p: Timestamp, t: Timestamp)
    ensures
        needs_update(None, t),
        needs_update(Some(p), t) <==> chrono_whole_minutes(t@.0, t@.1, p@.0, p@.1) >= 1,
{
}

/// What a message of vehicle `id` at `t` does to the schedule: when it is
/// the vehicle's first, or comes at least one whole minute (as chrono counts)
/// after the vehicle's last update, the vehicle's last update becomes `t`
/// and every other vehicle keeps its own; otherwise nothing changes.
pub proof fn lemma_schedule_records_updates(schedule: Map<u64, Timestamp>, id: u64, t: Timestamp)
    ensures
        (!schedule.contains_key(id) || chrono_whole_minutes(
            t@.0,
            t@.1,
            schedule[id]@.0,
            schedule[id]@.1,
        ) >= 1) ==> {
            &&& schedule_after(schedule, id, t).contains_key(id)
            &&& schedule_after(schedule, id, t)[id] == t
            &&& forall|other: u64|
                other != id ==> (#[trigger] schedule_after(schedule, id, t).contains_key(other)
                    <==> schedule.contains_key(other)) && (schedule.contains_key(other)
                    ==> schedule_after(schedule, id, t)[other] == schedule[other])
        },
        (schedule.contains_key(id) && chrono_whole_minutes(
            t@.0,
            t@.1,
            schedule[id]@.0,
            schedule[id]@.1,
        ) < 1) ==> schedule_after(schedule, id, t) == schedule,
{
}

} // verus!
