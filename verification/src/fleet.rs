//! The simulated fleet: one starting message per vehicle, and an iterator
//! that hands the messages out round and round without end.
use vstd::prelude::*;
use crate::decimal::{
    all_digits, decimal, decimal_value, zero_padded, push_zero_padded_decimal,
    lemma_zero_padded_injective, lemma_zero_padded_shape,
};
use crate::telemetry::{GpsData, Message, Sensor, Timestamp, Vehicle, utc_now};

verus! {

/// Width to which the vehicle number is zero padded at the start of a sensor id.
pub const SENSOR_ID_DIGITS: usize = 8;

/// The part of every sensor id that follows the padded vehicle number.
pub open spec fn sensor_id_suffix() -> Seq<char> {
    "-b54f-4ac9-9cda-68fe41410ce2"@
}

/// The sensor id of vehicle number `i`: `i` in decimal, zero padded to eight
/// digits, then the common suffix.
pub open spec fn spec_sensor_id(i: nat) -> Seq<char> {
    zero_padded(decimal(i), SENSOR_ID_DIGITS as nat) + sensor_id_suffix()
}

/// The starting position of every vehicle: latitude 52.00882034091296,
/// longitude 17.0333332, altitude 0.1, speed 27.7777 (binary64 bit patterns).
pub open spec fn spec_initial_gps() -> GpsData {
    GpsData {
        latitude_bits: 0x404a01210661e160,
        longitude_bits: 0x40310888864bdefc,
        altitude_bits: 0x3fb999999999999a,
        speed_bits: 0x403bc71758e21965,
    }
}

/// The starting position of every vehicle.
pub fn initial_gps() -> (g: GpsData)
    ensures
        g == spec_initial_gps(),
{
    GpsData {
        latitude_bits: 0x404a01210661e160,
        longitude_bits: 0x40310888864bdefc,
        altitude_bits: 0x3fb999999999999a,
        speed_bits: 0x403bc71758e21965,
    }
}

/// The sensor id of vehicle number `i`.
pub fn sensor_id(i: u64) -> (id: String)
    ensures
        id@ == spec_sensor_id(i as nat),
{
    let mut id = String::new();
    push_zero_padded_decimal(&mut id, i, SENSOR_ID_DIGITS);
    let suffix = "-b54f-4ac9-9cda-68fe41410ce2";
    id.append(suffix);
    id
}

/// Whether `m` is the starting message of vehicle number `i` (the message's
/// timestamp aside): sensor id of `i`, vehicle id `i + 1`, starting position.
pub open spec fn is_fleet_message(m: Message, i: nat) -> bool {
    &&& m.sensor.id@ == spec_sensor_id(i)
    &&& m.payload.id == i + 1
    &&& m.payload.gps == spec_initial_gps()
}

/// The starting message of vehicle number `i`, stamped with `timestamp`.
pub fn fleet_message(i: u64, timestamp: Timestamp) -> (m: Message)
    requires
        i < u64::MAX,
    ensures
        is_fleet_message(m, i as nat),
        m.timestamp == timestamp,
{
    Message {
        timestamp,
        sensor: Sensor { id: sensor_id(i) },
        payload: Vehicle { id: i + 1, gps: initial_gps() },
    }
}

/// The starting messages of a fleet of `fleet_count` vehicles, in order of
/// vehicle number, each stamped with the time at which it was made.
pub fn create_fleet(fleet_count: u64) -> (messages: Vec<Message>)
    requires
        fleet_count <= usize::MAX,
    ensures
        messages.len() == fleet_count,
        forall|i: int|
            0 <= i < messages.len() ==> #[trigger] is_fleet_message(messages@[i], i as nat),
        forall|i: int|
            0 <= i < messages.len() ==> (#[trigger] messages@[i]).timestamp@.0 >= 0
                && messages@[i].timestamp@.1 < 1_000_000_000,
{
    let mut messages: Vec<Message> = Vec::new();
    let mut i: u64 = 0;
    while i < fleet_count
        invariant
            i <= fleet_count,
            fleet_count <= usize::MAX,
            messages.len() == i,
            forall|j: int|
                0 <= j < messages.len() ==> #[trigger] is_fleet_message(messages@[j], j as nat),
            forall|j: int|
                0 <= j < messages.len() ==> (#[trigger] messages@[j]).timestamp@.0 >= 0
                    && messages@[j].timestamp@.1 < 1_000_000_000,
        decreases fleet_count - i,
    {
        let now = utc_now();
        let message = fleet_message(i, now);
        messages.push(message);
        i = i + 1;
    }
    messages
}

/// Distinct vehicle numbers give distinct sensor ids.
pub proof fn lemma_sensor_ids_distinct(i: nat, j: nat)
    requires
        i != j,
    ensures
        spec_sensor_id(i) != spec_sensor_id(j),
{
    if spec_sensor_id(i) == spec_sensor_id(j) {
        let a = zero_padded(decimal(i), SENSOR_ID_DIGITS as nat);
        let b = zero_padded(decimal(j), SENSOR_ID_DIGITS as nat);
        let s = sensor_id_suffix();
        assert((a + s).len() == (b + s).len());
        assert(a =~= (a + s).subrange(0, a.len() as int));
        assert(b =~= (b + s).subrange(0, b.len() as int));
        lemma_zero_padded_injective(i, j, SENSOR_ID_DIGITS as nat);
    }
}

/// The shape of the sensor id of vehicle number `i`: it ends in
/// `-b54f-4ac9-9cda-68fe41410ce2`, and what comes before is made of decimal
/// digits that read as `i`, at least eight of them, and more than eight only
/// when `i` needs more (then with no leading `0`).
pub proof fn lemma_sensor_id_shape(i: nat)
    ensures
        spec_sensor_id(i).len() >= 36,
        spec_sensor_id(i).subrange(spec_sensor_id(i).len() - 28, spec_sensor_id(i).len() as int)
            == "-b54f-4ac9-9cda-68fe41410ce2"@,
        all_digits(spec_sensor_id(i).subrange(0, spec_sensor_id(i).len() - 28)),
        decimal_value(spec_sensor_id(i).subrange(0, spec_sensor_id(i).len() - 28)) == i,
        spec_sensor_id(i).len() > 36 ==> spec_sensor_id(i)[0] != '0',
{
    reveal_strlit("-b54f-4ac9-9cda-68fe41410ce2");
    lemma_zero_padded_shape(i, SENSOR_ID_DIGITS as nat);
    let p = zero_padded(decimal(i), SENSOR_ID_DIGITS as nat);
    let s = spec_sensor_id(i);
    assert(s.subrange(0, s.len() - 28) =~= p);
    assert(s.subrange(s.len() - 28, s.len() as int) =~= sensor_id_suffix());
    assert(s[0] == p[0]);
}

/// The starting message of vehicle number `i` is about vehicle `i + 1`, at
/// latitude 52.00882034091296, longitude 17.0333332, altitude 0.1 and speed
/// 27.7777 (binary64 bit patterns), from the sensor of vehicle number `i`.
pub proof fn lemma_fleet_message_fields(m: Message, i: nat)
    requires
        is_fleet_message(m, i),
    ensures
        m.payload.id == i + 1,
        m.payload.gps.latitude_bits == 0x404a01210661e160,
        m.payload.gps.longitude_bits == 0x40310888864bdefc,
        m.payload.gps.altitude_bits == 0x3fb999999999999a,
        m.payload.gps.speed_bits == 0x403bc71758e21965,
        m.sensor.id@ == spec_sensor_id(i),
{
}

/// In a fleet, the vehicle ids run 1, 2, 3, ... in order, so no two
/// messages share a vehicle id or a sensor id.
pub proof fn lemma_fleet_ids_distinct(messages: Seq<Message>)
    requires
        forall|i: int| 0 <= i < messages.len() ==> #[trigger] is_fleet_message(messages[i], i as nat),
    ensures
        forall|i: int| 0 <= i < messages.len() ==> (#[trigger] messages[i]).payload.id == i + 1,
        forall|i: int, j: int|
            0 <= i < messages.len() && 0 <= j < messages.len() && i != j ==> (
            #[trigger] messages[i]).payload.id != (#[trigger] messages[j]).payload.id
                && messages[i].sensor.id@ != messages[j].sensor.id@,
{
    assert forall|i: int| 0 <= i < messages.len() implies (#[trigger] messages[i]).payload.id == i + 1 by {
        lemma_fleet_message_fields(messages[i], i as nat);
    }
    assert forall|i: int, j: int|
        0 <= i < messages.len() && 0 <= j < messages.len() && i != j implies (
        #[trigger] messages[i]).payload.id != (#[trigger] messages[j]).payload.id
            && messages[i].sensor.id@ != messages[j].sensor.id@ by {
        assert(is_fleet_message(messages[i], i as nat));
        assert(is_fleet_message(messages[j], j as nat));
        lemma_sensor_ids_distinct(i as nat, j as nat);
    }
}

/// The index that follows `i` in a cycle over `n` messages.
pub open spec fn next_index(i: int, n: int) -> int {
    if i + 1 >= n {
        0
    } else {
        i + 1
    }
}

/// The index of a fresh iterator over `n` messages after `k` steps.
pub open spec fn index_after(n: int, k: nat) -> int
    decreases k,
{
    if k == 0 {
        -1
    } else {
        next_index(index_after(n, (k - 1) as nat), n)
    }
}

/// Hands out the messages it holds in order, starting over after the last
/// one, without end.
pub struct FleetIterator {
    current_index: i64,
    messages: Vec<Message>,
    count: usize,
}

impl FleetIterator {
    /// The index of the message handed out last; -1 before the first.
    pub closed spec fn index(&self) -> int {
        self.current_index as int
    }

    /// The messages the iterator cycles through.
    pub closed spec fn messages(&self) -> Seq<Message> {
        self.messages@
    }

    #[verifier::type_invariant]
    closed spec fn well_formed(&self) -> bool {
        &&& self.count == self.messages@.len()
        &&& self.count <= i64::MAX
        &&& -1 <= self.current_index
        &&& (self.current_index == -1 || self.current_index < self.count)
    }

    /// An iterator over `messages` that has handed nothing out yet.
    pub fn new(messages: Vec<Message>) -> (it: FleetIterator)
        requires
            messages.len() <= i64::MAX,
        ensures
            it.index() == -1,
            it.messages() == messages@,
    {
        let count = messages.len();
        FleetIterator { current_index: -1, messages: messages, count: count }
    }

    /// The index of the message handed out last; -1 before the first.
    pub fn current_index(&self) -> (i: i64)
        ensures
            i == self.index(),
    {
        self.current_index
    }

    /// The number of messages the iterator cycles through.
    pub fn count(&self) -> (n: usize)
        ensures
            n == self.messages().len(),
    {
        proof {
            use_type_invariant(self);
        }
        self.count
    }

    /// Hands out the message after the one handed out last, starting over
    /// after the last message; never `None`.
    pub fn next(&mut self) -> (item: Option<Message>)
        requires
            old(self).messages().len() > 0,
        ensures
            final(self).messages() == old(self).messages(),
            final(self).index() == next_index(old(self).index(), old(self).messages().len() as int),
            item == Some(final(self).messages()[final(self).index()]),
    {
        proof {
            use_type_invariant(&*self);
        }
        let next: i64 = if self.current_index + 1 >= self.count as i64 {
            0
        } else {
            self.current_index + 1
        };
        self.current_index = next;
        let idx = next as usize;
        Some(self.messages[idx].clone())
    }
}

/// A fresh iterator over `n > 0` messages hands out, at its `k + 1`-th call
/// of `next`, the message at index `k % n`: the messages come in order and
/// start over after the last one.
pub proof fn lemma_cycles_in_order(n: int, k: nat)
    requires
        n > 0,
    ensures
        index_after(n, k + 1) == (k as int) % n,
    decreases k,
{
    if k == 0 {
        assert(index_after(n, 0) == -1);
        assert(0int % n == 0) by {
            vstd::arithmetic::div_mod::lemma_small_mod(0, n as nat);
        }
    } else {
        lemma_cycles_in_order(n, (k - 1) as nat);
        let r = (k - 1) % n;
        vstd::arithmetic::div_mod::lemma_fundamental_div_mod((k - 1) as int, n);
        let q = (k - 1) / n;
        if r + 1 < n {
            assert(k as int == q * n + (r + 1)) by (nonlinear_arith)
                requires
                    (k - 1) as int == n * q + r,
            ;
            vstd::arithmetic::div_mod::lemma_fundamental_div_mod_converse_mod(k as int, n, q, r + 1);
        } else {
            assert(k as int == (q + 1) * n + 0) by (nonlinear_arith)
                requires
                    (k - 1) as int == n * q + r,
                    r + 1 == n,
            ;
            vstd::arithmetic::div_mod::lemma_fundamental_div_mod_converse_mod(k as int, n, q + 1, 0);
        }
    }
}

/// After `n` calls of `next`, an iterator over `n > 0` messages hands out
/// the same messages again: from any reachable index the cycle has period `n`.
pub proof fn lemma_period(n: int, k: nat)
    requires
        n > 0,
    ensures
        index_after(n, k + 1 + n as nat) == index_after(n, k + 1),
{
    lemma_cycles_in_order(n, k);
    lemma_cycles_in_order(n, k + n as nat);
    vstd::arithmetic::div_mod::lemma_mod_add_multiples_vanish(k as int, n);
}

} // verus!
