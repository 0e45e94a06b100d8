//! The per-vehicle list of recent messages kept in the key-value store: its
//! key, and the window to which it is cut back after a message is appended.
use vstd::prelude::*;
use crate::decimal::{
    all_digits, decimal, decimal_value, push_decimal, lemma_decimal_canonical,
    lemma_decimal_injective,
};

verus! {

/// How many messages the recent list of a vehicle keeps.
pub const MAX_RECENT_MESSAGES: usize = 10;

/// The key of the recent-message list of vehicle `id`: `messages:` and the
/// id in decimal.
pub open spec fn spec_vehicle_messages_key(id: u64) -> Seq<char> {
    "messages:"@ + decimal(id as nat)
}

/// The key of the recent-message list of vehicle `id`.
pub fn vehicle_messages_key(id: u64) -> (key: String)
    ensures
        key@ == spec_vehicle_messages_key(id),
{
    let mut key = String::from_str("messages:");
    push_decimal(&mut key, id);
    key
}

/// After a message is appended and the list has `new_length` entries: the
/// range of entries to keep, counted from the end (-10 to -1, the last ten),
/// when the list has grown past ten; `None` when it is to stay as it is.
pub fn recent_messages_trim(new_length: usize) -> (range: Option<(isize, isize)>)
    ensures
        range == (if new_length > MAX_RECENT_MESSAGES {
            Some((-10isize, -1isize))
        } else {
            None
        }),
{
    if new_length > MAX_RECENT_MESSAGES {
        Some((-10, -1))
    } else {
        None
    }
}

/// The entries of a list of length `len` that a range counted from the end
/// keeps, as the half-open range of positions `[start, end)`.
pub open spec fn kept_positions(len: int, range: (isize, isize)) -> (int, int) {
    let start = if range.0 < 0 { len + range.0 } else { range.0 as int };
    let end = if range.1 < 0 { len + range.1 + 1 } else { range.1 + 1 };
    (if start < 0 { 0 } else { start }, if end > len { len } else { end })
}

/// Whenever the list is cut back, exactly its last ten entries stay.
pub proof fn lemma_trim_keeps_last_ten(new_length: usize)
    requires
        new_length > MAX_RECENT_MESSAGES,
    ensures
        kept_positions(new_length as int, (-10isize, -1isize)) == (
            new_length - 10,
            new_length as int,
        ),
{
}

/// Distinct vehicles have distinct recent-message keys.
pub proof fn lemma_keys_distinct(a: u64, b: u64)
    requires
        a != b,
    ensures
        spec_vehicle_messages_key(a) != spec_vehicle_messages_key(b),
{
    if spec_vehicle_messages_key(a) == spec_vehicle_messages_key(b) {
        let p = "messages:"@;
        let ka = spec_vehicle_messages_key(a);
        assert(decimal(a as nat) =~= ka.subrange(p.len() as int, ka.len() as int));
        assert(decimal(b as nat) =~= spec_vehicle_messages_key(b).subrange(
            p.len() as int,
            ka.len() as int,
        ));
        lemma_decimal_injective(a as nat, b as nat);
    }
}

/// The shape of the key of vehicle `id`: `messages:` followed by the id in
/// plain decimal, that is digits that read as `id`, at least one, and with
/// no leading `0` unless the id is zero.
pub proof fn lemma_key_shape(id: u64)
    ensures
        spec_vehicle_messages_key(id).len() >= 10,
        spec_vehicle_messages_key(id).subrange(0, 9) == "messages:"@,
        all_digits(spec_vehicle_messages_key(id).subrange(9, spec_vehicle_messages_key(id).len() as int)),
        decimal_value(spec_vehicle_messages_key(id).subrange(9, spec_vehicle_messages_key(id).len() as int))
            == id,
        spec_vehicle_messages_key(id).len() > 10 ==> spec_vehicle_messages_key(id)[9] != '0',
        id > 0 ==> spec_vehicle_messages_key(id)[9] != '0',
{
    reveal_strlit("messages:");
    lemma_decimal_canonical(id as nat);
    let k = spec_vehicle_messages_key(id);
    let d = decimal(id as nat);
    assert(k.subrange(9, k.len() as int) =~= d);
    assert(k.subrange(0, 9) =~= "messages:"@);
    assert(k[9] == d[0]);
}

} // verus!
