//! What holds of the transition modules over every state and every sequence
//! of calls, stated over the spec functions their contracts use.
use vstd::prelude::*;

use crate::cell::fits;
use crate::{messagehash, por, AccountId, CallSpec};

verus! {

/// Every call of the strict module keeps a valid state valid, and keeps its
/// capacity.
pub proof fn por_step_keeps_valid(s: por::PalletView, who: AccountId, call: CallSpec)
    requires
        por::valid(s),
    ensures
        por::valid(por::step(s, who, call).0),
        por::step(s, who, call).0.cell.capacity == s.cell.capacity,
{
}

/// Every state that the strict module reaches from a fresh instance holds no
/// value longer than the configured capacity.
pub proof fn por_reachable_states_fit(config: por::Config, calls: Seq<(AccountId, CallSpec)>)
    ensures
        por::replay_spec(por::genesis(config), calls).cell.capacity == config.max_item_len,
        fits(
            por::replay_spec(por::genesis(config), calls).cell.value,
            config.max_item_len as nat,
        ),
    decreases calls.len(),
{
    if calls.len() > 0 {
        por_reachable_states_fit(config, calls.drop_last());
        por_step_keeps_valid(
            por::replay_spec(por::genesis(config), calls.drop_last()),
            calls.last().0,
            calls.last().1,
        );
    }
}

/// Every call of the lenient module keeps a valid state valid, and keeps its
/// bounds.
pub proof fn messagehash_step_keeps_valid(
    s: messagehash::PalletView,
    who: AccountId,
    call: CallSpec,
)
    requires
        messagehash::valid(s),
    ensures
        messagehash::valid(messagehash::step(s, who, call).0),
        messagehash::step(s, who, call).0.cell.capacity == s.cell.capacity,
        messagehash::step(s, who, call).0.max_items == s.max_items,
{
}

/// Every state that the lenient module reaches from a fresh instance holds no
/// value longer than the configured capacity.
pub proof fn messagehash_reachable_states_fit(
    config: messagehash::Config,
    calls: Seq<(AccountId, CallSpec)>,
)
    ensures
        messagehash::replay_spec(messagehash::genesis(config), calls).cell.capacity
            == config.max_len,
        fits(
            messagehash::replay_spec(messagehash::genesis(config), calls).cell.value,
            config.max_len as nat,
        ),
    decreases calls.len(),
{
    if calls.len() > 0 {
        messagehash_reachable_states_fit(config, calls.drop_last());
        messagehash_step_keeps_valid(
            messagehash::replay_spec(messagehash::genesis(config), calls.drop_last()),
            calls.last().0,
            calls.last().1,
        );
    }
}

/// A payload longer than the capacity is refused with `TooLong`, and the
/// state, value and events alike, stays as it was.
pub proof fn por_rejected_store_changes_nothing(s: por::PalletView, who: AccountId, data: Seq<u8>)
    requires
        data.len() > s.cell.capacity,
    ensures
        por::store_spec(s, who, data) == (s, Err::<(), por::Error>(por::Error::TooLong)),
{
}

/// A payload over either bound is refused, and the state, value and events
/// alike, stays as it was.
pub proof fn messagehash_rejected_store_changes_nothing(
    s: messagehash::PalletView,
    who: AccountId,
    data: Seq<u8>,
)
    requires
        data.len() > s.cell.capacity || data.len() > s.max_items,
    ensures
        messagehash::store_spec(s, who, data).0 == s,
        messagehash::store_spec(s, who, data).1 is Err,
{
}

/// Clearing the lenient module twice in a row succeeds both times and leaves
/// the cell empty after each.
pub proof fn messagehash_clear_twice(s: messagehash::PalletView, a: AccountId, b: AccountId)
    ensures
        messagehash::clear_spec(s, a).1 == Ok::<(), messagehash::Error>(()),
        messagehash::clear_spec(s, a).0.cell.value is None,
        messagehash::clear_spec(messagehash::clear_spec(s, a).0, b).1 == Ok::<
            (),
            messagehash::Error,
        >(()),
        messagehash::clear_spec(messagehash::clear_spec(s, a).0, b).0.cell.value is None,
{
}

/// Clearing an empty strict module fails with `NothingToClear` and changes
/// nothing.
pub proof fn por_clear_empty_refused(s: por::PalletView, who: AccountId)
    requires
        s.cell.value is None,
    ensures
        por::clear_spec(s, who) == (s, Err::<(), por::Error>(por::Error::NothingToClear)),
{
}

/// Once a store has succeeded, one clear succeeds and empties the cell.
pub proof fn por_clear_after_store(s: por::PalletView, a: AccountId, data: Seq<u8>, b: AccountId)
    requires
        data.len() <= s.cell.capacity,
    ensures
        por::store_spec(s, a, data).1 == Ok::<(), por::Error>(()),
        por::clear_spec(por::store_spec(s, a, data).0, b).1 == Ok::<(), por::Error>(()),
        por::clear_spec(por::store_spec(s, a, data).0, b).0.cell.value is None,
{
}

/// A stored payload reads back exactly, the empty one included.
pub proof fn por_store_round_trip(s: por::PalletView, who: AccountId, data: Seq<u8>)
    requires
        data.len() <= s.cell.capacity,
    ensures
        por::store_spec(s, who, data).0.cell.value == Some(data),
{
}

/// A payload within both bounds reads back exactly, the empty one included.
pub proof fn messagehash_store_round_trip(
    s: messagehash::PalletView,
    who: AccountId,
    data: Seq<u8>,
)
    requires
        data.len() <= s.cell.capacity,
        data.len() <= s.max_items,
    ensures
        messagehash::store_spec(s, who, data).0.cell.value == Some(data),
{
}

/// A successful store emits exactly one `Stored` event with the caller and
/// the payload's length; a failing call emits none.
pub proof fn por_store_events(s: por::PalletView, who: AccountId, data: Seq<u8>)
    requires
        por::valid(s),
    ensures
        por::store_spec(s, who, data).1 is Ok ==> por::store_spec(s, who, data).0.events
            == s.events.push(por::Event::Stored { who, len: data.len() as u32 })
            && data.len() as u32 == data.len(),
        por::store_spec(s, who, data).1 is Err ==> por::store_spec(s, who, data).0.events
            == s.events,
        por::clear_spec(s, who).1 is Err ==> por::clear_spec(s, who).0.events == s.events,
{
}

/// A successful store emits exactly one `Stored` event with the caller and
/// the payload's length; a failing one emits none.
pub proof fn messagehash_store_events(s: messagehash::PalletView, who: AccountId, data: Seq<u8>)
    requires
        messagehash::valid(s),
    ensures
        messagehash::store_spec(s, who, data).1 is Ok ==> messagehash::store_spec(
            s,
            who,
            data,
        ).0.events == s.events.push(messagehash::Event::Stored { who, len: data.len() as u32 })
            && data.len() as u32 == data.len(),
        messagehash::store_spec(s, who, data).1 is Err ==> messagehash::store_spec(
            s,
            who,
            data,
        ).0.events == s.events,
{
}

/// Two fresh strict modules built alike and fed the same calls in the same
/// order end in the same state with the same events.
pub proof fn por_replay_deterministic(
    c1: por::Config,
    c2: por::Config,
    calls: Seq<(AccountId, CallSpec)>,
)
    requires
        c1 == c2,
    ensures
        por::replay_spec(por::genesis(c1), calls) == por::replay_spec(por::genesis(c2), calls),
{
}

/// Two fresh lenient modules built alike and fed the same calls in the same
/// order end in the same state with the same events.
pub proof fn messagehash_replay_deterministic(
    c1: messagehash::Config,
    c2: messagehash::Config,
    calls: Seq<(AccountId, CallSpec)>,
)
    requires
        c1 == c2,
    ensures
        messagehash::replay_spec(messagehash::genesis(c1), calls) == messagehash::replay_spec(
            messagehash::genesis(c2),
            calls,
        ),
{
}

} // verus!
