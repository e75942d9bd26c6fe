//! The lenient transition module: clearing always succeeds, and a payload is
//! held to an item-count guard before the byte-length capacity.
use vstd::prelude::*;

use crate::cell::{fits, BoundedCell, CellView};
use crate::{copy_call, AccountId, Call, CallSpec};

verus! {

/// Configuration fixed when the module is built.
#[derive(Debug, Clone, Copy, PartialEq, Eq, Structural)]
pub struct Config {
    /// The largest number of items a payload may carry; a guard against
    /// flooding, kept apart from the storage bound.
    pub max_items: u32,
    /// The largest number of bytes the cell may hold.
    pub max_len: u32,
}

/// A successful mutation, recorded in order.
#[derive(Debug, Clone, Copy, PartialEq, Eq, Structural)]
pub enum Event {
    /// `who` stored `len` bytes.
    Stored { who: AccountId, len: u32 },
    /// `who` cleared the cell.
    Cleared { who: AccountId },
}

/// Why a call was rejected.
#[derive(Debug, Clone, Copy, PartialEq, Eq, Structural)]
pub enum Error {
    /// The payload is longer than the capacity.
    TooLong,
    /// The payload carries more items than the count guard allows.
    TooManyItems,
}

/// The module's state: its count guard, its cell and the events it has
/// emitted.
pub struct PalletView {
    pub max_items: nat,
    pub cell: CellView,
    pub events: Seq<Event>,
}

/// The module: one bounded cell and its event log.
pub struct Pallet {
    max_items: u32,
    stored_value: BoundedCell,
    events: Vec<Event>,
}

/// The state of a freshly built module.
pub open spec fn genesis(config: Config) -> PalletView {
    PalletView {
        max_items: config.max_items as nat,
        cell: CellView { capacity: config.max_len as nat, value: None },
        events: Seq::empty(),
    }
}

/// What `store` does: a payload over the count guard, and then one over the
/// capacity, changes nothing; any other replaces the value and records its
/// length.
pub open spec fn store_spec(s: PalletView, who: AccountId, data: Seq<u8>) -> (PalletView, Result<(), Error>) {
    if data.len() > s.max_items {
        (s, Err(Error::TooManyItems))
    } else if data.len() > s.cell.capacity {
        (s, Err(Error::TooLong))
    } else {
        (
            PalletView {
                max_items: s.max_items,
                cell: CellView { capacity: s.cell.capacity, value: Some(data) },
                events: s.events.push(Event::Stored { who, len: data.len() as u32 }),
            },
            Ok(()),
        )
    }
}

/// What `clear` does: the cell is emptied, whether or not it held a value.
pub open spec fn clear_spec(s: PalletView, who: AccountId) -> (PalletView, Result<(), Error>) {
    (
        PalletView {
            max_items: s.max_items,
            cell: CellView { capacity: s.cell.capacity, value: None },
            events: s.events.push(Event::Cleared { who }),
        },
        Ok(()),
    )
}

/// One call applied to a state.
pub open spec fn step(s: PalletView, who: AccountId, call: CallSpec) -> (PalletView, Result<(), Error>) {
    match call {
        CallSpec::Store(d) => store_spec(s, who, d),
        CallSpec::Clear => clear_spec(s, who),
    }
}

/// The state after a sequence of calls, applied in order.
pub open spec fn replay_spec(s: PalletView, calls: Seq<(AccountId, CallSpec)>) -> PalletView
    decreases calls.len(),
{
    if calls.len() == 0 {
        s
    } else {
        step(replay_spec(s, calls.drop_last()), calls.last().0, calls.last().1).0
    }
}

/// The invariant of every reachable state: the value fits, and the capacity
/// fits the event's length field.
pub open spec fn valid(s: PalletView) -> bool {
    fits(s.cell.value, s.cell.capacity) && s.cell.capacity <= u32::MAX
}

/// The calls of a batch, as mathematical values.
pub open spec fn calls_view(calls: Seq<(AccountId, Call)>) -> Seq<(AccountId, CallSpec)> {
    calls.map_values(|c: (AccountId, Call)| (c.0, c.1@))
}

impl View for Pallet {
    type V = PalletView;

    closed spec fn view(&self) -> PalletView {
        PalletView { max_items: self.max_items as nat, cell: self.stored_value@, events: self.events@ }
    }
}

impl Pallet {
    /// The module's invariant.
    pub open spec fn wf(&self) -> bool {
        valid(self@)
    }

    /// A module with an empty cell and no events.
    pub fn new(config: Config) -> (r: Pallet)
        ensures
            r.wf(),
            r@ == genesis(config),
    {
        let r = Pallet {
            max_items: config.max_items,
            stored_value: BoundedCell::new(config.max_len as usize),
            events: Vec::new(),
        };
        assert(r@.events =~= Seq::<Event>::empty());
        r
    }

    /// Stores `data` on behalf of `who`.
    pub fn store(&mut self, who: AccountId, data: Vec<u8>) -> (r: Result<(), Error>)
        requires
            old(self).wf(),
        ensures
            final(self).wf(),
            (final(self)@, r) == store_spec(old(self)@, who, data@),
    {
        if data.len() > self.max_items as usize {
            return Err(Error::TooManyItems);
        }
        match self.stored_value.set(data) {
            Ok(_) => {},
            Err(_) => return Err(Error::TooLong),
        }
        let len = self.stored_value.len() as u32;
        self.events.push(Event::Stored { who, len });
        Ok(())
    }

    /// Clears the cell on behalf of `who`; an empty cell is cleared too.
    pub fn clear(&mut self, who: AccountId) -> (r: Result<(), Error>)
        requires
            old(self).wf(),
        ensures
            final(self).wf(),
            (final(self)@, r) == clear_spec(old(self)@, who),
    {
        self.stored_value.clear();
        self.events.push(Event::Cleared { who });
        Ok(())
    }

    /// Routes one call.
    pub fn dispatch(&mut self, who: AccountId, call: Call) -> (r: Result<(), Error>)
        requires
            old(self).wf(),
        ensures
            final(self).wf(),
            (final(self)@, r) == step(old(self)@, who, call@),
    {
        match call {
            Call::Store(d) => self.store(who, d),
            Call::Clear => self.clear(who),
        }
    }

    /// Applies a batch of calls in order and returns each outcome.
    pub fn replay(&mut self, calls: &Vec<(AccountId, Call)>) -> (r: Vec<Result<(), Error>>)
        requires
            old(self).wf(),
        ensures
            final(self).wf(),
            final(self)@ == replay_spec(old(self)@, calls_view(calls@)),
            r@.len() == calls@.len(),
            forall|i: int|
                0 <= i < calls@.len() ==> r@[i] == step(
                    replay_spec(old(self)@, calls_view(calls@).take(i)),
                    calls@[i].0,
                    calls@[i].1@,
                ).1,
    {
        let ghost s0 = self@;
        let ghost cv = calls_view(calls@);
        let mut out: Vec<Result<(), Error>> = Vec::new();
        let mut i: usize = 0;
        while i < calls.len()
            invariant
                self.wf(),
                i <= calls@.len(),
                cv == calls_view(calls@),
                self@ == replay_spec(s0, cv.take(i as int)),
                out@.len() == i,
                forall|j: int|
                    0 <= j < i ==> out@[j] == step(
                        replay_spec(s0, cv.take(j)),
                        calls@[j].0,
                        calls@[j].1@,
                    ).1,
            decreases calls@.len() - i,
        {
            let who = calls[i].0;
            let call = copy_call(&calls[i].1);
            let res = self.dispatch(who, call);
            out.push(res);
            assert(cv.take(i + 1).drop_last() =~= cv.take(i as int));
            i = i + 1;
        }
        assert(cv.take(calls@.len() as int) =~= cv);
        out
    }

    /// The stored value, if any; readable by anyone.
    pub fn get(&self) -> (r: Option<&Vec<u8>>)
        ensures
            match r {
                Some(v) => self@.cell.value == Some(v@),
                None => self@.cell.value is None,
            },
    {
        self.stored_value.get()
    }

    /// The events emitted so far, oldest first.
    pub fn events(&self) -> (r: &Vec<Event>)
        ensures
            r@ == self@.events,
    {
        &self.events
    }
}

} // verus!
