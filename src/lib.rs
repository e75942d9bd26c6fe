//! A bounded state-store: one optional byte blob that never exceeds a fixed
//! capacity, behind authenticated `store` / `clear` entry points that emit
//! events on success and leave everything untouched on failure.
//!
//! Two transition modules share the cell: `messagehash` clears without
//! condition and guards an item count beside the byte length; `por` refuses to
//! clear an empty cell.
use vstd::prelude::*;

pub mod cell;
pub mod laws;
pub mod messagehash;
pub mod por;

verus! {

/// An authenticated caller, resolved by the executor before dispatch. The
/// modules only compare it and copy it into events.
#[derive(Debug, Clone, Copy, PartialEq, Eq, Structural)]
pub struct AccountId(pub u64);

/// One call as the executor routes it into a transition module.
#[derive(Debug)]
pub enum Call {
    /// Store the given bytes.
    Store(Vec<u8>),
    /// Clear the stored value.
    Clear,
}

/// What a call asks for, as a mathematical value.
pub enum CallSpec {
    Store(Seq<u8>),
    Clear,
}

impl View for Call {
    type V = CallSpec;

    open spec fn view(&self) -> CallSpec {
        match self {
            Call::Store(d) => CallSpec::Store(d@),
            Call::Clear => CallSpec::Clear,
        }
    }
}

/// A copy of a call, byte for byte.
pub fn copy_call(call: &Call) -> (r: Call)
    ensures
        r@ == call@,
{
    match call {
        Call::Store(d) => {
            let c = d.clone();
            assert(c@ =~= d@);
            Call::Store(c)
        },
        Call::Clear => Call::Clear,
    }
}

} // verus!
