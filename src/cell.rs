//! The bounded value cell: at most one byte sequence, never longer than the
//! capacity the cell was built with.
use vstd::prelude::*;

verus! {

/// The mathematical state of a cell.
pub struct CellView {
    pub capacity: nat,
    pub value: Option<Seq<u8>>,
}

/// A value fits a capacity when it is absent or no longer than it.
pub open spec fn fits(value: Option<Seq<u8>>, capacity: nat) -> bool {
    match value {
        Some(b) => b.len() <= capacity,
        None => true,
    }
}

/// The error of a write that would overflow the cell.
#[derive(Debug, Clone, Copy, PartialEq, Eq, Structural)]
pub struct CapacityExceeded;

/// A slot holding at most one byte sequence within a fixed capacity.
pub struct BoundedCell {
    capacity: usize,
    value: Option<Vec<u8>>,
}

impl View for BoundedCell {
    type V = CellView;

    closed spec fn view(&self) -> CellView {
        CellView {
            capacity: self.capacity as nat,
            value: match self.value {
                Some(v) => Some(v@),
                None => None,
            },
        }
    }
}

impl BoundedCell {
    /// The capacity invariant: the stored value never exceeds the capacity.
    pub open spec fn wf(&self) -> bool {
        fits(self@.value, self@.capacity)
    }

    /// An empty cell with the given capacity.
    pub fn new(capacity: usize) -> (r: BoundedCell)
        ensures
            r.wf(),
            r@.capacity == capacity,
            r@.value is None,
    {
        BoundedCell { capacity, value: None }
    }

    /// The capacity fixed at construction.
    pub fn capacity(&self) -> (r: usize)
        ensures
            r == self@.capacity,
    {
        self.capacity
    }

    /// Replaces the stored value with `bytes` and returns its length, or
    /// rejects a value longer than the capacity and leaves the cell as it was.
    pub fn set(&mut self, bytes: Vec<u8>) -> (r: Result<usize, CapacityExceeded>)
        requires
            old(self).wf(),
        ensures
            final(self).wf(),
            final(self)@.capacity == old(self)@.capacity,
            bytes@.len() <= old(self)@.capacity ==> r == Ok::<usize, CapacityExceeded>(
                bytes@.len() as usize,
            ) && final(self)@.value == Some(bytes@),
            bytes@.len() > old(self)@.capacity ==> r == Err::<usize, CapacityExceeded>(
                CapacityExceeded,
            ) && final(self)@ == old(self)@,
    {
        if bytes.len() > self.capacity {
            return Err(CapacityExceeded);
        }
        let n = bytes.len();
        self.value = Some(bytes);
        Ok(n)
    }

    /// Empties the cell; tells whether a value was present before.
    pub fn clear(&mut self) -> (r: bool)
        requires
            old(self).wf(),
        ensures
            final(self).wf(),
            final(self)@.capacity == old(self)@.capacity,
            final(self)@.value is None,
            r == old(self)@.value is Some,
    {
        let had = self.value.is_some();
        self.value = None;
        had
    }

    /// Whether a value is stored.
    pub fn is_present(&self) -> (r: bool)
        ensures
            r == self@.value is Some,
    {
        self.value.is_some()
    }

    /// The stored value, if any.
    pub fn get(&self) -> (r: Option<&Vec<u8>>)
        ensures
            match r {
                Some(v) => self@.value == Some(v@),
                None => self@.value is None,
            },
    {
        match &self.value {
            Some(v) => Some(v),
            None => None,
        }
    }

    /// The length of the stored value, zero when absent.
    pub fn len(&self) -> (r: usize)
        ensures
            r == match self@.value {
                Some(b) => b.len(),
                None => 0,
            },
    {
        match &self.value {
            Some(v) => v.len(),
            None => 0,
        }
    }
}

} // verus!
