//! A container of exactly three slots, each holding one `u32` or nothing.
//!
//! The container is modelled by the sequence of its three slots. Every
//! operation is described by a pair of spec functions over that sequence: the
//! outcome of the call, and the slots it leaves behind.

use vstd::prelude::*;

verus! {

/// Why an operation on a slot cannot be carried out.
#[derive(Clone, Copy, Debug, PartialEq, Eq, Structural)]
pub enum SlotError {
    /// The index names no slot.
    OutOfBounds,
    /// The slot holds no value.
    EmptySlot,
}

/// The number of slots of a `BoxVec`.
pub const SLOTS: usize = 3;

/// The slots of a freshly made container: three, all of them empty.
pub open spec fn empty_cells() -> Seq<Option<u32>> {
    Seq::new(3, |i: int| None::<u32>)
}

/// What looking into slot `i` gives.
pub open spec fn peek_outcome(cells: Seq<Option<u32>>, i: int) -> Result<u32, SlotError> {
    if !(0 <= i < SLOTS) {
        Err(SlotError::OutOfBounds)
    } else {
        match cells[i] {
            Some(value) => Ok(value),
            None => Err(SlotError::EmptySlot),
        }
    }
}

/// What `replace` hands back: the value already in slot `i`, or else the new
/// value, which it stores.
pub open spec fn replace_outcome(cells: Seq<Option<u32>>, i: int, new_value: u32) -> Result<
    u32,
    SlotError,
> {
    if !(0 <= i < SLOTS) {
        Err(SlotError::OutOfBounds)
    } else {
        match cells[i] {
            Some(value) => Ok(value),
            None => Ok(new_value),
        }
    }
}

/// The slots after `replace`: an occupied slot is never overwritten.
pub open spec fn cells_after_replace(cells: Seq<Option<u32>>, i: int, new_value: u32) -> Seq<
    Option<u32>,
> {
    if 0 <= i < SLOTS && cells[i] is None {
        cells.update(i, Some(new_value))
    } else {
        cells
    }
}

/// What `remove` hands back: the value that was in slot `i`.
pub open spec fn remove_outcome(cells: Seq<Option<u32>>, i: int) -> Result<u32, SlotError> {
    peek_outcome(cells, i)
}

/// The slots after `remove`: slot `i` is empty, the others are untouched.
pub open spec fn cells_after_remove(cells: Seq<Option<u32>>, i: int) -> Seq<Option<u32>> {
    if 0 <= i < SLOTS && cells[i] is Some {
        cells.update(i, None)
    } else {
        cells
    }
}

/// Three slots, indexed 0 to 2.
#[derive(Debug)]
pub struct BoxVec {
    cells: [Option<u32>; 3],
}

impl View for BoxVec {
    type V = Seq<Option<u32>>;

    closed spec fn view(&self) -> Seq<Option<u32>> {
        self.cells@
    }
}

impl BoxVec {
    /// A container always has exactly three slots.
    pub proof fn lemma_three_slots(&self)
        ensures
            self@.len() == 3,
    {
    }

    /// A container with all three slots empty.
    pub fn new() -> (b: BoxVec)
        ensures
            b@ == empty_cells(),
    {
        let b = BoxVec { cells: [None, None, None] };
        assert(b@ =~= empty_cells());
        b
    }

    /// The value in slot `box_index`, or the reason why there is none.
    pub fn try_peek(&self, box_index: usize) -> (r: Result<u32, SlotError>)
        ensures
            r == peek_outcome(self@, box_index as int),
    {
        if box_index >= SLOTS {
            return Err(SlotError::OutOfBounds);
        }
        match self.cells[box_index] {
            Some(value) => Ok(value),
            None => Err(SlotError::EmptySlot),
        }
    }

    /// The value in slot `box_index`, which must exist and be occupied.
    pub fn peek(&self, box_index: usize) -> (value: u32)
        requires
            peek_outcome(self@, box_index as int) is Ok,
        ensures
            peek_outcome(self@, box_index as int) == Ok::<u32, SlotError>(value),
    {
        match self.cells[box_index] {
            Some(value) => value,
            None => vstd::pervasive::unreached(),
        }
    }

    /// Stores `new_value` in slot `box_index` if the slot is empty, and leaves
    /// an occupied slot as it is. Returns the value the slot holds afterwards.
    pub fn try_replace(&mut self, box_index: usize, new_value: u32) -> (r: Result<u32, SlotError>)
        ensures
            r == replace_outcome(old(self)@, box_index as int, new_value),
            final(self)@ == cells_after_replace(old(self)@, box_index as int, new_value),
    {
        if box_index >= SLOTS {
            return Err(SlotError::OutOfBounds);
        }
        match self.cells[box_index] {
            Some(value) => Ok(value),
            None => {
                self.cells[box_index] = Some(new_value);
                Ok(new_value)
            },
        }
    }

    /// Stores `new_value` in slot `box_index` if the slot is empty, and leaves
    /// an occupied slot as it is. Returns the value the slot holds afterwards.
    /// The slot must exist.
    pub fn replace(&mut self, box_index: usize, new_value: u32) -> (value: u32)
        requires
            box_index < SLOTS,
        ensures
            replace_outcome(old(self)@, box_index as int, new_value) == Ok::<u32, SlotError>(value),
            final(self)@ == cells_after_replace(old(self)@, box_index as int, new_value),
    {
        match self.cells[box_index] {
            Some(value) => value,
            None => {
                self.cells[box_index] = Some(new_value);
                new_value
            },
        }
    }

    /// Empties slot `box_index` and returns the value that was in it, or says
    /// why there was none; the container is then unchanged.
    pub fn try_remove(&mut self, box_index: usize) -> (r: Result<u32, SlotError>)
        ensures
            r == remove_outcome(old(self)@, box_index as int),
            final(self)@ == cells_after_remove(old(self)@, box_index as int),
    {
        if box_index >= SLOTS {
            return Err(SlotError::OutOfBounds);
        }
        match self.cells[box_index] {
            Some(value) => {
                self.cells[box_index] = None;
                Ok(value)
            },
            None => Err(SlotError::EmptySlot),
        }
    }

    /// Empties slot `box_index`, which must exist and be occupied, and
    /// returns the value that was in it.
    pub fn remove(&mut self, box_index: usize) -> (value: u32)
        requires
            remove_outcome(old(self)@, box_index as int) is Ok,
        ensures
            remove_outcome(old(self)@, box_index as int) == Ok::<u32, SlotError>(value),
            final(self)@ == cells_after_remove(old(self)@, box_index as int),
    {
        match self.cells[box_index] {
            Some(value) => {
                self.cells[box_index] = None;
                value
            },
            None => vstd::pervasive::unreached(),
        }
    }

    /// A container holding the given slots.
    pub fn from_cells(cells: [Option<u32>; 3]) -> (b: BoxVec)
        ensures
            b@ == cells@,
    {
        BoxVec { cells }
    }

    /// A copy of the three slots.
    pub fn cells(&self) -> (cells: [Option<u32>; 3])
        ensures
            cells@ == self@,
    {
        self.cells
    }
}

/// In a new container every slot is empty: looking into any of the three
/// finds nothing.
pub proof fn lemma_new_holds_nothing(i: int)
    requires
        0 <= i < 3,
    ensures
        peek_outcome(empty_cells(), i) == Err::<u32, SlotError>(SlotError::EmptySlot),
{
}

/// After `replace` on an empty slot, and so on any slot of a new container,
/// the slot holds the value that was given, and `replace` returned it.
pub proof fn lemma_replace_then_peek(cells: Seq<Option<u32>>, i: int, v: u32)
    requires
        cells.len() == 3,
        0 <= i < 3,
        cells[i] is None,
    ensures
        replace_outcome(cells, i, v) == Ok::<u32, SlotError>(v),
        peek_outcome(cells_after_replace(cells, i, v), i) == Ok::<u32, SlotError>(v),
        cells_after_replace(empty_cells(), i, v)[i] == Some(v),
{
}

/// `replace` never overwrites: a second `replace` on the same slot changes
/// nothing and returns what the first one returned. Where the slot was empty
/// at the start, it holds the first value after both calls.
pub proof fn lemma_replace_twice(cells: Seq<Option<u32>>, i: int, v1: u32, v2: u32)
    requires
        cells.len() == 3,
        0 <= i < 3,
    ensures
        ({
            let once = cells_after_replace(cells, i, v1);
            let twice = cells_after_replace(once, i, v2);
            &&& twice == once
            &&& replace_outcome(once, i, v2) == replace_outcome(cells, i, v1)
            &&& peek_outcome(twice, i) == replace_outcome(cells, i, v1)
            &&& cells[i] is None ==> peek_outcome(twice, i) == Ok::<u32, SlotError>(v1)
        }),
{
}

/// After `replace` and then `remove` on the same slot, the slot is empty,
/// whatever it held before, and the other slots are as they were.
pub proof fn lemma_replace_then_remove(cells: Seq<Option<u32>>, i: int, v: u32)
    requires
        cells.len() == 3,
        0 <= i < 3,
    ensures
        ({
            let stored = cells_after_replace(cells, i, v);
            let cleared = cells_after_remove(stored, i);
            &&& remove_outcome(stored, i) == replace_outcome(cells, i, v)
            &&& peek_outcome(cleared, i) == Err::<u32, SlotError>(SlotError::EmptySlot)
            &&& cleared == cells.update(i, None)
        }),
{
    let stored = cells_after_replace(cells, i, v);
    assert(cells_after_remove(stored, i) =~= cells.update(i, None));
}

/// An index past the last slot is refused by every operation, and the
/// container stays as it is.
pub proof fn lemma_out_of_bounds(cells: Seq<Option<u32>>, i: int, v: u32)
    requires
        cells.len() == 3,
        i >= 3,
    ensures
        peek_outcome(cells, i) == Err::<u32, SlotError>(SlotError::OutOfBounds),
        replace_outcome(cells, i, v) == Err::<u32, SlotError>(SlotError::OutOfBounds),
        remove_outcome(cells, i) == Err::<u32, SlotError>(SlotError::OutOfBounds),
        cells_after_replace(cells, i, v) == cells,
        cells_after_remove(cells, i) == cells,
{
}

/// Every operation keeps the number of slots at three.
pub proof fn lemma_slots_are_kept(cells: Seq<Option<u32>>, i: int, v: u32)
    requires
        cells.len() == 3,
    ensures
        cells_after_replace(cells, i, v).len() == 3,
        cells_after_remove(cells, i).len() == 3,
{
}

} // verus!
