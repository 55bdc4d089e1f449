use vstd::prelude::*;

verus! {

/// What a `MemoryCell` holds, as a mathematical value: the current value
/// and the optional previous one.
pub struct CellView<T> {
    pub current: T,
    pub last: Option<T>,
}

impl<T> CellView<T> {
    /// The state of a cell made from `v` alone: no previous value.
    pub open spec fn fresh(v: T) -> CellView<T> {
        CellView { current: v, last: None }
    }

    /// One update: the current value moves into `last`, `new` becomes current.
    pub open spec fn updated(self, new: T) -> CellView<T> {
        CellView { current: new, last: Some(self.current) }
    }

    /// Whether a previous value is held.
    pub open spec fn has_previous(self) -> bool {
        self.last.is_some()
    }

    /// The state reached by applying the updates `vs` in order.
    pub open spec fn after(self, vs: Seq<T>) -> CellView<T>
        decreases vs.len(),
    {
        if vs.len() == 0 {
            self
        } else {
            self.after(vs.drop_last()).updated(vs.last())
        }
    }
}

/// A cell containing a value (`T`), and the last (previous) value stored in the cell.
#[derive(Debug, Clone)]
pub struct MemoryCell<T> {
    current: T,
    last_val: Option<T>,
}

impl<T> View for MemoryCell<T> {
    type V = CellView<T>;

    closed spec fn view(&self) -> CellView<T> {
        CellView { current: self.current, last: self.last_val }
    }
}

impl<T> MemoryCell<T> {
    /// Create a new `MemoryCell` with the given value and no previous value.
    pub fn new(current: T) -> (r: Self)
        ensures
            r@ == CellView::fresh(current),
    {
        MemoryCell { current, last_val: None }
    }

    /// Create a new `MemoryCell` containing the given previous value.
    /// The two values are taken as they are; nothing relates them.
    pub fn with_last(current: T, last_val: Option<T>) -> (r: Self)
        ensures
            r@ == (CellView { current, last: last_val }),
    {
        MemoryCell { current, last_val }
    }

    /// Set the current value as the last value, then set the current value
    /// to the given argument. The former last value is dropped.
    pub fn update(&mut self, new: T)
        ensures
            final(self)@ == old(self)@.updated(new),
    {
        let mut moved = new;
        core::mem::swap(&mut self.current, &mut moved);
        self.last_val = Some(moved);
    }

    /// Take the current value contained within this `MemoryCell`.
    pub fn take_current(self) -> (r: T)
        ensures
            r == self@.current,
    {
        self.current
    }

    /// Take the previous value contained within this `MemoryCell`.
    pub fn take_last(self) -> (r: Option<T>)
        ensures
            r == self@.last,
    {
        self.last_val
    }

    /// Take both the current and last value of this `MemoryCell`, current first.
    pub fn take_both(self) -> (r: (T, Option<T>))
        ensures
            r.0 == self@.current,
            r.1 == self@.last,
    {
        (self.current, self.last_val)
    }

    /// Get whether this `MemoryCell` contains a previous value.
    pub fn has_previous(&self) -> (r: bool)
        ensures
            r == self@.has_previous(),
            r == self@.last.is_some(),
    {
        self.last_val.is_some()
    }

    /// Get the current value contained within this `MemoryCell`.
    pub fn current(&self) -> (r: &T)
        ensures
            *r == self@.current,
    {
        &self.current
    }

    /// Get the last value contained in this `MemoryCell`.
    pub fn last(&self) -> (r: &Option<T>)
        ensures
            *r == self@.last,
    {
        &self.last_val
    }
}

} // verus!
