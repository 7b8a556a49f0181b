//! Thread-local storage cells with dynamic borrow checking.
//!
//! Each cell is lazily initialized on first access, hands out shared or
//! exclusive borrow claims under a runtime counter, and can be destroyed and
//! re-initialized at any point of a thread's life.
//!
//! A `RefManagerDataGuard` is the storage of one cell on one thread and holds
//! the borrow protocol; a `RefManager` pairs it with the cell's initializer.
//! Borrows hand out claims (`Ref`, `RefMut`) that read or write through the
//! storage and are given back explicitly. `model` states the protocol as a
//! state machine over `CellState` and proves its laws.
use vstd::prelude::*;

pub mod model;
pub mod refmanager;

pub use model::CellState;
pub use refmanager::{
    BorrowError, BorrowMutError, Ref, RefManager, RefManagerDataGuard, RefManagerPeekData, RefMut,
};

verus! {

/// A managed cell: lazy initialization, explicit destroy and runtime-checked
/// borrows.
pub trait RefThreadLocal<T> {
    /// The cell's current state.
    spec fn state(&self) -> CellState<T>;

    /// How many times the cell's initializer has been evaluated.
    spec fn evaluations(&self) -> nat;

    /// `v` is a value that the cell's initializer may produce.
    spec fn initial_value(&self, v: T) -> bool;

    spec fn inv(&self) -> bool;

    /// Runs the initializer if the cell is absent; fails, changing nothing,
    /// if it is live.
    fn initialize(&mut self) -> (r: Result<(), ()>)
        requires
            old(self).inv(),
        ensures
            final(self).inv(),
            r is Ok <==> !old(self).state().is_live(),
            final(self).state() == old(self).state().ensure_live(final(self).state().value()),
            first_access(
                old(self).state(),
                old(self).evaluations(),
                final(self).state().value(),
                final(self).evaluations(),
            ),
            !old(self).state().is_live() ==> final(self).initial_value(
                final(self).state().value(),
            ),
    ;

    /// Makes the cell absent again; fails if it already is. No borrow may be
    /// outstanding.
    fn destroy(&mut self) -> (r: Result<(), ()>)
        requires
            old(self).inv(),
            old(self).state().can_borrow_mut(),
        ensures
            final(self).inv(),
            r is Ok <==> old(self).state().is_live(),
            final(self).state() == CellState::<T>::Uninitialized,
            final(self).evaluations() == old(self).evaluations(),
    ;

    /// Whether the cell is live; never runs the initializer.
    fn is_initialized(&self) -> (r: bool)
        ensures
            r == self.state().is_live(),
    ;

    /// A shared borrow; no exclusive borrow may be outstanding.
    fn borrow(&mut self) -> (r: Ref<T>)
        requires
            old(self).inv(),
            old(self).state().can_borrow(),
            old(self).state().count() < isize::MAX,
        ensures
            final(self).inv(),
            final(self).state() == old(self).state().ensure_live(
                final(self).state().value(),
            ).after_borrow(),
            first_access(
                old(self).state(),
                old(self).evaluations(),
                final(self).state().value(),
                final(self).evaluations(),
            ),
            !old(self).state().is_live() ==> final(self).initial_value(
                final(self).state().value(),
            ),
    ;

    /// The exclusive borrow; no borrow may be outstanding.
    fn borrow_mut(&mut self) -> (r: RefMut<T>)
        requires
            old(self).inv(),
            old(self).state().can_borrow_mut(),
        ensures
            final(self).inv(),
            final(self).state() == old(self).state().ensure_live(
                final(self).state().value(),
            ).after_borrow_mut(),
            first_access(
                old(self).state(),
                old(self).evaluations(),
                final(self).state().value(),
                final(self).evaluations(),
            ),
            !old(self).state().is_live() ==> final(self).initial_value(
                final(self).state().value(),
            ),
    ;

    /// A shared borrow, or `BorrowError` while an exclusive one is
    /// outstanding.
    fn try_borrow(&mut self) -> (r: Result<Ref<T>, BorrowError>)
        requires
            old(self).inv(),
            old(self).state().count() < isize::MAX,
        ensures
            final(self).inv(),
            r is Ok <==> old(self).state().can_borrow(),
            r is Ok ==> final(self).state() == old(self).state().ensure_live(
                final(self).state().value(),
            ).after_borrow(),
            r is Err ==> final(self).state() == old(self).state(),
            first_access(
                old(self).state(),
                old(self).evaluations(),
                final(self).state().value(),
                final(self).evaluations(),
            ),
            !old(self).state().is_live() ==> final(self).initial_value(
                final(self).state().value(),
            ),
    ;

    /// The exclusive borrow, or `BorrowMutError` while any borrow is
    /// outstanding.
    fn try_borrow_mut(&mut self) -> (r: Result<RefMut<T>, BorrowMutError>)
        requires
            old(self).inv(),
        ensures
            final(self).inv(),
            r is Ok <==> old(self).state().can_borrow_mut(),
            r is Ok ==> final(self).state() == old(self).state().ensure_live(
                final(self).state().value(),
            ).after_borrow_mut(),
            r is Err ==> final(self).state() == old(self).state(),
            first_access(
                old(self).state(),
                old(self).evaluations(),
                final(self).state().value(),
                final(self).evaluations(),
            ),
            !old(self).state().is_live() ==> final(self).initial_value(
                final(self).state().value(),
            ),
    ;
}

/// An access that finds the cell in state `old` after `old_evaluations`
/// evaluations of its initializer: when the cell was absent the initializer
/// ran exactly once more, else it did not run and the value was kept.
pub open spec fn first_access<T>(
    old: CellState<T>,
    old_evaluations: nat,
    new_value: T,
    new_evaluations: nat,
) -> bool {
    if old.is_live() {
        &&& new_value == old.value()
        &&& new_evaluations == old_evaluations
    } else {
        new_evaluations == old_evaluations + 1
    }
}

} // verus!
