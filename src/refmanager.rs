use vstd::prelude::*;

use crate::model::CellState;
use crate::{first_access, RefThreadLocal};
use vstd::pervasive::{runtime_assert, unreached};

verus! {

/// Returned by `try_borrow` when an exclusive borrow is outstanding.
#[derive(Debug)]
pub struct BorrowError {
    _private: (),
}

/// Returned by `try_borrow_mut` when any borrow is outstanding.
#[derive(Debug)]
pub struct BorrowMutError {
    _private: (),
}

/// The live borrow state of one cell: the borrow counter and the payload.
struct RefManagerInnerData<T> {
    borrow_count: isize,
    value: T,
}

/// A copyable snapshot of a cell's borrow status.
#[derive(Clone, Copy, Debug, PartialEq, Eq)]
pub struct RefManagerPeekData {
    pub initialized: bool,
    pub borrow_count: isize,
}

/// A shared borrow claim on a cell. It is given back with `Ref::release`.
pub struct Ref<T> {
    _marker: core::marker::PhantomData<T>,
}

/// An exclusive borrow claim on a cell. It is given back with
/// `RefMut::release`.
pub struct RefMut<T> {
    _marker: core::marker::PhantomData<T>,
}

/// Per-thread storage of one cell: absent until first access, then the live
/// borrow state.
pub struct RefManagerDataGuard<T> {
    inner: Option<RefManagerInnerData<T>>,
    evaluations: Ghost<nat>,
}

impl<T> View for RefManagerDataGuard<T> {
    type V = CellState<T>;

    closed spec fn view(&self) -> CellState<T> {
        match self.inner {
            Some(d) => CellState::Live { count: d.borrow_count as int, value: d.value },
            None => CellState::Uninitialized,
        }
    }
}

impl<T> RefManagerDataGuard<T> {
    /// How many times an initializer has been evaluated for this cell.
    pub closed spec fn evaluations(&self) -> nat {
        self.evaluations@
    }

    /// The counter never goes below `-1`.
    pub open spec fn wf(&self) -> bool {
        self@.wf()
    }

    /// From `old` to `self`, the initializer `init` ran exactly when `old` was
    /// absent, and then produced the value; a live value was kept.
    pub open spec fn initializer_ran<F: FnOnce() -> T>(&self, old: Self, init: F) -> bool {
        &&& first_access(old@, old.evaluations(), self@.value(), self.evaluations())
        &&& !old@.is_live() ==> init.ensures((), self@.value())
    }

    /// `self` is `old` after the lazy initialization by `init` that every
    /// access performs.
    pub open spec fn lazily_initialized<F: FnOnce() -> T>(&self, old: Self, init: F) -> bool {
        &&& self@ == old@.ensure_live(self@.value())
        &&& self.initializer_ran(old, init)
    }

    /// Storage of a cell that is absent and whose initializer never ran.
    pub fn new() -> (r: Self)
        ensures
            r.wf(),
            r@ == CellState::<T>::Uninitialized,
            r.evaluations() == 0,
    {
        RefManagerDataGuard { inner: None, evaluations: Ghost(0) }
    }

    /// Whether the cell is live; never runs an initializer.
    pub fn is_initialized(&self) -> (r: bool)
        ensures
            r == self@.is_live(),
    {
        self.inner.is_some()
    }

    /// The cell's borrow status; an absent cell reads as free.
    pub fn peek(&self) -> (r: RefManagerPeekData)
        ensures
            r.initialized == self@.is_live(),
            r.borrow_count as int == self@.count(),
    {
        match &self.inner {
            Some(d) => RefManagerPeekData { initialized: true, borrow_count: d.borrow_count },
            None => RefManagerPeekData { initialized: false, borrow_count: 0 },
        }
    }

    /// Installs a fresh state built by `init` if the cell is absent; never
    /// replaces a live state.
    pub fn initialize<F: FnOnce() -> T>(&mut self, init: F) -> (r: Result<(), ()>)
        requires
            old(self).wf(),
            init.requires(()),
        ensures
            final(self).wf(),
            final(self).lazily_initialized(*old(self), init),
            r is Ok <==> !old(self)@.is_live(),
    {
        if self.inner.is_none() {
            let value = init();
            self.inner = Some(RefManagerInnerData { borrow_count: 0, value });
            self.evaluations = Ghost(self.evaluations@ + 1);
            Ok(())
        } else {
            Err(())
        }
    }

    /// Initializes the cell if it is absent and returns its counter.
    fn get_initialized_peek<F: FnOnce() -> T>(&mut self, init: F) -> (r: isize)
        requires
            old(self).wf(),
            init.requires(()),
        ensures
            final(self).wf(),
            final(self).lazily_initialized(*old(self), init),
            r as int == final(self)@.count(),
    {
        if self.inner.is_none() {
            let _ = self.initialize(init);
        }
        match &self.inner {
            Some(d) => d.borrow_count,
            None => 0,
        }
    }

    fn set_count(&mut self, count: isize)
        requires
            old(self)@.is_live(),
            count >= -1,
        ensures
            final(self)@ == old(self)@.with_count(count as int),
            final(self).evaluations() == old(self).evaluations(),
    {
        if let Some(d) = &mut self.inner {
            d.borrow_count = count;
        }
    }

    /// Takes a shared borrow, initializing the cell first if it is absent.
    pub fn try_borrow<F: FnOnce() -> T>(&mut self, init: F) -> (r: Result<Ref<T>, BorrowError>)
        requires
            old(self).wf(),
            old(self)@.count() < isize::MAX,
            init.requires(()),
        ensures
            final(self).wf(),
            final(self).initializer_ran(*old(self), init),
            r is Ok <==> old(self)@.can_borrow(),
            r is Ok ==> final(self)@ == old(self)@.ensure_live(final(self)@.value()).after_borrow(),
            r is Err ==> final(self)@ == old(self)@,
    {
        let count = self.get_initialized_peek(init);
        if count < 0 {
            return Err(BorrowError { _private: () });
        }
        self.set_count(count + 1);
        Ok(Ref { _marker: core::marker::PhantomData })
    }

    /// Takes the exclusive borrow, initializing the cell first if it is
    /// absent.
    pub fn try_borrow_mut<F: FnOnce() -> T>(&mut self, init: F) -> (r: Result<
        RefMut<T>,
        BorrowMutError,
    >)
        requires
            old(self).wf(),
            init.requires(()),
        ensures
            final(self).wf(),
            final(self).initializer_ran(*old(self), init),
            r is Ok <==> old(self)@.can_borrow_mut(),
            r is Ok ==> final(self)@ == old(self)@.ensure_live(
                final(self)@.value(),
            ).after_borrow_mut(),
            r is Err ==> final(self)@ == old(self)@,
    {
        let count = self.get_initialized_peek(init);
        if count != 0 {
            return Err(BorrowMutError { _private: () });
        }
        self.set_count(-1);
        Ok(RefMut { _marker: core::marker::PhantomData })
    }

    /// Takes a shared borrow; an outstanding exclusive borrow is a usage
    /// error, excluded here.
    pub fn borrow<F: FnOnce() -> T>(&mut self, init: F) -> (r: Ref<T>)
        requires
            old(self).wf(),
            old(self)@.can_borrow(),
            old(self)@.count() < isize::MAX,
            init.requires(()),
        ensures
            final(self).wf(),
            final(self).initializer_ran(*old(self), init),
            final(self)@ == old(self)@.ensure_live(final(self)@.value()).after_borrow(),
    {
        self.try_borrow(init).expect("already mutably borrowed")
    }

    /// Takes the exclusive borrow; any outstanding borrow is a usage error,
    /// excluded here.
    pub fn borrow_mut<F: FnOnce() -> T>(&mut self, init: F) -> (r: RefMut<T>)
        requires
            old(self).wf(),
            old(self)@.can_borrow_mut(),
            init.requires(()),
        ensures
            final(self).wf(),
            final(self).initializer_ran(*old(self), init),
            final(self)@ == old(self)@.ensure_live(final(self)@.value()).after_borrow_mut(),
    {
        self.try_borrow_mut(init).expect("already borrowed")
    }

    /// Drops the live state and makes the cell absent again. Fails on an
    /// absent cell. Destroying while a borrow is outstanding is a usage error:
    /// it is excluded here and aborts at run time.
    pub fn destroy(&mut self) -> (r: Result<(), ()>)
        requires
            old(self).wf(),
            old(self)@.can_borrow_mut(),
        ensures
            final(self).wf(),
            r is Ok <==> old(self)@.is_live(),
            final(self)@ == CellState::<T>::Uninitialized,
            final(self).evaluations() == old(self).evaluations(),
    {
        match &self.inner {
            None => Err(()),
            Some(d) => {
                runtime_assert(d.borrow_count == 0);
                self.inner = None;
                Ok(())
            },
        }
    }
}

impl<T> Ref<T> {
    /// The value that this shared borrow reads.
    pub fn deref<'a>(&self, cell: &'a RefManagerDataGuard<T>) -> (r: &'a T)
        requires
            cell@.is_live(),
            cell@.count() > 0,
        ensures
            *r == cell@.value(),
    {
        match &cell.inner {
            Some(d) => &d.value,
            None => unreached(),
        }
    }

    /// Gives this shared borrow back: the counter goes down by one.
    pub fn release(self, cell: &mut RefManagerDataGuard<T>)
        requires
            old(cell)@.is_live(),
            old(cell)@.count() > 0,
        ensures
            final(cell)@ == old(cell)@.after_release(),
            final(cell).evaluations() == old(cell).evaluations(),
    {
        let count = cell.peek().borrow_count;
        cell.set_count(count - 1);
    }
}

impl<T> RefMut<T> {
    /// The value that this exclusive borrow reads.
    pub fn deref<'a>(&self, cell: &'a RefManagerDataGuard<T>) -> (r: &'a T)
        requires
            cell@.is_live(),
            cell@.count() == -1,
        ensures
            *r == cell@.value(),
    {
        match &cell.inner {
            Some(d) => &d.value,
            None => unreached(),
        }
    }

    /// The value that this exclusive borrow writes.
    pub fn deref_mut<'a>(&self, cell: &'a mut RefManagerDataGuard<T>) -> (r: &'a mut T)
        requires
            old(cell)@.is_live(),
            old(cell)@.count() == -1,
        ensures
            *r == old(cell)@.value(),
            final(cell)@ == (CellState::Live { count: -1, value: *final(r) }),
            final(cell).evaluations() == old(cell).evaluations(),
    {
        match &mut cell.inner {
            Some(d) => &mut d.value,
            None => unreached(),
        }
    }

    /// Gives the exclusive borrow back: the counter is reset to free.
    pub fn release(self, cell: &mut RefManagerDataGuard<T>)
        requires
            old(cell)@.is_live(),
            old(cell)@.count() == -1,
        ensures
            final(cell)@ == old(cell)@.after_release_mut(),
            final(cell).evaluations() == old(cell).evaluations(),
    {
        cell.set_count(0);
    }
}

/// The façade of one cell: its per-thread storage and its initializer.
pub struct RefManager<T, F> {
    data: RefManagerDataGuard<T>,
    init_func: F,
}

impl<T, F: Fn() -> T> RefManager<T, F> {
    pub closed spec fn data(&self) -> RefManagerDataGuard<T> {
        self.data
    }

    pub closed spec fn init_func(&self) -> F {
        self.init_func
    }

    /// A manager of an absent cell with initializer `init_func`.
    pub fn new(init_func: F) -> (r: Self)
        requires
            init_func.requires(()),
        ensures
            r.inv(),
            r.state() == CellState::<T>::Uninitialized,
            r.evaluations() == 0,
            r.init_func() == init_func,
    {
        RefManager { data: RefManagerDataGuard::new(), init_func }
    }

    /// The cell's storage, for reading through a borrow claim.
    pub fn data_ref(&self) -> (r: &RefManagerDataGuard<T>)
        ensures
            *r == self.data(),
    {
        &self.data
    }

    /// The cell's storage, for writing through or releasing a borrow claim.
    pub fn data_mut(&mut self) -> (r: &mut RefManagerDataGuard<T>)
        ensures
            *r == old(self).data(),
            final(self).data() == *final(r),
            final(self).init_func() == old(self).init_func(),
    {
        &mut self.data
    }
}

impl<T, F: Fn() -> T> RefThreadLocal<T> for RefManager<T, F> {
    open spec fn state(&self) -> CellState<T> {
        self.data()@
    }

    open spec fn evaluations(&self) -> nat {
        self.data().evaluations()
    }

    open spec fn initial_value(&self, v: T) -> bool {
        self.init_func().ensures((), v)
    }

    open spec fn inv(&self) -> bool {
        &&& self.data().wf()
        &&& self.init_func().requires(())
    }

    fn initialize(&mut self) -> (r: Result<(), ()>) {
        self.data.initialize(&self.init_func)
    }

    fn destroy(&mut self) -> (r: Result<(), ()>) {
        self.data.destroy()
    }

    fn is_initialized(&self) -> (r: bool) {
        self.data.is_initialized()
    }

    fn borrow(&mut self) -> (r: Ref<T>) {
        self.data.borrow(&self.init_func)
    }

    fn borrow_mut(&mut self) -> (r: RefMut<T>) {
        self.data.borrow_mut(&self.init_func)
    }

    fn try_borrow(&mut self) -> (r: Result<Ref<T>, BorrowError>) {
        self.data.try_borrow(&self.init_func)
    }

    fn try_borrow_mut(&mut self) -> (r: Result<RefMut<T>, BorrowMutError>) {
        self.data.try_borrow_mut(&self.init_func)
    }
}

} // verus!
