use vstd::prelude::*;

verus! {

/// The state of one cell on one thread.
///
/// `count` is positive for that many live shared borrows, `-1` for one live
/// exclusive borrow, and `0` when the cell is free.
pub enum CellState<T> {
    Uninitialized,
    Live { count: int, value: T },
}

impl<T> CellState<T> {
    pub open spec fn is_live(self) -> bool {
        self is Live
    }

    /// The borrow counter; an absent cell counts as free.
    pub open spec fn count(self) -> int {
        match self {
            CellState::Live { count, .. } => count,
            CellState::Uninitialized => 0,
        }
    }

    pub open spec fn value(self) -> T {
        self->value
    }

    /// No counter value below `-1` ever occurs.
    pub open spec fn wf(self) -> bool {
        self.count() >= -1
    }

    /// A shared borrow is granted unless an exclusive one is live.
    pub open spec fn can_borrow(self) -> bool {
        self.count() >= 0
    }

    /// An exclusive borrow is granted only when no borrow is live.
    pub open spec fn can_borrow_mut(self) -> bool {
        self.count() == 0
    }

    /// The cell after lazy initialization with `v`: unchanged when live.
    pub open spec fn ensure_live(self, v: T) -> Self {
        match self {
            CellState::Uninitialized => CellState::Live { count: 0, value: v },
            _ => self,
        }
    }

    pub open spec fn with_count(self, count: int) -> Self {
        CellState::Live { count, value: self.value() }
    }

    /// One more shared borrow.
    pub open spec fn after_borrow(self) -> Self {
        self.with_count(self.count() + 1)
    }

    /// An exclusive borrow taken.
    pub open spec fn after_borrow_mut(self) -> Self {
        self.with_count(-1)
    }

    /// One shared borrow released.
    pub open spec fn after_release(self) -> Self {
        self.with_count(self.count() - 1)
    }

    /// The exclusive borrow released.
    pub open spec fn after_release_mut(self) -> Self {
        self.with_count(0)
    }
}

/// `s` after `n` more shared borrows.
pub open spec fn borrowed<T>(s: CellState<T>, n: nat) -> CellState<T>
    decreases n,
{
    if n == 0 {
        s
    } else {
        borrowed(s, (n - 1) as nat).after_borrow()
    }
}

/// `s` after `n` shared borrows were released.
pub open spec fn released<T>(s: CellState<T>, n: nat) -> CellState<T>
    decreases n,
{
    if n == 0 {
        s
    } else {
        released(s, (n - 1) as nat).after_release()
    }
}

/// Whatever operation makes the first access to an absent cell, it evaluates
/// the initializer exactly once and stores what it produced; an access to a
/// live cell evaluates nothing and keeps the value.
pub proof fn lemma_first_access<T>(s: CellState<T>, k: nat, v: T, m: nat)
    requires
        crate::first_access(s, k, v, m),
    ensures
        !s.is_live() ==> m == k + 1 && s.ensure_live(v) == (CellState::Live { count: 0, value: v }),
        s.is_live() ==> m == k && s.ensure_live(v) == s && v == s.value(),
{
}

/// Any number of shared borrows can be live at once on a cell that is not
/// exclusively borrowed: each is granted, all read the same value, and while
/// any is live an exclusive borrow is refused.
pub proof fn lemma_shared_borrows_coexist<T>(s: CellState<T>, v: T, n: nat)
    requires
        s.wf(),
        s.can_borrow(),
    ensures
        forall|i: nat| i < n ==> (#[trigger] borrowed(s.ensure_live(v), i)).can_borrow(),
        borrowed(s.ensure_live(v), n).is_live(),
        borrowed(s.ensure_live(v), n).value() == s.ensure_live(v).value(),
        borrowed(s.ensure_live(v), n).count() == s.count() + n,
        n > 0 ==> !borrowed(s.ensure_live(v), n).can_borrow_mut(),
    decreases n,
{
    if n > 0 {
        lemma_shared_borrows_coexist(s, v, (n - 1) as nat);
    }
    assert forall|i: nat| i < n implies (#[trigger] borrowed(s.ensure_live(v), i)).can_borrow() by {
        lemma_shared_borrows_coexist(s, v, i);
    }
}

/// While the exclusive borrow is live, both a shared and an exclusive borrow
/// are refused; once it is released, both are granted again and the value
/// written through it is kept.
pub proof fn lemma_exclusive_blocks<T>(s: CellState<T>, v: T, w: T)
    requires
        s.can_borrow_mut(),
    ensures
        !s.ensure_live(v).after_borrow_mut().can_borrow(),
        !s.ensure_live(v).after_borrow_mut().can_borrow_mut(),
        ({
            let written = CellState::Live { count: -1, value: w };
            &&& written.after_release_mut().can_borrow()
            &&& written.after_release_mut().can_borrow_mut()
            &&& written.after_release_mut().value() == w
        }),
{
}

/// Releasing every one of `n` shared borrows taken on a free cell leaves it
/// free with its value, so it can be destroyed; after that, the next access
/// evaluates the initializer again.
pub proof fn lemma_release_all_then_destroy<T>(s: CellState<T>, v: T, n: nat)
    requires
        s.can_borrow_mut(),
    ensures
        released(borrowed(s.ensure_live(v), n), n) == s.ensure_live(v),
        released(borrowed(s.ensure_live(v), n), n).can_borrow_mut(),
        forall|k: nat, w: T, m: nat|
            #[trigger] crate::first_access(CellState::<T>::Uninitialized, k, w, m) ==> m == k + 1,
{
    lemma_release_after_borrow(s.ensure_live(v), n, n);
}

proof fn lemma_release_after_borrow<T>(s: CellState<T>, n: nat, k: nat)
    requires
        s.is_live(),
        k <= n,
    ensures
        released(borrowed(s, n), k) == borrowed(s, (n - k) as nat),
    decreases k,
{
    if k > 0 {
        lemma_release_after_borrow(s, n, (k - 1) as nat);
        lemma_borrowed_live(s, (n - k + 1) as nat);
    }
    if k == n {
        assert(borrowed(s, 0) == s);
    }
}

proof fn lemma_borrowed_live<T>(s: CellState<T>, n: nat)
    requires
        s.is_live(),
    ensures
        borrowed(s, n).is_live(),
        borrowed(s, n).value() == s.value(),
        borrowed(s, n).count() == s.count() + n,
    decreases n,
{
    if n > 0 {
        lemma_borrowed_live(s, (n - 1) as nat);
    }
}

} // verus!
