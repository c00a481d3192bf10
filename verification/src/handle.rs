//! Ownership of native interface pointers.
//!
//! Every native object counts its owners. A handle stands for exactly one
//! of those counts from the moment it is made until it is released. The
//! handle itself never touches the object: each operation on it says which
//! change it owes to the object's count, and whoever holds the pointer
//! performs that change. Two ways of making a handle exist and are kept
//! apart by name, because mixing them up leaks the object or frees it
//! early.

use vstd::prelude::*;

verus! {

/// A change that an operation on a handle owes to the reference count of
/// the object behind it.
#[derive(Debug, Clone, Copy, PartialEq, Eq, Structural)]
pub enum RefOp {
    /// The count stays as it is.
    Keep,
    /// The count goes up by one.
    AddRef,
    /// The count goes down by one.
    Release,
}

impl RefOp {
    /// By how much the operation changes a reference count.
    pub open spec fn delta(self) -> int {
        match self {
            RefOp::Keep => 0,
            RefOp::AddRef => 1,
            RefOp::Release => -1,
        }
    }
}

/// The reference count after a run of operations on a count that started at
/// `count`.
pub open spec fn count_after(count: int, ops: Seq<RefOp>) -> int
    decreases ops.len(),
{
    if ops.len() == 0 {
        count
    } else {
        count_after(count + ops[0].delta(), ops.drop_first())
    }
}

/// The operations of a handle's whole life: `first` when it is made, one
/// increment for each of `clones` copies taken of it, and one release for
/// the handle and for each copy.
pub open spec fn lifetime_ops(first: RefOp, clones: nat) -> Seq<RefOp> {
    seq![first] + Seq::new(clones, |i: int| RefOp::AddRef) + Seq::new(
        clones + 1,
        |i: int| RefOp::Release,
    )
}

/// An owner of one reference to a native object, named by the address of
/// its interface pointer. The address is never null.
#[derive(Debug)]
pub struct InterfaceHandle {
    pointer: usize,
}

impl View for InterfaceHandle {
    type V = usize;

    /// The address of the interface pointer.
    closed spec fn view(&self) -> usize {
        self.pointer
    }
}

impl InterfaceHandle {
    #[verifier::type_invariant]
    spec fn not_null(self) -> bool {
        self.pointer != 0
    }

    /// What making a handle from a pointer that already carries a reference
    /// for the caller owes to the count: nothing.
    pub open spec fn wrap_owning_op() -> RefOp {
        RefOp::Keep
    }

    /// What making a handle from a pointer that someone else owns owes to
    /// the count: one increment.
    pub open spec fn wrap_borrowing_op() -> RefOp {
        RefOp::AddRef
    }

    /// What copying a handle owes to the count: one increment.
    pub open spec fn duplicate_op() -> RefOp {
        RefOp::AddRef
    }

    /// What giving a handle up owes to the count: one decrement.
    pub open spec fn release_op() -> RefOp {
        RefOp::Release
    }

    /// What lending a handle's pointer to a native call owes to the count:
    /// nothing.
    pub open spec fn lend_op() -> RefOp {
        RefOp::Keep
    }

    /// Takes over a pointer that already carries one reference credited to
    /// the caller, as the out-parameter of a creating or getting call does.
    /// The count is not touched.
    pub fn wrap_owning(pointer: usize) -> (made: (InterfaceHandle, RefOp))
        requires
            pointer != 0,
        ensures
            made.0@ == pointer,
            made.1 == Self::wrap_owning_op(),
    {
        (InterfaceHandle { pointer }, RefOp::Keep)
    }

    /// Makes a handle for a pointer that the caller does not own, as an
    /// argument of an inbound callback is: the count has to go up by one
    /// first, so that the handle has a reference of its own.
    pub fn wrap_borrowing(pointer: usize) -> (made: (InterfaceHandle, RefOp))
        requires
            pointer != 0,
        ensures
            made.0@ == pointer,
            made.1 == Self::wrap_borrowing_op(),
    {
        (InterfaceHandle { pointer }, RefOp::AddRef)
    }

    /// Makes a second handle for the same object. Copying always increments.
    pub fn duplicate(&self) -> (made: (InterfaceHandle, RefOp))
        ensures
            made.0@ == self@,
            made.1 == Self::duplicate_op(),
    {
        proof {
            use_type_invariant(self);
        }
        (InterfaceHandle { pointer: self.pointer }, RefOp::AddRef)
    }

    /// Gives the handle up. The pointer comes back with the one decrement
    /// that every handle owes at its end.
    pub fn release(self) -> (given: (usize, RefOp))
        ensures
            given.0 == self@,
            given.0 != 0,
            given.1 == Self::release_op(),
    {
        proof {
            use_type_invariant(&self);
        }
        (self.pointer, RefOp::Release)
    }

    /// Hands the pointer to a native call that borrows it. The handle is
    /// used up without a decrement: the reference it stood for is neither
    /// passed on nor given back.
    pub fn into_borrowed(self) -> (lent: (usize, RefOp))
        ensures
            lent.0 == self@,
            lent.0 != 0,
            lent.1 == Self::lend_op(),
    {
        proof {
            use_type_invariant(&self);
        }
        (self.pointer, RefOp::Keep)
    }

    /// The address of the interface pointer, for a call on the object. The
    /// handle keeps its reference.
    pub fn as_raw(&self) -> (pointer: usize)
        ensures
            pointer == self@,
            pointer != 0,
    {
        proof {
            use_type_invariant(self);
        }
        self.pointer
    }
}

/// The address of an interface pointer that the native side owns, as it
/// arrives with an inbound call. It is good for the time of that call only.
/// To keep the object, the receiver has to make a handle of it, which costs
/// an increment; there is no other way from here to a handle.
#[derive(Debug, Clone, Copy, PartialEq, Eq, Structural)]
pub struct BorrowedPointer {
    /// The address, which may be null.
    pub address: usize,
}

impl BorrowedPointer {
    /// Names a pointer that arrived with an inbound call.
    pub fn new(address: usize) -> (pointer: Self)
        ensures
            pointer.address == address,
    {
        BorrowedPointer { address }
    }

    /// Makes a handle of the pointer, with the increment that a handle of a
    /// borrowed pointer owes. A null pointer gives none.
    pub fn upgrade(self) -> (made: Option<(InterfaceHandle, RefOp)>)
        ensures
            made is Some <==> self.address != 0,
            made matches Some(pair) ==> pair.0@ == self.address && pair.1
                == InterfaceHandle::wrap_borrowing_op(),
    {
        if self.address == 0 {
            None
        } else {
            Some(InterfaceHandle::wrap_borrowing(self.address))
        }
    }
}

/// A run of operations changes a count by the sum of what each changes.
pub proof fn lemma_count_after_concat(count: int, first: Seq<RefOp>, second: Seq<RefOp>)
    ensures
        count_after(count, first + second) == count_after(count_after(count, first), second),
    decreases first.len(),
{
    if first.len() == 0 {
        assert(first + second =~= second);
    } else {
        assert((first + second).drop_first() =~= first.drop_first() + second);
        lemma_count_after_concat(count + first[0].delta(), first.drop_first(), second);
    }
}

/// A run of `n` equal operations changes a count by `n` times what one
/// changes.
pub proof fn lemma_count_after_repeat(count: int, op: RefOp, n: nat)
    ensures
        count_after(count, Seq::new(n, |i: int| op)) == count + n * op.delta(),
    decreases n,
{
    let ops = Seq::new(n, |i: int| op);
    if n > 0 {
        assert(ops.drop_first() =~= Seq::new((n - 1) as nat, |i: int| op));
        lemma_count_after_repeat(count + op.delta(), op, (n - 1) as nat);
        assert(count + op.delta() + (n - 1) * op.delta() == count + n * op.delta())
            by (nonlinear_arith);
    }
}

/// A handle made by `wrap_owning` and released once leaves the count one
/// below what it was when the handle was made: the wrap added nothing.
pub proof fn lemma_owning_then_release(count: int)
    ensures
        count_after(
            count,
            seq![InterfaceHandle::wrap_owning_op(), InterfaceHandle::release_op()],
        ) == count - 1,
{
    let ops = seq![InterfaceHandle::wrap_owning_op(), InterfaceHandle::release_op()];
    assert(ops.drop_first() =~= seq![InterfaceHandle::release_op()]);
    assert(ops.drop_first().drop_first() =~= Seq::<RefOp>::empty());
    reveal_with_fuel(count_after, 3);
}

/// A handle made by `wrap_borrowing` and released once leaves the count as
/// it was before the handle was made: the release undoes the increment of
/// the wrap, no more and no less.
pub proof fn lemma_borrowing_then_release(count: int)
    ensures
        count_after(
            count,
            seq![InterfaceHandle::wrap_borrowing_op(), InterfaceHandle::release_op()],
        ) == count,
{
    let ops = seq![InterfaceHandle::wrap_borrowing_op(), InterfaceHandle::release_op()];
    assert(ops.drop_first() =~= seq![InterfaceHandle::release_op()]);
    assert(ops.drop_first().drop_first() =~= Seq::<RefOp>::empty());
    reveal_with_fuel(count_after, 3);
}

/// However many copies are taken of a handle, once the handle and all its
/// copies are released the count is what making the handle left, less one.
pub proof fn lemma_lifetime_balance(count: int, first: RefOp, clones: nat)
    ensures
        count_after(count, lifetime_ops(first, clones)) == count + first.delta() - 1,
{
    let made = seq![first];
    let copied = Seq::new(clones, |i: int| RefOp::AddRef);
    let released = Seq::new(clones + 1, |i: int| RefOp::Release);
    lemma_count_after_concat(count, made + copied, released);
    lemma_count_after_concat(count, made, copied);
    assert(made.drop_first() =~= Seq::<RefOp>::empty());
    reveal_with_fuel(count_after, 2);
    assert(count_after(count, made) == count + first.delta());
    lemma_count_after_repeat(count + first.delta(), RefOp::AddRef, clones);
    assert(clones * RefOp::AddRef.delta() == clones);
    assert(count_after(count, made + copied) == count + first.delta() + clones);
    lemma_count_after_repeat(count + first.delta() + clones, RefOp::Release, clones + 1);
    assert((clones + 1) * RefOp::Release.delta() == -(clones + 1));
    assert(lifetime_ops(first, clones) == made + copied + released);
}

} // verus!
