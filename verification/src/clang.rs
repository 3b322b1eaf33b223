use std::marker::PhantomData;
use vstd::prelude::*;

use crate::raw::RawPtr;

verus! {

// Clang _________________________________________

/// An empty type which prevents the use of this library from multiple threads.
///
/// Its fields are private, so `Clang::new` is the only way to construct one,
/// and each instance remembers the slot it holds.
pub struct Clang {
    slot: Ghost<int>,
}

/// Whether a `Clang` may be constructed: the one instance that is allowed at a
/// time is either free or taken.
pub struct ClangSlot {
    available: bool,
    id: Ghost<int>,
}

impl ClangSlot {
    /// Whether no instance of `Clang` holds this slot.
    pub closed spec fn is_available(self) -> bool {
        self.available
    }

    /// The identity of this slot, which the instance that holds it carries.
    pub closed spec fn id(self) -> int {
        self.id@
    }

    /// The slot after a call of `Clang::new` on it, whether that call succeeded
    /// or not.
    pub closed spec fn after_new(self) -> ClangSlot {
        ClangSlot { available: false, id: self.id }
    }

    /// The slot after the instance that held it was released.
    pub closed spec fn after_release(self) -> ClangSlot {
        ClangSlot { available: true, id: self.id }
    }

    /// Constructs a slot that no instance holds.
    ///
    /// Nothing is promised of its identity, so an instance taken from one slot
    /// can be released only onto that slot.
    pub fn new() -> (r: ClangSlot)
        ensures
            r.is_available(),
    {
        ClangSlot { available: true, id: Ghost(0) }
    }

    /// Returns whether no instance of `Clang` holds this slot.
    pub fn available(&self) -> (r: bool)
        ensures
            r == self.is_available(),
    {
        self.available
    }
}

impl Clang {
    /// The identity of the slot this instance holds.
    pub closed spec fn slot_id(self) -> int {
        self.slot@
    }

    //- Constructors -----------------------------

    /// Constructs a new `Clang`.
    ///
    /// Only one instance of `Clang` is allowed at a time.
    ///
    /// # Failures
    ///
    /// * an instance of `Clang` already exists
    pub fn new(slot: &mut ClangSlot) -> (r: Result<Clang, ()>)
        ensures
            r is Ok <==> old(slot).is_available(),
            r matches Ok(clang) ==> clang.slot_id() == old(slot).id(),
            *final(slot) == old(slot).after_new(),
            final(slot).id() == old(slot).id(),
            !final(slot).is_available(),
    {
        let was_available = slot.available;
        slot.available = false;
        if was_available {
            Ok(Clang { slot: Ghost(slot.id@) })
        } else {
            Err(())
        }
    }

    /// Gives up this instance, so that a new one may be constructed on the
    /// slot it held.
    pub fn release(self, slot: &mut ClangSlot)
        requires
            old(slot).id() == self.slot_id(),
        ensures
            *final(slot) == old(slot).after_release(),
            final(slot).id() == old(slot).id(),
            final(slot).is_available(),
    {
        slot.available = true;
    }
}

/// Only one instance of `Clang` exists at a time: once `Clang::new` has
/// succeeded on a slot, every further call on that slot fails until the
/// instance that holds it is released there, and after the release the next
/// call succeeds. No step changes which slot is which.
pub proof fn lemma_one_instance_at_a_time(slot: ClangSlot)
    ensures
        !slot.after_new().is_available(),
        slot.after_new().after_new() == slot.after_new(),
        slot.after_new().after_release().is_available(),
        slot.after_release().is_available(),
        slot.after_new().id() == slot.id(),
        slot.after_release().id() == slot.id(),
{
}

// Index _________________________________________

/// A collection of translation units.
pub struct Index<'c> {
    ptr: RawPtr,
    _marker: PhantomData<&'c Clang>,
}

impl<'c> Index<'c> {
    /// The `CXIndex` this index wraps.
    pub closed spec fn spec_ptr(&self) -> RawPtr {
        self.ptr
    }

    /// Wraps the `CXIndex` that `libclang` created for `clang`.
    pub fn from_ptr(ptr: RawPtr, clang: &'c Clang) -> (r: Index<'c>)
        ensures
            r.spec_ptr() == ptr,
    {
        Index { ptr: ptr, _marker: PhantomData }
    }

    /// Returns the `CXIndex` this index wraps.
    pub fn as_ptr(&self) -> (r: RawPtr)
        ensures
            r == self.spec_ptr(),
    {
        self.ptr
    }
}

} // verus!
