use core::marker::PhantomData;
use vstd::prelude::*;

verus! {

/// The native device connection a handle points to.
#[derive(Debug)]
pub struct FidoDev(());

/// The native array of enumerated device descriptors.
#[derive(Debug)]
pub struct FidoDevInfo(());

/// The native capability record of a device.
#[derive(Debug)]
pub struct FidoCborInfo(());

/// The native credential object, in its request and its result role.
#[derive(Debug)]
pub struct FidoCred(());

/// The native assertion object, in its request and its result role.
#[derive(Debug)]
pub struct FidoAssert(());

/// The native ES256 public key.
#[derive(Debug)]
pub struct Es256Pk(());

/// The native RS256 public key.
#[derive(Debug)]
pub struct Rs256Pk(());

/// The native EdDSA public key.
#[derive(Debug)]
pub struct EddsaPk(());

/// A handle to a native object that is never null.
///
/// The address is read through `as_ptr` with a shared borrow and through
/// `as_ptr_mut` with an exclusive one, so a read never overlaps a mutation
/// made through the same handle. Two handles are equal when they address the
/// same object.
#[derive(Debug)]
pub struct NonNull<T> {
    addr: usize,
    kind: PhantomData<T>,
}

impl<T> View for NonNull<T> {
    type V = usize;

    closed spec fn view(&self) -> usize {
        self.addr
    }
}

impl<T> NonNull<T> {
    /// The address is never zero.
    #[verifier::type_invariant]
    closed spec fn non_null(self) -> bool {
        self.addr != 0
    }

    /// Wraps `ptr`, or gives `None` when it is null.
    pub fn new(ptr: usize) -> (r: Option<Self>)
        ensures
            r is Some <==> ptr != 0,
            r matches Some(h) ==> h@ == ptr,
    {
        if ptr == 0 {
            None
        } else {
            Some(NonNull { addr: ptr, kind: PhantomData })
        }
    }

    /// The address, for a native call that only reads the object.
    pub fn as_ptr(&self) -> (r: usize)
        ensures
            r == self@,
            r != 0,
    {
        proof {
            use_type_invariant(self);
        }
        self.addr
    }

    /// The address, for a native call that may change the object.
    pub fn as_ptr_mut(&mut self) -> (r: usize)
        ensures
            r == old(self)@,
            r != 0,
            *final(self) == *old(self),
    {
        proof {
            use_type_invariant(&*self);
        }
        self.addr
    }
}

impl<T> PartialEq for NonNull<T> {
    fn eq(&self, other: &Self) -> (r: bool)
        ensures
            r == (self@ == other@),
    {
        self.addr == other.addr
    }
}

impl<T> vstd::std_specs::cmp::PartialEqSpecImpl for NonNull<T> {
    open spec fn obeys_eq_spec() -> bool {
        true
    }

    open spec fn eq_spec(&self, other: &Self) -> bool {
        self@ == other@
    }
}

impl<T> Eq for NonNull<T> {
}

/// Whether a native release left its slot null, as every release must.
pub fn slot_released(slot: usize) -> (r: bool)
    ensures
        r == (slot == 0),
{
    slot == 0
}

} // verus!
