use crate::device::DevicePath;
use crate::error::FIDO_OK;
use crate::ffi::{FidoDevInfo, NonNull};
use vstd::prelude::*;

verus! {

/// The descriptors of the devices that an enumeration found.
///
/// It owns a native array of `capacity` slots, of which the first `len` were
/// filled; the others may hold uninitialized memory and are never handed out.
#[derive(Debug)]
pub struct DeviceList {
    raw: NonNull<FidoDevInfo>,
    length: usize,
    found: usize,
}

/// A device that an enumeration found, borrowed from its list.
#[derive(Clone, Copy, Debug, PartialEq, Eq)]
pub struct DeviceInformation<'a> {
    pub path: DevicePath<'a>,
    pub product_id: i16,
    pub vendor_id: i16,
    pub manufacturer: &'a str,
    pub product: &'a str,
}

/// The positions `0 .. n` of a list's filled slots.
pub open spec fn slots(n: nat) -> Seq<usize> {
    Seq::new(n, |i: int| i as usize)
}

impl View for DeviceList {
    type V = usize;

    closed spec fn view(&self) -> usize {
        self.raw@
    }
}

impl DeviceList {
    #[verifier::type_invariant]
    closed spec fn within_capacity(self) -> bool {
        self.found <= self.length
    }

    /// How many slots the native array was allocated with.
    pub closed spec fn spec_capacity(&self) -> nat {
        self.length as nat
    }

    /// How many devices were found.
    pub closed spec fn spec_len(&self) -> nat {
        self.found as nat
    }

    /// The list that an enumeration into `raw`, allocated with `capacity`
    /// slots, produced when it returned `status` and reported `found`
    /// devices. A failed enumeration, or one that reports more devices than
    /// there are slots, breaks the native layer's contract: `raw` then comes
    /// back for release.
    pub fn from_manifest(raw: NonNull<FidoDevInfo>, capacity: usize, status: i32, found: usize) -> (r:
        Result<DeviceList, NonNull<FidoDevInfo>>)
        ensures
            r is Ok <==> status == FIDO_OK && found <= capacity,
            r matches Ok(l) ==> l@ == raw@ && l.spec_len() == found && l.spec_capacity()
                == capacity,
            r matches Err(back) ==> back == raw,
    {
        if status == FIDO_OK && found <= capacity {
            Ok(DeviceList { raw, length: capacity, found })
        } else {
            Err(raw)
        }
    }

    /// The number of devices found; never more than the capacity asked for.
    pub fn len(&self) -> (r: usize)
        ensures
            r == self.spec_len(),
            r <= self.spec_capacity(),
    {
        proof {
            use_type_invariant(self);
        }
        self.found
    }

    /// Whether no device was found.
    pub fn is_empty(&self) -> (r: bool)
        ensures
            r == (self.spec_len() == 0),
    {
        self.found == 0
    }

    /// The number of slots the native array was allocated with.
    pub fn capacity(&self) -> (r: usize)
        ensures
            r == self.spec_capacity(),
    {
        self.length
    }

    /// The position of each found device, in order: the slots that may be
    /// read, exactly `len` of them, and none beyond.
    pub fn indices(&self) -> (r: Vec<usize>)
        ensures
            r@ == slots(self.spec_len()),
            r@.len() <= self.spec_capacity(),
    {
        proof {
            use_type_invariant(self);
        }
        let mut r: Vec<usize> = Vec::new();
        let mut i: usize = 0;
        while i < self.found
            invariant
                i <= self.found,
                r@ == slots(i as nat),
            decreases self.found - i,
        {
            r.push(i);
            i = i + 1;
            assert(r@ =~= slots(i as nat));
        }
        r
    }

    /// The native array's address, for a call that reads it.
    pub fn as_ptr(&self) -> (r: usize)
        ensures
            r == self@,
            r != 0,
    {
        self.raw.as_ptr()
    }

    /// Gives up the native array and its capacity, for its release.
    pub fn into_raw(self) -> (r: (NonNull<FidoDevInfo>, usize))
        ensures
            r.0@ == self@,
            r.1 == self.spec_capacity(),
    {
        (self.raw, self.length)
    }
}

} // verus!
