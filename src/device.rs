use crate::error::{FidoError, FIDO_OK};
use crate::ffi::{FidoDev, NonNull};
use vstd::prelude::*;

verus! {

/// The protocol a device speaks.
#[derive(Clone, Copy, Debug, PartialEq, Eq, Structural)]
pub enum DeviceMode {
    Fido2,
    FidoU2F,
}

impl DeviceMode {
    /// The mode of a device of which the native layer says whether it
    /// supports FIDO2.
    pub fn from_fido2_support(is_fido2: bool) -> (r: DeviceMode)
        ensures
            r == (if is_fido2 {
                DeviceMode::Fido2
            } else {
                DeviceMode::FidoU2F
            }),
    {
        if is_fido2 {
            DeviceMode::Fido2
        } else {
            DeviceMode::FidoU2F
        }
    }
}

/// The native capability bit of the wink command.
pub const FIDO_CAP_WINK: u8 = 1;

/// The native capability bit of the CBOR command.
pub const FIDO_CAP_CBOR: u8 = 4;

/// The native capability bit that says the device lacks the MSG command.
pub const FIDO_CAP_NMSG: u8 = 8;

/// The CTAP HID capabilities of a device.
#[derive(Clone, Copy, Debug, PartialEq, Eq, Structural)]
pub struct CTAPHIDCapabilities {
    pub cbor: bool,
    pub nmsg: bool,
    pub wink: bool,
}

impl CTAPHIDCapabilities {
    /// The capabilities named by `flags`; bits that name none are ignored.
    pub fn from_bits_truncate(flags: u8) -> (r: Self)
        ensures
            r.cbor == (flags & FIDO_CAP_CBOR != 0),
            r.nmsg == (flags & FIDO_CAP_NMSG != 0),
            r.wink == (flags & FIDO_CAP_WINK != 0),
    {
        CTAPHIDCapabilities {
            cbor: flags & FIDO_CAP_CBOR != 0,
            nmsg: flags & FIDO_CAP_NMSG != 0,
            wink: flags & FIDO_CAP_WINK != 0,
        }
    }

    /// The native bits of these capabilities.
    pub fn bits(&self) -> (r: u8)
        ensures
            r == (if self.cbor {
                FIDO_CAP_CBOR
            } else {
                0u8
            }) + (if self.nmsg {
                FIDO_CAP_NMSG
            } else {
                0u8
            }) + (if self.wink {
                FIDO_CAP_WINK
            } else {
                0u8
            }),
    {
        let mut r: u8 = 0;
        if self.cbor {
            r = r + FIDO_CAP_CBOR;
        }
        if self.nmsg {
            r = r + FIDO_CAP_NMSG;
        }
        if self.wink {
            r = r + FIDO_CAP_WINK;
        }
        r
    }
}

/// CTAP HID information about a device.
#[derive(Clone, Copy, Debug, PartialEq, Eq, Structural)]
pub struct CTAPHIDInfo {
    pub protocol: u8,
    pub major: u8,
    pub minor: u8,
    pub build: u8,
    pub capabilities: CTAPHIDCapabilities,
}

impl CTAPHIDInfo {
    /// The information that the native layer reports, with the capability
    /// flags decoded.
    pub fn from_raw(protocol: u8, major: u8, minor: u8, build: u8, flags: u8) -> (r: Self)
        ensures
            r.protocol == protocol,
            r.major == major,
            r.minor == minor,
            r.build == build,
            r.capabilities.cbor == (flags & FIDO_CAP_CBOR != 0),
            r.capabilities.nmsg == (flags & FIDO_CAP_NMSG != 0),
            r.capabilities.wink == (flags & FIDO_CAP_WINK != 0),
    {
        CTAPHIDInfo {
            protocol,
            major,
            minor,
            build,
            capabilities: CTAPHIDCapabilities::from_bits_truncate(flags),
        }
    }
}

/// The transport-defined path of a device, as enumeration reported it.
#[derive(Clone, Copy, Debug, PartialEq, Eq)]
pub struct DevicePath<'a>(&'a str);

impl<'a> View for DevicePath<'a> {
    type V = Seq<char>;

    closed spec fn view(&self) -> Seq<char> {
        self.0@
    }
}

impl<'a> DevicePath<'a> {
    /// The path `path`.
    pub fn new(path: &'a str) -> (r: Self)
        ensures
            r@ == path@,
    {
        DevicePath(path)
    }

    /// The path as text.
    pub fn to_str(&self) -> (r: &'a str)
        ensures
            r@ == self@,
    {
        self.0
    }
}

/// An open connection to a device.
///
/// It is only ever obtained from `Device::opened` after the native open
/// succeeded.
#[derive(Debug)]
pub struct Device {
    raw: NonNull<FidoDev>,
}

impl View for Device {
    type V = usize;

    closed spec fn view(&self) -> usize {
        self.raw@
    }
}

impl Device {
    /// The connection in `raw`, when opening it returned `status`; on failure
    /// the closed handle comes back, with the error, for release.
    pub fn opened(raw: NonNull<FidoDev>, status: i32) -> (r: Result<Device, (FidoError, NonNull<FidoDev>)>)
        ensures
            r is Ok <==> status == FIDO_OK,
            r matches Ok(d) ==> d@ == raw@,
            r matches Err((e, back)) ==> e@ == status && back == raw,
    {
        match crate::error::check_status(status) {
            Ok(()) => Ok(Device { raw }),
            Err(e) => Err((e, raw)),
        }
    }

    /// The connection's address, for a call that reads it.
    pub fn as_ptr(&self) -> (r: usize)
        ensures
            r == self@,
            r != 0,
    {
        self.raw.as_ptr()
    }

    /// The connection's address, for a call that changes it.
    pub fn as_ptr_mut(&mut self) -> (r: usize)
        ensures
            r == old(self)@,
            r != 0,
            final(self)@ == old(self)@,
    {
        self.raw.as_ptr_mut()
    }

    /// Gives up the connection, for closing and release.
    pub fn into_raw(self) -> (r: NonNull<FidoDev>)
        ensures
            r@ == self@,
    {
        self.raw
    }
}

} // verus!
