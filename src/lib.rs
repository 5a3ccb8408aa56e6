//! A safe access layer over a native FIDO2/CTAP authenticator library.
//!
//! The native library is driven through plain values: handles are addresses
//! wrapped in [`NonNull`], and every native call hands back an integer status.
//! This crate holds the decisions around those calls: which setters run and in
//! what order, when a request becomes a populated result, how capability data
//! and assertion statements are decoded, and which statements survive
//! verification.
//!
//! Every owning type here gives its native object up only by value
//! (`into_raw`), so an object is released once and cannot be used after its
//! release.

mod assertion;
mod cbor_info;
mod credential;
mod device;
mod device_list;
mod error;
mod ffi;
mod init;
mod public_key;
mod setup;
mod text;

pub use assertion::{
    allow_steps, assertion_plan, kept, lemma_verified_selection, select_verified, Assertion,
    AssertionCreationData, AssertionCreator, AssertionOptions, AssertionSetup, Statement,
};
pub use cbor_info::{options_map, zipped, CBORData, CBORDataRef, CapabilityOptions};
pub use credential::{
    cose_of, credential_plan, extension_bits, format_name, format_of,
    lemma_exclusion_only_when_non_empty, lemma_format_round_trip, Credential,
    CredentialCreationData, CredentialCreator, CredentialExtensions, CredentialFormat,
    CredentialOptions, CredentialRef, CredentialSetup, CredentialType,
    InvalidCredentialFormatError, FIDO_EXT_HMAC_SECRET,
};
pub use device::{
    CTAPHIDCapabilities, CTAPHIDInfo, Device, DeviceMode, DevicePath, FIDO_CAP_CBOR,
    FIDO_CAP_NMSG, FIDO_CAP_WINK,
};
pub use device_list::{slots, DeviceInformation, DeviceList};
pub use error::{check_status, check_status_with, FidoError, FIDO_DEBUG, FIDO_OK};
pub use ffi::{
    slot_released, EddsaPk, Es256Pk, FidoAssert, FidoCborInfo, FidoCred, FidoDev, FidoDevInfo,
    NonNull, Rs256Pk,
};
pub use init::{begin_spec, init_flags, inits_run, lemma_init_runs_once, LibraryInit};
pub use public_key::{key_type, PublicKey, EDDSA, ES256, RS256};
pub use setup::Setup;
