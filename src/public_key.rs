use crate::credential::{cose_of, CredentialType};
use crate::error::{FidoError, FIDO_OK};
use crate::ffi::{EddsaPk, Es256Pk, NonNull, Rs256Pk};
use vstd::prelude::*;

verus! {

/// A native ES256 key.
#[derive(Debug)]
pub struct ES256(NonNull<Es256Pk>);

/// A native RS256 key.
#[derive(Debug)]
pub struct RS256(NonNull<Rs256Pk>);

/// A native EdDSA key.
#[derive(Debug)]
pub struct EDDSA(NonNull<EddsaPk>);

/// A parsed public key, used only to verify assertion statements.
#[derive(Debug)]
pub enum PublicKey {
    ES256(ES256),
    RS256(RS256),
    EDDSA(EDDSA),
}

impl View for ES256 {
    type V = usize;

    closed spec fn view(&self) -> usize {
        self.0@
    }
}

impl ES256 {
    /// Gives up the native key, for its release.
    pub fn into_raw(self) -> (r: NonNull<Es256Pk>)
        ensures
            r@ == self@,
    {
        self.0
    }
}

impl View for RS256 {
    type V = usize;

    closed spec fn view(&self) -> usize {
        self.0@
    }
}

impl RS256 {
    /// Gives up the native key, for its release.
    pub fn into_raw(self) -> (r: NonNull<Rs256Pk>)
        ensures
            r@ == self@,
    {
        self.0
    }
}

impl View for EDDSA {
    type V = usize;

    closed spec fn view(&self) -> usize {
        self.0@
    }
}

impl EDDSA {
    /// Gives up the native key, for its release.
    pub fn into_raw(self) -> (r: NonNull<EddsaPk>)
        ensures
            r@ == self@,
    {
        self.0
    }
}

/// The algorithm of each kind of key.
pub open spec fn key_type(k: PublicKey) -> CredentialType {
    match k {
        PublicKey::ES256(_) => CredentialType::ES256,
        PublicKey::RS256(_) => CredentialType::RS256,
        PublicKey::EDDSA(_) => CredentialType::EDDSA,
    }
}

impl View for PublicKey {
    type V = usize;

    closed spec fn view(&self) -> usize {
        match self {
            PublicKey::ES256(k) => k@,
            PublicKey::RS256(k) => k@,
            PublicKey::EDDSA(k) => k@,
        }
    }
}

impl PublicKey {
    /// The ES256 key in `raw`, when parsing the caller's bytes into it
    /// returned `status`; on a parse failure `raw` comes back, with the error,
    /// for release.
    pub fn es256(raw: NonNull<Es256Pk>, status: i32) -> (r: Result<PublicKey, (FidoError, NonNull<Es256Pk>)>)
        ensures
            r is Ok <==> status == FIDO_OK,
            r matches Ok(k) ==> k is ES256 && k@ == raw@,
            r matches Err((e, back)) ==> e@ == status && back == raw,
    {
        match crate::error::check_status(status) {
            Ok(()) => Ok(PublicKey::ES256(ES256(raw))),
            Err(e) => Err((e, raw)),
        }
    }

    /// The RS256 key in `raw`, when parsing into it returned `status`.
    pub fn rs256(raw: NonNull<Rs256Pk>, status: i32) -> (r: Result<PublicKey, (FidoError, NonNull<Rs256Pk>)>)
        ensures
            r is Ok <==> status == FIDO_OK,
            r matches Ok(k) ==> k is RS256 && k@ == raw@,
            r matches Err((e, back)) ==> e@ == status && back == raw,
    {
        match crate::error::check_status(status) {
            Ok(()) => Ok(PublicKey::RS256(RS256(raw))),
            Err(e) => Err((e, raw)),
        }
    }

    /// The EdDSA key in `raw`, when parsing into it returned `status`.
    pub fn eddsa(raw: NonNull<EddsaPk>, status: i32) -> (r: Result<PublicKey, (FidoError, NonNull<EddsaPk>)>)
        ensures
            r is Ok <==> status == FIDO_OK,
            r matches Ok(k) ==> k is EDDSA && k@ == raw@,
            r matches Err((e, back)) ==> e@ == status && back == raw,
    {
        match crate::error::check_status(status) {
            Ok(()) => Ok(PublicKey::EDDSA(EDDSA(raw))),
            Err(e) => Err((e, raw)),
        }
    }

    /// The algorithm of the key.
    pub fn credential_type(&self) -> (r: CredentialType)
        ensures
            r == key_type(*self),
    {
        match self {
            PublicKey::ES256(_) => CredentialType::ES256,
            PublicKey::RS256(_) => CredentialType::RS256,
            PublicKey::EDDSA(_) => CredentialType::EDDSA,
        }
    }

    /// The COSE identifier that a native verification takes with this key.
    pub fn cose_algorithm(&self) -> (r: i32)
        ensures
            r == cose_of(key_type(*self)),
    {
        self.credential_type().cose_algorithm()
    }

    /// The native key's address, for a verification that reads it.
    pub fn as_ptr(&self) -> (r: usize)
        ensures
            r == self@,
            r != 0,
    {
        match self {
            PublicKey::ES256(k) => k.0.as_ptr(),
            PublicKey::RS256(k) => k.0.as_ptr(),
            PublicKey::EDDSA(k) => k.0.as_ptr(),
        }
    }
}

} // verus!
