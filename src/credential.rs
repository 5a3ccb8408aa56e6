use crate::error::{FidoError, FIDO_OK};
use crate::ffi::{FidoCred, NonNull};
use crate::setup::Setup;
use crate::text::same_text;
use vstd::prelude::*;

verus! {

/// The public key algorithm of a credential.
#[derive(Clone, Copy, Debug, PartialEq, Eq, Structural)]
pub enum CredentialType {
    ES256,
    RS256,
    EDDSA,
}

/// The COSE identifier of each algorithm.
pub open spec fn cose_of(t: CredentialType) -> i32 {
    match t {
        CredentialType::ES256 => -7i32,
        CredentialType::RS256 => -257i32,
        CredentialType::EDDSA => -8i32,
    }
}

impl CredentialType {
    /// The COSE identifier that the native layer takes for this algorithm.
    pub fn cose_algorithm(&self) -> (r: i32)
        ensures
            r == cose_of(*self),
    {
        match self {
            CredentialType::ES256 => -7,
            CredentialType::RS256 => -257,
            CredentialType::EDDSA => -8,
        }
    }
}

/// The attestation format of a created credential.
#[derive(Clone, Copy, Debug, PartialEq, Eq, Structural)]
pub enum CredentialFormat {
    Fido2,
    FidoU2F,
}

/// A format string that names no known format.
#[derive(Clone, Copy, Debug, PartialEq, Eq, Structural)]
pub struct InvalidCredentialFormatError;

impl InvalidCredentialFormatError {
    /// A description of the error.
    pub fn message(&self) -> (r: &'static str)
        ensures
            r@ == "The credential string is invalid"@,
    {
        "The credential string is invalid"
    }
}

/// The string that names each format.
pub open spec fn format_name(f: CredentialFormat) -> Seq<char> {
    match f {
        CredentialFormat::Fido2 => "packed"@,
        CredentialFormat::FidoU2F => "fido-u2f"@,
    }
}

/// The format that a string names, if any.
pub open spec fn format_of(s: Seq<char>) -> Result<CredentialFormat, InvalidCredentialFormatError> {
    if s == "packed"@ {
        Ok(CredentialFormat::Fido2)
    } else if s == "fido-u2f"@ {
        Ok(CredentialFormat::FidoU2F)
    } else {
        Err(InvalidCredentialFormatError)
    }
}

impl CredentialFormat {
    /// The string that names this format: `"packed"` or `"fido-u2f"`.
    pub fn as_str(&self) -> (r: &'static str)
        ensures
            r@ == format_name(*self),
    {
        match self {
            CredentialFormat::Fido2 => "packed",
            CredentialFormat::FidoU2F => "fido-u2f",
        }
    }

    /// The format that `s` names; any string but `"packed"` and `"fido-u2f"`
    /// is an error.
    pub fn decode(s: &str) -> (r: Result<CredentialFormat, InvalidCredentialFormatError>)
        ensures
            r == format_of(s@),
    {
        if same_text(s, "packed") {
            Ok(CredentialFormat::Fido2)
        } else if same_text(s, "fido-u2f") {
            Ok(CredentialFormat::FidoU2F)
        } else {
            Err(InvalidCredentialFormatError)
        }
    }
}

impl core::str::FromStr for CredentialFormat {
    type Err = InvalidCredentialFormatError;

    fn from_str(s: &str) -> (r: Result<CredentialFormat, InvalidCredentialFormatError>)
        ensures
            r == format_of(s@),
    {
        CredentialFormat::decode(s)
    }
}

/// Decoding the name of a format gives that format back, and a string that
/// decodes to a format is that format's name.
pub proof fn lemma_format_round_trip(f: CredentialFormat, s: Seq<char>)
    ensures
        format_of(format_name(f)) == Ok::<CredentialFormat, InvalidCredentialFormatError>(f),
        format_of(s) matches Ok(g) ==> format_name(g) == s,
        format_of(s) is Err ==> s != "packed"@ && s != "fido-u2f"@,
{
    reveal_strlit("packed");
    reveal_strlit("fido-u2f");
    assert("packed"@ != "fido-u2f"@) by {
        assert("packed"@.len() != "fido-u2f"@.len());
    }
}

/// Options of a credential request.
#[derive(Clone, Copy, Debug, PartialEq, Eq, Structural)]
pub struct CredentialOptions {
    /// Store the key material on the authenticator.
    pub resident_key: bool,
    /// Require a gesture that verifies the user.
    pub user_verification: bool,
}

impl CredentialOptions {
    /// No option set.
    pub fn empty() -> (r: Self)
        ensures
            !r.resident_key,
            !r.user_verification,
    {
        CredentialOptions { resident_key: false, user_verification: false }
    }
}

/// The native bit of the symmetric-secret extension.
pub const FIDO_EXT_HMAC_SECRET: i32 = 1;

/// Extensions of a credential request.
#[derive(Clone, Copy, Debug, PartialEq, Eq, Structural)]
pub struct CredentialExtensions {
    /// Let the authenticator derive a symmetric secret.
    pub hmac_secret: bool,
}

/// The native extension bits of a set of extensions.
pub open spec fn extension_bits(e: CredentialExtensions) -> i32 {
    if e.hmac_secret {
        FIDO_EXT_HMAC_SECRET
    } else {
        0
    }
}

impl CredentialExtensions {
    /// No extension set.
    pub fn empty() -> (r: Self)
        ensures
            !r.hmac_secret,
    {
        CredentialExtensions { hmac_secret: false }
    }

    /// The bits that the native layer takes for these extensions.
    pub fn bits(&self) -> (r: i32)
        ensures
            r == extension_bits(*self),
    {
        if self.hmac_secret {
            FIDO_EXT_HMAC_SECRET
        } else {
            0
        }
    }
}

/// What a credential request is configured with before it goes to a device.
#[derive(Clone, Copy, Debug, PartialEq, Eq)]
pub struct CredentialCreationData<'a> {
    pub excluded_ids: &'a [u8],
    pub credential_type: CredentialType,
    pub client_data_hash: &'a [u8],
    pub relying_party_id: &'a str,
    pub relying_party_name: &'a str,
    pub user_id: &'a [u8],
    pub user_name: &'a str,
    pub user_display_name: Option<&'a str>,
    pub user_image_uri: Option<&'a str>,
    pub options: CredentialOptions,
    pub extensions: CredentialExtensions,
}

/// One native setter call that configures a credential request.
#[derive(Clone, Copy, Debug, PartialEq, Eq)]
pub enum CredentialSetup<'a> {
    /// Exclude a credential id the authenticator may already hold.
    Exclude(&'a [u8]),
    /// Select the algorithm, by COSE identifier.
    Type(i32),
    ClientDataHash(&'a [u8]),
    RelyingParty { id: &'a str, name: &'a str },
    User {
        user_id: &'a [u8],
        name: &'a str,
        display_name: Option<&'a str>,
        image_uri: Option<&'a str>,
    },
    Options { resident_key: bool, user_verification: bool },
    /// Enable extensions, by native bits.
    Extensions(i32),
}

/// The setter calls that configure a request with `d`, in the order that the
/// native layer requires. The exclusion call is made only for a non-empty
/// id: the native layer fails on an empty one.
pub open spec fn credential_plan<'a>(d: CredentialCreationData<'a>) -> Seq<CredentialSetup<'a>> {
    let rest = seq![
        CredentialSetup::Type(cose_of(d.credential_type)),
        CredentialSetup::ClientDataHash(d.client_data_hash),
        CredentialSetup::RelyingParty { id: d.relying_party_id, name: d.relying_party_name },
        CredentialSetup::User {
            user_id: d.user_id,
            name: d.user_name,
            display_name: d.user_display_name,
            image_uri: d.user_image_uri,
        },
        CredentialSetup::Options {
            resident_key: d.options.resident_key,
            user_verification: d.options.user_verification,
        },
        CredentialSetup::Extensions(extension_bits(d.extensions)),
    ];
    if d.excluded_ids@.len() == 0 {
        rest
    } else {
        seq![CredentialSetup::Exclude(d.excluded_ids)] + rest
    }
}

impl<'a> CredentialCreationData<'a> {
    /// Data with the given fields, the ES256 algorithm, no excluded id, no
    /// display name or image, and no option or extension.
    pub fn with_defaults(
        client_data_hash: &'a [u8],
        relying_party_id: &'a str,
        relying_party_name: &'a str,
        user_id: &'a [u8],
        user_name: &'a str,
    ) -> (r: Self)
        ensures
            r.excluded_ids@.len() == 0,
            r.credential_type == CredentialType::ES256,
            r.client_data_hash == client_data_hash,
            r.relying_party_id == relying_party_id,
            r.relying_party_name == relying_party_name,
            r.user_id == user_id,
            r.user_name == user_name,
            r.user_display_name is None,
            r.user_image_uri is None,
            r.options == (CredentialOptions { resident_key: false, user_verification: false }),
            r.extensions == (CredentialExtensions { hmac_secret: false }),
    {
        CredentialCreationData {
            excluded_ids: &[],
            credential_type: CredentialType::ES256,
            client_data_hash,
            relying_party_id,
            relying_party_name,
            user_id,
            user_name,
            user_display_name: None,
            user_image_uri: None,
            options: CredentialOptions::empty(),
            extensions: CredentialExtensions::empty(),
        }
    }

    /// The setter calls that configure a request with this data, in order.
    pub fn setup_steps(&self) -> (r: Vec<CredentialSetup<'a>>)
        ensures
            r@ == credential_plan(*self),
    {
        let mut steps: Vec<CredentialSetup<'a>> = Vec::new();
        if self.excluded_ids.len() != 0 {
            steps.push(CredentialSetup::Exclude(self.excluded_ids));
        }
        steps.push(CredentialSetup::Type(self.credential_type.cose_algorithm()));
        steps.push(CredentialSetup::ClientDataHash(self.client_data_hash));
        steps.push(
            CredentialSetup::RelyingParty { id: self.relying_party_id, name: self.relying_party_name },
        );
        steps.push(
            CredentialSetup::User {
                user_id: self.user_id,
                name: self.user_name,
                display_name: self.user_display_name,
                image_uri: self.user_image_uri,
            },
        );
        steps.push(
            CredentialSetup::Options {
                resident_key: self.options.resident_key,
                user_verification: self.options.user_verification,
            },
        );
        steps.push(CredentialSetup::Extensions(self.extensions.bits()));
        assert(steps@ =~= credential_plan(*self));
        steps
    }
}

/// The exclusion call is planned exactly when the excluded id is non-empty,
/// and then first: with an empty id it is never made.
pub proof fn lemma_exclusion_only_when_non_empty<'a>(d: CredentialCreationData<'a>)
    ensures
        d.excluded_ids@.len() == 0 ==> forall|i: int|
            0 <= i < credential_plan(d).len() ==> !(#[trigger] credential_plan(d)[i] is Exclude),
        d.excluded_ids@.len() != 0 ==> credential_plan(d)[0] == CredentialSetup::Exclude(
            d.excluded_ids,
        ),
{
}

/// A credential request being configured: owns a native credential object
/// that no device has populated.
#[derive(Debug)]
pub struct CredentialCreator {
    raw: NonNull<FidoCred>,
}

/// A credential that a device created.
///
/// It is only ever obtained from `CredentialCreator::complete` on a
/// successful device call, so its native object is always populated.
#[derive(Debug)]
pub struct Credential {
    raw: NonNull<FidoCred>,
}

impl View for CredentialCreator {
    type V = usize;

    closed spec fn view(&self) -> usize {
        self.raw@
    }
}

impl View for Credential {
    type V = usize;

    closed spec fn view(&self) -> usize {
        self.raw@
    }
}

impl CredentialCreator {
    /// Takes `raw`, the native object that `setup` configured, as a request
    /// when every step succeeded; otherwise hands `raw` back, for release,
    /// with the error of the step that failed.
    pub fn configured<'a>(raw: NonNull<FidoCred>, setup: &Setup<CredentialSetup<'a>>) -> (r: Result<
        CredentialCreator,
        (FidoError, NonNull<FidoCred>),
    >)
        requires
            setup.finished(),
        ensures
            r is Ok <==> setup.failure() is None,
            r matches Ok(c) ==> c@ == raw@,
            r matches Err((e, back)) ==> setup.failure() == Some(e@) && back == raw,
    {
        match setup.outcome() {
            Ok(()) => Ok(CredentialCreator { raw }),
            Err(e) => Err((e, raw)),
        }
    }

    /// Turns the request into a credential when the device call that it was
    /// sent with returned `status`: on success the same native object is the
    /// result; on failure the request comes back, with the error, for release.
    pub fn complete(self, status: i32) -> (r: Result<Credential, (FidoError, CredentialCreator)>)
        ensures
            r is Ok <==> status == FIDO_OK,
            r matches Ok(c) ==> c@ == self@,
            r matches Err((e, back)) ==> e@ == status && back@ == self@,
    {
        match crate::error::check_status(status) {
            Ok(()) => Ok(Credential { raw: self.raw }),
            Err(e) => Err((e, self)),
        }
    }

    /// The native object's address, for a call that reads it.
    pub fn as_ptr(&self) -> (r: usize)
        ensures
            r == self@,
            r != 0,
    {
        self.raw.as_ptr()
    }

    /// The native object's address, for a call that changes it.
    pub fn as_ptr_mut(&mut self) -> (r: usize)
        ensures
            r == old(self)@,
            r != 0,
            final(self)@ == old(self)@,
    {
        self.raw.as_ptr_mut()
    }

    /// Gives up the native object, for its release.
    pub fn into_raw(self) -> (r: NonNull<FidoCred>)
        ensures
            r@ == self@,
    {
        self.raw
    }
}

impl Credential {
    /// The native object's address, for a call that reads it.
    pub fn as_ptr(&self) -> (r: usize)
        ensures
            r == self@,
            r != 0,
    {
        self.raw.as_ptr()
    }

    /// Gives up the native object, for its release.
    pub fn into_raw(self) -> (r: NonNull<FidoCred>)
        ensures
            r@ == self@,
    {
        self.raw
    }
}

/// The fields of a created credential, borrowed from its native object.
#[derive(Clone, Copy, Debug, PartialEq, Eq)]
pub struct CredentialRef<'a> {
    pub format: &'a str,
    pub auth_data: &'a [u8],
    pub client_data_hash: &'a [u8],
    pub id: &'a [u8],
    pub public_key: &'a [u8],
    pub signature: &'a [u8],
    pub x509_certificate: &'a [u8],
}

impl<'a> CredentialRef<'a> {
    /// The attestation format that the `format` string names.
    pub fn decoded_format(&self) -> (r: Result<CredentialFormat, InvalidCredentialFormatError>)
        ensures
            r == format_of(self.format@),
    {
        CredentialFormat::decode(self.format)
    }
}

} // verus!
