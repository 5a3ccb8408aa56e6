use libfido2::{
    CredentialCreationData, CredentialCreator, CredentialExtensions, CredentialFormat,
    CredentialOptions, CredentialRef, CredentialSetup, CredentialType, FidoCred,
    InvalidCredentialFormatError, NonNull, Setup,
};
use std::str::FromStr;

const HASH: [u8; 32] = [7; 32];
const USER: [u8; 4] = [1, 2, 3, 4];

fn defaults() -> CredentialCreationData<'static> {
    CredentialCreationData::with_defaults(&HASH, "localhost", "Local", &USER, "John Doe")
}

#[test]
fn packed_round_trips() {
    let f = CredentialFormat::decode("packed").unwrap();
    assert_eq!(f, CredentialFormat::Fido2);
    assert_eq!(f.as_str(), "packed");
}

#[test]
fn fido_u2f_round_trips() {
    let f = CredentialFormat::decode("fido-u2f").unwrap();
    assert_eq!(f, CredentialFormat::FidoU2F);
    assert_eq!(f.as_str(), "fido-u2f");
}

#[test]
fn other_formats_are_rejected() {
    for s in ["", "none", "Packed", "packed ", "fido_u2f", "tpm"] {
        assert_eq!(CredentialFormat::decode(s), Err(InvalidCredentialFormatError));
    }
    assert_eq!(CredentialFormat::from_str("packed"), Ok(CredentialFormat::Fido2));
    assert!(CredentialFormat::from_str("android-key").is_err());
    assert_eq!(InvalidCredentialFormatError.message(), "The credential string is invalid");
}

#[test]
fn cose_identifiers() {
    assert_eq!(CredentialType::ES256.cose_algorithm(), -7);
    assert_eq!(CredentialType::RS256.cose_algorithm(), -257);
    assert_eq!(CredentialType::EDDSA.cose_algorithm(), -8);
}

#[test]
fn extension_bits() {
    assert_eq!(CredentialExtensions::empty().bits(), 0);
    assert_eq!(CredentialExtensions { hmac_secret: true }.bits(), 1);
}

#[test]
fn credential_defaults() {
    let d = defaults();
    assert!(d.excluded_ids.is_empty());
    assert_eq!(d.credential_type, CredentialType::ES256);
    assert_eq!(d.client_data_hash, &HASH);
    assert_eq!(d.relying_party_id, "localhost");
    assert_eq!(d.user_display_name, None);
    assert_eq!(d.user_image_uri, None);
    assert_eq!(d.options, CredentialOptions::empty());
    assert_eq!(d.extensions, CredentialExtensions::empty());
}

#[test]
fn empty_exclusion_is_never_planned() {
    let steps = defaults().setup_steps();
    assert_eq!(steps.len(), 6);
    assert!(steps.iter().all(|s| !matches!(s, CredentialSetup::Exclude(_))));
    assert_eq!(steps[0], CredentialSetup::Type(-7));
    assert_eq!(steps[1], CredentialSetup::ClientDataHash(&HASH));
    assert_eq!(steps[2], CredentialSetup::RelyingParty { id: "localhost", name: "Local" });
    assert_eq!(
        steps[3],
        CredentialSetup::User {
            user_id: &USER,
            name: "John Doe",
            display_name: None,
            image_uri: None
        }
    );
    assert_eq!(steps[4], CredentialSetup::Options { resident_key: false, user_verification: false });
    assert_eq!(steps[5], CredentialSetup::Extensions(0));
}

#[test]
fn non_empty_exclusion_comes_first() {
    let excluded = [9u8, 9, 9];
    let mut d = defaults();
    d.excluded_ids = &excluded;
    d.credential_type = CredentialType::EDDSA;
    d.options.resident_key = true;
    d.extensions.hmac_secret = true;
    let steps = d.setup_steps();
    assert_eq!(steps.len(), 7);
    assert_eq!(steps[0], CredentialSetup::Exclude(&excluded));
    assert_eq!(steps[1], CredentialSetup::Type(-8));
    assert_eq!(steps[5], CredentialSetup::Options { resident_key: true, user_verification: false });
    assert_eq!(steps[6], CredentialSetup::Extensions(1));
}

fn run(setup: &mut Setup<CredentialSetup<'_>>, statuses: &[i32]) -> usize {
    let mut calls = 0;
    while let Some(_step) = setup.next_step() {
        setup.record(statuses[calls]);
        calls += 1;
    }
    calls
}

#[test]
fn setup_succeeds_when_every_step_does() {
    let mut setup = Setup::new(defaults().setup_steps());
    assert_eq!(run(&mut setup, &[0; 6]), 6);
    assert_eq!(setup.outcome(), Ok(()));
    let raw = NonNull::<FidoCred>::new(0x40).unwrap();
    let mut creator = CredentialCreator::configured(raw, &setup).unwrap();
    assert_eq!(creator.as_ptr_mut(), 0x40);
}

#[test]
fn setup_stops_at_first_failure() {
    let mut setup = Setup::new(defaults().setup_steps());
    assert_eq!(run(&mut setup, &[0, 0, -7, 0, 0, 0]), 3);
    assert_eq!(setup.next_step(), None);
    assert_eq!(setup.outcome().unwrap_err().code(), -7);
    let raw = NonNull::<FidoCred>::new(0x40).unwrap();
    let (e, back) = CredentialCreator::configured(raw, &setup).err().unwrap();
    assert_eq!(e.code(), -7);
    assert_eq!(back.as_ptr(), 0x40);
}

fn creator() -> CredentialCreator {
    let mut setup = Setup::new(defaults().setup_steps());
    run(&mut setup, &[0; 6]);
    CredentialCreator::configured(NonNull::new(0x80).unwrap(), &setup).unwrap()
}

#[test]
fn request_becomes_result_on_success() {
    let credential = creator().complete(0).unwrap();
    assert_eq!(credential.as_ptr(), 0x80);
    assert_eq!(credential.into_raw().as_ptr(), 0x80);
}

#[test]
fn failed_device_call_returns_request() {
    let (e, back) = creator().complete(0x27).err().unwrap();
    assert_eq!(e.code(), 0x27);
    assert_eq!(back.as_ptr(), 0x80);
    assert_eq!(back.into_raw().as_ptr(), 0x80);
}

#[test]
fn credential_view_decodes_format() {
    let view = CredentialRef {
        format: "packed",
        auth_data: &[1],
        client_data_hash: &HASH,
        id: &[2],
        public_key: &[3],
        signature: &[4],
        x509_certificate: &[5],
    };
    assert_eq!(view.decoded_format(), Ok(CredentialFormat::Fido2));
    let other = CredentialRef { format: "tpm", ..view };
    assert_eq!(other.decoded_format(), Err(InvalidCredentialFormatError));
}

#[test]
fn from_str_matches_exactly() {
    assert_eq!(CredentialFormat::from_str("fido-u2f"), Ok(CredentialFormat::FidoU2F));
    for s in ["", "Packed", "packed ", "FIDO-U2F"] {
        assert_eq!(CredentialFormat::from_str(s), Err(InvalidCredentialFormatError));
    }
}
