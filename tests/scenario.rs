use libfido2::{
    check_status, select_verified, CredentialCreationData, CredentialCreator, Device, DeviceList,
    FidoCred, FidoDev, FidoDevInfo, NonNull, Setup,
};

const CLIENT_DATA_HASH: [u8; 32] = [
    0xf9, 0x64, 0x57, 0xe7, 0x2d, 0x97, 0xf6, 0xbb, 0xdd, 0xd7, 0xfb, 0x06, 0x37, 0x62, 0xea, 0x26,
    0x20, 0x44, 0x8e, 0x69, 0x7c, 0x03, 0xf2, 0x31, 0x2f, 0x99, 0xdc, 0xaf, 0x3e, 0x8a, 0x91, 0x6b,
];
const USER_ID: [u8; 4] = [0x78, 0x1c, 0x78, 0x60];
const INVALID_SIG: i32 = -6;

/// A simulated authenticator: it signs with its own key, and verification
/// against the expected key succeeds only when the two are the same.
fn verify_status(signing_key: u8, expected_key: u8) -> i32 {
    if signing_key == expected_key {
        0
    } else {
        INVALID_SIG
    }
}

fn create(signing_key: u8) -> Result<(), libfido2::FidoError> {
    let list = DeviceList::from_manifest(NonNull::<FidoDevInfo>::new(0x10).unwrap(), 1, 0, 1)
        .unwrap();
    assert_eq!(list.len(), 1);
    assert_eq!(list.indices(), vec![0]);

    let device = Device::opened(NonNull::<FidoDev>::new(0x20).unwrap(), 0).unwrap();
    assert_eq!(device.as_ptr(), 0x20);

    let data = CredentialCreationData::with_defaults(
        &CLIENT_DATA_HASH,
        "localhost",
        "Local",
        &USER_ID,
        "John Doe",
    );
    let mut setup = Setup::new(data.setup_steps());
    while setup.next_step().is_some() {
        setup.record(0);
    }
    let creator =
        CredentialCreator::configured(NonNull::<FidoCred>::new(0x30).unwrap(), &setup).unwrap();
    let credential = creator.complete(0).unwrap();
    assert_eq!(credential.as_ptr(), 0x30);
    check_status(verify_status(signing_key, 1))
}

#[test]
fn end_to_end_matching_key_verifies() {
    assert_eq!(create(1), Ok(()));
}

#[test]
fn end_to_end_mismatched_key_is_a_signature_error() {
    assert_eq!(create(2).unwrap_err().code(), INVALID_SIG);
}

#[test]
fn end_to_end_assertion_filter() {
    let statements = vec![10u8, 20, 30];
    let statuses = vec![verify_status(1, 1), verify_status(2, 1), verify_status(1, 1)];
    assert_eq!(select_verified(&statements, &statuses), vec![10, 30]);
}
