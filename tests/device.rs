use libfido2::{
    CTAPHIDCapabilities, CTAPHIDInfo, Device, DeviceInformation, DeviceList, DeviceMode,
    DevicePath, FidoDev, FidoDevInfo, NonNull,
};

#[test]
fn mode_from_support() {
    assert_eq!(DeviceMode::from_fido2_support(true), DeviceMode::Fido2);
    assert_eq!(DeviceMode::from_fido2_support(false), DeviceMode::FidoU2F);
}

#[test]
fn capabilities_from_flags() {
    let c = CTAPHIDCapabilities::from_bits_truncate(0x05);
    assert_eq!(c, CTAPHIDCapabilities { cbor: true, nmsg: false, wink: true });
    let all = CTAPHIDCapabilities::from_bits_truncate(0xff);
    assert_eq!(all, CTAPHIDCapabilities { cbor: true, nmsg: true, wink: true });
    assert_eq!(all.bits(), 0x0d);
    assert_eq!(CTAPHIDCapabilities::from_bits_truncate(0xf2).bits(), 0);
}

#[test]
fn hid_info_from_raw() {
    let info = CTAPHIDInfo::from_raw(2, 5, 1, 3, 0x0c);
    assert_eq!(info.protocol, 2);
    assert_eq!(info.major, 5);
    assert_eq!(info.minor, 1);
    assert_eq!(info.build, 3);
    assert_eq!(info.capabilities, CTAPHIDCapabilities { cbor: true, nmsg: true, wink: false });
}

#[test]
fn device_path_text() {
    let p = DevicePath::new("/dev/hidraw3");
    assert_eq!(p.to_str(), "/dev/hidraw3");
}

#[test]
fn device_opens_on_success() {
    let raw = NonNull::<FidoDev>::new(0x100).unwrap();
    let mut d = Device::opened(raw, 0).unwrap();
    assert_eq!(d.as_ptr_mut(), 0x100);
    assert_eq!(d.into_raw().as_ptr(), 0x100);
}

#[test]
fn failed_open_hands_back_handle() {
    let raw = NonNull::<FidoDev>::new(0x100).unwrap();
    let (e, back) = Device::opened(raw, -1).err().unwrap();
    assert_eq!(e.code(), -1);
    assert_eq!(back.as_ptr(), 0x100);
}

#[test]
fn enumeration_yields_found_entries() {
    let raw = NonNull::<FidoDevInfo>::new(0x200).unwrap();
    let list = DeviceList::from_manifest(raw, 8, 0, 3).unwrap();
    assert_eq!(list.len(), 3);
    assert!(!list.is_empty());
    assert_eq!(list.capacity(), 8);
    assert_eq!(list.indices(), vec![0, 1, 2]);
    let (raw, n) = list.into_raw();
    assert_eq!((raw.as_ptr(), n), (0x200, 8));
}

#[test]
fn enumeration_with_nothing_found() {
    let raw = NonNull::<FidoDevInfo>::new(0x200).unwrap();
    let list = DeviceList::from_manifest(raw, 4, 0, 0).unwrap();
    assert!(list.is_empty());
    assert!(list.indices().is_empty());
}

#[test]
fn enumeration_of_zero_capacity() {
    let raw = NonNull::<FidoDevInfo>::new(0x200).unwrap();
    let list = DeviceList::from_manifest(raw, 0, 0, 0).unwrap();
    assert_eq!(list.len(), 0);
}

#[test]
fn enumeration_reporting_too_many_is_refused() {
    let raw = NonNull::<FidoDevInfo>::new(0x200).unwrap();
    let back = DeviceList::from_manifest(raw, 2, 0, 3).err().unwrap();
    assert_eq!(back.as_ptr(), 0x200);
}

#[test]
fn failed_enumeration_is_refused() {
    let raw = NonNull::<FidoDevInfo>::new(0x200).unwrap();
    assert!(DeviceList::from_manifest(raw, 2, -9, 1).is_err());
}

#[test]
fn descriptor_fields() {
    let info = DeviceInformation {
        path: DevicePath::new("/dev/hidraw0"),
        product_id: 0x0407,
        vendor_id: 0x1050,
        manufacturer: "Yubico",
        product: "YubiKey",
    };
    assert_eq!(info.path.to_str(), "/dev/hidraw0");
    assert_eq!(info.vendor_id, 0x1050);
}
