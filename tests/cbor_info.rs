use libfido2::{CBORData, CBORDataRef, FidoCborInfo, NonNull};

#[test]
fn unset_fields_decode_empty() {
    let d = CBORDataRef::decode(None, None, None, None, None, None).unwrap();
    assert_eq!(d.aag_uid, None);
    assert!(d.pin_protocols.is_empty());
    assert!(d.extensions.is_empty());
    assert!(d.ctap_versions.is_empty());
    assert_eq!(d.options.get("rk"), None);
}

#[test]
fn populated_fields_decode() {
    let guid = [0xcbu8; 16];
    let protocols = [1u8, 2];
    let values = [true, false, true];
    let d = CBORDataRef::decode(
        Some(&guid),
        Some(&protocols),
        Some(vec!["hmac-secret"]),
        Some(vec!["U2F_V2", "FIDO_2_0"]),
        Some(vec!["rk", "up", "plat"]),
        Some(&values),
    )
    .unwrap();
    assert_eq!(d.aag_uid, Some(&guid[..]));
    assert_eq!(d.pin_protocols, &protocols);
    assert_eq!(d.extensions, vec!["hmac-secret"]);
    assert_eq!(d.ctap_versions, vec!["U2F_V2", "FIDO_2_0"]);
    assert_eq!(d.options.get("rk"), Some(true));
    assert_eq!(d.options.get("up"), Some(false));
    assert_eq!(d.options.get("plat"), Some(true));
    assert_eq!(d.options.get("uv"), None);
    assert_eq!(d.options.get("r"), None);
}

#[test]
fn repeated_option_takes_last_value() {
    let values = [true, false];
    let d = CBORDataRef::decode(None, None, None, None, Some(vec!["rk", "rk"]), Some(&values))
        .unwrap();
    assert_eq!(d.options.get("rk"), Some(false));
}

#[test]
fn mismatched_option_values_are_refused() {
    let values = [true];
    assert!(CBORDataRef::decode(None, None, None, None, Some(vec!["rk", "up"]), Some(&values))
        .is_none());
    assert!(CBORDataRef::decode(None, None, None, None, Some(vec!["rk"]), None).is_none());
}

#[test]
fn values_without_names_give_no_options() {
    let values = [true];
    let d = CBORDataRef::decode(None, None, None, None, None, Some(&values)).unwrap();
    assert_eq!(d.options.get("rk"), None);
}

#[test]
fn capability_query_result() {
    let raw = NonNull::<FidoCborInfo>::new(0x300).unwrap();
    let c = CBORData::from_query(raw, 0).unwrap();
    assert_eq!(c.as_ptr(), 0x300);
    let raw = NonNull::<FidoCborInfo>::new(0x300).unwrap();
    let (e, back) = CBORData::from_query(raw, -2).err().unwrap();
    assert_eq!(e.code(), -2);
    assert_eq!(back.as_ptr(), 0x300);
}

#[test]
fn option_maps_compare_without_order() {
    let a_values = [true, false];
    let b_values = [false, true];
    let c_values = [true, true];
    let a = CBORDataRef::decode(None, None, None, None, Some(vec!["rk", "up"]), Some(&a_values))
        .unwrap();
    let b = CBORDataRef::decode(None, None, None, None, Some(vec!["up", "rk"]), Some(&b_values))
        .unwrap();
    let c = CBORDataRef::decode(None, None, None, None, Some(vec!["up", "rk"]), Some(&c_values))
        .unwrap();
    assert!(a.options == b.options);
    assert!(a == b);
    assert!(a.options != c.options);
    let fewer = [true];
    let d = CBORDataRef::decode(None, None, None, None, Some(vec!["rk"]), Some(&fewer)).unwrap();
    assert!(a.options != d.options);
    assert!(d.options != a.options);
}
