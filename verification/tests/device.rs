use awr::device::{
    device_from_doc, device_from_json, device_to_doc, device_to_json, random_from_uin,
    DeviceError, DeviceIdentity,
};
use awr::hexstr::{hex_decode, hex_encode};
use awr::json::JsonValue;

fn obj(fields: Vec<(&str, JsonValue)>) -> JsonValue {
    JsonValue::Obj(fields.into_iter().map(|(k, v)| (k.to_string(), v)).collect())
}

fn assert_same_identity(a: &DeviceIdentity, b: &DeviceIdentity) {
    assert_eq!(a.display, b.display);
    assert_eq!(a.product, b.product);
    assert_eq!(a.device, b.device);
    assert_eq!(a.board, b.board);
    assert_eq!(a.model, b.model);
    assert_eq!(a.finger_print, b.finger_print);
    assert_eq!(a.boot_id, b.boot_id);
    assert_eq!(a.proc_version, b.proc_version);
    assert_eq!(a.imei, b.imei);
    assert_eq!(a.brand, b.brand);
    assert_eq!(a.bootloader, b.bootloader);
    assert_eq!(a.base_band, b.base_band);
    assert_eq!(a.version, b.version);
    assert_eq!(a.sim_info, b.sim_info);
    assert_eq!(a.os_type, b.os_type);
    assert_eq!(a.mac_address, b.mac_address);
    assert_eq!(a.ip_address, b.ip_address);
    assert_eq!(a.wifi_bssid, b.wifi_bssid);
    assert_eq!(a.wifi_ssid, b.wifi_ssid);
    assert_eq!(a.imsi_md5, b.imsi_md5);
    assert_eq!(a.android_id, b.android_id);
    assert_eq!(a.apn, b.apn);
    assert_eq!(a.vendor_name, b.vendor_name);
    assert_eq!(a.vendor_os_name, b.vendor_os_name);
}

#[test]
fn hex_text_of_bytes() {
    assert_eq!(hex_encode(&vec![0x0f, 0xa0]), "0fa0");
    assert_eq!(hex_encode(&vec![]), "");
    assert_eq!(hex_decode("0fa0"), Some(vec![0x0f, 0xa0]));
    assert_eq!(hex_decode("0FA0"), Some(vec![0x0f, 0xa0]));
    assert_eq!(hex_decode("0fa"), None);
    assert_eq!(hex_decode("0g"), None);
}

#[test]
fn generation_is_reproducible_per_account() {
    let a = random_from_uin(123456);
    let b = random_from_uin(123456);
    assert_same_identity(&a, &b);
    assert_eq!(a.imei.len(), 15);
    assert_eq!(a.imsi_md5.len(), 16);
    assert_eq!(a.ip_address.len(), 4);
    assert!(a.display.starts_with("awr-"));
    assert_eq!(a.mac_address.len(), 17);
    // different accounts draw different generator words
    let c = random_from_uin(654321);
    assert_ne!(a.imei, c.imei);
    assert_ne!(a.boot_id, c.boot_id);
}

#[test]
fn round_trip_through_document() {
    let d = random_from_uin(77);
    let doc = device_to_doc(&d);
    let fallback = random_from_uin(-1);
    let parsed = device_from_doc(&doc, &fallback).expect("a written document must read back");
    assert_same_identity(&parsed, &d);
}

#[test]
fn round_trip_through_json_text() {
    let d = random_from_uin(424242);
    let text = device_to_json(&d);
    let fallback = random_from_uin(99);
    let parsed = device_from_json(&text, &fallback).expect("written JSON must read back");
    assert_same_identity(&parsed, &d);
}

#[test]
fn legacy_byte_arrays_read_as_modern_strings() {
    let fallback = random_from_uin(5);
    // "hi" as UTF-8 byte values, the md5 as raw byte values
    let legacy = obj(vec![
        ("display", JsonValue::Arr(vec![JsonValue::Int(104), JsonValue::Int(105)])),
        (
            "imsiMd5",
            JsonValue::Arr(vec![JsonValue::Int(0x0f), JsonValue::Int(0xa0)]),
        ),
    ]);
    // the same content in the current schema: direct string, hexadecimal text
    let modern = obj(vec![
        ("deviceInfoVersion", JsonValue::Int(2)),
        (
            "data",
            obj(vec![
                ("display", JsonValue::Str("hi".to_string())),
                ("imsiMd5", JsonValue::Str("0fa0".to_string())),
            ]),
        ),
    ]);
    let from_legacy = device_from_doc(&legacy, &fallback).expect("legacy document must read");
    let from_modern = device_from_doc(&modern, &fallback).expect("modern document must read");
    assert_eq!(from_legacy.display, "hi");
    assert_eq!(from_legacy.display, from_modern.display);
    assert_eq!(from_legacy.imsi_md5, vec![0x0f, 0xa0]);
    assert_eq!(from_legacy.imsi_md5, from_modern.imsi_md5);
}

#[test]
fn missing_fields_fall_back_field_by_field() {
    let fallback = random_from_uin(9);
    let doc = obj(vec![("display", JsonValue::Str("kept".to_string()))]);
    let parsed = device_from_doc(&doc, &fallback).expect("an almost-empty legacy document reads");
    assert_eq!(parsed.display, "kept");
    assert_eq!(parsed.imei, fallback.imei);
    assert_eq!(parsed.version, fallback.version);
}

#[test]
fn unsupported_version_is_a_hard_error() {
    let fallback = random_from_uin(9);
    let doc = obj(vec![("deviceInfoVersion", JsonValue::Int(3))]);
    assert_eq!(
        device_from_doc(&doc, &fallback),
        Err(DeviceError::UnsupportedVersion(3))
    );
    let doc = obj(vec![("deviceInfoVersion", JsonValue::Str("2".to_string()))]);
    assert_eq!(
        device_from_doc(&doc, &fallback),
        Err(DeviceError::UnsupportedVersion(-1))
    );
}

#[test]
fn malformed_documents_name_their_fault() {
    let fallback = random_from_uin(9);
    assert_eq!(
        device_from_doc(&JsonValue::Int(4), &fallback),
        Err(DeviceError::Schema)
    );
    assert_eq!(
        device_from_json("this is not json", &fallback),
        Err(DeviceError::Parse)
    );
    // current schema without the data object
    let doc = obj(vec![("deviceInfoVersion", JsonValue::Int(2))]);
    assert_eq!(device_from_doc(&doc, &fallback), Err(DeviceError::Schema));
    // a byte field that is not hexadecimal text
    let doc = obj(vec![
        ("deviceInfoVersion", JsonValue::Int(2)),
        ("data", obj(vec![("imsiMd5", JsonValue::Str("zz".to_string()))])),
    ]);
    assert_eq!(device_from_doc(&doc, &fallback), Err(DeviceError::Hex));
    // a number that does not fit the field
    let doc = obj(vec![
        ("deviceInfoVersion", JsonValue::Int(2)),
        (
            "data",
            obj(vec![(
                "version",
                obj(vec![("sdk", JsonValue::Int(-1))]),
            )]),
        ),
    ]);
    assert_eq!(device_from_doc(&doc, &fallback), Err(DeviceError::IntRange));
    // a legacy byte-array string that is not UTF-8
    let doc = obj(vec![(
        "display",
        JsonValue::Arr(vec![JsonValue::Int(0xff)]),
    )]);
    assert_eq!(device_from_doc(&doc, &fallback), Err(DeviceError::Utf8));
}
