//! The persisted device identity.
//!
//! A stable per-account device fingerprint is kept in a versioned JSON
//! document.  Two on-disk schema versions are accepted on read: the legacy
//! schema stores strings as arrays of UTF-8 byte values and byte fields as
//! arrays of bytes; the current schema stores strings directly, byte fields
//! as hexadecimal text, and nests all fields under a `data` object.  Only the
//! current schema is written.  A missing field falls back, field by field, to
//! the caller's fallback identity (normally a freshly generated one), so one
//! absent field never fails the whole load; an unrecognized schema version is
//! a hard error.

use vstd::prelude::*;
use vstd::utf8::{decode_utf8, valid_utf8};

use crate::hexstr::{hex_decoded, hex_encode, hex_chars_of, hex_decode, hex_digit_of};
use crate::json::{JsonValue, obj_get, obj_lookup};

verus! {

/// Operating system version record of the device identity.
#[derive(Debug, Clone, PartialEq)]
pub struct OsVersion {
    pub incremental: String,
    pub release: String,
    pub codename: String,
    pub sdk: u32,
}

/// The per-account device fingerprint.
#[derive(Debug, Clone, PartialEq)]
pub struct DeviceIdentity {
    pub display: String,
    pub product: String,
    pub device: String,
    pub board: String,
    pub model: String,
    pub finger_print: String,
    pub boot_id: String,
    pub proc_version: String,
    pub imei: String,
    pub brand: String,
    pub bootloader: String,
    pub base_band: String,
    pub version: OsVersion,
    pub sim_info: String,
    pub os_type: String,
    pub mac_address: String,
    pub ip_address: Vec<u8>,
    pub wifi_bssid: String,
    pub wifi_ssid: String,
    pub imsi_md5: Vec<u8>,
    pub android_id: String,
    pub apn: String,
    pub vendor_name: String,
    pub vendor_os_name: String,
}

/// What reading or writing the device document can fail with.
#[derive(Debug, Clone, Copy, PartialEq, Eq, Structural)]
pub enum DeviceError {
    /// The document is not JSON.
    Parse,
    /// A value has the wrong shape for its place.
    Schema,
    /// The `deviceInfoVersion` field names no supported schema.
    UnsupportedVersion(i64),
    /// A legacy byte-array string is not UTF-8.
    Utf8,
    /// A byte field is not hexadecimal text.
    Hex,
    /// A number does not fit its field.
    IntRange,
}

/// What a current-schema string field denotes: the field's text, the
/// fallback when the field is absent, and nothing when the shape is wrong.
pub open spec fn v2_string_view(
    fields: Seq<(String, JsonValue)>,
    key: Seq<char>,
    fb: Seq<char>,
) -> Option<Seq<char>> {
    match obj_lookup(fields, key) {
        None => Some(fb),
        Some(JsonValue::Str(s)) => Some(s@),
        Some(_) => None,
    }
}

/// What a current-schema byte field denotes: the hexadecimal text decoded.
pub open spec fn v2_bytes_view(
    fields: Seq<(String, JsonValue)>,
    key: Seq<char>,
    fb: Seq<u8>,
) -> Option<Seq<u8>> {
    match obj_lookup(fields, key) {
        None => Some(fb),
        Some(JsonValue::Str(s)) => hex_decoded(s@),
        Some(_) => None,
    }
}

/// What a current-schema number field denotes; a number outside the 32-bit
/// unsigned range denotes nothing.
pub open spec fn v2_u32_view(fields: Seq<(String, JsonValue)>, key: Seq<char>, fb: u32) -> Option<
    u32,
> {
    match obj_lookup(fields, key) {
        None => Some(fb),
        Some(JsonValue::Int(i)) => if 0 <= i <= u32::MAX {
            Some(i as u32)
        } else {
            None
        },
        Some(_) => None,
    }
}

/// The byte string that an array of JSON numbers denotes, each number taken
/// modulo 256 as the source stores bytes; `None` when an element is no number.
pub open spec fn bytes_of_ints(a: Seq<JsonValue>) -> Option<Seq<u8>>
    decreases a.len(),
{
    if a.len() == 0 {
        Some(Seq::empty())
    } else {
        match a.last() {
            JsonValue::Int(i) => match bytes_of_ints(a.drop_last()) {
                Some(rest) => Some(rest.push(i as u8)),
                None => None,
            },
            _ => None,
        }
    }
}

/// What a legacy string field denotes: direct text, or an array of UTF-8
/// byte values decoded; the fallback when absent.
pub open spec fn v1_string_view(
    fields: Seq<(String, JsonValue)>,
    key: Seq<char>,
    fb: Seq<char>,
) -> Option<Seq<char>> {
    match obj_lookup(fields, key) {
        None => Some(fb),
        Some(JsonValue::Str(s)) => Some(s@),
        Some(JsonValue::Arr(a)) => match bytes_of_ints(a@) {
            Some(b) => if valid_utf8(b) {
                Some(decode_utf8(b))
            } else {
                None
            },
            None => None,
        },
        Some(_) => None,
    }
}

/// What a legacy byte field denotes: an array of byte values.
pub open spec fn v1_bytes_view(
    fields: Seq<(String, JsonValue)>,
    key: Seq<char>,
    fb: Seq<u8>,
) -> Option<Seq<u8>> {
    match obj_lookup(fields, key) {
        None => Some(fb),
        Some(JsonValue::Arr(a)) => bytes_of_ints(a@),
        Some(_) => None,
    }
}

/// What a legacy number field denotes; the source reads it truncating.
pub open spec fn v1_u32_view(fields: Seq<(String, JsonValue)>, key: Seq<char>, fb: u32) -> Option<
    u32,
> {
    match obj_lookup(fields, key) {
        None => Some(fb),
        Some(JsonValue::Int(i)) => Some(i as u32),
        Some(_) => None,
    }
}

/// Reads a current-schema string field.
fn v2_string(fields: &Vec<(String, JsonValue)>, key: &str, fb: &String) -> (r: Result<
    String,
    DeviceError,
>)
    ensures
        match r {
            Ok(s) => v2_string_view(fields@, key@, fb@) == Some(s@),
            Err(e) => v2_string_view(fields@, key@, fb@) is None && e == DeviceError::Schema,
        },
{
    match obj_get(fields, key) {
        None => Ok(fb.clone()),
        Some(JsonValue::Str(s)) => Ok(s.clone()),
        Some(_) => Err(DeviceError::Schema),
    }
}

/// Reads a current-schema byte field from hexadecimal text.
fn v2_bytes(fields: &Vec<(String, JsonValue)>, key: &str, fb: &Vec<u8>) -> (r: Result<
    Vec<u8>,
    DeviceError,
>)
    ensures
        match r {
            Ok(v) => v2_bytes_view(fields@, key@, fb@) == Some(v@),
            Err(e) => v2_bytes_view(fields@, key@, fb@) is None && e == (
            match obj_lookup(fields@, key@) {
                Some(JsonValue::Str(_)) => DeviceError::Hex,
                _ => DeviceError::Schema,
            }),
        },
{
    match obj_get(fields, key) {
        None => {
            let copy = fb.clone();
            proof {
                assert(copy@ =~= fb@);
            }
            Ok(copy)
        },
        Some(JsonValue::Str(s)) => match hex_decode(s.as_str()) {
            Some(v) => Ok(v),
            None => Err(DeviceError::Hex),
        },
        Some(_) => Err(DeviceError::Schema),
    }
}

/// Reads a current-schema number field, rejecting out-of-range numbers.
fn v2_u32(fields: &Vec<(String, JsonValue)>, key: &str, fb: u32) -> (r: Result<u32, DeviceError>)
    ensures
        match r {
            Ok(v) => v2_u32_view(fields@, key@, fb) == Some(v),
            Err(e) => v2_u32_view(fields@, key@, fb) is None && e == (
            match obj_lookup(fields@, key@) {
                Some(JsonValue::Int(_)) => DeviceError::IntRange,
                _ => DeviceError::Schema,
            }),
        },
{
    match obj_get(fields, key) {
        None => Ok(fb),
        Some(JsonValue::Int(i)) => {
            let i = *i;
            if 0 <= i && i <= u32::MAX as i64 {
                Ok(#[verifier::truncate] (i as u32))
            } else {
                Err(DeviceError::IntRange)
            }
        },
        Some(_) => Err(DeviceError::Schema),
    }
}

/// Reads a legacy string field, decoding a byte-array form when present.
fn v1_string(fields: &Vec<(String, JsonValue)>, key: &str, fb: &String) -> (r: Result<
    String,
    DeviceError,
>)
    ensures
        match r {
            Ok(s) => v1_string_view(fields@, key@, fb@) == Some(s@),
            Err(e) => v1_string_view(fields@, key@, fb@) is None && (e == DeviceError::Schema || e
                == DeviceError::Utf8),
        },
{
    match obj_get(fields, key) {
        None => Ok(fb.clone()),
        Some(JsonValue::Str(s)) => Ok(s.clone()),
        Some(JsonValue::Arr(a)) => match int_array_bytes(a) {
            Some(bytes) => match string_from_utf8(bytes) {
                Some(s) => Ok(s),
                None => Err(DeviceError::Utf8),
            },
            None => Err(DeviceError::Schema),
        },
        Some(_) => Err(DeviceError::Schema),
    }
}

/// Reads a legacy byte field from an array of byte values.
fn v1_bytes(fields: &Vec<(String, JsonValue)>, key: &str, fb: &Vec<u8>) -> (r: Result<
    Vec<u8>,
    DeviceError,
>)
    ensures
        match r {
            Ok(v) => v1_bytes_view(fields@, key@, fb@) == Some(v@),
            Err(e) => v1_bytes_view(fields@, key@, fb@) is None && e == DeviceError::Schema,
        },
{
    match obj_get(fields, key) {
        None => {
            let copy = fb.clone();
            proof {
                assert(copy@ =~= fb@);
            }
            Ok(copy)
        },
        Some(JsonValue::Arr(a)) => match int_array_bytes(a) {
            Some(bytes) => Ok(bytes),
            None => Err(DeviceError::Schema),
        },
        Some(_) => Err(DeviceError::Schema),
    }
}

/// Reads a legacy number field, truncating as the source does.
fn v1_u32(fields: &Vec<(String, JsonValue)>, key: &str, fb: u32) -> (r: Result<u32, DeviceError>)
    ensures
        match r {
            Ok(v) => v1_u32_view(fields@, key@, fb) == Some(v),
            Err(e) => v1_u32_view(fields@, key@, fb) is None && e == DeviceError::Schema,
        },
{
    match obj_get(fields, key) {
        None => Ok(fb),
        Some(JsonValue::Int(i)) => Ok(#[verifier::truncate] (*i as u32)),
        Some(_) => Err(DeviceError::Schema),
    }
}

/// An array with an element that is no number denotes no byte string.
proof fn lemma_bytes_of_ints_bad(a: Seq<JsonValue>, j: int)
    requires
        0 <= j < a.len(),
        !(a[j] is Int),
    ensures
        bytes_of_ints(a) is None,
    decreases a.len(),
{
    if j < a.len() - 1 {
        lemma_bytes_of_ints_bad(a.drop_last(), j);
    }
}

/// Turns an array of JSON numbers into bytes, each taken modulo 256.
fn int_array_bytes(a: &Vec<JsonValue>) -> (r: Option<Vec<u8>>)
    ensures
        match r {
            Some(v) => bytes_of_ints(a@) == Some(v@),
            None => bytes_of_ints(a@) is None,
        },
{
    let mut out: Vec<u8> = Vec::new();
    let mut i: usize = 0;
    while i < a.len()
        invariant
            i <= a.len(),
            bytes_of_ints(a@.take(i as int)) == Some(out@),
        decreases a.len() - i,
    {
        proof {
            assert(a@.take(i + 1 as int).drop_last() =~= a@.take(i as int));
            assert(a@.take(i + 1 as int).last() == a@[i as int]);
        }
        match &a[i] {
            JsonValue::Int(v) => out.push(#[verifier::truncate] (*v as u8)),
            _ => {
                proof {
                    lemma_bytes_of_ints_bad(a@, i as int);
                }
                return None;
            },
        }
        i = i + 1;
    }
    proof {
        assert(a@.take(a@.len() as int) =~= a@);
    }
    Some(out)
}

/// Relies on `String::from_utf8`: succeeds exactly on valid UTF-8 and
/// decodes the bytes to the characters they encode.
#[verifier::external_body]
fn string_from_utf8(bytes: Vec<u8>) -> (r: Option<String>)
    ensures
        match r {
            Some(s) => valid_utf8(bytes@) && s@ == decode_utf8(bytes@),
            None => !valid_utf8(bytes@),
        },
{
    String::from_utf8(bytes).ok()
}

} // verus!

verus! {

/// The schema version named by a document: absent means the legacy schema,
/// a non-number is unrecognized.
pub open spec fn doc_version(top: Seq<(String, JsonValue)>) -> i64 {
    match obj_lookup(top, "deviceInfoVersion"@) {
        None => 1i64,
        Some(JsonValue::Int(i)) => i,
        Some(_) => -1i64,
    }
}

/// The current-schema version object, when present, is an object whose
/// fields have the right shape; an absent one falls back whole.
pub open spec fn v2_osv_ok(fields: Seq<(String, JsonValue)>, fb: OsVersion) -> bool {
    match obj_lookup(fields, "version"@) {
        None => true,
        Some(JsonValue::Obj(vf)) => {
            &&& v2_string_view(vf@, "incremental"@, fb.incremental@) is Some
            &&& v2_string_view(vf@, "release"@, fb.release@) is Some
            &&& v2_string_view(vf@, "codename"@, fb.codename@) is Some
            &&& v2_u32_view(vf@, "sdk"@, fb.sdk) is Some
        },
        Some(_) => false,
    }
}

/// What the current-schema version object denotes, field for field; an
/// absent one denotes the fallback.
pub open spec fn v2_osv_match(fields: Seq<(String, JsonValue)>, fb: OsVersion, v: OsVersion) -> bool {
    match obj_lookup(fields, "version"@) {
        None => v.incremental@ == fb.incremental@ && v.release@ == fb.release@ && v.codename@
            == fb.codename@ && v.sdk == fb.sdk,
        Some(JsonValue::Obj(vf)) => {
            &&& v2_string_view(vf@, "incremental"@, fb.incremental@) == Some(v.incremental@)
            &&& v2_string_view(vf@, "release"@, fb.release@) == Some(v.release@)
            &&& v2_string_view(vf@, "codename"@, fb.codename@) == Some(v.codename@)
            &&& v2_u32_view(vf@, "sdk"@, fb.sdk) == Some(v.sdk)
        },
        Some(_) => false,
    }
}

/// The legacy version object, when present, is an object whose fields have
/// the right shape; an absent one falls back whole.
pub open spec fn v1_osv_ok(fields: Seq<(String, JsonValue)>, fb: OsVersion) -> bool {
    match obj_lookup(fields, "version"@) {
        None => true,
        Some(JsonValue::Obj(vf)) => {
            &&& v1_string_view(vf@, "incremental"@, fb.incremental@) is Some
            &&& v1_string_view(vf@, "release"@, fb.release@) is Some
            &&& v1_string_view(vf@, "codename"@, fb.codename@) is Some
            &&& v1_u32_view(vf@, "sdk"@, fb.sdk) is Some
        },
        Some(_) => false,
    }
}

/// What the legacy version object denotes, field for field; an absent one
/// denotes the fallback.
pub open spec fn v1_osv_match(fields: Seq<(String, JsonValue)>, fb: OsVersion, v: OsVersion) -> bool {
    match obj_lookup(fields, "version"@) {
        None => v.incremental@ == fb.incremental@ && v.release@ == fb.release@ && v.codename@
            == fb.codename@ && v.sdk == fb.sdk,
        Some(JsonValue::Obj(vf)) => {
            &&& v1_string_view(vf@, "incremental"@, fb.incremental@) == Some(v.incremental@)
            &&& v1_string_view(vf@, "release"@, fb.release@) == Some(v.release@)
            &&& v1_string_view(vf@, "codename"@, fb.codename@) == Some(v.codename@)
            &&& v1_u32_view(vf@, "sdk"@, fb.sdk) == Some(v.sdk)
        },
        Some(_) => false,
    }
}

/// Every field of a current-schema data object has the right shape.
pub open spec fn v2_device_ok(f: Seq<(String, JsonValue)>, fb: DeviceIdentity) -> bool {
    &&& v2_string_view(f, "display"@, fb.display@) is Some
    &&& v2_string_view(f, "product"@, fb.product@) is Some
    &&& v2_string_view(f, "device"@, fb.device@) is Some
    &&& v2_string_view(f, "board"@, fb.board@) is Some
    &&& v2_string_view(f, "model"@, fb.model@) is Some
    &&& v2_string_view(f, "fingerprint"@, fb.finger_print@) is Some
    &&& v2_string_view(f, "bootId"@, fb.boot_id@) is Some
    &&& v2_string_view(f, "procVersion"@, fb.proc_version@) is Some
    &&& v2_string_view(f, "imei"@, fb.imei@) is Some
    &&& v2_string_view(f, "brand"@, fb.brand@) is Some
    &&& v2_string_view(f, "bootloader"@, fb.bootloader@) is Some
    &&& v2_string_view(f, "baseBand"@, fb.base_band@) is Some
    &&& v2_osv_ok(f, fb.version)
    &&& v2_string_view(f, "simInfo"@, fb.sim_info@) is Some
    &&& v2_string_view(f, "osType"@, fb.os_type@) is Some
    &&& v2_string_view(f, "macAddress"@, fb.mac_address@) is Some
    &&& v2_bytes_view(f, "ipAddress"@, fb.ip_address@) is Some
    &&& v2_string_view(f, "wifiBSSID"@, fb.wifi_bssid@) is Some
    &&& v2_string_view(f, "wifiSSID"@, fb.wifi_ssid@) is Some
    &&& v2_bytes_view(f, "imsiMd5"@, fb.imsi_md5@) is Some
    &&& v2_string_view(f, "androidId"@, fb.android_id@) is Some
    &&& v2_string_view(f, "apn"@, fb.apn@) is Some
    &&& v2_string_view(f, "vendorName"@, fb.vendor_name@) is Some
    &&& v2_string_view(f, "vendorOsName"@, fb.vendor_os_name@) is Some
}

/// What a current-schema data object denotes, field for field.
pub open spec fn device_fields_match_v2(
    f: Seq<(String, JsonValue)>,
    fb: DeviceIdentity,
    d: DeviceIdentity,
) -> bool {
    &&& v2_string_view(f, "display"@, fb.display@) == Some(d.display@)
    &&& v2_string_view(f, "product"@, fb.product@) == Some(d.product@)
    &&& v2_string_view(f, "device"@, fb.device@) == Some(d.device@)
    &&& v2_string_view(f, "board"@, fb.board@) == Some(d.board@)
    &&& v2_string_view(f, "model"@, fb.model@) == Some(d.model@)
    &&& v2_string_view(f, "fingerprint"@, fb.finger_print@) == Some(d.finger_print@)
    &&& v2_string_view(f, "bootId"@, fb.boot_id@) == Some(d.boot_id@)
    &&& v2_string_view(f, "procVersion"@, fb.proc_version@) == Some(d.proc_version@)
    &&& v2_string_view(f, "imei"@, fb.imei@) == Some(d.imei@)
    &&& v2_string_view(f, "brand"@, fb.brand@) == Some(d.brand@)
    &&& v2_string_view(f, "bootloader"@, fb.bootloader@) == Some(d.bootloader@)
    &&& v2_string_view(f, "baseBand"@, fb.base_band@) == Some(d.base_band@)
    &&& v2_osv_match(f, fb.version, d.version)
    &&& v2_string_view(f, "simInfo"@, fb.sim_info@) == Some(d.sim_info@)
    &&& v2_string_view(f, "osType"@, fb.os_type@) == Some(d.os_type@)
    &&& v2_string_view(f, "macAddress"@, fb.mac_address@) == Some(d.mac_address@)
    &&& v2_bytes_view(f, "ipAddress"@, fb.ip_address@) == Some(d.ip_address@)
    &&& v2_string_view(f, "wifiBSSID"@, fb.wifi_bssid@) == Some(d.wifi_bssid@)
    &&& v2_string_view(f, "wifiSSID"@, fb.wifi_ssid@) == Some(d.wifi_ssid@)
    &&& v2_bytes_view(f, "imsiMd5"@, fb.imsi_md5@) == Some(d.imsi_md5@)
    &&& v2_string_view(f, "androidId"@, fb.android_id@) == Some(d.android_id@)
    &&& v2_string_view(f, "apn"@, fb.apn@) == Some(d.apn@)
    &&& v2_string_view(f, "vendorName"@, fb.vendor_name@) == Some(d.vendor_name@)
    &&& v2_string_view(f, "vendorOsName"@, fb.vendor_os_name@) == Some(d.vendor_os_name@)
}

/// Every field of a legacy document has the right shape.
pub open spec fn v1_device_ok(f: Seq<(String, JsonValue)>, fb: DeviceIdentity) -> bool {
    &&& v1_string_view(f, "display"@, fb.display@) is Some
    &&& v1_string_view(f, "product"@, fb.product@) is Some
    &&& v1_string_view(f, "device"@, fb.device@) is Some
    &&& v1_string_view(f, "board"@, fb.board@) is Some
    &&& v1_string_view(f, "model"@, fb.model@) is Some
    &&& v1_string_view(f, "fingerprint"@, fb.finger_print@) is Some
    &&& v1_string_view(f, "bootId"@, fb.boot_id@) is Some
    &&& v1_string_view(f, "procVersion"@, fb.proc_version@) is Some
    &&& v1_string_view(f, "imei"@, fb.imei@) is Some
    &&& v1_string_view(f, "brand"@, fb.brand@) is Some
    &&& v1_string_view(f, "bootloader"@, fb.bootloader@) is Some
    &&& v1_string_view(f, "baseBand"@, fb.base_band@) is Some
    &&& v1_osv_ok(f, fb.version)
    &&& v1_string_view(f, "simInfo"@, fb.sim_info@) is Some
    &&& v1_string_view(f, "osType"@, fb.os_type@) is Some
    &&& v1_string_view(f, "macAddress"@, fb.mac_address@) is Some
    &&& v1_bytes_view(f, "ipAddress"@, fb.ip_address@) is Some
    &&& v1_string_view(f, "wifiBSSID"@, fb.wifi_bssid@) is Some
    &&& v1_string_view(f, "wifiSSID"@, fb.wifi_ssid@) is Some
    &&& v1_bytes_view(f, "imsiMd5"@, fb.imsi_md5@) is Some
    &&& v1_string_view(f, "androidId"@, fb.android_id@) is Some
    &&& v1_string_view(f, "apn"@, fb.apn@) is Some
    &&& v1_string_view(f, "vendorName"@, fb.vendor_name@) is Some
    &&& v1_string_view(f, "vendorOsName"@, fb.vendor_os_name@) is Some
}

/// What a legacy document denotes, field for field.
pub open spec fn device_fields_match_v1(
    f: Seq<(String, JsonValue)>,
    fb: DeviceIdentity,
    d: DeviceIdentity,
) -> bool {
    &&& v1_string_view(f, "display"@, fb.display@) == Some(d.display@)
    &&& v1_string_view(f, "product"@, fb.product@) == Some(d.product@)
    &&& v1_string_view(f, "device"@, fb.device@) == Some(d.device@)
    &&& v1_string_view(f, "board"@, fb.board@) == Some(d.board@)
    &&& v1_string_view(f, "model"@, fb.model@) == Some(d.model@)
    &&& v1_string_view(f, "fingerprint"@, fb.finger_print@) == Some(d.finger_print@)
    &&& v1_string_view(f, "bootId"@, fb.boot_id@) == Some(d.boot_id@)
    &&& v1_string_view(f, "procVersion"@, fb.proc_version@) == Some(d.proc_version@)
    &&& v1_string_view(f, "imei"@, fb.imei@) == Some(d.imei@)
    &&& v1_string_view(f, "brand"@, fb.brand@) == Some(d.brand@)
    &&& v1_string_view(f, "bootloader"@, fb.bootloader@) == Some(d.bootloader@)
    &&& v1_string_view(f, "baseBand"@, fb.base_band@) == Some(d.base_band@)
    &&& v1_osv_match(f, fb.version, d.version)
    &&& v1_string_view(f, "simInfo"@, fb.sim_info@) == Some(d.sim_info@)
    &&& v1_string_view(f, "osType"@, fb.os_type@) == Some(d.os_type@)
    &&& v1_string_view(f, "macAddress"@, fb.mac_address@) == Some(d.mac_address@)
    &&& v1_bytes_view(f, "ipAddress"@, fb.ip_address@) == Some(d.ip_address@)
    &&& v1_string_view(f, "wifiBSSID"@, fb.wifi_bssid@) == Some(d.wifi_bssid@)
    &&& v1_string_view(f, "wifiSSID"@, fb.wifi_ssid@) == Some(d.wifi_ssid@)
    &&& v1_bytes_view(f, "imsiMd5"@, fb.imsi_md5@) == Some(d.imsi_md5@)
    &&& v1_string_view(f, "androidId"@, fb.android_id@) == Some(d.android_id@)
    &&& v1_string_view(f, "apn"@, fb.apn@) == Some(d.apn@)
    &&& v1_string_view(f, "vendorName"@, fb.vendor_name@) == Some(d.vendor_name@)
    &&& v1_string_view(f, "vendorOsName"@, fb.vendor_os_name@) == Some(d.vendor_os_name@)
}

/// Reads the version object of a current-schema data object.
fn v2_os_version(fields: &Vec<(String, JsonValue)>, fb: &OsVersion) -> (r: Result<
    OsVersion,
    DeviceError,
>)
    ensures
        r is Ok <==> v2_osv_ok(fields@, *fb),
        r is Ok ==> v2_osv_match(fields@, *fb, r->Ok_0),
        r is Err ==> (r->Err_0 == DeviceError::Schema || r->Err_0 == DeviceError::IntRange),
{
    match obj_get(fields, "version") {
        None => Ok(
            OsVersion {
                incremental: fb.incremental.clone(),
                release: fb.release.clone(),
                codename: fb.codename.clone(),
                sdk: fb.sdk,
            },
        ),
        Some(JsonValue::Obj(vf)) => {
            let incremental = match v2_string(vf, "incremental", &fb.incremental) {
                Ok(v) => v,
                Err(e) => return Err(e),
            };
            let release = match v2_string(vf, "release", &fb.release) {
                Ok(v) => v,
                Err(e) => return Err(e),
            };
            let codename = match v2_string(vf, "codename", &fb.codename) {
                Ok(v) => v,
                Err(e) => return Err(e),
            };
            let sdk = match v2_u32(vf, "sdk", fb.sdk) {
                Ok(v) => v,
                Err(e) => return Err(e),
            };
            Ok(OsVersion { incremental, release, codename, sdk })
        },
        _ => Err(DeviceError::Schema),
    }
}

/// Reads the version object of a legacy document.
fn v1_os_version(fields: &Vec<(String, JsonValue)>, fb: &OsVersion) -> (r: Result<
    OsVersion,
    DeviceError,
>)
    ensures
        r is Ok <==> v1_osv_ok(fields@, *fb),
        r is Ok ==> v1_osv_match(fields@, *fb, r->Ok_0),
        r is Err ==> (r->Err_0 == DeviceError::Schema || r->Err_0 == DeviceError::Utf8),
{
    match obj_get(fields, "version") {
        None => Ok(
            OsVersion {
                incremental: fb.incremental.clone(),
                release: fb.release.clone(),
                codename: fb.codename.clone(),
                sdk: fb.sdk,
            },
        ),
        Some(JsonValue::Obj(vf)) => {
            let incremental = match v1_string(vf, "incremental", &fb.incremental) {
                Ok(v) => v,
                Err(e) => return Err(e),
            };
            let release = match v1_string(vf, "release", &fb.release) {
                Ok(v) => v,
                Err(e) => return Err(e),
            };
            let codename = match v1_string(vf, "codename", &fb.codename) {
                Ok(v) => v,
                Err(e) => return Err(e),
            };
            let sdk = match v1_u32(vf, "sdk", fb.sdk) {
                Ok(v) => v,
                Err(e) => return Err(e),
            };
            Ok(OsVersion { incremental, release, codename, sdk })
        },
        _ => Err(DeviceError::Schema),
    }
}

/// Reads a current-schema data object into a device identity, falling back
/// field by field to `fb` where a field is absent.
fn parse_v2(f: &Vec<(String, JsonValue)>, fb: &DeviceIdentity) -> (r: Result<
    DeviceIdentity,
    DeviceError,
>)
    ensures
        r is Ok <==> v2_device_ok(f@, *fb),
        r is Ok ==> device_fields_match_v2(f@, *fb, r->Ok_0),
        r is Err ==> (r->Err_0 == DeviceError::Schema || r->Err_0 == DeviceError::Hex
            || r->Err_0 == DeviceError::IntRange),
{
    let display = match v2_string(f, "display", &fb.display) {
        Ok(v) => v,
        Err(e) => return Err(e),
    };
    let product = match v2_string(f, "product", &fb.product) {
        Ok(v) => v,
        Err(e) => return Err(e),
    };
    let device = match v2_string(f, "device", &fb.device) {
        Ok(v) => v,
        Err(e) => return Err(e),
    };
    let board = match v2_string(f, "board", &fb.board) {
        Ok(v) => v,
        Err(e) => return Err(e),
    };
    let model = match v2_string(f, "model", &fb.model) {
        Ok(v) => v,
        Err(e) => return Err(e),
    };
    let finger_print = match v2_string(f, "fingerprint", &fb.finger_print) {
        Ok(v) => v,
        Err(e) => return Err(e),
    };
    let boot_id = match v2_string(f, "bootId", &fb.boot_id) {
        Ok(v) => v,
        Err(e) => return Err(e),
    };
    let proc_version = match v2_string(f, "procVersion", &fb.proc_version) {
        Ok(v) => v,
        Err(e) => return Err(e),
    };
    let imei = match v2_string(f, "imei", &fb.imei) {
        Ok(v) => v,
        Err(e) => return Err(e),
    };
    let brand = match v2_string(f, "brand", &fb.brand) {
        Ok(v) => v,
        Err(e) => return Err(e),
    };
    let bootloader = match v2_string(f, "bootloader", &fb.bootloader) {
        Ok(v) => v,
        Err(e) => return Err(e),
    };
    let base_band = match v2_string(f, "baseBand", &fb.base_band) {
        Ok(v) => v,
        Err(e) => return Err(e),
    };
    let version = match v2_os_version(f, &fb.version) {
        Ok(v) => v,
        Err(e) => return Err(e),
    };
    let sim_info = match v2_string(f, "simInfo", &fb.sim_info) {
        Ok(v) => v,
        Err(e) => return Err(e),
    };
    let os_type = match v2_string(f, "osType", &fb.os_type) {
        Ok(v) => v,
        Err(e) => return Err(e),
    };
    let mac_address = match v2_string(f, "macAddress", &fb.mac_address) {
        Ok(v) => v,
        Err(e) => return Err(e),
    };
    let ip_address = match v2_bytes(f, "ipAddress", &fb.ip_address) {
        Ok(v) => v,
        Err(e) => return Err(e),
    };
    let wifi_bssid = match v2_string(f, "wifiBSSID", &fb.wifi_bssid) {
        Ok(v) => v,
        Err(e) => return Err(e),
    };
    let wifi_ssid = match v2_string(f, "wifiSSID", &fb.wifi_ssid) {
        Ok(v) => v,
        Err(e) => return Err(e),
    };
    let imsi_md5 = match v2_bytes(f, "imsiMd5", &fb.imsi_md5) {
        Ok(v) => v,
        Err(e) => return Err(e),
    };
    let android_id = match v2_string(f, "androidId", &fb.android_id) {
        Ok(v) => v,
        Err(e) => return Err(e),
    };
    let apn = match v2_string(f, "apn", &fb.apn) {
        Ok(v) => v,
        Err(e) => return Err(e),
    };
    let vendor_name = match v2_string(f, "vendorName", &fb.vendor_name) {
        Ok(v) => v,
        Err(e) => return Err(e),
    };
    let vendor_os_name = match v2_string(f, "vendorOsName", &fb.vendor_os_name) {
        Ok(v) => v,
        Err(e) => return Err(e),
    };
    Ok(DeviceIdentity {
        display,
        product,
        device,
        board,
        model,
        finger_print,
        boot_id,
        proc_version,
        imei,
        brand,
        bootloader,
        base_band,
        version,
        sim_info,
        os_type,
        mac_address,
        ip_address,
        wifi_bssid,
        wifi_ssid,
        imsi_md5,
        android_id,
        apn,
        vendor_name,
        vendor_os_name,
    })
}

/// Reads a legacy document into a device identity, falling back field by
/// field to `fb` where a field is absent.
fn parse_v1(f: &Vec<(String, JsonValue)>, fb: &DeviceIdentity) -> (r: Result<
    DeviceIdentity,
    DeviceError,
>)
    ensures
        r is Ok <==> v1_device_ok(f@, *fb),
        r is Ok ==> device_fields_match_v1(f@, *fb, r->Ok_0),
        r is Err ==> (r->Err_0 == DeviceError::Schema || r->Err_0 == DeviceError::Utf8),
{
    let display = match v1_string(f, "display", &fb.display) {
        Ok(v) => v,
        Err(e) => return Err(e),
    };
    let product = match v1_string(f, "product", &fb.product) {
        Ok(v) => v,
        Err(e) => return Err(e),
    };
    let device = match v1_string(f, "device", &fb.device) {
        Ok(v) => v,
        Err(e) => return Err(e),
    };
    let board = match v1_string(f, "board", &fb.board) {
        Ok(v) => v,
        Err(e) => return Err(e),
    };
    let model = match v1_string(f, "model", &fb.model) {
        Ok(v) => v,
        Err(e) => return Err(e),
    };
    let finger_print = match v1_string(f, "fingerprint", &fb.finger_print) {
        Ok(v) => v,
        Err(e) => return Err(e),
    };
    let boot_id = match v1_string(f, "bootId", &fb.boot_id) {
        Ok(v) => v,
        Err(e) => return Err(e),
    };
    let proc_version = match v1_string(f, "procVersion", &fb.proc_version) {
        Ok(v) => v,
        Err(e) => return Err(e),
    };
    let imei = match v1_string(f, "imei", &fb.imei) {
        Ok(v) => v,
        Err(e) => return Err(e),
    };
    let brand = match v1_string(f, "brand", &fb.brand) {
        Ok(v) => v,
        Err(e) => return Err(e),
    };
    let bootloader = match v1_string(f, "bootloader", &fb.bootloader) {
        Ok(v) => v,
        Err(e) => return Err(e),
    };
    let base_band = match v1_string(f, "baseBand", &fb.base_band) {
        Ok(v) => v,
        Err(e) => return Err(e),
    };
    let version = match v1_os_version(f, &fb.version) {
        Ok(v) => v,
        Err(e) => return Err(e),
    };
    let sim_info = match v1_string(f, "simInfo", &fb.sim_info) {
        Ok(v) => v,
        Err(e) => return Err(e),
    };
    let os_type = match v1_string(f, "osType", &fb.os_type) {
        Ok(v) => v,
        Err(e) => return Err(e),
    };
    let mac_address = match v1_string(f, "macAddress", &fb.mac_address) {
        Ok(v) => v,
        Err(e) => return Err(e),
    };
    let ip_address = match v1_bytes(f, "ipAddress", &fb.ip_address) {
        Ok(v) => v,
        Err(e) => return Err(e),
    };
    let wifi_bssid = match v1_string(f, "wifiBSSID", &fb.wifi_bssid) {
        Ok(v) => v,
        Err(e) => return Err(e),
    };
    let wifi_ssid = match v1_string(f, "wifiSSID", &fb.wifi_ssid) {
        Ok(v) => v,
        Err(e) => return Err(e),
    };
    let imsi_md5 = match v1_bytes(f, "imsiMd5", &fb.imsi_md5) {
        Ok(v) => v,
        Err(e) => return Err(e),
    };
    let android_id = match v1_string(f, "androidId", &fb.android_id) {
        Ok(v) => v,
        Err(e) => return Err(e),
    };
    let apn = match v1_string(f, "apn", &fb.apn) {
        Ok(v) => v,
        Err(e) => return Err(e),
    };
    let vendor_name = match v1_string(f, "vendorName", &fb.vendor_name) {
        Ok(v) => v,
        Err(e) => return Err(e),
    };
    let vendor_os_name = match v1_string(f, "vendorOsName", &fb.vendor_os_name) {
        Ok(v) => v,
        Err(e) => return Err(e),
    };
    Ok(DeviceIdentity {
        display,
        product,
        device,
        board,
        model,
        finger_print,
        boot_id,
        proc_version,
        imei,
        brand,
        bootloader,
        base_band,
        version,
        sim_info,
        os_type,
        mac_address,
        ip_address,
        wifi_bssid,
        wifi_ssid,
        imsi_md5,
        android_id,
        apn,
        vendor_name,
        vendor_os_name,
    })
}

/// Everything reading a device document guarantees, as one predicate over
/// the document, the fallback, and the outcome.
pub open spec fn device_doc_result(
    doc: JsonValue,
    fb: DeviceIdentity,
    r: Result<DeviceIdentity, DeviceError>,
) -> bool {
    match doc {
        JsonValue::Obj(top) => {
            let ver = doc_version(top@);
            if ver == 1 {
                (r is Ok <==> v1_device_ok(top@, fb)) && (r is Ok ==> device_fields_match_v1(
                    top@,
                    fb,
                    r->Ok_0,
                ))
            } else if ver == 2 {
                match obj_lookup(top@, "data"@) {
                    Some(JsonValue::Obj(data)) => (r is Ok <==> v2_device_ok(data@, fb)) && (
                    r is Ok ==> device_fields_match_v2(data@, fb, r->Ok_0)),
                    _ => r == Err::<DeviceIdentity, DeviceError>(DeviceError::Schema),
                }
            } else {
                r == Err::<DeviceIdentity, DeviceError>(DeviceError::UnsupportedVersion(ver))
            }
        },
        _ => r == Err::<DeviceIdentity, DeviceError>(DeviceError::Schema),
    }
}

/// Reads a device document of either schema version, falling back field by
/// field to `fallback` where a field is absent.
pub fn device_from_doc(doc: &JsonValue, fallback: &DeviceIdentity) -> (r: Result<
    DeviceIdentity,
    DeviceError,
>)
    ensures
        device_doc_result(*doc, *fallback, r),
{
    match doc {
        JsonValue::Obj(top) => {
            let ver: i64 = match obj_get(top, "deviceInfoVersion") {
                None => 1,
                Some(JsonValue::Int(i)) => *i,
                Some(_) => -1,
            };
            if ver == 1 {
                parse_v1(top, fallback)
            } else if ver == 2 {
                match obj_get(top, "data") {
                    Some(JsonValue::Obj(data)) => parse_v2(data, fallback),
                    _ => Err(DeviceError::Schema),
                }
            } else {
                Err(DeviceError::UnsupportedVersion(ver))
            }
        },
        _ => Err(DeviceError::Schema),
    }
}

/// Reads a device document from JSON text: text that is not JSON fails with
/// the parse error, and the value tree the text denotes is read exactly as
/// [`device_from_doc`] reads it.
pub fn device_from_json(s: &str, fallback: &DeviceIdentity) -> (r: Result<
    DeviceIdentity,
    DeviceError,
>)
    ensures
        match crate::json::json_doc_of(s@) {
            Some(doc) => device_doc_result(doc, *fallback, r),
            None => r == Err::<DeviceIdentity, DeviceError>(DeviceError::Parse),
        },
{
    match crate::json::json_parse(s) {
        Ok(doc) => {
            let r = device_from_doc(&doc, fallback);
            proof {
                assert(device_doc_result(doc, *fallback, r));
            }
            r
        },
        Err(_) => Err(DeviceError::Parse),
    }
}

} // verus!

verus! {

/// One positional field entry: the given key naming a string with the given text.
pub open spec fn data_str_at(
    data: Seq<(String, JsonValue)>,
    i: int,
    key: Seq<char>,
    text: Seq<char>,
) -> bool {
    data[i].0@ == key && (data[i].1 matches JsonValue::Str(s) && s@ == text)
}

/// One positional field entry: the given key naming the lowercase
/// hexadecimal text of the given bytes.
pub open spec fn data_hex_at(
    data: Seq<(String, JsonValue)>,
    i: int,
    key: Seq<char>,
    bytes: Seq<u8>,
) -> bool {
    data[i].0@ == key && (data[i].1 matches JsonValue::Str(s) && s@ == hex_chars_of(bytes))
}

/// The version object as the current schema writes it.
pub open spec fn current_osv_data(vf: Seq<(String, JsonValue)>, v: OsVersion) -> bool {
    &&& vf.len() == 4
    &&& data_str_at(vf, 0, "incremental"@, v.incremental@)
    &&& data_str_at(vf, 1, "release"@, v.release@)
    &&& data_str_at(vf, 2, "codename"@, v.codename@)
    &&& vf[3].0@ == "sdk"@
    &&& vf[3].1 == JsonValue::Int(v.sdk as i64)
}

/// The data object as the current schema writes it, entry by entry.
pub open spec fn current_device_data(data: Seq<(String, JsonValue)>, d: DeviceIdentity) -> bool {
    &&& data.len() == 24
    &&& data_str_at(data, 0, "display"@, d.display@)
    &&& data_str_at(data, 1, "product"@, d.product@)
    &&& data_str_at(data, 2, "device"@, d.device@)
    &&& data_str_at(data, 3, "board"@, d.board@)
    &&& data_str_at(data, 4, "model"@, d.model@)
    &&& data_str_at(data, 5, "fingerprint"@, d.finger_print@)
    &&& data_str_at(data, 6, "bootId"@, d.boot_id@)
    &&& data_str_at(data, 7, "procVersion"@, d.proc_version@)
    &&& data_str_at(data, 8, "imei"@, d.imei@)
    &&& data_str_at(data, 9, "brand"@, d.brand@)
    &&& data_str_at(data, 10, "bootloader"@, d.bootloader@)
    &&& data_str_at(data, 11, "baseBand"@, d.base_band@)
    &&& data[12].0@ == "version"@ && (data[12].1 matches JsonValue::Obj(vf) && current_osv_data(
        vf@,
        d.version,
    ))
    &&& data_str_at(data, 13, "simInfo"@, d.sim_info@)
    &&& data_str_at(data, 14, "osType"@, d.os_type@)
    &&& data_str_at(data, 15, "macAddress"@, d.mac_address@)
    &&& data_hex_at(data, 16, "ipAddress"@, d.ip_address@)
    &&& data_str_at(data, 17, "wifiBSSID"@, d.wifi_bssid@)
    &&& data_str_at(data, 18, "wifiSSID"@, d.wifi_ssid@)
    &&& data_hex_at(data, 19, "imsiMd5"@, d.imsi_md5@)
    &&& data_str_at(data, 20, "androidId"@, d.android_id@)
    &&& data_str_at(data, 21, "apn"@, d.apn@)
    &&& data_str_at(data, 22, "vendorName"@, d.vendor_name@)
    &&& data_str_at(data, 23, "vendorOsName"@, d.vendor_os_name@)
}

/// A whole device document as the current schema writes it.
pub open spec fn current_device_doc(doc: JsonValue, d: DeviceIdentity) -> bool {
    &&& doc matches JsonValue::Obj(top)
    &&& doc->Obj_0@.len() == 2
    &&& doc->Obj_0@[0].0@ == "deviceInfoVersion"@
    &&& doc->Obj_0@[0].1 == JsonValue::Int(2i64)
    &&& doc->Obj_0@[1].0@ == "data"@
    &&& doc->Obj_0@[1].1 matches JsonValue::Obj(data) && current_device_data(data@, d)
}

/// Writes a device identity as a current-schema document.
pub fn device_to_doc(d: &DeviceIdentity) -> (r: JsonValue)
    ensures
        current_device_doc(r, *d),
{
    let mut vf: Vec<(String, JsonValue)> = Vec::new();
    vf.push(("incremental".to_owned(), JsonValue::Str(d.version.incremental.clone())));
    vf.push(("release".to_owned(), JsonValue::Str(d.version.release.clone())));
    vf.push(("codename".to_owned(), JsonValue::Str(d.version.codename.clone())));
    vf.push(("sdk".to_owned(), JsonValue::Int(d.version.sdk as i64)));
    let ip_hex = hex_encode(&d.ip_address);
    let md5_hex = hex_encode(&d.imsi_md5);
    let mut data: Vec<(String, JsonValue)> = Vec::new();
    data.push(("display".to_owned(), JsonValue::Str(d.display.clone())));
    data.push(("product".to_owned(), JsonValue::Str(d.product.clone())));
    data.push(("device".to_owned(), JsonValue::Str(d.device.clone())));
    data.push(("board".to_owned(), JsonValue::Str(d.board.clone())));
    data.push(("model".to_owned(), JsonValue::Str(d.model.clone())));
    data.push(("fingerprint".to_owned(), JsonValue::Str(d.finger_print.clone())));
    data.push(("bootId".to_owned(), JsonValue::Str(d.boot_id.clone())));
    data.push(("procVersion".to_owned(), JsonValue::Str(d.proc_version.clone())));
    data.push(("imei".to_owned(), JsonValue::Str(d.imei.clone())));
    data.push(("brand".to_owned(), JsonValue::Str(d.brand.clone())));
    data.push(("bootloader".to_owned(), JsonValue::Str(d.bootloader.clone())));
    data.push(("baseBand".to_owned(), JsonValue::Str(d.base_band.clone())));
    data.push(("version".to_owned(), JsonValue::Obj(vf)));
    data.push(("simInfo".to_owned(), JsonValue::Str(d.sim_info.clone())));
    data.push(("osType".to_owned(), JsonValue::Str(d.os_type.clone())));
    data.push(("macAddress".to_owned(), JsonValue::Str(d.mac_address.clone())));
    data.push(("ipAddress".to_owned(), JsonValue::Str(ip_hex)));
    data.push(("wifiBSSID".to_owned(), JsonValue::Str(d.wifi_bssid.clone())));
    data.push(("wifiSSID".to_owned(), JsonValue::Str(d.wifi_ssid.clone())));
    data.push(("imsiMd5".to_owned(), JsonValue::Str(md5_hex)));
    data.push(("androidId".to_owned(), JsonValue::Str(d.android_id.clone())));
    data.push(("apn".to_owned(), JsonValue::Str(d.apn.clone())));
    data.push(("vendorName".to_owned(), JsonValue::Str(d.vendor_name.clone())));
    data.push(("vendorOsName".to_owned(), JsonValue::Str(d.vendor_os_name.clone())));
    let mut top: Vec<(String, JsonValue)> = Vec::new();
    top.push(("deviceInfoVersion".to_owned(), JsonValue::Int(2)));
    top.push(("data".to_owned(), JsonValue::Obj(data)));
    JsonValue::Obj(top)
}

/// Renders a device identity as current-schema JSON text; rendering a
/// well-formed document never fails.
pub fn device_to_json(d: &DeviceIdentity) -> (r: String)
    ensures
        exists|doc: JsonValue|
            current_device_doc(doc, *d) && r@ == crate::json::json_text_of(doc),
{
    let doc = device_to_doc(d);
    match crate::json::json_dump(&doc) {
        Ok(s) => {
            proof {
                assert(current_device_doc(doc, *d) && s@ == crate::json::json_text_of(doc));
            }
            s
        },
        Err(_) => vstd::pervasive::unreached(),
    }
}

/// An object lookup finds the entry at `i` when no earlier entry has its key.
proof fn lemma_obj_lookup_at(fields: Seq<(String, JsonValue)>, key: Seq<char>, i: int)
    requires
        0 <= i < fields.len(),
        fields[i].0@ == key,
        forall|j: int| 0 <= j < i ==> (#[trigger] fields[j]).0@ != key,
    ensures
        obj_lookup(fields, key) == Some(fields[i].1),
    decreases i,
{
    if i > 0 {
        assert(fields.drop_first()[i - 1] == fields[i]);
        assert forall|j: int| 0 <= j < i - 1 implies (#[trigger] fields.drop_first()[j]).0@
            != key by {
            assert(fields.drop_first()[j] == fields[j + 1]);
        }
        lemma_obj_lookup_at(fields.drop_first(), key, i - 1);
    }
}

/// Looking keys up in a freshly written data object finds each entry.
#[verifier::rlimit(100)]
proof fn lemma_current_data_lookups(data: Seq<(String, JsonValue)>, d: DeviceIdentity)
    requires
        current_device_data(data, d),
    ensures
        obj_lookup(data, "display"@) == Some(data[0].1),
        obj_lookup(data, "product"@) == Some(data[1].1),
        obj_lookup(data, "device"@) == Some(data[2].1),
        obj_lookup(data, "board"@) == Some(data[3].1),
        obj_lookup(data, "model"@) == Some(data[4].1),
        obj_lookup(data, "fingerprint"@) == Some(data[5].1),
        obj_lookup(data, "bootId"@) == Some(data[6].1),
        obj_lookup(data, "procVersion"@) == Some(data[7].1),
        obj_lookup(data, "imei"@) == Some(data[8].1),
        obj_lookup(data, "brand"@) == Some(data[9].1),
        obj_lookup(data, "bootloader"@) == Some(data[10].1),
        obj_lookup(data, "baseBand"@) == Some(data[11].1),
        obj_lookup(data, "version"@) == Some(data[12].1),
        obj_lookup(data, "simInfo"@) == Some(data[13].1),
        obj_lookup(data, "osType"@) == Some(data[14].1),
        obj_lookup(data, "macAddress"@) == Some(data[15].1),
        obj_lookup(data, "ipAddress"@) == Some(data[16].1),
        obj_lookup(data, "wifiBSSID"@) == Some(data[17].1),
        obj_lookup(data, "wifiSSID"@) == Some(data[18].1),
        obj_lookup(data, "imsiMd5"@) == Some(data[19].1),
        obj_lookup(data, "androidId"@) == Some(data[20].1),
        obj_lookup(data, "apn"@) == Some(data[21].1),
        obj_lookup(data, "vendorName"@) == Some(data[22].1),
        obj_lookup(data, "vendorOsName"@) == Some(data[23].1),
{
    reveal_strlit("deviceInfoVersion");
    reveal_strlit("data");
    reveal_strlit("display");
    reveal_strlit("product");
    reveal_strlit("device");
    reveal_strlit("board");
    reveal_strlit("model");
    reveal_strlit("fingerprint");
    reveal_strlit("bootId");
    reveal_strlit("procVersion");
    reveal_strlit("imei");
    reveal_strlit("brand");
    reveal_strlit("bootloader");
    reveal_strlit("baseBand");
    reveal_strlit("version");
    reveal_strlit("simInfo");
    reveal_strlit("osType");
    reveal_strlit("macAddress");
    reveal_strlit("ipAddress");
    reveal_strlit("wifiBSSID");
    reveal_strlit("wifiSSID");
    reveal_strlit("imsiMd5");
    reveal_strlit("androidId");
    reveal_strlit("apn");
    reveal_strlit("vendorName");
    reveal_strlit("vendorOsName");
    reveal_strlit("incremental");
    reveal_strlit("release");
    reveal_strlit("codename");
    reveal_strlit("sdk");
    assert("display"@.len() == 7);
    assert("display"@[0] == 'd');
    assert("product"@.len() == 7);
    assert("product"@[0] == 'p');
    assert("device"@.len() == 6);
    assert("device"@[0] == 'd');
    assert("board"@.len() == 5);
    assert("board"@[0] == 'b');
    assert("model"@.len() == 5);
    assert("model"@[0] == 'm');
    assert("fingerprint"@.len() == 11);
    assert("fingerprint"@[0] == 'f');
    assert("bootId"@.len() == 6);
    assert("bootId"@[0] == 'b');
    assert("procVersion"@.len() == 11);
    assert("procVersion"@[0] == 'p');
    assert("imei"@.len() == 4);
    assert("imei"@[0] == 'i');
    assert("brand"@.len() == 5);
    assert("brand"@[0] == 'b');
    assert("bootloader"@.len() == 10);
    assert("bootloader"@[0] == 'b');
    assert("baseBand"@.len() == 8);
    assert("baseBand"@[0] == 'b');
    assert("version"@.len() == 7);
    assert("version"@[0] == 'v');
    assert("simInfo"@.len() == 7);
    assert("simInfo"@[0] == 's');
    assert("osType"@.len() == 6);
    assert("osType"@[0] == 'o');
    assert("macAddress"@.len() == 10);
    assert("macAddress"@[0] == 'm');
    assert("ipAddress"@.len() == 9);
    assert("ipAddress"@[0] == 'i');
    assert("wifiBSSID"@.len() == 9);
    assert("wifiBSSID"@[0] == 'w');
    assert("wifiSSID"@.len() == 8);
    assert("wifiSSID"@[0] == 'w');
    assert("imsiMd5"@.len() == 7);
    assert("imsiMd5"@[0] == 'i');
    assert("androidId"@.len() == 9);
    assert("androidId"@[0] == 'a');
    assert("apn"@.len() == 3);
    assert("apn"@[0] == 'a');
    assert("vendorName"@.len() == 10);
    assert("vendorName"@[0] == 'v');
    assert("vendorOsName"@.len() == 12);
    assert("vendorOsName"@[0] == 'v');
    assert("board"@[1] == 'o');
    assert("brand"@[1] == 'r');
    lemma_obj_lookup_at(data, "display"@, 0);
    lemma_obj_lookup_at(data, "product"@, 1);
    lemma_obj_lookup_at(data, "device"@, 2);
    lemma_obj_lookup_at(data, "board"@, 3);
    lemma_obj_lookup_at(data, "model"@, 4);
    lemma_obj_lookup_at(data, "fingerprint"@, 5);
    lemma_obj_lookup_at(data, "bootId"@, 6);
    lemma_obj_lookup_at(data, "procVersion"@, 7);
    lemma_obj_lookup_at(data, "imei"@, 8);
    lemma_obj_lookup_at(data, "brand"@, 9);
    lemma_obj_lookup_at(data, "bootloader"@, 10);
    lemma_obj_lookup_at(data, "baseBand"@, 11);
    lemma_obj_lookup_at(data, "version"@, 12);
    lemma_obj_lookup_at(data, "simInfo"@, 13);
    lemma_obj_lookup_at(data, "osType"@, 14);
    lemma_obj_lookup_at(data, "macAddress"@, 15);
    lemma_obj_lookup_at(data, "ipAddress"@, 16);
    lemma_obj_lookup_at(data, "wifiBSSID"@, 17);
    lemma_obj_lookup_at(data, "wifiSSID"@, 18);
    lemma_obj_lookup_at(data, "imsiMd5"@, 19);
    lemma_obj_lookup_at(data, "androidId"@, 20);
    lemma_obj_lookup_at(data, "apn"@, 21);
    lemma_obj_lookup_at(data, "vendorName"@, 22);
    lemma_obj_lookup_at(data, "vendorOsName"@, 23);
}

/// The fields of two identities read the same.
pub open spec fn device_views_eq(a: DeviceIdentity, b: DeviceIdentity) -> bool {
    &&& a.display@ == b.display@
    &&& a.product@ == b.product@
    &&& a.device@ == b.device@
    &&& a.board@ == b.board@
    &&& a.model@ == b.model@
    &&& a.finger_print@ == b.finger_print@
    &&& a.boot_id@ == b.boot_id@
    &&& a.proc_version@ == b.proc_version@
    &&& a.imei@ == b.imei@
    &&& a.brand@ == b.brand@
    &&& a.bootloader@ == b.bootloader@
    &&& a.base_band@ == b.base_band@
    &&& a.version.incremental@ == b.version.incremental@
    &&& a.version.release@ == b.version.release@
    &&& a.version.codename@ == b.version.codename@
    &&& a.version.sdk == b.version.sdk
    &&& a.sim_info@ == b.sim_info@
    &&& a.os_type@ == b.os_type@
    &&& a.mac_address@ == b.mac_address@
    &&& a.ip_address@ == b.ip_address@
    &&& a.wifi_bssid@ == b.wifi_bssid@
    &&& a.wifi_ssid@ == b.wifi_ssid@
    &&& a.imsi_md5@ == b.imsi_md5@
    &&& a.android_id@ == b.android_id@
    &&& a.apn@ == b.apn@
    &&& a.vendor_name@ == b.vendor_name@
    &&& a.vendor_os_name@ == b.vendor_os_name@
}

/// Writing an identity via the current schema and reading the written
/// document back succeeds for every fallback and yields the identical
/// identity, field for field.
#[verifier::rlimit(100)]
pub proof fn law_device_round_trip(
    doc: JsonValue,
    d: DeviceIdentity,
    fb: DeviceIdentity,
    r: Result<DeviceIdentity, DeviceError>,
)
    requires
        current_device_doc(doc, d),
        device_doc_result(doc, fb, r),
    ensures
        r is Ok,
        device_views_eq(r->Ok_0, d),
{
    let top = doc->Obj_0;
    reveal_strlit("deviceInfoVersion");
    reveal_strlit("data");
    reveal_strlit("display");
    reveal_strlit("product");
    reveal_strlit("device");
    reveal_strlit("board");
    reveal_strlit("model");
    reveal_strlit("fingerprint");
    reveal_strlit("bootId");
    reveal_strlit("procVersion");
    reveal_strlit("imei");
    reveal_strlit("brand");
    reveal_strlit("bootloader");
    reveal_strlit("baseBand");
    reveal_strlit("version");
    reveal_strlit("simInfo");
    reveal_strlit("osType");
    reveal_strlit("macAddress");
    reveal_strlit("ipAddress");
    reveal_strlit("wifiBSSID");
    reveal_strlit("wifiSSID");
    reveal_strlit("imsiMd5");
    reveal_strlit("androidId");
    reveal_strlit("apn");
    reveal_strlit("vendorName");
    reveal_strlit("vendorOsName");
    reveal_strlit("incremental");
    reveal_strlit("release");
    reveal_strlit("codename");
    reveal_strlit("sdk");
    assert("deviceInfoVersion"@.len() == 17);
    assert("deviceInfoVersion"@[0] == 'd');
    assert("data"@.len() == 4);
    assert("data"@[0] == 'd');
    assert("incremental"@.len() == 11);
    assert("incremental"@[0] == 'i');
    assert("release"@.len() == 7);
    assert("release"@[0] == 'r');
    assert("codename"@.len() == 8);
    assert("codename"@[0] == 'c');
    assert("sdk"@.len() == 3);
    assert("sdk"@[0] == 's');
    lemma_obj_lookup_at(top@, "deviceInfoVersion"@, 0);
    lemma_obj_lookup_at(top@, "data"@, 1);
    assert(doc_version(top@) == 2);
    let data = top@[1].1->Obj_0;
    lemma_current_data_lookups(data@, d);
    let vf = data@[12].1->Obj_0;
    lemma_obj_lookup_at(vf@, "incremental"@, 0);
    lemma_obj_lookup_at(vf@, "release"@, 1);
    lemma_obj_lookup_at(vf@, "codename"@, 2);
    lemma_obj_lookup_at(vf@, "sdk"@, 3);
    crate::hexstr::lemma_hex_round_trip(d.ip_address@);
    crate::hexstr::lemma_hex_round_trip(d.imsi_md5@);
    assert(v2_osv_ok(data@, fb.version));
    assert(v2_device_ok(data@, fb));
}

} // verus!

verus! {

/// A legacy document that stores a string field as the array of the UTF-8
/// byte values of some text reads as the very text that a current-schema
/// document stores directly: both encodings of equivalent content decode to
/// the same string, whatever the fallback.
pub proof fn law_legacy_string_reads_match(
    v1_fields: Seq<(String, JsonValue)>,
    v2_fields: Seq<(String, JsonValue)>,
    key: Seq<char>,
    text: Seq<char>,
    fb: Seq<char>,
)
    requires
        obj_lookup(v1_fields, key) matches Some(JsonValue::Arr(a)) && bytes_of_ints(a@) == Some(
            vstd::utf8::encode_utf8(text),
        ),
        obj_lookup(v2_fields, key) matches Some(JsonValue::Str(s)) && s@ == text,
    ensures
        v1_string_view(v1_fields, key, fb) == Some(text),
        v2_string_view(v2_fields, key, fb) == Some(text),
{
    broadcast use vstd::utf8::group_utf8_lib;

}

/// A legacy byte field stored as an array of byte values reads as the same
/// bytes that a current-schema document stores as hexadecimal text.
pub proof fn law_legacy_bytes_reads_match(
    v1_fields: Seq<(String, JsonValue)>,
    v2_fields: Seq<(String, JsonValue)>,
    key: Seq<char>,
    bytes: Seq<u8>,
    fb: Seq<u8>,
)
    requires
        obj_lookup(v1_fields, key) matches Some(JsonValue::Arr(a)) && bytes_of_ints(a@) == Some(
            bytes,
        ),
        obj_lookup(v2_fields, key) matches Some(JsonValue::Str(s)) && s@ == hex_chars_of(bytes),
    ensures
        v1_bytes_view(v1_fields, key, fb) == Some(bytes),
        v2_bytes_view(v2_fields, key, fb) == Some(bytes),
{
    crate::hexstr::lemma_hex_round_trip(bytes);
}

/// The words that the seeded generator yields for an account.
pub uninterp spec fn chacha8_words_of(seed: u64, count: usize) -> Seq<u32>;

/// Relies on `rand_chacha::ChaCha8Rng`, seeded through
/// `rand_core::SeedableRng::seed_from_u64` and read through
/// `rand_core::RngCore::next_u32`: the word stream is a function of the seed
/// alone, reproducible across runs and machines.
#[verifier::external_body]
fn chacha8_words(seed: u64, count: usize) -> (r: Vec<u32>)
    ensures
        r@ == chacha8_words_of(seed, count),
        r@.len() == count,
{
    let mut rng = <rand_chacha::ChaCha8Rng as rand_chacha::rand_core::SeedableRng>::seed_from_u64(
        seed,
    );
    (0..count).map(|_| rand_chacha::rand_core::RngCore::next_u32(&mut rng)).collect()
}

/// The generator words of one account.
pub open spec fn account_words(uin: i64) -> Seq<u32> {
    chacha8_words_of(uin as u64, 96)
}

/// Bytes taken from a window of generator words.
pub open spec fn bytes_from_words(ws: Seq<u32>, lo: int, n: int) -> Seq<u8> {
    Seq::new(n as nat, |i: int| ((ws[lo + i] as int % 256) as u8))
}

/// Decimal digits taken from a window of generator words.
pub open spec fn digits_from_words(ws: Seq<u32>, lo: int, n: int) -> Seq<char> {
    Seq::new(n as nat, |i: int| hex_digit_of(((ws[lo + i] as int % 10) as u8)))
}

/// The two hexadecimal digits of one byte.
pub open spec fn hex_pair(b: u8) -> Seq<char> {
    seq![hex_digit_of(b / 16), hex_digit_of(b % 16)]
}

/// Colon-separated hexadecimal pairs, the shape of a hardware address.
pub open spec fn mac_chars_of(b: Seq<u8>) -> Seq<char>
    decreases b.len(),
{
    if b.len() == 0 {
        Seq::empty()
    } else if b.len() == 1 {
        hex_pair(b[0])
    } else {
        mac_chars_of(b.drop_last()) + seq![':'] + hex_pair(b.last())
    }
}

/// The readable content of a device identity: every field as the text or
/// bytes it denotes.
pub struct DeviceView {
    pub display: Seq<char>,
    pub product: Seq<char>,
    pub device: Seq<char>,
    pub board: Seq<char>,
    pub model: Seq<char>,
    pub finger_print: Seq<char>,
    pub boot_id: Seq<char>,
    pub proc_version: Seq<char>,
    pub imei: Seq<char>,
    pub brand: Seq<char>,
    pub bootloader: Seq<char>,
    pub base_band: Seq<char>,
    pub incremental: Seq<char>,
    pub release: Seq<char>,
    pub codename: Seq<char>,
    pub sdk: u32,
    pub sim_info: Seq<char>,
    pub os_type: Seq<char>,
    pub mac_address: Seq<char>,
    pub ip_address: Seq<u8>,
    pub wifi_bssid: Seq<char>,
    pub wifi_ssid: Seq<char>,
    pub imsi_md5: Seq<u8>,
    pub android_id: Seq<char>,
    pub apn: Seq<char>,
    pub vendor_name: Seq<char>,
    pub vendor_os_name: Seq<char>,
}

/// The readable content of an identity value.
pub open spec fn device_view(d: DeviceIdentity) -> DeviceView {
    DeviceView {
        display: d.display@,
        product: d.product@,
        device: d.device@,
        board: d.board@,
        model: d.model@,
        finger_print: d.finger_print@,
        boot_id: d.boot_id@,
        proc_version: d.proc_version@,
        imei: d.imei@,
        brand: d.brand@,
        bootloader: d.bootloader@,
        base_band: d.base_band@,
        incremental: d.version.incremental@,
        release: d.version.release@,
        codename: d.version.codename@,
        sdk: d.version.sdk,
        sim_info: d.sim_info@,
        os_type: d.os_type@,
        mac_address: d.mac_address@,
        ip_address: d.ip_address@,
        wifi_bssid: d.wifi_bssid@,
        wifi_ssid: d.wifi_ssid@,
        imsi_md5: d.imsi_md5@,
        android_id: d.android_id@,
        apn: d.apn@,
        vendor_name: d.vendor_name@,
        vendor_os_name: d.vendor_os_name@,
    }
}

/// The identity that the seeded generator derives for an account: stable
/// fields name one plausible handset, identifying fields come from the
/// account's generator words.
pub open spec fn random_device_view(uin: i64) -> DeviceView {
    let ws = account_words(uin);
    DeviceView {
        display: "awr-"@ + hex_chars_of(bytes_from_words(ws, 0, 4)),
        product: "iarim"@,
        device: "sagit"@,
        board: "sagit"@,
        model: "MI 6"@,
        finger_print: "xiaomi/iarim/sagit:10/eomam.200122.001/"@ + digits_from_words(ws, 75, 7)
            + ":user/release-keys"@,
        boot_id: hex_chars_of(bytes_from_words(ws, 4, 16)),
        proc_version: "Linux version 3.0.31-g6fb96c9 (android-build@xxx.xxx.xxx.xxx.com)"@,
        imei: digits_from_words(ws, 20, 15),
        brand: "Xiaomi"@,
        bootloader: "U-boot"@,
        base_band: ""@,
        incremental: digits_from_words(ws, 82, 7),
        release: "10"@,
        codename: "REL"@,
        sdk: 29,
        sim_info: "T-Mobile"@,
        os_type: "android"@,
        mac_address: mac_chars_of(bytes_from_words(ws, 43, 6)),
        ip_address: bytes_from_words(ws, 55, 4),
        wifi_bssid: mac_chars_of(bytes_from_words(ws, 49, 6)),
        wifi_ssid: "<unknown ssid>"@,
        imsi_md5: bytes_from_words(ws, 59, 16),
        android_id: hex_chars_of(bytes_from_words(ws, 35, 8)),
        apn: "wifi"@,
        vendor_name: "MIUI"@,
        vendor_os_name: "MIUI"@,
    }
}

/// Reads bytes out of a window of generator words.
fn words_bytes(words: &Vec<u32>, lo: usize, n: usize) -> (r: Vec<u8>)
    requires
        lo + n <= words@.len(),
    ensures
        r@ == bytes_from_words(words@, lo as int, n as int),
{
    let wl: usize = words.len();
    let mut out: Vec<u8> = Vec::new();
    let mut i: usize = 0;
    while i < n
        invariant
            i <= n,
            wl == words@.len(),
            lo + n <= wl,
            out@ == bytes_from_words(words@, lo as int, i as int),
        decreases n - i,
    {
        out.push((words[lo + i] % 256) as u8);
        proof {
            assert(out@ =~= bytes_from_words(words@, lo as int, i + 1 as int));
        }
        i = i + 1;
    }
    out
}

/// Reads decimal digits out of a window of generator words.
fn words_digits(words: &Vec<u32>, lo: usize, n: usize) -> (r: String)
    requires
        lo + n <= words@.len(),
    ensures
        r@ == digits_from_words(words@, lo as int, n as int),
{
    let wl: usize = words.len();
    let mut out = String::new();
    let mut i: usize = 0;
    proof {
        assert(out@ =~= digits_from_words(words@, lo as int, 0));
    }
    while i < n
        invariant
            i <= n,
            wl == words@.len(),
            lo + n <= wl,
            out@ == digits_from_words(words@, lo as int, i as int),
        decreases n - i,
    {
        out.append(crate::hexstr::nibble_str((words[lo + i] % 10) as u8));
        proof {
            assert(out@ =~= digits_from_words(words@, lo as int, i + 1 as int));
        }
        i = i + 1;
    }
    out
}

/// Renders bytes as a colon-separated hardware address.
fn mac_of(bytes: &Vec<u8>) -> (r: String)
    ensures
        r@ == mac_chars_of(bytes@),
{
    proof {
        reveal_strlit(":");
    }
    let mut out = String::new();
    let mut i: usize = 0;
    proof {
        assert(out@ =~= mac_chars_of(bytes@.take(0)));
    }
    while i < bytes.len()
        invariant
            i <= bytes.len(),
            out@ == mac_chars_of(bytes@.take(i as int)),
            ":"@ == seq![':'],
        decreases bytes.len() - i,
    {
        let b = bytes[i];
        if i > 0 {
            out.append(":");
        }
        out.append(crate::hexstr::nibble_str(b / 16));
        out.append(crate::hexstr::nibble_str(b % 16));
        proof {
            assert(bytes@.take(i + 1 as int).drop_last() =~= bytes@.take(i as int));
            assert(bytes@.take(i + 1 as int).last() == bytes@[i as int]);
            assert(bytes@.take(i + 1 as int)[0] == bytes@[0]);
            assert(out@ =~= mac_chars_of(bytes@.take(i + 1 as int)));
        }
        i = i + 1;
    }
    proof {
        assert(bytes@.take(bytes@.len() as int) =~= bytes@);
    }
    out
}

/// Derives the device identity of an account from its seed, the same
/// identity on every run: a fresh login for one account is reproducible.
pub fn random_from_uin(uin: i64) -> (r: DeviceIdentity)
    ensures
        device_view(r) == random_device_view(uin),
{
    let seed: u64 = #[verifier::truncate] (uin as u64);
    let words = chacha8_words(seed, 96);
    let mut display = "awr-".to_owned();
    display.append(hex_encode(&words_bytes(&words, 0, 4)).as_str());
    let mut finger_print = "xiaomi/iarim/sagit:10/eomam.200122.001/".to_owned();
    finger_print.append(words_digits(&words, 75, 7).as_str());
    finger_print.append(":user/release-keys");
    let boot_id = hex_encode(&words_bytes(&words, 4, 16));
    let imei = words_digits(&words, 20, 15);
    let incremental = words_digits(&words, 82, 7);
    let mac_address = mac_of(&words_bytes(&words, 43, 6));
    let wifi_bssid = mac_of(&words_bytes(&words, 49, 6));
    let ip_address = words_bytes(&words, 55, 4);
    let imsi_md5 = words_bytes(&words, 59, 16);
    let android_id = hex_encode(&words_bytes(&words, 35, 8));
    DeviceIdentity {
        display,
        product: "iarim".to_owned(),
        device: "sagit".to_owned(),
        board: "sagit".to_owned(),
        model: "MI 6".to_owned(),
        finger_print,
        boot_id,
        proc_version: "Linux version 3.0.31-g6fb96c9 (android-build@xxx.xxx.xxx.xxx.com)".to_owned(),
        imei,
        brand: "Xiaomi".to_owned(),
        bootloader: "U-boot".to_owned(),
        base_band: "".to_owned(),
        version: OsVersion {
            incremental,
            release: "10".to_owned(),
            codename: "REL".to_owned(),
            sdk: 29,
        },
        sim_info: "T-Mobile".to_owned(),
        os_type: "android".to_owned(),
        mac_address,
        ip_address,
        wifi_bssid,
        wifi_ssid: "<unknown ssid>".to_owned(),
        imsi_md5,
        android_id,
        apn: "wifi".to_owned(),
        vendor_name: "MIUI".to_owned(),
        vendor_os_name: "MIUI".to_owned(),
    }
}

/// Generating the identity of one account twice yields the same identity,
/// field for field: repeated fresh logins for one account are reproducible.
pub proof fn law_device_generation_reproducible(uin: i64, a: DeviceIdentity, b: DeviceIdentity)
    requires
        device_view(a) == random_device_view(uin),
        device_view(b) == random_device_view(uin),
    ensures
        device_views_eq(a, b),
{
}

} // verus!
