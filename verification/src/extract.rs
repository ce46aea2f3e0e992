//! Decoding of the base-info payload into a structured record.
//!
//! The upstream schema drifts: several numeric-looking fields arrive as
//! strings, several fields go missing on lightweight services, and the
//! server injects a volatile trace-identifier field plus occasional NUL
//! bytes. Decoding therefore normalizes first and falls back to defined
//! defaults instead of failing the fetch.

use vstd::prelude::*;

use crate::error::{FetchError, UpstreamError, ValidationError};
use crate::json::{
    jv, jv_arr, jv_obj, json_copy, lemma_jv_obj, get_field, spec_get_field, JsonSpec, JsonVal,
};
use crate::raw::{RawJsonData, RawRatingData, RawRecordalInfo};
use crate::utils::{remove_null_bytes, spec_remove_nul, starts_with, spec_starts_with, strs, lemma_strs, opt_str_view};

verus! {

/// The least length of a resolved identifier that belongs to this
/// platform; shorter identifiers are another platform's listings.
pub const MIN_APP_ID_LEN: usize = 15;

/// The package-name prefix of lightweight services, which have no detail
/// page worth fetching.
pub fn lightweight_service_prefix() -> (r: &'static str)
    ensures
        r@ == "com.atomicservice"@,
{
    "com.atomicservice"
}

/// Whether an entity's detail page (rating and regulatory data) should be
/// fetched: it should unless the package name marks a lightweight service.
pub fn needs_detail_fetch(pkg_name: &str) -> (r: bool)
    ensures
        r == !spec_starts_with(pkg_name@, "com.atomicservice"@),
{
    !starts_with(pkg_name, lightweight_service_prefix())
}

/// The field key of the server-injected trace identifier.
pub open spec fn spec_trace_field_key() -> Seq<char> {
    "AG-TraceId"@
}

/// A payload field after scrubbing: NULs leave string values, everything
/// else stays.
pub open spec fn spec_scrub_value(j: JsonSpec) -> JsonSpec {
    match j {
        JsonSpec::Str(s) => JsonSpec::Str(spec_remove_nul(s)),
        other => other,
    }
}

/// Payload fields after scrubbing: the trace-identifier field is dropped
/// and NULs leave top-level string values.
pub open spec fn spec_scrub_fields(fields: Seq<(Seq<char>, JsonSpec)>) -> Seq<
    (Seq<char>, JsonSpec),
>
    decreases fields,
{
    if fields.len() == 0 {
        Seq::empty()
    } else {
        let rest = spec_scrub_fields(fields.drop_last());
        let last = fields.last();
        if last.0 == spec_trace_field_key() {
            rest
        } else {
            rest.push((last.0, spec_scrub_value(last.1)))
        }
    }
}

/// A payload after scrubbing. Only an object payload is touched.
pub open spec fn spec_scrub_payload(j: JsonSpec) -> JsonSpec {
    match j {
        JsonSpec::Obj(fields) => JsonSpec::Obj(spec_scrub_fields(fields)),
        other => other,
    }
}

/// Normalizes a fetched payload: drops the server-injected trace
/// identifier and strips NUL bytes out of top-level string values.
#[verifier::loop_isolation(false)]
pub fn scrub_app_payload(v: &JsonVal) -> (r: JsonVal)
    ensures
        jv(r) == spec_scrub_payload(jv(*v)),
{
    match v {
        JsonVal::Obj(fields) => {
            proof {
                lemma_jv_obj(fields@);
            }
            let n = fields.len();
            let mut out: Vec<(String, JsonVal)> = Vec::new();
            let mut i: usize = 0;
            while i < n
                invariant
                    i <= n,
                    jv_obj(out@) == spec_scrub_fields(jv_obj(fields@).subrange(0, i as int)),
                decreases n - i,
            {
                proof {
                    lemma_jv_obj(out@);
                    assert(jv_obj(fields@).subrange(0, i + 1).drop_last() =~= jv_obj(
                        fields@,
                    ).subrange(0, i as int));
                    assert(jv_obj(fields@).subrange(0, i + 1).last() == jv_obj(fields@)[i as int]);
                }
                if crate::utils::str_eq(fields[i].0.as_str(), "AG-TraceId") {
                    // dropped
                } else {
                    let key = fields[i].0.clone();
                    let val = match &fields[i].1 {
                        JsonVal::Str(s) => JsonVal::Str(remove_null_bytes(s.as_str())),
                        other => json_copy(other),
                    };
                    proof {
                        assert(jv(val) == spec_scrub_value(jv(fields@[i as int].1)));
                    }
                    let ghost prev = out@;
                    out.push((key, val));
                    proof {
                        assert(out@.drop_last() =~= prev);
                        assert(jv_obj(out@) == jv_obj(prev).push((key@, jv(val))));
                        assert(jv_obj(out@) == spec_scrub_fields(
                            jv_obj(fields@).subrange(0, i + 1),
                        ));
                    }
                }
                i = i + 1;
            }
            proof {
                assert(jv_obj(fields@).subrange(0, n as int) =~= jv_obj(fields@));
            }
            JsonVal::Obj(out)
        },
        other => json_copy(other),
    }
}

/// A required string field.
pub open spec fn spec_field_str(j: JsonSpec, key: Seq<char>) -> Option<Seq<char>> {
    match spec_get_field(j, key) {
        Some(JsonSpec::Str(s)) => Some(s),
        _ => None,
    }
}

/// A string field with a default for absence.
pub open spec fn spec_field_str_or(j: JsonSpec, key: Seq<char>, d: Seq<char>) -> Option<
    Seq<char>,
> {
    match spec_get_field(j, key) {
        None => Some(d),
        Some(JsonSpec::Str(s)) => Some(s),
        Some(_) => None,
    }
}

/// An optional string field: absent or null reads as nothing.
pub open spec fn spec_field_opt_str(j: JsonSpec, key: Seq<char>) -> Option<Option<Seq<char>>> {
    match spec_get_field(j, key) {
        None => Some(None),
        Some(JsonSpec::Null) => Some(None),
        Some(JsonSpec::Str(s)) => Some(Some(s)),
        Some(_) => None,
    }
}

/// A required 64-bit integer field.
pub open spec fn spec_field_i64(j: JsonSpec, key: Seq<char>) -> Option<i64> {
    match spec_get_field(j, key) {
        Some(JsonSpec::Int(n)) => Some(n),
        _ => None,
    }
}

/// A required 32-bit integer field.
pub open spec fn spec_field_i32(j: JsonSpec, key: Seq<char>) -> Option<i32> {
    match spec_get_field(j, key) {
        Some(JsonSpec::Int(n)) => if i32::MIN <= n && n <= i32::MAX {
            Some(n as i32)
        } else {
            None
        },
        _ => None,
    }
}

/// A 32-bit integer field with a default for absence.
pub open spec fn spec_field_i32_or(j: JsonSpec, key: Seq<char>, d: i32) -> Option<i32> {
    match spec_get_field(j, key) {
        None => Some(d),
        Some(JsonSpec::Int(n)) => if i32::MIN <= n && n <= i32::MAX {
            Some(n as i32)
        } else {
            None
        },
        Some(_) => None,
    }
}

/// A boolean field with a default for absence.
pub open spec fn spec_field_bool_or(j: JsonSpec, key: Seq<char>, d: bool) -> Option<bool> {
    match spec_get_field(j, key) {
        None => Some(d),
        Some(JsonSpec::Bool(b)) => Some(b),
        Some(_) => None,
    }
}

/// The texts of an array of strings; anything else reads as nothing.
pub open spec fn spec_strs_of(items: Seq<JsonSpec>) -> Option<Seq<Seq<char>>> {
    if forall|i: int| 0 <= i < items.len() ==> (#[trigger] items[i]) is Str {
        Some(Seq::new(items.len(), |i: int| items[i]->Str_0))
    } else {
        None
    }
}

/// A required array-of-strings field.
pub open spec fn spec_field_strs(j: JsonSpec, key: Seq<char>) -> Option<Seq<Seq<char>>> {
    match spec_get_field(j, key) {
        Some(JsonSpec::Arr(items)) => spec_strs_of(items),
        _ => None,
    }
}

/// An array-of-strings field with a default for absence.
pub open spec fn spec_field_strs_or(j: JsonSpec, key: Seq<char>, d: Seq<Seq<char>>) -> Option<
    Seq<Seq<char>>,
> {
    match spec_get_field(j, key) {
        None => Some(d),
        Some(JsonSpec::Arr(items)) => spec_strs_of(items),
        Some(_) => None,
    }
}

fn field_str(v: &JsonVal, key: &str) -> (r: Option<String>)
    ensures
        match r {
            Some(s) => spec_field_str(jv(*v), key@) == Some(s@),
            None => spec_field_str(jv(*v), key@) is None,
        },
{
    match get_field(v, key) {
        Some(f) => match f {
            JsonVal::Str(s) => Some(s.clone()),
            _ => None,
        },
        None => None,
    }
}

fn field_str_or(v: &JsonVal, key: &str, d: &str) -> (r: Option<String>)
    ensures
        match r {
            Some(s) => spec_field_str_or(jv(*v), key@, d@) == Some(s@),
            None => spec_field_str_or(jv(*v), key@, d@) is None,
        },
{
    match get_field(v, key) {
        Some(f) => match f {
            JsonVal::Str(s) => Some(s.clone()),
            _ => None,
        },
        None => Some(d.to_owned()),
    }
}

fn field_opt_str(v: &JsonVal, key: &str) -> (r: Option<Option<String>>)
    ensures
        match r {
            Some(Some(s)) => spec_field_opt_str(jv(*v), key@) == Some(Some(s@)),
            Some(None) => spec_field_opt_str(jv(*v), key@) == Some(None::<Seq<char>>),
            None => spec_field_opt_str(jv(*v), key@) is None,
        },
{
    match get_field(v, key) {
        Some(f) => match f {
            JsonVal::Str(s) => Some(Some(s.clone())),
            JsonVal::Null => Some(None),
            _ => None,
        },
        None => Some(None),
    }
}

fn field_i64(v: &JsonVal, key: &str) -> (r: Option<i64>)
    ensures
        r == spec_field_i64(jv(*v), key@),
{
    match get_field(v, key) {
        Some(f) => match f {
            JsonVal::Int(n) => Some(*n),
            _ => None,
        },
        None => None,
    }
}

fn field_i32(v: &JsonVal, key: &str) -> (r: Option<i32>)
    ensures
        r == spec_field_i32(jv(*v), key@),
{
    match get_field(v, key) {
        Some(f) => match f {
            JsonVal::Int(n) => {
                let m: i64 = *n;
                if -2147483648i64 <= m && m <= 2147483647i64 {
                    Some(m as i32)
                } else {
                    None
                }
            },
            _ => None,
        },
        None => None,
    }
}

fn field_i32_or(v: &JsonVal, key: &str, d: i32) -> (r: Option<i32>)
    ensures
        r == spec_field_i32_or(jv(*v), key@, d),
{
    match get_field(v, key) {
        Some(f) => match f {
            JsonVal::Int(n) => {
                let m: i64 = *n;
                if -2147483648i64 <= m && m <= 2147483647i64 {
                    Some(m as i32)
                } else {
                    None
                }
            },
            _ => None,
        },
        None => Some(d),
    }
}

fn field_bool_or(v: &JsonVal, key: &str, d: bool) -> (r: Option<bool>)
    ensures
        r == spec_field_bool_or(jv(*v), key@, d),
{
    match get_field(v, key) {
        Some(f) => match f {
            JsonVal::Bool(b) => Some(*b),
            _ => None,
        },
        None => Some(d),
    }
}

#[verifier::loop_isolation(false)]
fn strs_of_items(items: &Vec<JsonVal>) -> (r: Option<Vec<String>>)
    ensures
        match r {
            Some(out) => spec_strs_of(jv_arr(items@)) == Some(strs(out@)),
            None => spec_strs_of(jv_arr(items@)) is None,
        },
{
    proof {
        crate::json::lemma_jv_arr(items@);
    }
    let n = items.len();
    let mut out: Vec<String> = Vec::new();
    let mut i: usize = 0;
    while i < n
        invariant
            i <= n,
            out@.len() == i,
            forall|k: int| 0 <= k < i ==> (#[trigger] jv_arr(items@)[k]) is Str,
            forall|k: int| 0 <= k < i ==> #[trigger] out@[k]@ == jv_arr(items@)[k]->Str_0,
        decreases n - i,
    {
        match &items[i] {
            JsonVal::Str(s) => {
                out.push(s.clone());
            },
            _ => {
                proof {
                    assert(!(jv_arr(items@)[i as int] is Str));
                }
                return None;
            },
        }
        i = i + 1;
    }
    proof {
        lemma_strs(out@);
        let expected = Seq::new(jv_arr(items@).len(), |k: int| jv_arr(items@)[k]->Str_0);
        assert(strs(out@) =~= expected);
    }
    Some(out)
}

fn field_strs(v: &JsonVal, key: &str) -> (r: Option<Vec<String>>)
    ensures
        match r {
            Some(out) => spec_field_strs(jv(*v), key@) == Some(strs(out@)),
            None => spec_field_strs(jv(*v), key@) is None,
        },
{
    match get_field(v, key) {
        Some(f) => match f {
            JsonVal::Arr(items) => strs_of_items(items),
            _ => None,
        },
        None => None,
    }
}

fn field_strs_or(v: &JsonVal, key: &str, d: Vec<String>) -> (r: Option<Vec<String>>)
    ensures
        match r {
            Some(out) => spec_field_strs_or(jv(*v), key@, strs(d@)) == Some(strs(out@)),
            None => spec_field_strs_or(jv(*v), key@, strs(d@)) is None,
        },
{
    match get_field(v, key) {
        Some(f) => match f {
            JsonVal::Arr(items) => strs_of_items(items),
            _ => None,
        },
        None => Some(d),
    }
}


/// The sentinel device-code list used when the payload carries none.
pub open spec fn spec_default_device_codes() -> Seq<Seq<char>> {
    seq!["0"@]
}

/// The sentinel device-code list used when the payload carries none.
pub fn default_device_codes() -> (r: Vec<String>)
    ensures
        strs(r@) == spec_default_device_codes(),
{
    let mut out: Vec<String> = Vec::new();
    out.push("0".to_owned());
    proof {
        lemma_strs(out@);
        assert(strs(out@) =~= spec_default_device_codes());
    }
    out
}

/// True when a normalized payload decodes into a complete base-info
/// record: every required field is present with the right type, and every
/// defaulted field is either absent or of the right type.
pub open spec fn spec_raw_ok(j: JsonSpec) -> bool {
    &&& spec_field_str(j, "appId"@) is Some
    &&& spec_field_str(j, "allianceAppId"@) is Some
    &&& spec_field_str(j, "name"@) is Some
    &&& spec_field_str(j, "pkgName"@) is Some
    &&& spec_field_str(j, "devId"@) is Some
    &&& spec_field_str(j, "developerName"@) is Some
    &&& spec_field_str(j, "devEnName"@) is Some
    &&& spec_field_str(j, "supplier"@) is Some
    &&& spec_field_str(j, "kindId"@) is Some
    &&& spec_field_str(j, "kindName"@) is Some
    &&& spec_field_opt_str(j, "tagName"@) is Some
    &&& spec_field_str(j, "kindTypeId"@) is Some
    &&& spec_field_str(j, "kindTypeName"@) is Some
    &&& spec_field_str(j, "icon"@) is Some
    &&& spec_field_str(j, "briefDes"@) is Some
    &&& spec_field_str(j, "description"@) is Some
    &&& spec_field_str(j, "privacyUrl"@) is Some
    &&& spec_field_i32(j, "ctype"@) is Some
    &&& spec_field_str(j, "detailId"@) is Some
    &&& spec_field_i32(j, "appLevel"@) is Some
    &&& spec_field_i32(j, "jocatId"@) is Some
    &&& spec_field_i32(j, "iap"@) is Some
    &&& spec_field_i32(j, "hms"@) is Some
    &&& spec_field_str(j, "tariffType"@) is Some
    &&& spec_field_i32(j, "packingType"@) is Some
    &&& spec_field_bool_or(j, "orderApp"@, false) is Some
    &&& spec_field_i32_or(j, "denpendGms"@, 0) is Some
    &&& spec_field_i32_or(j, "denpendHms"@, 0) is Some
    &&& spec_field_i32_or(j, "forceUpdate"@, 0) is Some
    &&& spec_field_str(j, "imgTag"@) is Some
    &&& spec_field_str(j, "isPay"@) is Some
    &&& spec_field_i32(j, "isDisciplined"@) is Some
    &&& spec_field_i32(j, "isShelves"@) is Some
    &&& spec_field_i32(j, "submitType"@) is Some
    &&& spec_field_i32(j, "deleteArchive"@) is Some
    &&& spec_field_i32(j, "charging"@) is Some
    &&& spec_field_i32(j, "buttonGrey"@) is Some
    &&& spec_field_i32(j, "appGift"@) is Some
    &&& spec_field_i32(j, "freeDays"@) is Some
    &&& spec_field_i32(j, "payInstallType"@) is Some
    &&& spec_field_str(j, "version"@) is Some
    &&& spec_field_i64(j, "versionCode"@) is Some
    &&& spec_field_i64(j, "size"@) is Some
    &&& spec_field_str(j, "sha256"@) is Some
    &&& spec_field_str_or(j, "hot"@, "0.0"@) is Some
    &&& spec_field_str_or(j, "rateNum"@, "0"@) is Some
    &&& spec_field_str(j, "downCount"@) is Some
    &&& spec_field_str(j, "price"@) is Some
    &&& spec_field_i64(j, "releaseDate"@) is Some
    &&& spec_field_str_or(j, "newFeatures"@, ""@) is Some
    &&& spec_field_str_or(j, "upgradeMsg"@, ""@) is Some
    &&& spec_field_str(j, "targetSdk"@) is Some
    &&& spec_field_str(j, "minsdk"@) is Some
    &&& spec_field_i32_or(j, "compileSdkVersion"@, 0) is Some
    &&& spec_field_i32_or(j, "minHmosApiLevel"@, 0) is Some
    &&& spec_field_str_or(j, "apiReleaseType"@, "Release"@) is Some
    &&& spec_field_strs_or(j, "mainDeviceCodes"@, spec_default_device_codes()) is Some
    &&& spec_field_strs(j, "releaseCountries"@) is Some
}

/// The decoded record reads exactly the payload's fields, with the
/// defined default wherever a defaulted field is absent.
pub open spec fn spec_raw_matches(d: RawJsonData, j: JsonSpec) -> bool {
    &&& d.app_id@ == spec_field_str(j, "appId"@)->Some_0
    &&& d.alliance_app_id@ == spec_field_str(j, "allianceAppId"@)->Some_0
    &&& d.name@ == spec_field_str(j, "name"@)->Some_0
    &&& d.pkg_name@ == spec_field_str(j, "pkgName"@)->Some_0
    &&& d.dev_id@ == spec_field_str(j, "devId"@)->Some_0
    &&& d.developer_name@ == spec_field_str(j, "developerName"@)->Some_0
    &&& d.dev_en_name@ == spec_field_str(j, "devEnName"@)->Some_0
    &&& d.supplier@ == spec_field_str(j, "supplier"@)->Some_0
    &&& d.kind_id@ == spec_field_str(j, "kindId"@)->Some_0
    &&& d.kind_name@ == spec_field_str(j, "kindName"@)->Some_0
    &&& opt_str_view(d.tag_name) == spec_field_opt_str(j, "tagName"@)->Some_0
    &&& d.kind_type_id@ == spec_field_str(j, "kindTypeId"@)->Some_0
    &&& d.kind_type_name@ == spec_field_str(j, "kindTypeName"@)->Some_0
    &&& d.icon_url@ == spec_field_str(j, "icon"@)->Some_0
    &&& d.brief_desc@ == spec_field_str(j, "briefDes"@)->Some_0
    &&& d.description@ == spec_field_str(j, "description"@)->Some_0
    &&& d.privacy_url@ == spec_field_str(j, "privacyUrl"@)->Some_0
    &&& d.ctype == spec_field_i32(j, "ctype"@)->Some_0
    &&& d.detail_id@ == spec_field_str(j, "detailId"@)->Some_0
    &&& d.app_level == spec_field_i32(j, "appLevel"@)->Some_0
    &&& d.jocat_id == spec_field_i32(j, "jocatId"@)->Some_0
    &&& d.iap == spec_field_i32(j, "iap"@)->Some_0
    &&& d.hms == spec_field_i32(j, "hms"@)->Some_0
    &&& d.tariff_type@ == spec_field_str(j, "tariffType"@)->Some_0
    &&& d.packing_type == spec_field_i32(j, "packingType"@)->Some_0
    &&& d.order_app == spec_field_bool_or(j, "orderApp"@, false)->Some_0
    &&& d.denpend_gms == spec_field_i32_or(j, "denpendGms"@, 0)->Some_0
    &&& d.denpend_hms == spec_field_i32_or(j, "denpendHms"@, 0)->Some_0
    &&& d.force_update == spec_field_i32_or(j, "forceUpdate"@, 0)->Some_0
    &&& d.img_tag@ == spec_field_str(j, "imgTag"@)->Some_0
    &&& d.is_pay@ == spec_field_str(j, "isPay"@)->Some_0
    &&& d.is_disciplined == spec_field_i32(j, "isDisciplined"@)->Some_0
    &&& d.is_shelves == spec_field_i32(j, "isShelves"@)->Some_0
    &&& d.submit_type == spec_field_i32(j, "submitType"@)->Some_0
    &&& d.delete_archive == spec_field_i32(j, "deleteArchive"@)->Some_0
    &&& d.charging == spec_field_i32(j, "charging"@)->Some_0
    &&& d.button_grey == spec_field_i32(j, "buttonGrey"@)->Some_0
    &&& d.app_gift == spec_field_i32(j, "appGift"@)->Some_0
    &&& d.free_days == spec_field_i32(j, "freeDays"@)->Some_0
    &&& d.pay_install_type == spec_field_i32(j, "payInstallType"@)->Some_0
    &&& d.version@ == spec_field_str(j, "version"@)->Some_0
    &&& d.version_code == spec_field_i64(j, "versionCode"@)->Some_0
    &&& d.size_bytes == spec_field_i64(j, "size"@)->Some_0
    &&& d.sha256@ == spec_field_str(j, "sha256"@)->Some_0
    &&& d.hot_score@ == spec_field_str_or(j, "hot"@, "0.0"@)->Some_0
    &&& d.rate_num@ == spec_field_str_or(j, "rateNum"@, "0"@)->Some_0
    &&& d.download_count@ == spec_field_str(j, "downCount"@)->Some_0
    &&& d.price@ == spec_field_str(j, "price"@)->Some_0
    &&& d.release_date == spec_field_i64(j, "releaseDate"@)->Some_0
    &&& d.new_features@ == spec_field_str_or(j, "newFeatures"@, ""@)->Some_0
    &&& d.upgrade_msg@ == spec_field_str_or(j, "upgradeMsg"@, ""@)->Some_0
    &&& d.target_sdk@ == spec_field_str(j, "targetSdk"@)->Some_0
    &&& d.min_sdk@ == spec_field_str(j, "minsdk"@)->Some_0
    &&& d.compile_sdk_version == spec_field_i32_or(j, "compileSdkVersion"@, 0)->Some_0
    &&& d.min_hmos_api_level == spec_field_i32_or(j, "minHmosApiLevel"@, 0)->Some_0
    &&& d.api_release_type@ == spec_field_str_or(j, "apiReleaseType"@, "Release"@)->Some_0
    &&& strs(d.main_device_codes@) == spec_field_strs_or(j, "mainDeviceCodes"@, spec_default_device_codes())->Some_0
    &&& strs(d.release_countries@) == spec_field_strs(j, "releaseCountries"@)->Some_0
}

/// Decodes a normalized payload into the base-info record, field by
/// field. Yields nothing when a required field is missing or any present
/// field has the wrong type.
#[verifier::rlimit(40)]
pub fn raw_json_data_of(v: &JsonVal) -> (r: Option<RawJsonData>)
    ensures
        r is Some <==> spec_raw_ok(jv(*v)),
        r is Some ==> spec_raw_matches(r->Some_0, jv(*v)),
{
    let app_id = match field_str(v, "appId") {
        Some(x) => x,
        None => {
            return None;
        },
    };
    let alliance_app_id = match field_str(v, "allianceAppId") {
        Some(x) => x,
        None => {
            return None;
        },
    };
    let name = match field_str(v, "name") {
        Some(x) => x,
        None => {
            return None;
        },
    };
    let pkg_name = match field_str(v, "pkgName") {
        Some(x) => x,
        None => {
            return None;
        },
    };
    let dev_id = match field_str(v, "devId") {
        Some(x) => x,
        None => {
            return None;
        },
    };
    let developer_name = match field_str(v, "developerName") {
        Some(x) => x,
        None => {
            return None;
        },
    };
    let dev_en_name = match field_str(v, "devEnName") {
        Some(x) => x,
        None => {
            return None;
        },
    };
    let supplier = match field_str(v, "supplier") {
        Some(x) => x,
        None => {
            return None;
        },
    };
    let kind_id = match field_str(v, "kindId") {
        Some(x) => x,
        None => {
            return None;
        },
    };
    let kind_name = match field_str(v, "kindName") {
        Some(x) => x,
        None => {
            return None;
        },
    };
    let tag_name = match field_opt_str(v, "tagName") {
        Some(x) => x,
        None => {
            return None;
        },
    };
    let kind_type_id = match field_str(v, "kindTypeId") {
        Some(x) => x,
        None => {
            return None;
        },
    };
    let kind_type_name = match field_str(v, "kindTypeName") {
        Some(x) => x,
        None => {
            return None;
        },
    };
    let icon_url = match field_str(v, "icon") {
        Some(x) => x,
        None => {
            return None;
        },
    };
    let brief_desc = match field_str(v, "briefDes") {
        Some(x) => x,
        None => {
            return None;
        },
    };
    let description = match field_str(v, "description") {
        Some(x) => x,
        None => {
            return None;
        },
    };
    let privacy_url = match field_str(v, "privacyUrl") {
        Some(x) => x,
        None => {
            return None;
        },
    };
    let ctype = match field_i32(v, "ctype") {
        Some(x) => x,
        None => {
            return None;
        },
    };
    let detail_id = match field_str(v, "detailId") {
        Some(x) => x,
        None => {
            return None;
        },
    };
    let app_level = match field_i32(v, "appLevel") {
        Some(x) => x,
        None => {
            return None;
        },
    };
    let jocat_id = match field_i32(v, "jocatId") {
        Some(x) => x,
        None => {
            return None;
        },
    };
    let iap = match field_i32(v, "iap") {
        Some(x) => x,
        None => {
            return None;
        },
    };
    let hms = match field_i32(v, "hms") {
        Some(x) => x,
        None => {
            return None;
        },
    };
    let tariff_type = match field_str(v, "tariffType") {
        Some(x) => x,
        None => {
            return None;
        },
    };
    let packing_type = match field_i32(v, "packingType") {
        Some(x) => x,
        None => {
            return None;
        },
    };
    let order_app = match field_bool_or(v, "orderApp", false) {
        Some(x) => x,
        None => {
            return None;
        },
    };
    let denpend_gms = match field_i32_or(v, "denpendGms", 0) {
        Some(x) => x,
        None => {
            return None;
        },
    };
    let denpend_hms = match field_i32_or(v, "denpendHms", 0) {
        Some(x) => x,
        None => {
            return None;
        },
    };
    let force_update = match field_i32_or(v, "forceUpdate", 0) {
        Some(x) => x,
        None => {
            return None;
        },
    };
    let img_tag = match field_str(v, "imgTag") {
        Some(x) => x,
        None => {
            return None;
        },
    };
    let is_pay = match field_str(v, "isPay") {
        Some(x) => x,
        None => {
            return None;
        },
    };
    let is_disciplined = match field_i32(v, "isDisciplined") {
        Some(x) => x,
        None => {
            return None;
        },
    };
    let is_shelves = match field_i32(v, "isShelves") {
        Some(x) => x,
        None => {
            return None;
        },
    };
    let submit_type = match field_i32(v, "submitType") {
        Some(x) => x,
        None => {
            return None;
        },
    };
    let delete_archive = match field_i32(v, "deleteArchive") {
        Some(x) => x,
        None => {
            return None;
        },
    };
    let charging = match field_i32(v, "charging") {
        Some(x) => x,
        None => {
            return None;
        },
    };
    let button_grey = match field_i32(v, "buttonGrey") {
        Some(x) => x,
        None => {
            return None;
        },
    };
    let app_gift = match field_i32(v, "appGift") {
        Some(x) => x,
        None => {
            return None;
        },
    };
    let free_days = match field_i32(v, "freeDays") {
        Some(x) => x,
        None => {
            return None;
        },
    };
    let pay_install_type = match field_i32(v, "payInstallType") {
        Some(x) => x,
        None => {
            return None;
        },
    };
    let version = match field_str(v, "version") {
        Some(x) => x,
        None => {
            return None;
        },
    };
    let version_code = match field_i64(v, "versionCode") {
        Some(x) => x,
        None => {
            return None;
        },
    };
    let size_bytes = match field_i64(v, "size") {
        Some(x) => x,
        None => {
            return None;
        },
    };
    let sha256 = match field_str(v, "sha256") {
        Some(x) => x,
        None => {
            return None;
        },
    };
    let hot_score = match field_str_or(v, "hot", "0.0") {
        Some(x) => x,
        None => {
            return None;
        },
    };
    let rate_num = match field_str_or(v, "rateNum", "0") {
        Some(x) => x,
        None => {
            return None;
        },
    };
    let download_count = match field_str(v, "downCount") {
        Some(x) => x,
        None => {
            return None;
        },
    };
    let price = match field_str(v, "price") {
        Some(x) => x,
        None => {
            return None;
        },
    };
    let release_date = match field_i64(v, "releaseDate") {
        Some(x) => x,
        None => {
            return None;
        },
    };
    let new_features = match field_str_or(v, "newFeatures", "") {
        Some(x) => x,
        None => {
            return None;
        },
    };
    let upgrade_msg = match field_str_or(v, "upgradeMsg", "") {
        Some(x) => x,
        None => {
            return None;
        },
    };
    let target_sdk = match field_str(v, "targetSdk") {
        Some(x) => x,
        None => {
            return None;
        },
    };
    let min_sdk = match field_str(v, "minsdk") {
        Some(x) => x,
        None => {
            return None;
        },
    };
    let compile_sdk_version = match field_i32_or(v, "compileSdkVersion", 0) {
        Some(x) => x,
        None => {
            return None;
        },
    };
    let min_hmos_api_level = match field_i32_or(v, "minHmosApiLevel", 0) {
        Some(x) => x,
        None => {
            return None;
        },
    };
    let api_release_type = match field_str_or(v, "apiReleaseType", "Release") {
        Some(x) => x,
        None => {
            return None;
        },
    };
    let main_device_codes = match field_strs_or(v, "mainDeviceCodes", default_device_codes()) {
        Some(x) => x,
        None => {
            return None;
        },
    };
    let release_countries = match field_strs(v, "releaseCountries") {
        Some(x) => x,
        None => {
            return None;
        },
    };
    Some(RawJsonData {
        app_id,
        alliance_app_id,
        name,
        pkg_name,
        dev_id,
        developer_name,
        dev_en_name,
        supplier,
        kind_id,
        kind_name,
        tag_name,
        kind_type_id,
        kind_type_name,
        icon_url,
        brief_desc,
        description,
        privacy_url,
        ctype,
        detail_id,
        app_level,
        jocat_id,
        iap,
        hms,
        tariff_type,
        packing_type,
        order_app,
        denpend_gms,
        denpend_hms,
        force_update,
        img_tag,
        is_pay,
        is_disciplined,
        is_shelves,
        submit_type,
        delete_archive,
        charging,
        button_grey,
        app_gift,
        free_days,
        pay_install_type,
        version,
        version_code,
        size_bytes,
        sha256,
        hot_score,
        rate_num,
        download_count,
        price,
        release_date,
        new_features,
        upgrade_msg,
        target_sdk,
        min_sdk,
        compile_sdk_version,
        min_hmos_api_level,
        api_release_type,
        main_device_codes,
        release_countries,
    })
}


/// True when a decoded star-info object holds a complete rating block.
pub open spec fn spec_rating_ok(j: JsonSpec) -> bool {
    &&& spec_field_str(j, "averageRating"@) is Some
    &&& spec_field_i32(j, "oneStarRatingCount"@) is Some
    &&& spec_field_i32(j, "twoStarRatingCount"@) is Some
    &&& spec_field_i32(j, "threeStarRatingCount"@) is Some
    &&& spec_field_i32(j, "fourStarRatingCount"@) is Some
    &&& spec_field_i32(j, "fiveStarRatingCount"@) is Some
    &&& spec_field_i32(j, "myStarRating"@) is Some
    &&& spec_field_i32(j, "totalStarRatingCount"@) is Some
    &&& spec_field_i32(j, "onlyStarCount"@) is Some
    &&& spec_field_str(j, "fullAverageRating"@) is Some
    &&& spec_field_str(j, "sourceType"@) is Some
}

/// The rating block reads exactly the star-info object's fields.
pub open spec fn spec_rating_matches(d: RawRatingData, j: JsonSpec) -> bool {
    &&& d.average_rating@ == spec_field_str(j, "averageRating"@)->Some_0
    &&& d.star_1_rating_count == spec_field_i32(j, "oneStarRatingCount"@)->Some_0
    &&& d.star_2_rating_count == spec_field_i32(j, "twoStarRatingCount"@)->Some_0
    &&& d.star_3_rating_count == spec_field_i32(j, "threeStarRatingCount"@)->Some_0
    &&& d.star_4_rating_count == spec_field_i32(j, "fourStarRatingCount"@)->Some_0
    &&& d.star_5_rating_count == spec_field_i32(j, "fiveStarRatingCount"@)->Some_0
    &&& d.my_star_rating == spec_field_i32(j, "myStarRating"@)->Some_0
    &&& d.total_star_rating_count == spec_field_i32(j, "totalStarRatingCount"@)->Some_0
    &&& d.only_star_count == spec_field_i32(j, "onlyStarCount"@)->Some_0
    &&& d.full_average_rating@ == spec_field_str(j, "fullAverageRating"@)->Some_0
    &&& d.source_type@ == spec_field_str(j, "sourceType"@)->Some_0
}

/// Decodes the star-info object of a comment card into the rating block;
/// an incomplete or ill-typed object reads as no rating, never as a
/// failure.
pub fn rating_from_json(v: &JsonVal) -> (r: Option<RawRatingData>)
    ensures
        r is Some <==> spec_rating_ok(jv(*v)),
        r is Some ==> spec_rating_matches(r->Some_0, jv(*v)),
{
    let average_rating = match field_str(v, "averageRating") {
        Some(x) => x,
        None => {
            return None;
        },
    };
    let star_1_rating_count = match field_i32(v, "oneStarRatingCount") {
        Some(x) => x,
        None => {
            return None;
        },
    };
    let star_2_rating_count = match field_i32(v, "twoStarRatingCount") {
        Some(x) => x,
        None => {
            return None;
        },
    };
    let star_3_rating_count = match field_i32(v, "threeStarRatingCount") {
        Some(x) => x,
        None => {
            return None;
        },
    };
    let star_4_rating_count = match field_i32(v, "fourStarRatingCount") {
        Some(x) => x,
        None => {
            return None;
        },
    };
    let star_5_rating_count = match field_i32(v, "fiveStarRatingCount") {
        Some(x) => x,
        None => {
            return None;
        },
    };
    let my_star_rating = match field_i32(v, "myStarRating") {
        Some(x) => x,
        None => {
            return None;
        },
    };
    let total_star_rating_count = match field_i32(v, "totalStarRatingCount") {
        Some(x) => x,
        None => {
            return None;
        },
    };
    let only_star_count = match field_i32(v, "onlyStarCount") {
        Some(x) => x,
        None => {
            return None;
        },
    };
    let full_average_rating = match field_str(v, "fullAverageRating") {
        Some(x) => x,
        None => {
            return None;
        },
    };
    let source_type = match field_str(v, "sourceType") {
        Some(x) => x,
        None => {
            return None;
        },
    };
    Some(RawRatingData {
        average_rating,
        star_1_rating_count,
        star_2_rating_count,
        star_3_rating_count,
        star_4_rating_count,
        star_5_rating_count,
        my_star_rating,
        total_star_rating_count,
        only_star_count,
        full_average_rating,
        source_type,
    })
}

/// The model of a regulatory-record block: its four texts.
pub open spec fn recordal_view(d: RawRecordalInfo) -> (Seq<char>, Seq<char>, Seq<char>, Seq<char>) {
    (d.title@, d.app_recordal_info@, d.recordal_entity_title@, d.recordal_entity_name@)
}

/// The model of an optional regulatory-record block.
pub open spec fn opt_recordal_view(o: Option<RawRecordalInfo>) -> Option<
    (Seq<char>, Seq<char>, Seq<char>, Seq<char>),
> {
    match o {
        Some(d) => Some(recordal_view(d)),
        None => None,
    }
}

/// The regulatory record an about card's first entry carries, if its
/// nested list leads to a complete one; any gap on the way reads as no
/// record.
pub open spec fn spec_recordal_of(first: JsonSpec) -> Option<
    (Seq<char>, Seq<char>, Seq<char>, Seq<char>),
> {
    match spec_get_field(first, "list"@) {
        Some(JsonSpec::Arr(items)) => {
            if items.len() > 0 {
                match spec_get_field(items[0], "appRecordalInfo"@) {
                    Some(rec) => {
                        if {
                            &&& spec_field_str(rec, "title"@) is Some
                            &&& spec_field_str(rec, "appRecordalInfo"@) is Some
                            &&& spec_field_str(rec, "recordalEntityTitle"@) is Some
                            &&& spec_field_str(rec, "recordalEntityName"@) is Some
                        } {
                            Some(
                                (
                                    spec_field_str(rec, "title"@)->Some_0,
                                    spec_field_str(rec, "appRecordalInfo"@)->Some_0,
                                    spec_field_str(rec, "recordalEntityTitle"@)->Some_0,
                                    spec_field_str(rec, "recordalEntityName"@)->Some_0,
                                ),
                            )
                        } else {
                            None
                        }
                    },
                    None => None,
                }
            } else {
                None
            }
        },
        _ => None,
    }
}

/// Reads the regulatory record out of an about card's first entry.
fn recordal_of(first: &JsonVal) -> (r: Option<RawRecordalInfo>)
    ensures
        opt_recordal_view(r) == spec_recordal_of(jv(*first)),
{
    let list = match get_field(first, "list") {
        Some(f) => f,
        None => {
            return None;
        },
    };
    let items = match list {
        JsonVal::Arr(items) => items,
        _ => {
            return None;
        },
    };
    if items.len() == 0 {
        proof {
            crate::json::lemma_jv_arr(items@);
        }
        return None;
    }
    proof {
        crate::json::lemma_jv_arr(items@);
    }
    let rec = match get_field(&items[0], "appRecordalInfo") {
        Some(f) => f,
        None => {
            return None;
        },
    };
    let title = match field_str(rec, "title") {
        Some(x) => x,
        None => {
            return None;
        },
    };
    let app_recordal_info = match field_str(rec, "appRecordalInfo") {
        Some(x) => x,
        None => {
            return None;
        },
    };
    let recordal_entity_title = match field_str(rec, "recordalEntityTitle") {
        Some(x) => x,
        None => {
            return None;
        },
    };
    let recordal_entity_name = match field_str(rec, "recordalEntityName") {
        Some(x) => x,
        None => {
            return None;
        },
    };
    Some(RawRecordalInfo { title, app_recordal_info, recordal_entity_title, recordal_entity_name })
}

/// What one detail-page card does to the scan state: a comment card sets
/// the star-info text, an about card sets the regulatory record, every
/// other card type is ignored. A card without a string `type` or a
/// non-empty `data` list is malformed.
pub open spec fn spec_apply_detail_card(
    st: (Option<Seq<char>>, Option<(Seq<char>, Seq<char>, Seq<char>, Seq<char>)>),
    card: JsonSpec,
) -> Option<(Option<Seq<char>>, Option<(Seq<char>, Seq<char>, Seq<char>, Seq<char>)>)> {
    match spec_field_str(card, "type"@) {
        Some(t) => match spec_get_field(card, "data"@) {
            Some(JsonSpec::Arr(items)) => {
                if items.len() == 0 {
                    None
                } else if t == "fl.card.comment"@ {
                    Some((spec_field_str(items[0], "starInfo"@), st.1))
                } else if t == "com.huawei.hmos.appgallery.appdetailaboutcard"@ {
                    Some((st.0, spec_recordal_of(items[0])))
                } else {
                    Some(st)
                }
            },
            _ => None,
        },
        None => None,
    }
}

/// The scan of a detail page's cards, in order; a later card of the same
/// type overrides an earlier one.
pub open spec fn spec_scan_detail(layouts: Seq<JsonSpec>) -> Option<
    (Option<Seq<char>>, Option<(Seq<char>, Seq<char>, Seq<char>, Seq<char>)>),
>
    decreases layouts,
{
    if layouts.len() == 0 {
        Some((None, None))
    } else {
        match spec_scan_detail(layouts.drop_last()) {
            Some(st) => spec_apply_detail_card(st, layouts.last()),
            None => None,
        }
    }
}

/// The card list of a detail-page payload, reached through its single
/// page; anything else about the payload's shape is malformed.
pub open spec fn spec_detail_layouts(j: JsonSpec) -> Option<Seq<JsonSpec>> {
    match spec_get_field(j, "pages"@) {
        Some(JsonSpec::Arr(pages)) => {
            if pages.len() == 0 {
                None
            } else {
                match spec_get_field(pages[0], "data"@) {
                    Some(d) => match spec_get_field(d, "cardlist"@) {
                        Some(cl) => match spec_get_field(cl, "layoutData"@) {
                            Some(JsonSpec::Arr(l)) => Some(l),
                            _ => None,
                        },
                        None => None,
                    },
                    None => None,
                }
            }
        },
        _ => None,
    }
}

/// Walks a detail page's typed cards and takes out the star-info text of
/// the comment card and the regulatory record of the about card, either
/// of which may be absent. Unknown card types contribute nothing. A page
/// that does not have the expected shape is a malformed payload.
#[verifier::loop_isolation(false)]
pub fn extract_detail_blocks(v: &JsonVal) -> (r: Result<
    (Option<String>, Option<RawRecordalInfo>),
    UpstreamError,
>)
    ensures
        match spec_detail_layouts(jv(*v)) {
            None => r == Err::<(Option<String>, Option<RawRecordalInfo>), UpstreamError>(
                UpstreamError::MalformedPayload,
            ),
            Some(layouts) => match spec_scan_detail(layouts) {
                None => r == Err::<(Option<String>, Option<RawRecordalInfo>), UpstreamError>(
                    UpstreamError::MalformedPayload,
                ),
                Some(st) => {
                    &&& r is Ok
                    &&& opt_str_view(r->Ok_0.0) == st.0
                    &&& opt_recordal_view(r->Ok_0.1) == st.1
                },
            },
        },
{
    let pages = match get_field(v, "pages") {
        Some(f) => f,
        None => {
            return Err(UpstreamError::MalformedPayload);
        },
    };
    let pages_arr = match pages {
        JsonVal::Arr(items) => items,
        _ => {
            return Err(UpstreamError::MalformedPayload);
        },
    };
    proof {
        crate::json::lemma_jv_arr(pages_arr@);
    }
    if pages_arr.len() == 0 {
        return Err(UpstreamError::MalformedPayload);
    }
    let data = match get_field(&pages_arr[0], "data") {
        Some(f) => f,
        None => {
            return Err(UpstreamError::MalformedPayload);
        },
    };
    let cardlist = match get_field(data, "cardlist") {
        Some(f) => f,
        None => {
            return Err(UpstreamError::MalformedPayload);
        },
    };
    let layout_data = match get_field(cardlist, "layoutData") {
        Some(f) => f,
        None => {
            return Err(UpstreamError::MalformedPayload);
        },
    };
    let layouts = match layout_data {
        JsonVal::Arr(items) => items,
        _ => {
            return Err(UpstreamError::MalformedPayload);
        },
    };
    proof {
        crate::json::lemma_jv_arr(layouts@);
    }
    let ghost lv = jv_arr(layouts@);
    let n = layouts.len();
    let mut star_text: Option<String> = None;
    let mut record: Option<RawRecordalInfo> = None;
    let mut i: usize = 0;
    while i < n
        invariant
            i <= n,
            spec_scan_detail(lv.subrange(0, i as int)) == Some(
                (opt_str_view(star_text), opt_recordal_view(record)),
            ),
        decreases n - i,
    {
        proof {
            assert(lv.subrange(0, i + 1).drop_last() =~= lv.subrange(0, i as int));
            assert(lv.subrange(0, i + 1).last() == lv[i as int]);
        }
        let card = &layouts[i];
        let card_type = match field_str(card, "type") {
            Some(t) => t,
            None => {
                proof {
                    lemma_scan_detail_stuck(lv, i as int);
                }
                return Err(UpstreamError::MalformedPayload);
            },
        };
        let card_items = match get_field(card, "data") {
            Some(JsonVal::Arr(items)) => items,
            _ => {
                proof {
                    lemma_scan_detail_stuck(lv, i as int);
                }
                return Err(UpstreamError::MalformedPayload);
            },
        };
        proof {
            crate::json::lemma_jv_arr(card_items@);
        }
        if card_items.len() == 0 {
            proof {
                lemma_scan_detail_stuck(lv, i as int);
            }
            return Err(UpstreamError::MalformedPayload);
        }
        let first = &card_items[0];
        if crate::utils::str_eq(card_type.as_str(), "fl.card.comment") {
            star_text = field_str(first, "starInfo");
        } else if crate::utils::str_eq(
            card_type.as_str(),
            "com.huawei.hmos.appgallery.appdetailaboutcard",
        ) {
            record = recordal_of(first);
        }
        i = i + 1;
    }
    proof {
        assert(lv.subrange(0, n as int) =~= lv);
    }
    Ok((star_text, record))
}

/// Once the scan hits a malformed card, the whole scan is malformed.
proof fn lemma_scan_detail_stuck(layouts: Seq<JsonSpec>, i: int)
    requires
        0 <= i < layouts.len(),
        spec_scan_detail(layouts.subrange(0, i)) is Some,
        spec_apply_detail_card(spec_scan_detail(layouts.subrange(0, i))->Some_0, layouts[i])
            is None,
    ensures
        spec_scan_detail(layouts) is None,
    decreases layouts.len(),
{
    assert(layouts.subrange(0, i + 1).drop_last() =~= layouts.subrange(0, i));
    assert(layouts.subrange(0, i + 1).last() == layouts[i]);
    assert(spec_scan_detail(layouts.subrange(0, i + 1)) is None);
    lemma_scan_detail_none_sticks(layouts, i + 1);
}

/// A scan that is malformed on a prefix stays malformed on the whole.
proof fn lemma_scan_detail_none_sticks(layouts: Seq<JsonSpec>, i: int)
    requires
        0 <= i <= layouts.len(),
        spec_scan_detail(layouts.subrange(0, i)) is None,
    ensures
        spec_scan_detail(layouts) is None,
    decreases layouts.len() - i,
{
    if i == layouts.len() {
        assert(layouts.subrange(0, i) =~= layouts);
    } else {
        assert(layouts.subrange(0, i + 1).drop_last() =~= layouts.subrange(0, i));
        lemma_scan_detail_none_sticks(layouts, i + 1);
    }
}

/// Decodes a fetched base-info payload: normalizes it, rejects payloads
/// whose resolved identifier is unreadable or marks another platform, and
/// reads the record's fields. Yields the normalized payload (what history
/// stores and comparisons use) together with the decoded record.
pub fn decode_app_info_payload(payload: &JsonVal) -> (r: Result<(JsonVal, RawJsonData), FetchError>)
    ensures
        ({
            let scrubbed = spec_scrub_payload(jv(*payload));
            match spec_field_str(scrubbed, "appId"@) {
                None => r == Err::<(JsonVal, RawJsonData), FetchError>(
                    FetchError::Validation(ValidationError::IdMissing),
                ),
                Some(id) => {
                    if id.len() < MIN_APP_ID_LEN {
                        r == Err::<(JsonVal, RawJsonData), FetchError>(
                            FetchError::Validation(ValidationError::IdTooShort),
                        )
                    } else if !spec_raw_ok(scrubbed) {
                        r == Err::<(JsonVal, RawJsonData), FetchError>(
                            FetchError::Upstream(UpstreamError::MalformedPayload),
                        )
                    } else {
                        &&& r is Ok
                        &&& jv(r->Ok_0.0) == scrubbed
                        &&& spec_raw_matches(r->Ok_0.1, scrubbed)
                    }
                },
            }
        }),
{
    let scrubbed = scrub_app_payload(payload);
    let app_id = match field_str(&scrubbed, "appId") {
        Some(x) => x,
        None => {
            return Err(FetchError::Validation(ValidationError::IdMissing));
        },
    };
    if app_id.as_str().unicode_len() < MIN_APP_ID_LEN {
        return Err(FetchError::Validation(ValidationError::IdTooShort));
    }
    match raw_json_data_of(&scrubbed) {
        Some(d) => Ok((scrubbed, d)),
        None => Err(FetchError::Upstream(UpstreamError::MalformedPayload)),
    }
}

} // verus!
