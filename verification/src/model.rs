//! The stored rows derived from a fetched record.
//!
//! Each fetched record turns into a core-info row, a metrics row, and
//! optionally a rating row and a regulatory-record row. Every string is
//! sanitized on the way in; numeric text falls back to zero rather than
//! failing; audit fields are stamped with the caller's instant.

use vstd::prelude::*;

use crate::dec::{parse_dec_or_zero, spec_dec_or_zero, Dec};
use crate::json::{json_copy, jv, opt_jv, JsonVal};
use crate::parse::{parse_i32, parse_i64, spec_parse_i32, spec_parse_i64};
use crate::raw::{RawAppData, RawJsonData, RawRatingData, RawRecordalInfo};
use crate::utils::{
    opt_str_view, sanitize_utf8_string, spec_sanitize, str_eq, strs, strs_copy, strs_eq,
};

verus! {

/// The sanitized text of an optional string.
pub open spec fn spec_opt_sanitize(o: Option<Seq<char>>) -> Option<Seq<char>> {
    match o {
        Some(s) => Some(spec_sanitize(s)),
        None => None,
    }
}

/// The number a payload string stands for, zero when it does not parse.
pub open spec fn spec_i32_of(s: Seq<char>) -> i32 {
    match spec_parse_i32(s) {
        Some(v) => v,
        None => 0,
    }
}

/// The number a payload string stands for, zero when it does not parse.
pub open spec fn spec_i64_of(s: Seq<char>) -> i64 {
    match spec_parse_i64(s) {
        Some(v) => v,
        None => 0,
    }
}

fn i32_of(s: &str) -> (r: i32)
    ensures
        r == spec_i32_of(s@),
{
    match parse_i32(s) {
        Some(v) => v,
        None => 0,
    }
}

fn i64_of(s: &str) -> (r: i64)
    ensures
        r == spec_i64_of(s@),
{
    match parse_i64(s) {
        Some(v) => v,
        None => 0,
    }
}

/// The core-info row derived from one fetched record.
pub struct AppInfo {
    pub app_id: String,
    pub alliance_app_id: String,
    pub name: String,
    pub pkg_name: String,
    pub dev_id: String,
    pub developer_name: String,
    pub dev_en_name: String,
    pub supplier: String,
    pub kind_id: i32,
    pub kind_name: String,
    pub tag_name: Option<String>,
    pub kind_type_id: i32,
    pub kind_type_name: String,
    pub icon_url: String,
    pub brief_desc: String,
    pub description: String,
    pub privacy_url: String,
    pub ctype: i32,
    pub detail_id: String,
    pub app_level: i32,
    pub jocat_id: i32,
    pub iap: bool,
    pub hms: bool,
    pub tariff_type: String,
    pub packing_type: i32,
    pub order_app: bool,
    pub denpend_gms: bool,
    pub denpend_hms: bool,
    pub force_update: bool,
    pub img_tag: String,
    pub is_pay: bool,
    pub is_disciplined: bool,
    pub is_shelves: bool,
    pub submit_type: i32,
    pub delete_archive: bool,
    pub charging: bool,
    pub button_grey: bool,
    pub app_gift: bool,
    pub free_days: i32,
    pub pay_install_type: i32,
    pub price: Dec,
    pub created_at: i64,
    pub listed_at: i64,
    pub comment: Option<JsonVal>,
    pub release_countries: Vec<String>,
    pub main_device_codes: Vec<String>,
}

/// The derived row reads exactly the fetched record, sanitized and
/// converted, stamped with the given instant.
pub open spec fn spec_app_info_from_raw(a: AppInfo, raw: RawJsonData, now: i64) -> bool {
    &&& a.app_id@ == spec_sanitize(raw.app_id@)
    &&& a.alliance_app_id@ == spec_sanitize(raw.alliance_app_id@)
    &&& a.name@ == spec_sanitize(raw.name@)
    &&& a.pkg_name@ == spec_sanitize(raw.pkg_name@)
    &&& a.dev_id@ == spec_sanitize(raw.dev_id@)
    &&& a.developer_name@ == spec_sanitize(raw.developer_name@)
    &&& a.dev_en_name@ == spec_sanitize(raw.dev_en_name@)
    &&& a.supplier@ == spec_sanitize(raw.supplier@)
    &&& a.kind_id == spec_i32_of(raw.kind_id@)
    &&& a.kind_name@ == spec_sanitize(raw.kind_name@)
    &&& opt_str_view(a.tag_name) == spec_opt_sanitize(opt_str_view(raw.tag_name))
    &&& a.kind_type_id == spec_i32_of(raw.kind_type_id@)
    &&& a.kind_type_name@ == spec_sanitize(raw.kind_type_name@)
    &&& a.icon_url@ == spec_sanitize(raw.icon_url@)
    &&& a.brief_desc@ == spec_sanitize(raw.brief_desc@)
    &&& a.description@ == spec_sanitize(raw.description@)
    &&& a.privacy_url@ == spec_sanitize(raw.privacy_url@)
    &&& a.ctype == raw.ctype
    &&& a.detail_id@ == spec_sanitize(raw.detail_id@)
    &&& a.app_level == raw.app_level
    &&& a.jocat_id == raw.jocat_id
    &&& a.iap == (raw.iap != 0)
    &&& a.hms == (raw.hms != 0)
    &&& a.tariff_type@ == spec_sanitize(raw.tariff_type@)
    &&& a.packing_type == raw.packing_type
    &&& a.order_app == raw.order_app
    &&& a.denpend_gms == (raw.denpend_gms != 0)
    &&& a.denpend_hms == (raw.denpend_hms != 0)
    &&& a.force_update == (raw.force_update != 0)
    &&& a.img_tag@ == spec_sanitize(raw.img_tag@)
    &&& a.is_pay == (spec_i32_of(raw.is_pay@) != 0)
    &&& a.is_disciplined == (raw.is_disciplined != 0)
    &&& a.is_shelves == (raw.is_shelves != 0)
    &&& a.submit_type == raw.submit_type
    &&& a.delete_archive == (raw.delete_archive != 0)
    &&& a.charging == (raw.charging != 0)
    &&& a.button_grey == (raw.button_grey != 0)
    &&& a.app_gift == (raw.app_gift != 0)
    &&& a.free_days == raw.free_days
    &&& a.pay_install_type == raw.pay_install_type
    &&& a.price == spec_dec_or_zero(raw.price@)
    &&& a.created_at == now
    &&& a.listed_at == now
    &&& a.comment is None
    &&& strs(a.release_countries@) == strs(raw.release_countries@)
    &&& strs(a.main_device_codes@) == strs(raw.main_device_codes@)
}

impl AppInfo {
    /// Derives the core-info row: strings sanitized, numeric text parsed with zero fallbacks, flags read off their integer forms.
    pub fn from_raw(raw: &RawJsonData, now: i64) -> (a: AppInfo)
        ensures
            spec_app_info_from_raw(a, *raw, now),
    {
        AppInfo {
        app_id: sanitize_utf8_string(raw.app_id.as_str()),
        alliance_app_id: sanitize_utf8_string(raw.alliance_app_id.as_str()),
        name: sanitize_utf8_string(raw.name.as_str()),
        pkg_name: sanitize_utf8_string(raw.pkg_name.as_str()),
        dev_id: sanitize_utf8_string(raw.dev_id.as_str()),
        developer_name: sanitize_utf8_string(raw.developer_name.as_str()),
        dev_en_name: sanitize_utf8_string(raw.dev_en_name.as_str()),
        supplier: sanitize_utf8_string(raw.supplier.as_str()),
        kind_id: i32_of(raw.kind_id.as_str()),
        kind_name: sanitize_utf8_string(raw.kind_name.as_str()),
        tag_name: match &raw.tag_name {
            Some(s) => Some(sanitize_utf8_string(s.as_str())),
            None => None,
        },
        kind_type_id: i32_of(raw.kind_type_id.as_str()),
        kind_type_name: sanitize_utf8_string(raw.kind_type_name.as_str()),
        icon_url: sanitize_utf8_string(raw.icon_url.as_str()),
        brief_desc: sanitize_utf8_string(raw.brief_desc.as_str()),
        description: sanitize_utf8_string(raw.description.as_str()),
        privacy_url: sanitize_utf8_string(raw.privacy_url.as_str()),
        ctype: raw.ctype,
        detail_id: sanitize_utf8_string(raw.detail_id.as_str()),
        app_level: raw.app_level,
        jocat_id: raw.jocat_id,
        iap: raw.iap != 0,
        hms: raw.hms != 0,
        tariff_type: sanitize_utf8_string(raw.tariff_type.as_str()),
        packing_type: raw.packing_type,
        order_app: raw.order_app,
        denpend_gms: raw.denpend_gms != 0,
        denpend_hms: raw.denpend_hms != 0,
        force_update: raw.force_update != 0,
        img_tag: sanitize_utf8_string(raw.img_tag.as_str()),
        is_pay: i32_of(raw.is_pay.as_str()) != 0,
        is_disciplined: raw.is_disciplined != 0,
        is_shelves: raw.is_shelves != 0,
        submit_type: raw.submit_type,
        delete_archive: raw.delete_archive != 0,
        charging: raw.charging != 0,
        button_grey: raw.button_grey != 0,
        app_gift: raw.app_gift != 0,
        free_days: raw.free_days,
        pay_install_type: raw.pay_install_type,
        price: parse_dec_or_zero(raw.price.as_str()),
        created_at: now,
        listed_at: now,
        comment: None,
        release_countries: strs_copy(&raw.release_countries),
        main_device_codes: strs_copy(&raw.main_device_codes),
        }
    }
}

/// True when a stored AppInfo row already reads as the row this record
/// would derive, the server-owned audit fields aside.
pub open spec fn spec_info_row_matches(old_row: AppInfo, raw: RawJsonData) -> bool {
    &&& old_row.app_id@ == spec_sanitize(raw.app_id@)
    &&& old_row.alliance_app_id@ == spec_sanitize(raw.alliance_app_id@)
    &&& old_row.name@ == spec_sanitize(raw.name@)
    &&& old_row.pkg_name@ == spec_sanitize(raw.pkg_name@)
    &&& old_row.dev_id@ == spec_sanitize(raw.dev_id@)
    &&& old_row.developer_name@ == spec_sanitize(raw.developer_name@)
    &&& old_row.dev_en_name@ == spec_sanitize(raw.dev_en_name@)
    &&& old_row.supplier@ == spec_sanitize(raw.supplier@)
    &&& old_row.kind_id == spec_i32_of(raw.kind_id@)
    &&& old_row.kind_name@ == spec_sanitize(raw.kind_name@)
    &&& opt_str_view(old_row.tag_name) == spec_opt_sanitize(opt_str_view(raw.tag_name))
    &&& old_row.kind_type_id == spec_i32_of(raw.kind_type_id@)
    &&& old_row.kind_type_name@ == spec_sanitize(raw.kind_type_name@)
    &&& old_row.icon_url@ == spec_sanitize(raw.icon_url@)
    &&& old_row.brief_desc@ == spec_sanitize(raw.brief_desc@)
    &&& old_row.description@ == spec_sanitize(raw.description@)
    &&& old_row.privacy_url@ == spec_sanitize(raw.privacy_url@)
    &&& old_row.ctype == raw.ctype
    &&& old_row.detail_id@ == spec_sanitize(raw.detail_id@)
    &&& old_row.app_level == raw.app_level
    &&& old_row.jocat_id == raw.jocat_id
    &&& old_row.iap == (raw.iap != 0)
    &&& old_row.hms == (raw.hms != 0)
    &&& old_row.tariff_type@ == spec_sanitize(raw.tariff_type@)
    &&& old_row.packing_type == raw.packing_type
    &&& old_row.order_app == raw.order_app
    &&& old_row.denpend_gms == (raw.denpend_gms != 0)
    &&& old_row.denpend_hms == (raw.denpend_hms != 0)
    &&& old_row.force_update == (raw.force_update != 0)
    &&& old_row.img_tag@ == spec_sanitize(raw.img_tag@)
    &&& old_row.is_pay == (spec_i32_of(raw.is_pay@) != 0)
    &&& old_row.is_disciplined == (raw.is_disciplined != 0)
    &&& old_row.is_shelves == (raw.is_shelves != 0)
    &&& old_row.submit_type == raw.submit_type
    &&& old_row.delete_archive == (raw.delete_archive != 0)
    &&& old_row.charging == (raw.charging != 0)
    &&& old_row.button_grey == (raw.button_grey != 0)
    &&& old_row.app_gift == (raw.app_gift != 0)
    &&& old_row.free_days == raw.free_days
    &&& old_row.pay_install_type == raw.pay_install_type
    &&& old_row.price == spec_dec_or_zero(raw.price@)
    &&& strs(old_row.release_countries@) == strs(raw.release_countries@)
    &&& strs(old_row.main_device_codes@) == strs(raw.main_device_codes@)
}

/// Compares a stored AppInfo row against what this record derives,
/// audit fields aside.
#[verifier::rlimit(100)]
pub fn info_row_matches(old_row: &AppInfo, raw: &RawJsonData) -> (r: bool)
    ensures
        r == spec_info_row_matches(*old_row, *raw),
{
    if !str_eq(old_row.app_id.as_str(), sanitize_utf8_string(raw.app_id.as_str()).as_str()) {
        return false;
    }
    if !str_eq(old_row.alliance_app_id.as_str(), sanitize_utf8_string(raw.alliance_app_id.as_str()).as_str()) {
        return false;
    }
    if !str_eq(old_row.name.as_str(), sanitize_utf8_string(raw.name.as_str()).as_str()) {
        return false;
    }
    if !str_eq(old_row.pkg_name.as_str(), sanitize_utf8_string(raw.pkg_name.as_str()).as_str()) {
        return false;
    }
    if !str_eq(old_row.dev_id.as_str(), sanitize_utf8_string(raw.dev_id.as_str()).as_str()) {
        return false;
    }
    if !str_eq(old_row.developer_name.as_str(), sanitize_utf8_string(raw.developer_name.as_str()).as_str()) {
        return false;
    }
    if !str_eq(old_row.dev_en_name.as_str(), sanitize_utf8_string(raw.dev_en_name.as_str()).as_str()) {
        return false;
    }
    if !str_eq(old_row.supplier.as_str(), sanitize_utf8_string(raw.supplier.as_str()).as_str()) {
        return false;
    }
    if old_row.kind_id != i32_of(raw.kind_id.as_str()) {
        return false;
    }
    if !str_eq(old_row.kind_name.as_str(), sanitize_utf8_string(raw.kind_name.as_str()).as_str()) {
        return false;
    }
    let same = match (&old_row.tag_name, &raw.tag_name) {
        (Some(x), Some(y)) => str_eq(x.as_str(), sanitize_utf8_string(y.as_str()).as_str()),
        (None, None) => true,
        _ => false,
    };
    if !same {
        return false;
    }
    if old_row.kind_type_id != i32_of(raw.kind_type_id.as_str()) {
        return false;
    }
    if !str_eq(old_row.kind_type_name.as_str(), sanitize_utf8_string(raw.kind_type_name.as_str()).as_str()) {
        return false;
    }
    if !str_eq(old_row.icon_url.as_str(), sanitize_utf8_string(raw.icon_url.as_str()).as_str()) {
        return false;
    }
    if !str_eq(old_row.brief_desc.as_str(), sanitize_utf8_string(raw.brief_desc.as_str()).as_str()) {
        return false;
    }
    if !str_eq(old_row.description.as_str(), sanitize_utf8_string(raw.description.as_str()).as_str()) {
        return false;
    }
    if !str_eq(old_row.privacy_url.as_str(), sanitize_utf8_string(raw.privacy_url.as_str()).as_str()) {
        return false;
    }
    if old_row.ctype != raw.ctype {
        return false;
    }
    if !str_eq(old_row.detail_id.as_str(), sanitize_utf8_string(raw.detail_id.as_str()).as_str()) {
        return false;
    }
    if old_row.app_level != raw.app_level {
        return false;
    }
    if old_row.jocat_id != raw.jocat_id {
        return false;
    }
    if old_row.iap != (raw.iap != 0) {
        return false;
    }
    if old_row.hms != (raw.hms != 0) {
        return false;
    }
    if !str_eq(old_row.tariff_type.as_str(), sanitize_utf8_string(raw.tariff_type.as_str()).as_str()) {
        return false;
    }
    if old_row.packing_type != raw.packing_type {
        return false;
    }
    if old_row.order_app != raw.order_app {
        return false;
    }
    if old_row.denpend_gms != (raw.denpend_gms != 0) {
        return false;
    }
    if old_row.denpend_hms != (raw.denpend_hms != 0) {
        return false;
    }
    if old_row.force_update != (raw.force_update != 0) {
        return false;
    }
    if !str_eq(old_row.img_tag.as_str(), sanitize_utf8_string(raw.img_tag.as_str()).as_str()) {
        return false;
    }
    if old_row.is_pay != (i32_of(raw.is_pay.as_str()) != 0) {
        return false;
    }
    if old_row.is_disciplined != (raw.is_disciplined != 0) {
        return false;
    }
    if old_row.is_shelves != (raw.is_shelves != 0) {
        return false;
    }
    if old_row.submit_type != raw.submit_type {
        return false;
    }
    if old_row.delete_archive != (raw.delete_archive != 0) {
        return false;
    }
    if old_row.charging != (raw.charging != 0) {
        return false;
    }
    if old_row.button_grey != (raw.button_grey != 0) {
        return false;
    }
    if old_row.app_gift != (raw.app_gift != 0) {
        return false;
    }
    if old_row.free_days != raw.free_days {
        return false;
    }
    if old_row.pay_install_type != raw.pay_install_type {
        return false;
    }
    if old_row.price != parse_dec_or_zero(raw.price.as_str()) {
        return false;
    }
    if !strs_eq(&old_row.release_countries, &raw.release_countries) {
        return false;
    }
    if !strs_eq(&old_row.main_device_codes, &raw.main_device_codes) {
        return false;
    }
    true
}

/// The metrics row derived from one fetched record.
pub struct AppMetric {
    pub id: i64,
    pub app_id: String,
    pub version: String,
    pub version_code: i64,
    pub size_bytes: i64,
    pub sha256: String,
    pub info_score: Dec,
    pub info_rate_count: i64,
    pub download_count: i64,
    pub price: Dec,
    pub release_date: i64,
    pub new_features: String,
    pub upgrade_msg: String,
    pub target_sdk: i32,
    pub minsdk: i32,
    pub compile_sdk_version: i32,
    pub min_hmos_api_level: i32,
    pub api_release_type: String,
    pub created_at: i64,
}

/// The derived row reads exactly the fetched record, sanitized and
/// converted, stamped with the given instant.
pub open spec fn spec_app_metric_from_raw(a: AppMetric, raw: RawJsonData, now: i64) -> bool {
    &&& a.id == 0
    &&& a.app_id@ == raw.app_id@
    &&& a.version@ == spec_sanitize(raw.version@)
    &&& a.version_code == raw.version_code
    &&& a.size_bytes == raw.size_bytes
    &&& a.sha256@ == spec_sanitize(raw.sha256@)
    &&& a.info_score == spec_dec_or_zero(raw.hot_score@)
    &&& a.info_rate_count == spec_i64_of(raw.rate_num@)
    &&& a.download_count == spec_i64_of(raw.download_count@)
    &&& a.price == spec_dec_or_zero(raw.price@)
    &&& a.release_date == raw.release_date
    &&& a.new_features@ == spec_sanitize(raw.new_features@)
    &&& a.upgrade_msg@ == spec_sanitize(raw.upgrade_msg@)
    &&& a.target_sdk == spec_i32_of(raw.target_sdk@)
    &&& a.minsdk == spec_i32_of(raw.min_sdk@)
    &&& a.compile_sdk_version == raw.compile_sdk_version
    &&& a.min_hmos_api_level == raw.min_hmos_api_level
    &&& a.api_release_type@ == spec_sanitize(raw.api_release_type@)
    &&& a.created_at == now
}

impl AppMetric {
    /// Derives the metrics row from the fetched record.
    pub fn from_raw_data(raw: &RawJsonData, now: i64) -> (a: AppMetric)
        ensures
            spec_app_metric_from_raw(a, *raw, now),
    {
        AppMetric {
        id: 0,
        app_id: raw.app_id.clone(),
        version: sanitize_utf8_string(raw.version.as_str()),
        version_code: raw.version_code,
        size_bytes: raw.size_bytes,
        sha256: sanitize_utf8_string(raw.sha256.as_str()),
        info_score: parse_dec_or_zero(raw.hot_score.as_str()),
        info_rate_count: i64_of(raw.rate_num.as_str()),
        download_count: i64_of(raw.download_count.as_str()),
        price: parse_dec_or_zero(raw.price.as_str()),
        release_date: raw.release_date,
        new_features: sanitize_utf8_string(raw.new_features.as_str()),
        upgrade_msg: sanitize_utf8_string(raw.upgrade_msg.as_str()),
        target_sdk: i32_of(raw.target_sdk.as_str()),
        minsdk: i32_of(raw.min_sdk.as_str()),
        compile_sdk_version: raw.compile_sdk_version,
        min_hmos_api_level: raw.min_hmos_api_level,
        api_release_type: sanitize_utf8_string(raw.api_release_type.as_str()),
        created_at: now,
        }
    }
}

/// True when a stored AppMetric row already reads as the row this record
/// would derive, the server-owned audit fields aside.
pub open spec fn spec_metric_row_matches(old_row: AppMetric, raw: RawJsonData) -> bool {
    &&& old_row.app_id@ == raw.app_id@
    &&& old_row.version@ == spec_sanitize(raw.version@)
    &&& old_row.version_code == raw.version_code
    &&& old_row.size_bytes == raw.size_bytes
    &&& old_row.sha256@ == spec_sanitize(raw.sha256@)
    &&& old_row.info_score == spec_dec_or_zero(raw.hot_score@)
    &&& old_row.info_rate_count == spec_i64_of(raw.rate_num@)
    &&& old_row.download_count == spec_i64_of(raw.download_count@)
    &&& old_row.price == spec_dec_or_zero(raw.price@)
    &&& old_row.release_date == raw.release_date
    &&& old_row.new_features@ == spec_sanitize(raw.new_features@)
    &&& old_row.upgrade_msg@ == spec_sanitize(raw.upgrade_msg@)
    &&& old_row.target_sdk == spec_i32_of(raw.target_sdk@)
    &&& old_row.minsdk == spec_i32_of(raw.min_sdk@)
    &&& old_row.compile_sdk_version == raw.compile_sdk_version
    &&& old_row.min_hmos_api_level == raw.min_hmos_api_level
    &&& old_row.api_release_type@ == spec_sanitize(raw.api_release_type@)
}

/// Compares a stored AppMetric row against what this record derives,
/// audit fields aside.
#[verifier::rlimit(100)]
pub fn metric_row_matches(old_row: &AppMetric, raw: &RawJsonData) -> (r: bool)
    ensures
        r == spec_metric_row_matches(*old_row, *raw),
{
    if !str_eq(old_row.app_id.as_str(), raw.app_id.as_str()) {
        return false;
    }
    if !str_eq(old_row.version.as_str(), sanitize_utf8_string(raw.version.as_str()).as_str()) {
        return false;
    }
    if old_row.version_code != raw.version_code {
        return false;
    }
    if old_row.size_bytes != raw.size_bytes {
        return false;
    }
    if !str_eq(old_row.sha256.as_str(), sanitize_utf8_string(raw.sha256.as_str()).as_str()) {
        return false;
    }
    if old_row.info_score != parse_dec_or_zero(raw.hot_score.as_str()) {
        return false;
    }
    if old_row.info_rate_count != i64_of(raw.rate_num.as_str()) {
        return false;
    }
    if old_row.download_count != i64_of(raw.download_count.as_str()) {
        return false;
    }
    if old_row.price != parse_dec_or_zero(raw.price.as_str()) {
        return false;
    }
    if old_row.release_date != raw.release_date {
        return false;
    }
    if !str_eq(old_row.new_features.as_str(), sanitize_utf8_string(raw.new_features.as_str()).as_str()) {
        return false;
    }
    if !str_eq(old_row.upgrade_msg.as_str(), sanitize_utf8_string(raw.upgrade_msg.as_str()).as_str()) {
        return false;
    }
    if old_row.target_sdk != i32_of(raw.target_sdk.as_str()) {
        return false;
    }
    if old_row.minsdk != i32_of(raw.min_sdk.as_str()) {
        return false;
    }
    if old_row.compile_sdk_version != raw.compile_sdk_version {
        return false;
    }
    if old_row.min_hmos_api_level != raw.min_hmos_api_level {
        return false;
    }
    if !str_eq(old_row.api_release_type.as_str(), sanitize_utf8_string(raw.api_release_type.as_str()).as_str()) {
        return false;
    }
    true
}

/// One historical rating row; rating changes append, never update.
pub struct AppRating {
    pub id: i64,
    pub app_id: String,
    pub pkg_name: String,
    pub average_rating: Dec,
    pub star_1_rating_count: i32,
    pub star_2_rating_count: i32,
    pub star_3_rating_count: i32,
    pub star_4_rating_count: i32,
    pub star_5_rating_count: i32,
    pub my_star_rating: i32,
    pub total_star_rating_count: i32,
    pub only_star_count: i32,
    pub full_average_rating: Dec,
    pub source_type: String,
    pub created_at: i64,
}

/// The derived row reads exactly the fetched record, sanitized and
/// converted, stamped with the given instant.
pub open spec fn spec_app_rating_from_raw(a: AppRating, raw: RawJsonData, star: RawRatingData, now: i64) -> bool {
    &&& a.id == 0
    &&& a.app_id@ == raw.app_id@
    &&& a.pkg_name@ == raw.pkg_name@
    &&& a.average_rating == spec_dec_or_zero(star.average_rating@)
    &&& a.star_1_rating_count == star.star_1_rating_count
    &&& a.star_2_rating_count == star.star_2_rating_count
    &&& a.star_3_rating_count == star.star_3_rating_count
    &&& a.star_4_rating_count == star.star_4_rating_count
    &&& a.star_5_rating_count == star.star_5_rating_count
    &&& a.my_star_rating == star.my_star_rating
    &&& a.total_star_rating_count == star.total_star_rating_count
    &&& a.only_star_count == star.only_star_count
    &&& a.full_average_rating == spec_dec_or_zero(star.full_average_rating@)
    &&& a.source_type@ == spec_sanitize(star.source_type@)
    &&& a.created_at == now
}

impl AppRating {
    /// Derives a rating row from the fetched record and its star block.
    pub fn from_raw_star(raw: &RawJsonData, star: &RawRatingData, now: i64) -> (a: AppRating)
        ensures
            spec_app_rating_from_raw(a, *raw, *star, now),
    {
        AppRating {
        id: 0,
        app_id: raw.app_id.clone(),
        pkg_name: raw.pkg_name.clone(),
        average_rating: parse_dec_or_zero(star.average_rating.as_str()),
        star_1_rating_count: star.star_1_rating_count,
        star_2_rating_count: star.star_2_rating_count,
        star_3_rating_count: star.star_3_rating_count,
        star_4_rating_count: star.star_4_rating_count,
        star_5_rating_count: star.star_5_rating_count,
        my_star_rating: star.my_star_rating,
        total_star_rating_count: star.total_star_rating_count,
        only_star_count: star.only_star_count,
        full_average_rating: parse_dec_or_zero(star.full_average_rating.as_str()),
        source_type: sanitize_utf8_string(star.source_type.as_str()),
        created_at: now,
        }
    }
}

/// True when a stored AppRating row already reads as the row this record
/// would derive, the server-owned audit fields aside.
pub open spec fn spec_rating_row_matches(old_row: AppRating, raw: RawJsonData, star: RawRatingData) -> bool {
    &&& old_row.app_id@ == raw.app_id@
    &&& old_row.pkg_name@ == raw.pkg_name@
    &&& old_row.average_rating == spec_dec_or_zero(star.average_rating@)
    &&& old_row.star_1_rating_count == star.star_1_rating_count
    &&& old_row.star_2_rating_count == star.star_2_rating_count
    &&& old_row.star_3_rating_count == star.star_3_rating_count
    &&& old_row.star_4_rating_count == star.star_4_rating_count
    &&& old_row.star_5_rating_count == star.star_5_rating_count
    &&& old_row.my_star_rating == star.my_star_rating
    &&& old_row.total_star_rating_count == star.total_star_rating_count
    &&& old_row.only_star_count == star.only_star_count
    &&& old_row.full_average_rating == spec_dec_or_zero(star.full_average_rating@)
    &&& old_row.source_type@ == spec_sanitize(star.source_type@)
}

/// Compares a stored AppRating row against what this record derives,
/// audit fields aside.
#[verifier::rlimit(100)]
pub fn rating_row_matches(old_row: &AppRating, raw: &RawJsonData, star: &RawRatingData) -> (r: bool)
    ensures
        r == spec_rating_row_matches(*old_row, *raw, *star),
{
    if !str_eq(old_row.app_id.as_str(), raw.app_id.as_str()) {
        return false;
    }
    if !str_eq(old_row.pkg_name.as_str(), raw.pkg_name.as_str()) {
        return false;
    }
    if old_row.average_rating != parse_dec_or_zero(star.average_rating.as_str()) {
        return false;
    }
    if old_row.star_1_rating_count != star.star_1_rating_count {
        return false;
    }
    if old_row.star_2_rating_count != star.star_2_rating_count {
        return false;
    }
    if old_row.star_3_rating_count != star.star_3_rating_count {
        return false;
    }
    if old_row.star_4_rating_count != star.star_4_rating_count {
        return false;
    }
    if old_row.star_5_rating_count != star.star_5_rating_count {
        return false;
    }
    if old_row.my_star_rating != star.my_star_rating {
        return false;
    }
    if old_row.total_star_rating_count != star.total_star_rating_count {
        return false;
    }
    if old_row.only_star_count != star.only_star_count {
        return false;
    }
    if old_row.full_average_rating != parse_dec_or_zero(star.full_average_rating.as_str()) {
        return false;
    }
    if !str_eq(old_row.source_type.as_str(), sanitize_utf8_string(star.source_type.as_str()).as_str()) {
        return false;
    }
    true
}
impl AppInfo {
    /// Carries the server-owned audit fields of the stored row onto this
    /// freshly derived row, so that comparison sees only genuine changes.
    pub fn update_from_db(&mut self, db: &AppInfo)
        ensures
            *final(self) == (AppInfo {
                created_at: db.created_at,
                listed_at: db.listed_at,
                comment: final(self).comment,
                ..*old(self)
            }),
            opt_jv(final(self).comment) == opt_jv(db.comment),
    {
        self.created_at = db.created_at;
        self.listed_at = db.listed_at;
        self.comment = match &db.comment {
            Some(c) => Some(json_copy(c)),
            None => None,
        };
    }
}

impl AppMetric {
    /// Carries the stored row's identity and creation instant onto this
    /// freshly derived row before comparison.
    pub fn update_from_db(&mut self, db: &AppMetric)
        ensures
            *final(self) == (AppMetric { id: db.id, created_at: db.created_at, ..*old(self) }),
    {
        self.id = db.id;
        self.created_at = db.created_at;
    }
}

impl AppRating {
    /// Carries the stored row's identity and creation instant onto this
    /// freshly derived row before comparison.
    pub fn update_from_db(&mut self, db: &AppRating)
        ensures
            *final(self) == (AppRating { id: db.id, created_at: db.created_at, ..*old(self) }),
    {
        self.id = db.id;
        self.created_at = db.created_at;
    }
}

/// The regulatory-record row of one entity; upserted unconditionally,
/// last write wins.
pub struct AppRecord {
    pub id: i64,
    pub app_id: String,
    pub title: String,
    pub app_recordal_info: String,
    pub recordal_entity_title: String,
    pub recordal_entity_name: String,
}

/// The derived regulatory-record row reads exactly the fetched block,
/// sanitized.
pub open spec fn spec_app_record_from_raw(a: AppRecord, app_id: Seq<char>, raw: RawRecordalInfo) -> bool {
    &&& a.id == 0
    &&& a.app_id@ == app_id
    &&& a.title@ == spec_sanitize(raw.title@)
    &&& a.app_recordal_info@ == spec_sanitize(raw.app_recordal_info@)
    &&& a.recordal_entity_title@ == spec_sanitize(raw.recordal_entity_title@)
    &&& a.recordal_entity_name@ == spec_sanitize(raw.recordal_entity_name@)
}

impl AppRecord {
    /// Derives the regulatory-record row from the fetched block.
    pub fn from_raw_record(app_id: &str, raw_record: &RawRecordalInfo) -> (a: AppRecord)
        ensures
            spec_app_record_from_raw(a, app_id@, *raw_record),
    {
        AppRecord {
            id: 0,
            app_id: app_id.to_owned(),
            title: sanitize_utf8_string(raw_record.title.as_str()),
            app_recordal_info: sanitize_utf8_string(raw_record.app_recordal_info.as_str()),
            recordal_entity_title: sanitize_utf8_string(
                raw_record.recordal_entity_title.as_str(),
            ),
            recordal_entity_name: sanitize_utf8_string(raw_record.recordal_entity_name.as_str()),
        }
    }

    /// Carries the stored row's identity onto this freshly derived row.
    pub fn update_from_db(&mut self, db: &AppRecord)
        ensures
            *final(self) == (AppRecord { id: db.id, ..*old(self) }),
    {
        self.id = db.id;
    }
}

/// One history entry: the payload as fetched, kept verbatim.
pub struct AppDataHistory {
    pub id: i64,
    pub app_id: String,
    pub pkg_name: String,
    pub raw_json_data: JsonVal,
    pub created_at: i64,
}

impl AppDataHistory {
    /// Wraps a payload into a history entry.
    pub fn from_raw_data(app_id: &str, pkg_name: &str, data: &JsonVal, now: i64) -> (a:
        AppDataHistory)
        ensures
            a.id == 0,
            a.app_id@ == app_id@,
            a.pkg_name@ == pkg_name@,
            jv(a.raw_json_data) == jv(*data),
            a.created_at == now,
    {
        AppDataHistory {
            id: 0,
            app_id: app_id.to_owned(),
            pkg_name: pkg_name.to_owned(),
            raw_json_data: json_copy(data),
            created_at: now,
        }
    }
}


/// The combined row served to readers: core info, the newest metrics, the
/// newest rating and the regulatory record of one entity, in one view.
pub struct FullAppInfo {
    pub app_id: String,
    pub alliance_app_id: String,
    pub name: String,
    pub pkg_name: String,
    pub dev_id: String,
    pub developer_name: String,
    pub dev_en_name: String,
    pub supplier: String,
    pub kind_id: i32,
    pub kind_name: String,
    pub tag_name: Option<String>,
    pub kind_type_id: i32,
    pub kind_type_name: String,
    pub icon_url: String,
    pub brief_desc: String,
    pub description: String,
    pub privacy_url: String,
    pub ctype: i32,
    pub detail_id: String,
    pub app_level: i32,
    pub jocat_id: i32,
    pub iap: bool,
    pub hms: bool,
    pub tariff_type: String,
    pub packing_type: i32,
    pub order_app: bool,
    pub denpend_gms: bool,
    pub denpend_hms: bool,
    pub force_update: bool,
    pub img_tag: String,
    pub is_pay: bool,
    pub is_disciplined: bool,
    pub is_shelves: bool,
    pub submit_type: i32,
    pub delete_archive: bool,
    pub charging: bool,
    pub button_grey: bool,
    pub app_gift: bool,
    pub free_days: i32,
    pub pay_install_type: i32,
    pub created_at: i64,
    pub listed_at: i64,
    pub comment: Option<JsonVal>,
    pub release_countries: Vec<String>,
    pub main_device_codes: Vec<String>,
    pub version: String,
    pub version_code: i64,
    pub size_bytes: i64,
    pub sha256: String,
    pub info_score: Dec,
    pub info_rate_count: i64,
    pub download_count: i64,
    pub price: Dec,
    pub release_date: i64,
    pub new_features: String,
    pub upgrade_msg: String,
    pub target_sdk: i32,
    pub minsdk: i32,
    pub compile_sdk_version: i32,
    pub min_hmos_api_level: i32,
    pub api_release_type: String,
    pub metrics_created_at: i64,
    pub average_rating: Option<Dec>,
    pub star_1_rating_count: Option<i32>,
    pub star_2_rating_count: Option<i32>,
    pub star_3_rating_count: Option<i32>,
    pub star_4_rating_count: Option<i32>,
    pub star_5_rating_count: Option<i32>,
    pub my_star_rating: Option<i32>,
    pub total_star_rating_count: Option<i32>,
    pub only_star_count: Option<i32>,
    pub full_average_rating: Option<Dec>,
    pub source_type: Option<String>,
    pub rating_created_at: Option<i64>,
    pub title: Option<String>,
    pub app_recordal_info: Option<String>,
    pub recordal_entity_title: Option<String>,
    pub recordal_entity_name: Option<String>,
    pub updated_at: i64,
}

/// The derived combined row reads exactly the fetched record, sanitized
/// and converted, stamped with the given instant.
pub open spec fn spec_full_app_info_from_raw(a: FullAppInfo, raw: RawAppData, now: i64) -> bool {
    &&& a.app_id@ == spec_sanitize(raw.app_info.app_id@)
    &&& a.alliance_app_id@ == spec_sanitize(raw.app_info.alliance_app_id@)
    &&& a.name@ == spec_sanitize(raw.app_info.name@)
    &&& a.pkg_name@ == spec_sanitize(raw.app_info.pkg_name@)
    &&& a.dev_id@ == spec_sanitize(raw.app_info.dev_id@)
    &&& a.developer_name@ == spec_sanitize(raw.app_info.developer_name@)
    &&& a.dev_en_name@ == spec_sanitize(raw.app_info.dev_en_name@)
    &&& a.supplier@ == spec_sanitize(raw.app_info.supplier@)
    &&& a.kind_id == spec_i32_of(raw.app_info.kind_id@)
    &&& a.kind_name@ == spec_sanitize(raw.app_info.kind_name@)
    &&& opt_str_view(a.tag_name) == spec_opt_sanitize(opt_str_view(raw.app_info.tag_name))
    &&& a.kind_type_id == spec_i32_of(raw.app_info.kind_type_id@)
    &&& a.kind_type_name@ == spec_sanitize(raw.app_info.kind_type_name@)
    &&& a.icon_url@ == spec_sanitize(raw.app_info.icon_url@)
    &&& a.brief_desc@ == spec_sanitize(raw.app_info.brief_desc@)
    &&& a.description@ == spec_sanitize(raw.app_info.description@)
    &&& a.privacy_url@ == spec_sanitize(raw.app_info.privacy_url@)
    &&& a.ctype == raw.app_info.ctype
    &&& a.detail_id@ == spec_sanitize(raw.app_info.detail_id@)
    &&& a.app_level == raw.app_info.app_level
    &&& a.jocat_id == raw.app_info.jocat_id
    &&& a.iap == (raw.app_info.iap != 0)
    &&& a.hms == (raw.app_info.hms != 0)
    &&& a.tariff_type@ == spec_sanitize(raw.app_info.tariff_type@)
    &&& a.packing_type == raw.app_info.packing_type
    &&& a.order_app == raw.app_info.order_app
    &&& a.denpend_gms == (raw.app_info.denpend_gms != 0)
    &&& a.denpend_hms == (raw.app_info.denpend_hms != 0)
    &&& a.force_update == (raw.app_info.force_update != 0)
    &&& a.img_tag@ == spec_sanitize(raw.app_info.img_tag@)
    &&& a.is_pay == (raw.app_info.is_pay@ == "1"@)
    &&& a.is_disciplined == (raw.app_info.is_disciplined != 0)
    &&& a.is_shelves == (raw.app_info.is_shelves != 0)
    &&& a.submit_type == raw.app_info.submit_type
    &&& a.delete_archive == (raw.app_info.delete_archive != 0)
    &&& a.charging == (raw.app_info.charging != 0)
    &&& a.button_grey == (raw.app_info.button_grey != 0)
    &&& a.app_gift == (raw.app_info.app_gift != 0)
    &&& a.free_days == raw.app_info.free_days
    &&& a.pay_install_type == raw.app_info.pay_install_type
    &&& a.created_at == now
    &&& a.listed_at == now
    &&& a.comment is None
    &&& strs(a.release_countries@) == strs(raw.app_info.release_countries@)
    &&& strs(a.main_device_codes@) == strs(raw.app_info.main_device_codes@)
    &&& a.version@ == spec_sanitize(raw.app_info.version@)
    &&& a.version_code == raw.app_info.version_code
    &&& a.size_bytes == raw.app_info.size_bytes
    &&& a.sha256@ == spec_sanitize(raw.app_info.sha256@)
    &&& a.info_score == spec_dec_or_zero(raw.app_info.hot_score@)
    &&& a.info_rate_count == spec_i64_of(raw.app_info.rate_num@)
    &&& a.download_count == spec_i64_of(raw.app_info.download_count@)
    &&& a.price == spec_dec_or_zero(raw.app_info.price@)
    &&& a.release_date == raw.app_info.release_date
    &&& a.new_features@ == spec_sanitize(raw.app_info.new_features@)
    &&& a.upgrade_msg@ == spec_sanitize(raw.app_info.upgrade_msg@)
    &&& a.target_sdk == spec_i32_of(raw.app_info.target_sdk@)
    &&& a.minsdk == spec_i32_of(raw.app_info.min_sdk@)
    &&& a.compile_sdk_version == raw.app_info.compile_sdk_version
    &&& a.min_hmos_api_level == raw.app_info.min_hmos_api_level
    &&& a.api_release_type@ == spec_sanitize(raw.app_info.api_release_type@)
    &&& a.metrics_created_at == now
    &&& a.average_rating == (match raw.app_rating { Some(st) => Some(spec_dec_or_zero(st.average_rating@)), None => None::<Dec> })
    &&& a.star_1_rating_count == (match raw.app_rating { Some(st) => Some(st.star_1_rating_count), None => None::<i32> })
    &&& a.star_2_rating_count == (match raw.app_rating { Some(st) => Some(st.star_2_rating_count), None => None::<i32> })
    &&& a.star_3_rating_count == (match raw.app_rating { Some(st) => Some(st.star_3_rating_count), None => None::<i32> })
    &&& a.star_4_rating_count == (match raw.app_rating { Some(st) => Some(st.star_4_rating_count), None => None::<i32> })
    &&& a.star_5_rating_count == (match raw.app_rating { Some(st) => Some(st.star_5_rating_count), None => None::<i32> })
    &&& a.my_star_rating == (match raw.app_rating { Some(st) => Some(st.my_star_rating), None => None::<i32> })
    &&& a.total_star_rating_count == (match raw.app_rating { Some(st) => Some(st.total_star_rating_count), None => None::<i32> })
    &&& a.only_star_count == (match raw.app_rating { Some(st) => Some(st.only_star_count), None => None::<i32> })
    &&& a.full_average_rating == (match raw.app_rating { Some(st) => Some(spec_dec_or_zero(st.full_average_rating@)), None => None::<Dec> })
    &&& opt_str_view(a.source_type) == (match raw.app_rating { Some(st) => Some(spec_sanitize(st.source_type@)), None => None::<Seq<char>> })
    &&& a.rating_created_at == (match raw.app_rating { Some(st) => Some(now), None => None::<i64> })
    &&& opt_str_view(a.title) == (match raw.app_record { Some(rb) => Some(spec_sanitize(rb.title@)), None => None::<Seq<char>> })
    &&& opt_str_view(a.app_recordal_info) == (match raw.app_record { Some(rb) => Some(spec_sanitize(rb.app_recordal_info@)), None => None::<Seq<char>> })
    &&& opt_str_view(a.recordal_entity_title) == (match raw.app_record { Some(rb) => Some(spec_sanitize(rb.recordal_entity_title@)), None => None::<Seq<char>> })
    &&& opt_str_view(a.recordal_entity_name) == (match raw.app_record { Some(rb) => Some(spec_sanitize(rb.recordal_entity_name@)), None => None::<Seq<char>> })
    &&& a.updated_at == now
}

impl FullAppInfo {
    /// Assembles the combined row out of one fetched record: the core
    /// info, metrics and optional rating and regulatory blocks, sanitized
    /// and converted as their own rows are.
    #[verifier::rlimit(100)]
    pub fn from_raw(raw: &RawAppData, now: i64) -> (a: FullAppInfo)
        ensures
            spec_full_app_info_from_raw(a, *raw, now),
    {
        FullAppInfo {
        app_id: sanitize_utf8_string(raw.app_info.app_id.as_str()),
        alliance_app_id: sanitize_utf8_string(raw.app_info.alliance_app_id.as_str()),
        name: sanitize_utf8_string(raw.app_info.name.as_str()),
        pkg_name: sanitize_utf8_string(raw.app_info.pkg_name.as_str()),
        dev_id: sanitize_utf8_string(raw.app_info.dev_id.as_str()),
        developer_name: sanitize_utf8_string(raw.app_info.developer_name.as_str()),
        dev_en_name: sanitize_utf8_string(raw.app_info.dev_en_name.as_str()),
        supplier: sanitize_utf8_string(raw.app_info.supplier.as_str()),
        kind_id: i32_of(raw.app_info.kind_id.as_str()),
        kind_name: sanitize_utf8_string(raw.app_info.kind_name.as_str()),
        tag_name: match &raw.app_info.tag_name {
            Some(s) => Some(sanitize_utf8_string(s.as_str())),
            None => None,
        },
        kind_type_id: i32_of(raw.app_info.kind_type_id.as_str()),
        kind_type_name: sanitize_utf8_string(raw.app_info.kind_type_name.as_str()),
        icon_url: sanitize_utf8_string(raw.app_info.icon_url.as_str()),
        brief_desc: sanitize_utf8_string(raw.app_info.brief_desc.as_str()),
        description: sanitize_utf8_string(raw.app_info.description.as_str()),
        privacy_url: sanitize_utf8_string(raw.app_info.privacy_url.as_str()),
        ctype: raw.app_info.ctype,
        detail_id: sanitize_utf8_string(raw.app_info.detail_id.as_str()),
        app_level: raw.app_info.app_level,
        jocat_id: raw.app_info.jocat_id,
        iap: raw.app_info.iap != 0,
        hms: raw.app_info.hms != 0,
        tariff_type: sanitize_utf8_string(raw.app_info.tariff_type.as_str()),
        packing_type: raw.app_info.packing_type,
        order_app: raw.app_info.order_app,
        denpend_gms: raw.app_info.denpend_gms != 0,
        denpend_hms: raw.app_info.denpend_hms != 0,
        force_update: raw.app_info.force_update != 0,
        img_tag: sanitize_utf8_string(raw.app_info.img_tag.as_str()),
        is_pay: str_eq(raw.app_info.is_pay.as_str(), "1"),
        is_disciplined: raw.app_info.is_disciplined != 0,
        is_shelves: raw.app_info.is_shelves != 0,
        submit_type: raw.app_info.submit_type,
        delete_archive: raw.app_info.delete_archive != 0,
        charging: raw.app_info.charging != 0,
        button_grey: raw.app_info.button_grey != 0,
        app_gift: raw.app_info.app_gift != 0,
        free_days: raw.app_info.free_days,
        pay_install_type: raw.app_info.pay_install_type,
        created_at: now,
        listed_at: now,
        comment: None,
        release_countries: strs_copy(&raw.app_info.release_countries),
        main_device_codes: strs_copy(&raw.app_info.main_device_codes),
        version: sanitize_utf8_string(raw.app_info.version.as_str()),
        version_code: raw.app_info.version_code,
        size_bytes: raw.app_info.size_bytes,
        sha256: sanitize_utf8_string(raw.app_info.sha256.as_str()),
        info_score: parse_dec_or_zero(raw.app_info.hot_score.as_str()),
        info_rate_count: i64_of(raw.app_info.rate_num.as_str()),
        download_count: i64_of(raw.app_info.download_count.as_str()),
        price: parse_dec_or_zero(raw.app_info.price.as_str()),
        release_date: raw.app_info.release_date,
        new_features: sanitize_utf8_string(raw.app_info.new_features.as_str()),
        upgrade_msg: sanitize_utf8_string(raw.app_info.upgrade_msg.as_str()),
        target_sdk: i32_of(raw.app_info.target_sdk.as_str()),
        minsdk: i32_of(raw.app_info.min_sdk.as_str()),
        compile_sdk_version: raw.app_info.compile_sdk_version,
        min_hmos_api_level: raw.app_info.min_hmos_api_level,
        api_release_type: sanitize_utf8_string(raw.app_info.api_release_type.as_str()),
        metrics_created_at: now,
        average_rating: match &raw.app_rating {
            Some(st) => Some(parse_dec_or_zero(st.average_rating.as_str())),
            None => None,
        },
        star_1_rating_count: match &raw.app_rating {
            Some(st) => Some(st.star_1_rating_count),
            None => None,
        },
        star_2_rating_count: match &raw.app_rating {
            Some(st) => Some(st.star_2_rating_count),
            None => None,
        },
        star_3_rating_count: match &raw.app_rating {
            Some(st) => Some(st.star_3_rating_count),
            None => None,
        },
        star_4_rating_count: match &raw.app_rating {
            Some(st) => Some(st.star_4_rating_count),
            None => None,
        },
        star_5_rating_count: match &raw.app_rating {
            Some(st) => Some(st.star_5_rating_count),
            None => None,
        },
        my_star_rating: match &raw.app_rating {
            Some(st) => Some(st.my_star_rating),
            None => None,
        },
        total_star_rating_count: match &raw.app_rating {
            Some(st) => Some(st.total_star_rating_count),
            None => None,
        },
        only_star_count: match &raw.app_rating {
            Some(st) => Some(st.only_star_count),
            None => None,
        },
        full_average_rating: match &raw.app_rating {
            Some(st) => Some(parse_dec_or_zero(st.full_average_rating.as_str())),
            None => None,
        },
        source_type: match &raw.app_rating {
            Some(st) => Some(sanitize_utf8_string(st.source_type.as_str())),
            None => None,
        },
        rating_created_at: match &raw.app_rating {
            Some(_) => Some(now),
            None => None,
        },
        title: match &raw.app_record {
            Some(rb) => Some(sanitize_utf8_string(rb.title.as_str())),
            None => None,
        },
        app_recordal_info: match &raw.app_record {
            Some(rb) => Some(sanitize_utf8_string(rb.app_recordal_info.as_str())),
            None => None,
        },
        recordal_entity_title: match &raw.app_record {
            Some(rb) => Some(sanitize_utf8_string(rb.recordal_entity_title.as_str())),
            None => None,
        },
        recordal_entity_name: match &raw.app_record {
            Some(rb) => Some(sanitize_utf8_string(rb.recordal_entity_name.as_str())),
            None => None,
        },
        updated_at: now,
        }
    }
}

} // verus!
