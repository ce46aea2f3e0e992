//! The raw result of fetching one entity, before it is turned into rows.

use vstd::prelude::*;

use crate::json::{jv, JsonVal};
use crate::query::{qv, AppQuery};

verus! {

/// The popularity score a payload falls back to when it carries none.
pub fn hot_default() -> (r: String)
    ensures
        r@ == "0.0"@,
{
    "0.0".to_owned()
}

/// The rating count a payload falls back to when it carries none.
pub fn rate_num_default() -> (r: String)
    ensures
        r@ == "0"@,
{
    "0".to_owned()
}

/// The release tier a payload falls back to when it carries none.
pub fn api_release_type_default() -> (r: String)
    ensures
        r@ == "Release"@,
{
    "Release".to_owned()
}

/// The sentinel device-code list a payload falls back to when it carries
/// none.
pub fn main_device_codes_default() -> (r: Vec<String>)
    ensures
        crate::utils::strs(r@) == crate::extract::spec_default_device_codes(),
{
    crate::extract::default_device_codes()
}

/// The rating block of a detail page, as the payload carries it.
pub struct RawRatingData {
    pub average_rating: String,
    pub star_1_rating_count: i32,
    pub star_2_rating_count: i32,
    pub star_3_rating_count: i32,
    pub star_4_rating_count: i32,
    pub star_5_rating_count: i32,
    pub my_star_rating: i32,
    pub total_star_rating_count: i32,
    pub only_star_count: i32,
    pub full_average_rating: String,
    pub source_type: String,
}

/// The regulatory-record block of a detail page.
pub struct RawRecordalInfo {
    pub title: String,
    pub app_recordal_info: String,
    pub recordal_entity_title: String,
    pub recordal_entity_name: String,
}

/// The base-info payload of one entity, field by field. String-typed
/// numeric fields stay as text here; conversion and sanitization happen
/// when rows are derived.
pub struct RawJsonData {
    pub app_id: String,
    pub alliance_app_id: String,
    pub name: String,
    pub pkg_name: String,
    pub dev_id: String,
    pub developer_name: String,
    pub dev_en_name: String,
    pub supplier: String,
    pub kind_id: String,
    pub kind_name: String,
    pub tag_name: Option<String>,
    pub kind_type_id: String,
    pub kind_type_name: String,
    pub icon_url: String,
    pub brief_desc: String,
    pub description: String,
    pub privacy_url: String,
    pub ctype: i32,
    pub detail_id: String,
    pub app_level: i32,
    pub jocat_id: i32,
    pub iap: i32,
    pub hms: i32,
    pub tariff_type: String,
    pub packing_type: i32,
    pub order_app: bool,
    pub denpend_gms: i32,
    pub denpend_hms: i32,
    pub force_update: i32,
    pub img_tag: String,
    pub is_pay: String,
    pub is_disciplined: i32,
    pub is_shelves: i32,
    pub submit_type: i32,
    pub delete_archive: i32,
    pub charging: i32,
    pub button_grey: i32,
    pub app_gift: i32,
    pub free_days: i32,
    pub pay_install_type: i32,
    pub version: String,
    pub version_code: i64,
    pub size_bytes: i64,
    pub sha256: String,
    pub hot_score: String,
    pub rate_num: String,
    pub download_count: String,
    pub price: String,
    pub release_date: i64,
    pub new_features: String,
    pub upgrade_msg: String,
    pub target_sdk: String,
    pub min_sdk: String,
    pub compile_sdk_version: i32,
    pub min_hmos_api_level: i32,
    pub api_release_type: String,
    pub main_device_codes: Vec<String>,
    pub release_countries: Vec<String>,
}

/// Everything fetched for one entity: the decoded base info, the payload
/// it came from, and the optional rating and regulatory blocks of the
/// detail page.
pub struct RawAppData {
    pub app_info: RawJsonData,
    pub app_info_json: JsonVal,
    pub app_rating: Option<RawRatingData>,
    pub app_record: Option<RawRecordalInfo>,
}

impl RawAppData {
    /// Assembles a complete fetched record.
    pub fn new(
        app_info: RawJsonData,
        app_info_json: JsonVal,
        app_rating: Option<RawRatingData>,
        app_record: Option<RawRecordalInfo>,
    ) -> (r: RawAppData)
        ensures
            r.app_info == app_info,
            jv(r.app_info_json) == jv(app_info_json),
            r.app_rating == app_rating,
            r.app_record == app_record,
    {
        RawAppData { app_info, app_info_json, app_rating, app_record }
    }

    /// A record that holds only the base info so far.
    pub fn part_new(app_info: RawJsonData, app_info_json: JsonVal) -> (r: RawAppData)
        ensures
            r.app_info == app_info,
            jv(r.app_info_json) == jv(app_info_json),
            r.app_rating is None,
            r.app_record is None,
    {
        RawAppData { app_info, app_info_json, app_rating: None, app_record: None }
    }

    /// The record's package-name query.
    pub fn pkg_query(&self) -> (r: AppQuery)
        ensures
            qv(r) == (0int, self.app_info.pkg_name@),
    {
        AppQuery::pkg_name(self.app_info.pkg_name.as_str())
    }

    /// The record's identifier query.
    pub fn id_query(&self) -> (r: AppQuery)
        ensures
            qv(r) == (1int, self.app_info.app_id@),
    {
        AppQuery::app_id(self.app_info.app_id.as_str())
    }

    /// Attaches the rating block.
    pub fn with_rating(&mut self, rating: RawRatingData)
        ensures
            *final(self) == (RawAppData { app_rating: Some(rating), ..*old(self) }),
    {
        self.app_rating = Some(rating);
    }

    /// Attaches the regulatory-record block.
    pub fn with_record(&mut self, record: RawRecordalInfo)
        ensures
            *final(self) == (RawAppData { app_record: Some(record), ..*old(self) }),
    {
        self.app_record = Some(record);
    }

    /// Whether a rating block was fetched.
    pub fn have_rating(&self) -> (r: bool)
        ensures
            r == (self.app_rating is Some),
    {
        self.app_rating.is_some()
    }

    /// Whether a regulatory-record block was fetched.
    pub fn have_record(&self) -> (r: bool)
        ensures
            r == (self.app_record is Some),
    {
        self.app_record.is_some()
    }

    /// The entity's catalog identifier.
    pub fn app_id(&self) -> (r: String)
        ensures
            r@ == self.app_info.app_id@,
    {
        self.app_info.app_id.clone()
    }

    /// The entity's package name.
    pub fn pkg_name(&self) -> (r: String)
        ensures
            r@ == self.app_info.pkg_name@,
    {
        self.app_info.pkg_name.clone()
    }
}

} // verus!
