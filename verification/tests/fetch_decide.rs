use get_huawei_market::decide::{decide, decide_substance, is_same_substance_data, StoredSnapshot};
use get_huawei_market::error::{FetchError, UpstreamError, ValidationError};
use get_huawei_market::extract::{
    decode_app_info_payload, extract_detail_blocks, needs_detail_fetch, rating_from_json,
    scrub_app_payload,
};
use get_huawei_market::json::{get_field, json_copy, json_eq, JsonVal};
use get_huawei_market::raw::RawAppData;

fn s(v: &str) -> JsonVal {
    JsonVal::Str(v.to_string())
}

fn n(v: i64) -> JsonVal {
    JsonVal::Int(v)
}

fn obj(fields: Vec<(&str, JsonVal)>) -> JsonVal {
    JsonVal::Obj(fields.into_iter().map(|(k, v)| (k.to_string(), v)).collect())
}

fn arr(items: Vec<JsonVal>) -> JsonVal {
    JsonVal::Arr(items)
}

fn payload_fields(price: &str) -> Vec<(&'static str, JsonVal)> {
    vec![
        ("appId", s("C5765880207856097575")),
        ("allianceAppId", s("123456")),
        ("name", s("Sample App")),
        ("pkgName", s("com.example.sample")),
        ("devId", s("d1")),
        ("developerName", s("Example Dev")),
        ("devEnName", s("Example Dev En")),
        ("supplier", s("Example Supplier")),
        ("kindId", s("13")),
        ("kindName", s("Tools")),
        ("kindTypeId", s("2")),
        ("kindTypeName", s("Apps")),
        ("icon", s("https://example.invalid/icon.png")),
        ("briefDes", s("brief")),
        ("description", s("desc")),
        ("privacyUrl", s("https://example.invalid/privacy")),
        ("ctype", n(1)),
        ("detailId", s("app|C5765880207856097575")),
        ("appLevel", n(2)),
        ("jocatId", n(13)),
        ("iap", n(0)),
        ("hms", n(1)),
        ("tariffType", s("free")),
        ("packingType", n(4)),
        ("imgTag", s("1")),
        ("isPay", s("0")),
        ("isDisciplined", n(0)),
        ("isShelves", n(1)),
        ("submitType", n(0)),
        ("deleteArchive", n(0)),
        ("charging", n(0)),
        ("buttonGrey", n(0)),
        ("appGift", n(0)),
        ("freeDays", n(0)),
        ("payInstallType", n(0)),
        ("version", s("1.2.3")),
        ("versionCode", n(10203)),
        ("size", n(4096000)),
        ("sha256", s("deadbeef")),
        ("downCount", s("12000")),
        ("price", JsonVal::Str(price.to_string())),
        ("releaseDate", n(1700000000000)),
        ("targetSdk", s("12")),
        ("minsdk", s("9")),
        ("releaseCountries", arr(vec![s("CN")])),
    ]
}

fn make_payload(price: &str) -> JsonVal {
    obj(payload_fields(price))
}

#[test]
fn decode_fills_defaults_and_scrubs() {
    let mut fields = payload_fields("0.00");
    fields.push(("AG-TraceId", s("volatile-trace-id")));
    let payload = obj(fields);
    let decoded = decode_app_info_payload(&payload);
    let (scrubbed, raw) = decoded.ok().expect("well-formed payload decodes");
    assert!(get_field(&scrubbed, "AG-TraceId").is_none());
    assert_eq!(raw.app_id, "C5765880207856097575");
    assert_eq!(raw.hot_score, "0.0");
    assert_eq!(raw.rate_num, "0");
    assert_eq!(raw.api_release_type, "Release");
    assert_eq!(raw.new_features, "");
    assert_eq!(raw.upgrade_msg, "");
    assert_eq!(raw.compile_sdk_version, 0);
    assert_eq!(raw.min_hmos_api_level, 0);
    assert!(!raw.order_app);
    assert_eq!(raw.main_device_codes, vec!["0".to_string()]);
    assert_eq!(raw.release_countries, vec!["CN".to_string()]);
}

#[test]
fn decode_strips_nul_in_top_level_strings() {
    let mut fields = payload_fields("0.00");
    for f in fields.iter_mut() {
        if f.0 == "name" {
            f.1 = s("Sam\0ple");
        }
    }
    let payload = obj(fields);
    let (_, raw) = decode_app_info_payload(&payload).ok().expect("decodes");
    assert_eq!(raw.name, "Sample");
}

#[test]
fn decode_rejects_short_and_missing_identifiers() {
    let mut fields = payload_fields("0.00");
    for f in fields.iter_mut() {
        if f.0 == "appId" {
            f.1 = s("C1234");
        }
    }
    let r = decode_app_info_payload(&obj(fields));
    assert!(matches!(
        r,
        Err(FetchError::Validation(ValidationError::IdTooShort))
    ));

    let fields: Vec<_> = payload_fields("0.00")
        .into_iter()
        .filter(|f| f.0 != "appId")
        .collect();
    let r = decode_app_info_payload(&obj(fields));
    assert!(matches!(
        r,
        Err(FetchError::Validation(ValidationError::IdMissing))
    ));
}

#[test]
fn decode_rejects_incomplete_records() {
    let fields: Vec<_> = payload_fields("0.00")
        .into_iter()
        .filter(|f| f.0 != "versionCode")
        .collect();
    let r = decode_app_info_payload(&obj(fields));
    assert!(matches!(
        r,
        Err(FetchError::Upstream(UpstreamError::MalformedPayload))
    ));
}

fn fetch(price: &str) -> RawAppData {
    let payload = make_payload(price);
    let (scrubbed, raw) = decode_app_info_payload(&payload).ok().expect("decodes");
    RawAppData::part_new(raw, scrubbed)
}

fn empty_snapshot() -> StoredSnapshot {
    StoredSnapshot {
        last_raw: None,
        info: None,
        metric: None,
        rating: None,
    }
}

#[test]
fn first_fetch_writes_everything_second_writes_nothing() {
    let fresh = fetch("0.00");
    let plan = decide(&fresh, &empty_snapshot(), None, None, 1000);
    assert!(plan.write_info);
    assert!(plan.write_metrics);
    assert!(plan.append_history);
    assert!(!plan.write_rating);

    // The snapshot after persisting that plan.
    let stored = StoredSnapshot {
        last_raw: Some(json_copy(&fresh.app_info_json)),
        info: plan.info_row,
        metric: plan.metric_row,
        rating: None,
    };

    // A second fetch of a byte-identical record reports no changes.
    let again = fetch("0.00");
    let plan2 = decide(&again, &stored, None, None, 2000);
    assert!(!plan2.write_info);
    assert!(!plan2.write_metrics);
    assert!(!plan2.append_history);
    assert!(!plan2.write_rating);
    assert!(plan2.info_row.is_none());
    assert!(plan2.metric_row.is_none());
}

#[test]
fn changed_price_writes_core_and_history() {
    let fresh = fetch("0.00");
    let plan = decide(&fresh, &empty_snapshot(), None, None, 1000);
    let stored = StoredSnapshot {
        last_raw: Some(json_copy(&fresh.app_info_json)),
        info: plan.info_row,
        metric: plan.metric_row,
        rating: None,
    };

    let repriced = fetch("1.00");
    let plan2 = decide(&repriced, &stored, None, None, 2000);
    assert!(plan2.write_info);
    assert!(plan2.write_metrics);
    assert!(plan2.append_history);
    assert!(!plan2.write_rating);
}

#[test]
fn unchanged_payload_short_circuits_row_comparison() {
    let fresh = fetch("0.00");
    let plan = decide(&fresh, &empty_snapshot(), None, None, 1000);
    // Even against a stored metric row that disagrees, an identical payload
    // skips the comparison outright.
    let mut broken_metric = plan.metric_row.expect("metrics written");
    broken_metric.download_count = 999999;
    let stored = StoredSnapshot {
        last_raw: Some(json_copy(&fresh.app_info_json)),
        info: plan.info_row,
        metric: Some(broken_metric),
        rating: None,
    };
    let plan2 = decide(&fetch("0.00"), &stored, None, None, 2000);
    assert!(!plan2.write_info);
    assert!(!plan2.write_metrics);
    assert!(!plan2.append_history);
}

fn star_info() -> JsonVal {
    obj(vec![
        ("averageRating", s("4.5")),
        ("oneStarRatingCount", n(1)),
        ("twoStarRatingCount", n(2)),
        ("threeStarRatingCount", n(3)),
        ("fourStarRatingCount", n(4)),
        ("fiveStarRatingCount", n(5)),
        ("myStarRating", n(0)),
        ("totalStarRatingCount", n(15)),
        ("onlyStarCount", n(10)),
        ("fullAverageRating", s("4.50")),
        ("sourceType", s("web")),
    ])
}

#[test]
fn rating_rows_append_only_on_difference() {
    let star = rating_from_json(&star_info()).expect("complete star block");
    let mut fresh = fetch("0.00");
    fresh.with_rating(star);

    // No prior rating: one is written.
    let plan = decide(&fresh, &empty_snapshot(), None, None, 1000);
    assert!(plan.write_rating);
    let written = plan.rating_row.expect("rating row present");

    // The same rating again: nothing is written.
    let star2 = rating_from_json(&star_info()).expect("complete star block");
    let mut fresh2 = fetch("0.00");
    fresh2.with_rating(star2);
    let stored = StoredSnapshot {
        last_raw: Some(json_copy(&fresh2.app_info_json)),
        info: plan.info_row,
        metric: plan.metric_row,
        rating: Some(written),
    };
    let plan2 = decide(&fresh2, &stored, None, None, 2000);
    assert!(!plan2.write_rating);

    // A different count: a new historical row is written.
    let mut changed_star = star_info();
    if let JsonVal::Obj(ref mut fields) = changed_star {
        for f in fields.iter_mut() {
            if f.0 == "fiveStarRatingCount" {
                f.1 = n(6);
            }
        }
    }
    let star3 = rating_from_json(&changed_star).expect("complete star block");
    let mut fresh3 = fetch("0.00");
    fresh3.with_rating(star3);
    let plan3 = decide(&fresh3, &stored, None, None, 3000);
    assert!(plan3.write_rating);
}

#[test]
fn fetched_regulatory_record_is_always_handed_on() {
    let detail = obj(vec![(
        "pages",
        arr(vec![obj(vec![(
            "data",
            obj(vec![(
                "cardlist",
                obj(vec![(
                    "layoutData",
                    arr(vec![
                        obj(vec![
                            ("type", s("fl.card.comment")),
                            ("data", arr(vec![obj(vec![("starInfo", s("{}"))])])),
                        ]),
                        obj(vec![
                            ("type", s("com.huawei.hmos.appgallery.appdetailaboutcard")),
                            (
                                "data",
                                arr(vec![obj(vec![(
                                    "list",
                                    arr(vec![obj(vec![(
                                        "appRecordalInfo",
                                        obj(vec![
                                            ("title", s("记录")),
                                            ("appRecordalInfo", s("ICP-123")),
                                            ("recordalEntityTitle", s("单位")),
                                            ("recordalEntityName", s("Example")),
                                        ]),
                                    )])]),
                                )])]),
                            ),
                        ]),
                    ]),
                )]),
            )]),
        )])]),
    )]);
    let (star_text, record) = extract_detail_blocks(&detail).ok().expect("well-formed page");
    assert_eq!(star_text.as_deref(), Some("{}"));
    let record = record.expect("record block present");
    assert_eq!(record.app_recordal_info, "ICP-123");

    let mut fresh = fetch("0.00");
    fresh.with_record(record);
    let plan = decide(&fresh, &empty_snapshot(), None, None, 1000);
    let row = plan.record_row.expect("record row always handed on");
    assert_eq!(row.app_id, "C5765880207856097575");
    assert_eq!(row.title, "记录");
}

#[test]
fn lightweight_services_skip_the_detail_page() {
    assert!(!needs_detail_fetch("com.atomicservice.5765880207855314153"));
    assert!(needs_detail_fetch("com.example.sample"));
    assert!(needs_detail_fetch("org.atomicservice.other"));
}

#[test]
fn trace_masked_comparison_ignores_trace_churn_only() {
    let a = obj(vec![
        ("name", s("Collection")),
        ("rid", s("TraceId: abc-123")),
        ("count", n(5)),
    ]);
    let b = obj(vec![
        ("name", s("Collection")),
        ("rid", s("another TRACE value")),
        ("count", n(5)),
    ]);
    assert!(is_same_substance_data(&a, &b));

    let c = obj(vec![
        ("name", s("Renamed")),
        ("rid", s("TraceId: abc-123")),
        ("count", n(5)),
    ]);
    assert!(!is_same_substance_data(&a, &c));

    let plan = decide_substance(&b, Some(&a), true);
    assert!(!plan.is_new);
    assert!(!plan.write_history);
    let plan = decide_substance(&c, Some(&a), true);
    assert!(plan.write_history);
    let plan = decide_substance(&a, None, false);
    assert!(plan.is_new);
    assert!(plan.write_history);
}

#[test]
fn scrub_leaves_non_objects_alone() {
    let v = s("plain");
    let scrubbed = scrub_app_payload(&v);
    assert!(json_eq(&v, &scrubbed));
}
