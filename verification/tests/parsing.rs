use get_huawei_market::dec::{parse_dec_or_zero, Dec};
use get_huawei_market::model::{AppInfo, AppMetric, AppRating, FullAppInfo};
use get_huawei_market::params::{AppListQuery, AppQueryParam, SubstanceListQuery};
use get_huawei_market::parse::{i32_to_letters, parse_app_id, parse_i32, parse_i64, parse_u64};
use get_huawei_market::query::{query_eq, AppQuery};
use get_huawei_market::raw::{RawJsonData, RawRatingData};
use get_huawei_market::search::DbSearch;
use get_huawei_market::utils::u64_to_string;

#[test]
fn integer_parsing_matches_the_usual_reading() {
    assert_eq!(parse_u64("0"), Some(0));
    assert_eq!(parse_u64("18446744073709551615"), Some(u64::MAX));
    assert_eq!(parse_u64("18446744073709551616"), None);
    assert_eq!(parse_u64(""), None);
    assert_eq!(parse_u64("12a"), None);
    assert_eq!(parse_i64("-42"), Some(-42));
    assert_eq!(parse_i64("-9223372036854775808"), Some(i64::MIN));
    assert_eq!(parse_i64("9223372036854775808"), None);
    assert_eq!(parse_i32("2147483647"), Some(i32::MAX));
    assert_eq!(parse_i32("2147483648"), None);
    assert_eq!(parse_i32("-2147483648"), Some(i32::MIN));
}

#[test]
fn identifiers_split_into_prefix_and_number() {
    let (prefix, num) = parse_app_id("C5765880207856366961").expect("splits");
    assert_eq!(prefix, "C");
    assert_eq!(num, 5765880207856366961);
    assert!(parse_app_id("no-digits-here").is_none());
    // The span from the first digit to the last must itself read as a number.
    assert!(parse_app_id("AB12x34").is_none());
    let (prefix, num) = parse_app_id("pre123").expect("splits");
    assert_eq!(prefix, "pre");
    assert_eq!(num, 123);
}

#[test]
fn letters_count_bijectively() {
    assert_eq!(i32_to_letters(0), "a");
    assert_eq!(i32_to_letters(25), "z");
    assert_eq!(i32_to_letters(26), "aa");
    assert_eq!(i32_to_letters(27), "ab");
    assert_eq!(i32_to_letters(-1), "");
}

#[test]
fn numbers_write_in_decimal() {
    assert_eq!(u64_to_string(0), "0");
    assert_eq!(u64_to_string(9), "9");
    assert_eq!(u64_to_string(1234567890), "1234567890");
    assert_eq!(u64_to_string(u64::MAX), "18446744073709551615");
}

#[test]
fn equal_quantities_compare_equal_whatever_their_spelling() {
    assert_eq!(parse_dec_or_zero("4.5"), parse_dec_or_zero("4.50"));
    assert_eq!(parse_dec_or_zero("0"), parse_dec_or_zero("0.00"));
    assert_ne!(parse_dec_or_zero("4.5"), parse_dec_or_zero("4.51"));
    assert_eq!(parse_dec_or_zero("not a number"), Dec { mantissa: 0, scale: 0 });
    assert_eq!(parse_dec_or_zero("1.25"), Dec { mantissa: 125, scale: 2 });
}

fn sample_raw() -> RawJsonData {
    RawJsonData {
        app_id: "C5765880207856097575".to_string(),
        alliance_app_id: "1".to_string(),
        name: "Sam\u{1}ple".to_string(),
        pkg_name: "com.example.sample".to_string(),
        dev_id: "d".to_string(),
        developer_name: "Dev".to_string(),
        dev_en_name: "Dev".to_string(),
        supplier: "Sup".to_string(),
        kind_id: "13".to_string(),
        kind_name: "Tools".to_string(),
        tag_name: None,
        kind_type_id: "2".to_string(),
        kind_type_name: "Apps".to_string(),
        icon_url: "i".to_string(),
        brief_desc: "b".to_string(),
        description: "d".to_string(),
        privacy_url: "p".to_string(),
        ctype: 1,
        detail_id: "det".to_string(),
        app_level: 2,
        jocat_id: 13,
        iap: 0,
        hms: 1,
        tariff_type: "free".to_string(),
        packing_type: 4,
        order_app: false,
        denpend_gms: 0,
        denpend_hms: 0,
        force_update: 1,
        img_tag: "1".to_string(),
        is_pay: "1".to_string(),
        is_disciplined: 0,
        is_shelves: 1,
        submit_type: 0,
        delete_archive: 0,
        charging: 0,
        button_grey: 0,
        app_gift: 0,
        free_days: 0,
        pay_install_type: 0,
        version: "1.2.3".to_string(),
        version_code: 10203,
        size_bytes: 4096,
        sha256: "beef".to_string(),
        hot_score: "8.25".to_string(),
        rate_num: "321".to_string(),
        download_count: "not a count".to_string(),
        price: "1.50".to_string(),
        release_date: 1700000000000,
        new_features: "".to_string(),
        upgrade_msg: "".to_string(),
        target_sdk: "12".to_string(),
        min_sdk: "oops".to_string(),
        compile_sdk_version: 0,
        min_hmos_api_level: 0,
        api_release_type: "Release".to_string(),
        main_device_codes: vec!["0".to_string()],
        release_countries: vec!["CN".to_string()],
    }
}

#[test]
fn derived_rows_sanitize_and_convert() {
    let raw = sample_raw();
    let info = AppInfo::from_raw(&raw, 777);
    assert_eq!(info.name, "Sam ple");
    assert_eq!(info.kind_id, 13);
    assert!(info.is_pay);
    assert!(info.force_update);
    assert!(!info.iap);
    assert_eq!(info.price, parse_dec_or_zero("1.5"));
    assert_eq!(info.created_at, 777);
    assert_eq!(info.listed_at, 777);

    let metric = AppMetric::from_raw_data(&raw, 777);
    assert_eq!(metric.info_score, parse_dec_or_zero("8.25"));
    assert_eq!(metric.info_rate_count, 321);
    assert_eq!(metric.download_count, 0);
    assert_eq!(metric.minsdk, 0);
    assert_eq!(metric.target_sdk, 12);

    let star = RawRatingData {
        average_rating: "4.5".to_string(),
        star_1_rating_count: 1,
        star_2_rating_count: 2,
        star_3_rating_count: 3,
        star_4_rating_count: 4,
        star_5_rating_count: 5,
        my_star_rating: 0,
        total_star_rating_count: 15,
        only_star_count: 10,
        full_average_rating: "4.50".to_string(),
        source_type: "web".to_string(),
    };
    let rating = AppRating::from_raw_star(&raw, &star, 777);
    assert_eq!(rating.average_rating, parse_dec_or_zero("4.5"));
    assert_eq!(rating.full_average_rating, parse_dec_or_zero("4.5"));
    assert_eq!(rating.app_id, raw.app_id);
}

#[test]
fn the_combined_row_reads_the_whole_record() {
    let raw = sample_raw();
    let record = get_huawei_market::raw::RawAppData::part_new(
        raw,
        get_huawei_market::json::JsonVal::Null,
    );
    let full = FullAppInfo::from_raw(&record, 900);
    assert_eq!(full.name, "Sam ple");
    assert!(full.is_pay); // the combined row reads the flag as the text "1"
    assert_eq!(full.price, parse_dec_or_zero("1.50"));
    assert_eq!(full.info_score, parse_dec_or_zero("8.25"));
    assert_eq!(full.average_rating, None);
    assert_eq!(full.rating_created_at, None);
    assert_eq!(full.title, None);
    assert_eq!(full.created_at, 900);
    assert_eq!(full.metrics_created_at, 900);
    assert_eq!(full.updated_at, 900);
}

#[test]
fn queries_carry_their_lookup_field() {
    let by_pkg = AppQuery::pkg_name("com.example.sample");
    let by_id = AppQuery::app_id("C5765880207856097575");
    assert_eq!(by_pkg.app_info_type(), "pkgName");
    assert_eq!(by_id.app_info_type(), "appId");
    assert_eq!(by_pkg.app_db_name(), "pkg_name");
    assert_eq!(by_id.app_db_name(), "app_id");
    assert_eq!(by_pkg.name(), "com.example.sample");
    assert_eq!(by_id.page_detail_fmt(), "webAgAppDetail|C5765880207856097575");
}

#[test]
fn listing_parameters_are_vetted() {
    let q = AppListQuery {
        sort: Some("price".to_string()),
        desc: Some(true),
        search_key: Some("name".to_string()),
        search_value: Some("音乐".to_string()),
        search_exact: None,
        search_not_null: None,
        page_size: None,
        detail: None,
        exclude_huawei: None,
        exclude_atomic: Some(true),
    };
    assert!(q.is_valid_sort());
    assert_eq!(q.sort_key(), "price");
    assert!(q.is_valid_search());
    assert_eq!(q.page_size(), 100);
    assert!(q.detail());
    assert!(!q.exclude_huawei());
    assert!(q.exclude_atomic());
    let term = q.search_option().expect("valid search");
    assert_eq!(term.key, "name");
    assert!(!term.is_exact);
    assert!(term.not_null);
    assert_eq!(term.search_value(), "%音乐%");
    assert_eq!(term.search_method(), "ILIKE");

    let bad = AppListQuery {
        sort: Some("drop table".to_string()),
        desc: None,
        search_key: Some("unknown".to_string()),
        search_value: Some("x".to_string()),
        search_exact: None,
        search_not_null: None,
        page_size: Some(7),
        detail: Some(false),
        exclude_huawei: None,
        exclude_atomic: None,
    };
    assert!(!bad.is_valid_sort());
    assert_eq!(bad.sort_key(), "created_at");
    assert!(bad.search_option().is_none());
    assert_eq!(bad.page_size(), 7);
    assert!(!bad.detail());
}

#[test]
fn integer_searches_match_by_equality() {
    let term = DbSearch::exact("minsdk".to_string(), "9".to_string(), false);
    assert!(term.is_int_search());
    assert_eq!(term.search_method(), "=");
    assert_eq!(term.search_value(), "9");
}

#[test]
fn entity_parameters_pick_the_identifier_first() {
    let p = AppQueryParam {
        app_id: Some("C5765880207856097575".to_string()),
        pkg_name: Some("com.example.sample".to_string()),
    };
    assert!(p.is_valid());
    assert!(query_eq(&p.as_query().unwrap(), &AppQuery::app_id("C5765880207856097575")));
    let p = AppQueryParam { app_id: None, pkg_name: None };
    assert!(!p.is_valid());
    assert!(p.as_query().is_none());

    let sq = SubstanceListQuery { sort: Some("substance_id".to_string()), desc: None, page_size: None };
    assert!(sq.is_valid_sort());
    assert_eq!(sq.sort_key(), "substance_id");
}
