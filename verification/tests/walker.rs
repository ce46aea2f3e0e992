use get_huawei_market::discovery::{begin_discovery, finish_discovery, on_card_list_page};
use get_huawei_market::json::JsonVal;
use get_huawei_market::query::{query_eq, query_lt, AppQuery};

fn s(v: &str) -> JsonVal {
    JsonVal::Str(v.to_string())
}

fn n(v: i64) -> JsonVal {
    JsonVal::Int(v)
}

fn obj(fields: Vec<(&str, JsonVal)>) -> JsonVal {
    JsonVal::Obj(fields.into_iter().map(|(k, v)| (k.to_string(), v)).collect())
}

fn arr(items: Vec<JsonVal>) -> JsonVal {
    JsonVal::Arr(items)
}

fn vertical_card(ids: Vec<&str>) -> JsonVal {
    obj(vec![
        ("type", s("com.huawei.hmsapp.appgallery.verticallistcard")),
        (
            "data",
            arr(ids.into_iter().map(|id| obj(vec![("appId", s(id))])).collect()),
        ),
    ])
}

fn landing(has_more: i64, data_id: &str, cards: Vec<JsonVal>) -> JsonVal {
    obj(vec![(
        "pages",
        arr(vec![obj(vec![(
            "data",
            obj(vec![(
                "cardlist",
                obj(vec![
                    ("hasMore", n(has_more)),
                    ("dataId", s(data_id)),
                    ("layoutData", arr(cards)),
                ]),
            )]),
        )])]),
    )])
}

#[test]
fn walker_pages_until_no_more_results() {
    let page = landing(1, "X", vec![vertical_card(vec!["C2222222222222222", "C1111111111111111"])]);
    let (mut walk, req) = begin_discovery("sub-1", &page).ok().expect("well-formed landing");
    let req = req.expect("more results were announced");
    assert_eq!(req.data_id, "X");
    assert_eq!(req.page_num, 2);
    assert_eq!(req.page_size, 25);
    assert_eq!(req.locale, "zh");

    // Page two still reports more.
    let page2 = obj(vec![
        ("hasMore", n(1)),
        ("layoutData", arr(vec![vertical_card(vec!["C3333333333333333"])])),
    ]);
    let req = on_card_list_page(&mut walk, &page2).ok().expect("well-formed page");
    let req = req.expect("still more results");
    assert_eq!(req.data_id, "X");
    assert_eq!(req.page_num, 3);

    // Page three reports no more: the walk stops.
    let page3 = obj(vec![("hasMore", n(0)), ("layoutData", arr(vec![]))]);
    let req = on_card_list_page(&mut walk, &page3).ok().expect("well-formed page");
    assert!(req.is_none());

    let collection = finish_discovery(walk);
    assert_eq!(collection.id, "sub-1");
    let names: Vec<&str> = collection.data.iter().map(|q| q.name()).collect();
    assert_eq!(
        names,
        vec!["C1111111111111111", "C2222222222222222", "C3333333333333333"]
    );
}

#[test]
fn member_lists_are_sorted_and_deduplicated() {
    let page = landing(
        0,
        "",
        vec![vertical_card(vec![
            "C2222222222222222",
            "C1111111111111111",
            "C2222222222222222",
            "C1111111111111111",
        ])],
    );
    let (walk, req) = begin_discovery("sub-2", &page).ok().expect("well-formed landing");
    assert!(req.is_none());
    let collection = finish_discovery(walk);
    assert_eq!(collection.data.len(), 2);
    for i in 0..collection.data.len() {
        for j in (i + 1)..collection.data.len() {
            assert!(query_lt(&collection.data[i], &collection.data[j]));
            assert!(!query_eq(&collection.data[i], &collection.data[j]));
        }
    }
}

#[test]
fn landing_cards_supply_metadata_and_nested_members() {
    let scenario = obj(vec![
        ("type", s("com.huawei.hmos.appgallery.scenariolistcard.landing")),
        (
            "data",
            arr(vec![obj(vec![
                ("title", s("Editors' Picks")),
                ("subTitle", s("This Week")),
                ("name", s("picks")),
                (
                    "refsList_app",
                    arr(vec![obj(vec![("appId", s("C4444444444444444"))])]),
                ),
            ])]),
        ),
    ]);
    let page = landing(0, "", vec![scenario]);
    let (walk, _) = begin_discovery("sub-3", &page).ok().expect("well-formed landing");
    let collection = finish_discovery(walk);
    assert_eq!(collection.title, "Editors' Picks");
    assert_eq!(collection.sub_title.as_deref(), Some("This Week"));
    assert_eq!(collection.name.as_deref(), Some("picks"));
    assert_eq!(collection.data.len(), 1);
    assert!(query_eq(
        &collection.data[0],
        &AppQuery::app_id("C4444444444444444")
    ));
    assert_eq!(collection.say_my_name(), "Editors' Picks - This Week (picks)");
}

#[test]
fn big_cards_and_unknown_cards() {
    let big = obj(vec![
        ("type", s("com.huawei.hmsapp.appgallery.subjectappbigcard.landing")),
        (
            "data",
            arr(vec![obj(vec![
                ("title", s("Big")),
                (
                    "refsList_app_short",
                    arr(vec![obj(vec![("appId", s("C5555555555555555"))])]),
                ),
            ])]),
        ),
    ]);
    let unknown = obj(vec![("type", s("something.else")), ("data", arr(vec![]))]);
    let page = landing(0, "", vec![unknown, big]);
    let (walk, _) = begin_discovery("sub-4", &page).ok().expect("well-formed landing");
    let collection = finish_discovery(walk);
    assert_eq!(collection.title, "Big");
    assert_eq!(collection.sub_title, None);
    assert_eq!(collection.data.len(), 1);
    assert_eq!(collection.say_my_name(), "Big");
}

#[test]
fn malformed_landing_is_refused() {
    let page = obj(vec![("pages", arr(vec![]))]);
    assert!(begin_discovery("sub-5", &page).is_err());

    // More results announced, but the listing identifier is unreadable.
    let page = obj(vec![(
        "pages",
        arr(vec![obj(vec![(
            "data",
            obj(vec![(
                "cardlist",
                obj(vec![("hasMore", n(1)), ("layoutData", arr(vec![]))]),
            )]),
        )])]),
    )]);
    assert!(begin_discovery("sub-6", &page).is_err());
}
