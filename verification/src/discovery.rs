//! The collection discovery walker.
//!
//! One curated-collection identifier expands into the full member list:
//! the collection's landing page supplies metadata and members out of
//! several heterogeneous card layouts, and when it signals that more
//! results exist, a secondary listing endpoint is paged until it reports
//! no more. The walker here is the verified decision core: it parses
//! pages, accumulates members, and says which call to make next; the
//! caller performs the calls and feeds the responses back.

use vstd::prelude::*;

use crate::error::UpstreamError;
use crate::json::{jv, jv_arr, get_field, spec_get_field, JsonSpec, JsonVal};
use crate::query::{contains_q, qvs, sorted_dedup, strictly_sorted_q, AppQuery};
use crate::utils::{opt_str_view, str_eq};

verus! {

/// One discovered collection: its metadata and its deduplicated, sorted
/// member queries.
pub struct SubstanceData {
    pub id: String,
    pub title: String,
    pub sub_title: Option<String>,
    pub name: Option<String>,
    pub data: Vec<AppQuery>,
}

impl SubstanceData {
    /// The collection's display name: the title, then the subtitle after
    /// a dash when one exists, then the name in parentheses when one
    /// exists.
    pub fn say_my_name(&self) -> (r: String)
        ensures
            r@ == self.title@ + (match self.sub_title {
                Some(s) => " - "@ + s@,
                None => Seq::<char>::empty(),
            }) + (match self.name {
                Some(n) => " ("@ + n@ + ")"@,
                None => Seq::<char>::empty(),
            }),
    {
        let mut out = self.title.clone();
        match &self.sub_title {
            Some(s) => {
                out = out.concat(" - ").concat(s.as_str());
            },
            None => (),
        }
        match &self.name {
            Some(n) => {
                out = out.concat(" (").concat(n.as_str()).concat(")");
            },
            None => (),
        }
        out
    }
}

/// The members and metadata collected while scanning a collection's
/// cards.
pub struct SubstanceScan {
    pub apps: Vec<AppQuery>,
    pub title: Option<String>,
    pub sub_title: Option<String>,
    pub name: Option<String>,
}

/// The model of a scan in progress.
#[verifier::ext_equal]
pub struct ScanV {
    pub apps: Seq<(int, Seq<char>)>,
    pub title: Option<Seq<char>>,
    pub sub_title: Option<Seq<char>>,
    pub name: Option<Seq<char>>,
}

/// Model of a scan accumulator.
pub open spec fn scan_view(s: SubstanceScan) -> ScanV {
    ScanV {
        apps: qvs(s.apps@),
        title: opt_str_view(s.title),
        sub_title: opt_str_view(s.sub_title),
        name: opt_str_view(s.name),
    }
}

/// Member identifiers collected from a card's entries, strictly: an entry
/// without an identifier is skipped, one whose identifier is not a string
/// is malformed.
pub open spec fn spec_collect_ids_strict(
    apps: Seq<(int, Seq<char>)>,
    entries: Seq<JsonSpec>,
) -> Option<Seq<(int, Seq<char>)>>
    decreases entries,
{
    if entries.len() == 0 {
        Some(apps)
    } else {
        match spec_collect_ids_strict(apps, entries.drop_last()) {
            Some(acc) => match spec_get_field(entries.last(), "appId"@) {
                None => Some(acc),
                Some(JsonSpec::Str(s)) => Some(acc.push((1int, s))),
                Some(_) => None,
            },
            None => None,
        }
    }
}

/// Member identifiers collected tolerantly: anything that is not a string
/// identifier is skipped.
pub open spec fn spec_collect_ids_tolerant(
    apps: Seq<(int, Seq<char>)>,
    entries: Seq<JsonSpec>,
) -> Seq<(int, Seq<char>)>
    decreases entries,
{
    if entries.len() == 0 {
        apps
    } else {
        let acc = spec_collect_ids_tolerant(apps, entries.drop_last());
        match spec_get_field(entries.last(), "appId"@) {
            Some(JsonSpec::Str(s)) => acc.push((1int, s)),
            _ => acc,
        }
    }
}

/// A metadata slot after one card entry: a string field overwrites it, a
/// present non-string field clears it, an absent field leaves it.
pub open spec fn spec_meta(old_v: Option<Seq<char>>, obj: JsonSpec, key: Seq<char>) -> Option<
    Seq<char>,
> {
    match spec_get_field(obj, key) {
        None => old_v,
        Some(JsonSpec::Str(s)) => Some(s),
        Some(_) => None,
    }
}

/// What one big-card entry does to the scan: it may overwrite the
/// metadata, and its short reference list, when present, must be a list
/// whose members are collected strictly.
pub open spec fn spec_apply_big_entry(st: ScanV, entry: JsonSpec) -> Option<ScanV> {
    let meta = ScanV {
        apps: st.apps,
        title: spec_meta(st.title, entry, "title"@),
        sub_title: spec_meta(st.sub_title, entry, "subTitle"@),
        name: spec_meta(st.name, entry, "name"@),
    };
    match spec_get_field(entry, "refsList_app_short"@) {
        None => Some(meta),
        Some(JsonSpec::Arr(refs)) => match spec_collect_ids_strict(st.apps, refs) {
            Some(apps2) => Some(ScanV { apps: apps2, ..meta }),
            None => None,
        },
        Some(_) => None,
    }
}

/// A fold of big-card entries.
pub open spec fn spec_fold_big(st: ScanV, entries: Seq<JsonSpec>) -> Option<ScanV>
    decreases entries,
{
    if entries.len() == 0 {
        Some(st)
    } else {
        match spec_fold_big(st, entries.drop_last()) {
            Some(acc) => spec_apply_big_entry(acc, entries.last()),
            None => None,
        }
    }
}

/// What one landing-page card does to the scan. A vertical list card
/// contributes each entry as a member. A landing scenario, slider or
/// icon-rolling card supplies the metadata out of its first entry and may
/// carry a nested member list. A big card supplies metadata and a
/// differently-named nested list out of each entry. Every other card type
/// contributes nothing. A card without a data list is malformed.
pub open spec fn spec_apply_substance_card(st: ScanV, card: JsonSpec) -> Option<ScanV> {
    match spec_get_field(card, "data"@) {
        Some(JsonSpec::Arr(entries)) => match spec_get_field(card, "type"@) {
            Some(JsonSpec::Str(t)) => {
                if t == "com.huawei.hmsapp.appgallery.verticallistcard"@ {
                    match spec_collect_ids_strict(st.apps, entries) {
                        Some(apps2) => Some(ScanV { apps: apps2, ..st }),
                        None => None,
                    }
                } else if t == "com.huawei.hmos.appgallery.scenariolistcard.landing"@ || t
                    == "com.huawei.hmos.appgallery.whiteverticalslidercard.landing"@ || t
                    == "com.huawei.hmsapp.appgallery.appiconrollingcard.landing"@ {
                    if entries.len() == 0 {
                        None
                    } else if !(entries[0] is Obj) {
                        None
                    } else {
                        let first = entries[0];
                        let meta = ScanV {
                            apps: st.apps,
                            title: spec_meta(st.title, first, "title"@),
                            sub_title: spec_meta(st.sub_title, first, "subTitle"@),
                            name: spec_meta(st.name, first, "name"@),
                        };
                        match spec_get_field(first, "refsList_app"@) {
                            None => Some(meta),
                            Some(JsonSpec::Arr(refs)) => match spec_collect_ids_strict(
                                st.apps,
                                refs,
                            ) {
                                Some(apps2) => Some(ScanV { apps: apps2, ..meta }),
                                None => None,
                            },
                            Some(_) => None,
                        }
                    }
                } else if t == "com.huawei.hmsapp.appgallery.subjectappbigcard.landing"@ {
                    spec_fold_big(st, entries)
                } else {
                    Some(st)
                }
            },
            _ => Some(st),
        },
        _ => None,
    }
}

/// The scan of a landing page's cards, in order.
pub open spec fn spec_scan_substance(layouts: Seq<JsonSpec>) -> Option<ScanV>
    decreases layouts,
{
    if layouts.len() == 0 {
        Some(
            ScanV {
                apps: Seq::empty(),
                title: None::<Seq<char>>,
                sub_title: None::<Seq<char>>,
                name: None::<Seq<char>>,
            },
        )
    } else {
        match spec_scan_substance(layouts.drop_last()) {
            Some(st) => spec_apply_substance_card(st, layouts.last()),
            None => None,
        }
    }
}

proof fn lemma_scan_substance_none_sticks(layouts: Seq<JsonSpec>, i: int)
    requires
        0 <= i <= layouts.len(),
        spec_scan_substance(layouts.subrange(0, i)) is None,
    ensures
        spec_scan_substance(layouts) is None,
    decreases layouts.len() - i,
{
    if i == layouts.len() {
        assert(layouts.subrange(0, i) =~= layouts);
    } else {
        assert(layouts.subrange(0, i + 1).drop_last() =~= layouts.subrange(0, i));
        lemma_scan_substance_none_sticks(layouts, i + 1);
    }
}

/// Collects member identifiers strictly out of a card's entries.
#[verifier::loop_isolation(false)]
fn collect_ids_strict(apps: &mut Vec<AppQuery>, entries: &Vec<JsonVal>) -> (ok: bool)
    ensures
        ok ==> Some(qvs(final(apps)@)) == spec_collect_ids_strict(
            qvs(old(apps)@),
            jv_arr(entries@),
        ),
        !ok ==> spec_collect_ids_strict(qvs(old(apps)@), jv_arr(entries@)) is None,
{
    proof {
        crate::json::lemma_jv_arr(entries@);
    }
    let ghost apps0 = qvs(old(apps)@);
    let ghost ev = jv_arr(entries@);
    let n = entries.len();
    let mut i: usize = 0;
    while i < n
        invariant
            i <= n,
            spec_collect_ids_strict(apps0, ev.subrange(0, i as int)) == Some(qvs(apps@)),
        decreases n - i,
    {
        proof {
            assert(ev.subrange(0, i + 1).drop_last() =~= ev.subrange(0, i as int));
            assert(ev.subrange(0, i + 1).last() == ev[i as int]);
        }
        match get_field(&entries[i], "appId") {
            Some(f) => match f {
                JsonVal::Str(s) => {
                    let ghost prev = apps@;
                    let q = AppQuery::app_id(s.as_str());
                    apps.push(q);
                    proof {
                        assert(apps@.drop_last() =~= prev);
                    }
                },
                _ => {
                    proof {
                        assert(spec_collect_ids_strict(apps0, ev.subrange(0, i + 1)) is None);
                        lemma_collect_strict_stuck(apps0, ev, i + 1);
                    }
                    return false;
                },
            },
            None => (),
        }
        i = i + 1;
    }
    proof {
        assert(ev.subrange(0, n as int) =~= ev);
    }
    true
}

proof fn lemma_collect_strict_stuck(apps0: Seq<(int, Seq<char>)>, entries: Seq<JsonSpec>, i: int)
    requires
        0 <= i <= entries.len(),
        spec_collect_ids_strict(apps0, entries.subrange(0, i)) is None,
    ensures
        spec_collect_ids_strict(apps0, entries) is None,
    decreases entries.len() - i,
{
    if i == entries.len() {
        assert(entries.subrange(0, i) =~= entries);
    } else {
        assert(entries.subrange(0, i + 1).drop_last() =~= entries.subrange(0, i));
        lemma_collect_strict_stuck(apps0, entries, i + 1);
    }
}

/// Collects member identifiers tolerantly out of a card's entries.
#[verifier::loop_isolation(false)]
fn collect_ids_tolerant(apps: &mut Vec<AppQuery>, entries: &Vec<JsonVal>)
    ensures
        qvs(final(apps)@) == spec_collect_ids_tolerant(qvs(old(apps)@), jv_arr(entries@)),
{
    proof {
        crate::json::lemma_jv_arr(entries@);
    }
    let ghost apps0 = qvs(old(apps)@);
    let ghost ev = jv_arr(entries@);
    let n = entries.len();
    let mut i: usize = 0;
    while i < n
        invariant
            i <= n,
            spec_collect_ids_tolerant(apps0, ev.subrange(0, i as int)) == qvs(apps@),
        decreases n - i,
    {
        proof {
            assert(ev.subrange(0, i + 1).drop_last() =~= ev.subrange(0, i as int));
            assert(ev.subrange(0, i + 1).last() == ev[i as int]);
        }
        match get_field(&entries[i], "appId") {
            Some(f) => match f {
                JsonVal::Str(s) => {
                    let ghost prev = apps@;
                    let q = AppQuery::app_id(s.as_str());
                    apps.push(q);
                    proof {
                        assert(apps@.drop_last() =~= prev);
                    }
                },
                _ => (),
            },
            None => (),
        }
        i = i + 1;
    }
    proof {
        assert(ev.subrange(0, n as int) =~= ev);
    }
}

/// Applies one metadata field of a card entry to its slot.
fn apply_meta(slot: &mut Option<String>, obj: &JsonVal, key: &str)
    ensures
        opt_str_view(*final(slot)) == spec_meta(opt_str_view(*old(slot)), jv(*obj), key@),
{
    match get_field(obj, key) {
        None => (),
        Some(f) => match f {
            JsonVal::Str(s) => {
                *slot = Some(s.clone());
            },
            _ => {
                *slot = None;
            },
        },
    }
}

/// Applies one landing-page card to the scan; reports a malformed card.
#[verifier::loop_isolation(false)]
fn apply_substance_card(scan: &mut SubstanceScan, card: &JsonVal) -> (ok: bool)
    ensures
        ok ==> Some(scan_view(*final(scan))) == spec_apply_substance_card(
            scan_view(*old(scan)),
            jv(*card),
        ),
        !ok ==> spec_apply_substance_card(scan_view(*old(scan)), jv(*card)) is None,
{
    let ghost st0 = scan_view(*old(scan));
    let entries = match get_field(card, "data") {
        Some(JsonVal::Arr(items)) => items,
        _ => {
            return false;
        },
    };
    proof {
        crate::json::lemma_jv_arr(entries@);
    }
    let ty = match get_field(card, "type") {
        Some(JsonVal::Str(s)) => s,
        _ => {
            return true;
        },
    };
    if str_eq(ty.as_str(), "com.huawei.hmsapp.appgallery.verticallistcard") {
        collect_ids_strict(&mut scan.apps, entries)
    } else if str_eq(ty.as_str(), "com.huawei.hmos.appgallery.scenariolistcard.landing") || str_eq(
        ty.as_str(),
        "com.huawei.hmos.appgallery.whiteverticalslidercard.landing",
    ) || str_eq(ty.as_str(), "com.huawei.hmsapp.appgallery.appiconrollingcard.landing") {
        if entries.len() == 0 {
            return false;
        }
        let first = &entries[0];
        match first {
            JsonVal::Obj(_) => (),
            _ => {
                return false;
            },
        }
        apply_meta(&mut scan.title, first, "title");
        apply_meta(&mut scan.sub_title, first, "subTitle");
        apply_meta(&mut scan.name, first, "name");
        match get_field(first, "refsList_app") {
            None => true,
            Some(JsonVal::Arr(refs)) => collect_ids_strict(&mut scan.apps, refs),
            Some(_) => false,
        }
    } else if str_eq(ty.as_str(), "com.huawei.hmsapp.appgallery.subjectappbigcard.landing") {
        let ghost ev = jv_arr(entries@);
        let n = entries.len();
        let mut i: usize = 0;
        while i < n
            invariant
                i <= n,
                spec_fold_big(st0, ev.subrange(0, i as int)) == Some(scan_view(*scan)),
            decreases n - i,
        {
            proof {
                assert(ev.subrange(0, i + 1).drop_last() =~= ev.subrange(0, i as int));
                assert(ev.subrange(0, i + 1).last() == ev[i as int]);
            }
            let entry = &entries[i];
            let ghost st_before = scan_view(*scan);
            apply_meta(&mut scan.title, entry, "title");
            apply_meta(&mut scan.sub_title, entry, "subTitle");
            apply_meta(&mut scan.name, entry, "name");
            match get_field(entry, "refsList_app_short") {
                None => (),
                Some(JsonVal::Arr(refs)) => {
                    let ok = collect_ids_strict(&mut scan.apps, refs);
                    if !ok {
                        proof {
                            assert(spec_fold_big(st0, ev.subrange(0, i + 1)) is None);
                            lemma_fold_big_stuck(st0, ev, i + 1);
                        }
                        return false;
                    }
                },
                Some(_) => {
                    proof {
                        assert(spec_fold_big(st0, ev.subrange(0, i + 1)) is None);
                        lemma_fold_big_stuck(st0, ev, i + 1);
                    }
                    return false;
                },
            }
            i = i + 1;
        }
        proof {
            assert(ev.subrange(0, n as int) =~= ev);
        }
        true
    } else {
        true
    }
}

proof fn lemma_fold_big_stuck(st0: ScanV, entries: Seq<JsonSpec>, i: int)
    requires
        0 <= i <= entries.len(),
        spec_fold_big(st0, entries.subrange(0, i)) is None,
    ensures
        spec_fold_big(st0, entries) is None,
    decreases entries.len() - i,
{
    if i == entries.len() {
        assert(entries.subrange(0, i) =~= entries);
    } else {
        assert(entries.subrange(0, i + 1).drop_last() =~= entries.subrange(0, i));
        lemma_fold_big_stuck(st0, entries, i + 1);
    }
}

/// Scans all cards of a landing page.
#[verifier::loop_isolation(false)]
fn scan_substance_layouts(layouts: &Vec<JsonVal>) -> (r: Option<SubstanceScan>)
    ensures
        match r {
            Some(scan) => spec_scan_substance(jv_arr(layouts@)) == Some(scan_view(scan)),
            None => spec_scan_substance(jv_arr(layouts@)) is None,
        },
{
    proof {
        crate::json::lemma_jv_arr(layouts@);
    }
    let ghost lv = jv_arr(layouts@);
    let mut scan = SubstanceScan { apps: Vec::new(), title: None, sub_title: None, name: None };
    let n = layouts.len();
    let mut i: usize = 0;
    while i < n
        invariant
            i <= n,
            spec_scan_substance(lv.subrange(0, i as int)) == Some(scan_view(scan)),
        decreases n - i,
    {
        proof {
            assert(lv.subrange(0, i + 1).drop_last() =~= lv.subrange(0, i as int));
            assert(lv.subrange(0, i + 1).last() == lv[i as int]);
        }
        let ok = apply_substance_card(&mut scan, &layouts[i]);
        if !ok {
            proof {
                assert(spec_scan_substance(lv.subrange(0, i + 1)) is None);
                lemma_scan_substance_none_sticks(lv, i + 1);
            }
            return None;
        }
        i = i + 1;
    }
    proof {
        assert(lv.subrange(0, n as int) =~= lv);
    }
    Some(scan)
}


/// What a collection's landing page carries: whether more results exist
/// beyond it, the listing identifier to page with when they do, and the
/// card list to scan.
pub struct LandingV {
    pub has_more: bool,
    pub data_id: Option<Seq<char>>,
    pub layouts: Seq<JsonSpec>,
}

/// The landing page of a collection, taken apart: its single page leads
/// to a card list object whose `hasMore` flag (absent or non-numeric
/// reads as no), `dataId` (required only when more results exist) and
/// `layoutData` cards drive the walk. Any other shape is malformed.
pub open spec fn spec_landing(j: JsonSpec) -> Option<LandingV> {
    match spec_get_field(j, "pages"@) {
        Some(JsonSpec::Arr(pages)) => {
            if pages.len() == 0 {
                None
            } else {
                match spec_get_field(pages[0], "data"@) {
                    Some(d) => match spec_get_field(d, "cardlist"@) {
                        Some(cl) => {
                            if !(cl is Obj) {
                                None
                            } else {
                                let hm = match spec_get_field(cl, "hasMore"@) {
                                    Some(JsonSpec::Int(n)) => n != 0,
                                    _ => false,
                                };
                                match spec_get_field(cl, "layoutData"@) {
                                    Some(JsonSpec::Arr(l)) => {
                                        if hm {
                                            match spec_get_field(cl, "dataId"@) {
                                                Some(JsonSpec::Str(s)) => Some(
                                                    LandingV {
                                                        has_more: true,
                                                        data_id: Some(s),
                                                        layouts: l,
                                                    },
                                                ),
                                                _ => None,
                                            }
                                        } else {
                                            Some(
                                                LandingV {
                                                    has_more: false,
                                                    data_id: None,
                                                    layouts: l,
                                                },
                                            )
                                        }
                                    },
                                    _ => None,
                                }
                            }
                        },
                        None => None,
                    },
                    None => None,
                }
            }
        },
        _ => None,
    }
}

/// What one listing page contributes: the members its recognized cards
/// carry, and whether more pages follow. A page without a card list, or
/// with a card whose data is not a list, is malformed.
pub open spec fn spec_fold_more_cards(
    apps: Seq<(int, Seq<char>)>,
    cards: Seq<JsonSpec>,
) -> Option<Seq<(int, Seq<char>)>>
    decreases cards,
{
    if cards.len() == 0 {
        Some(apps)
    } else {
        match spec_fold_more_cards(apps, cards.drop_last()) {
            Some(acc) => {
                let card = cards.last();
                match spec_get_field(card, "data"@) {
                    Some(JsonSpec::Arr(entries)) => match spec_get_field(card, "type"@) {
                        Some(JsonSpec::Str(t)) => {
                            if t == "com.huawei.hmsapp.appgallery.verticallistcard"@ {
                                Some(spec_collect_ids_tolerant(acc, entries))
                            } else {
                                Some(acc)
                            }
                        },
                        _ => Some(acc),
                    },
                    _ => None,
                }
            },
            None => None,
        }
    }
}

/// One listing page, taken apart: the members added by its cards and its
/// `hasMore` flag.
pub open spec fn spec_more_page(apps: Seq<(int, Seq<char>)>, j: JsonSpec) -> Option<
    (Seq<(int, Seq<char>)>, bool),
> {
    let hm = match spec_get_field(j, "hasMore"@) {
        Some(JsonSpec::Int(n)) => n != 0,
        _ => false,
    };
    match spec_get_field(j, "layoutData"@) {
        Some(JsonSpec::Arr(cards)) => match spec_fold_more_cards(apps, cards) {
            Some(apps2) => Some((apps2, hm)),
            None => None,
        },
        _ => None,
    }
}

proof fn lemma_fold_more_stuck(apps: Seq<(int, Seq<char>)>, cards: Seq<JsonSpec>, i: int)
    requires
        0 <= i <= cards.len(),
        spec_fold_more_cards(apps, cards.subrange(0, i)) is None,
    ensures
        spec_fold_more_cards(apps, cards) is None,
    decreases cards.len() - i,
{
    if i == cards.len() {
        assert(cards.subrange(0, i) =~= cards);
    } else {
        assert(cards.subrange(0, i + 1).drop_last() =~= cards.subrange(0, i));
        lemma_fold_more_stuck(apps, cards, i + 1);
    }
}

/// One call into the listing endpoint that the walker asks for next.
pub struct CardListRequest {
    pub data_id: String,
    pub page_num: u64,
    pub page_size: u64,
    pub locale: String,
}

/// A discovery walk in progress: the members and metadata collected so
/// far, and where the paging stands.
pub struct DiscoveryWalk {
    pub id: String,
    pub scan: SubstanceScan,
    pub data_id: String,
    pub page_num: u64,
    pub active: bool,
}

/// The fields of the listing request the walker asks for at a given page.
pub open spec fn spec_card_list_request(r: CardListRequest, data_id: Seq<char>, page: int) -> bool {
    &&& r.data_id@ == data_id
    &&& r.page_num == page
    &&& r.page_size == 25
    &&& r.locale@ == "zh"@
}

/// Starts a discovery walk from a collection's landing page. The walk
/// carries everything the landing page supplied; when the page reports
/// that more results exist, the walker asks for the listing page after
/// the landing one, with the page's listing identifier.
pub fn begin_discovery(substance_id: &str, landing: &JsonVal) -> (r: Result<
    (DiscoveryWalk, Option<CardListRequest>),
    UpstreamError,
>)
    ensures
        match spec_landing(jv(*landing)) {
            None => r == Err::<(DiscoveryWalk, Option<CardListRequest>), UpstreamError>(
                UpstreamError::MalformedPayload,
            ),
            Some(lv) => match spec_scan_substance(lv.layouts) {
                None => r == Err::<(DiscoveryWalk, Option<CardListRequest>), UpstreamError>(
                    UpstreamError::MalformedPayload,
                ),
                Some(sv) => {
                    &&& r is Ok
                    &&& r->Ok_0.0.id@ == substance_id@
                    &&& scan_view(r->Ok_0.0.scan) == sv
                    &&& r->Ok_0.0.active == lv.has_more
                    &&& (lv.has_more ==> {
                        &&& r->Ok_0.0.data_id@ == lv.data_id->Some_0
                        &&& r->Ok_0.0.page_num == 2
                        &&& r->Ok_0.1 is Some
                        &&& spec_card_list_request(r->Ok_0.1->Some_0, lv.data_id->Some_0, 2)
                    })
                    &&& (!lv.has_more ==> r->Ok_0.1 is None)
                },
            },
        },
{
    let pages_arr = match get_field(landing, "pages") {
        Some(JsonVal::Arr(items)) => items,
        _ => {
            return Err(UpstreamError::MalformedPayload);
        },
    };
    proof {
        crate::json::lemma_jv_arr(pages_arr@);
    }
    if pages_arr.len() == 0 {
        return Err(UpstreamError::MalformedPayload);
    }
    let data = match get_field(&pages_arr[0], "data") {
        Some(f) => f,
        None => {
            return Err(UpstreamError::MalformedPayload);
        },
    };
    let cardlist = match get_field(data, "cardlist") {
        Some(f) => f,
        None => {
            return Err(UpstreamError::MalformedPayload);
        },
    };
    match cardlist {
        JsonVal::Obj(_) => (),
        _ => {
            return Err(UpstreamError::MalformedPayload);
        },
    }
    let has_more = match get_field(cardlist, "hasMore") {
        Some(JsonVal::Int(n)) => *n != 0,
        _ => false,
    };
    let layouts = match get_field(cardlist, "layoutData") {
        Some(JsonVal::Arr(items)) => items,
        _ => {
            return Err(UpstreamError::MalformedPayload);
        },
    };
    let data_id: String = if has_more {
        match get_field(cardlist, "dataId") {
            Some(JsonVal::Str(s)) => s.clone(),
            _ => {
                return Err(UpstreamError::MalformedPayload);
            },
        }
    } else {
        String::new()
    };
    let scan = match scan_substance_layouts(layouts) {
        Some(scan) => scan,
        None => {
            return Err(UpstreamError::MalformedPayload);
        },
    };
    let request = if has_more {
        Some(
            CardListRequest {
                data_id: data_id.clone(),
                page_num: 2,
                page_size: 25,
                locale: "zh".to_owned(),
            },
        )
    } else {
        None
    };
    let walk = DiscoveryWalk {
        id: substance_id.to_owned(),
        scan,
        data_id,
        page_num: 2,
        active: has_more,
    };
    Ok((walk, request))
}

/// Feeds one listing page to the walk. Its members join the collected
/// set; while the page reports more results, the walker asks for the next
/// page, and once one reports none, the walk is over.
#[verifier::loop_isolation(false)]
pub fn on_card_list_page(walk: &mut DiscoveryWalk, page: &JsonVal) -> (r: Result<
    Option<CardListRequest>,
    UpstreamError,
>)
    requires
        old(walk).active,
    ensures
        match spec_more_page(qvs(old(walk).scan.apps@), jv(*page)) {
            None => r == Err::<Option<CardListRequest>, UpstreamError>(
                UpstreamError::MalformedPayload,
            ),
            Some(res) => {
                &&& r is Ok
                &&& qvs(final(walk).scan.apps@) == res.0
                &&& opt_str_view(final(walk).scan.title) == opt_str_view(old(walk).scan.title)
                &&& opt_str_view(final(walk).scan.sub_title) == opt_str_view(
                    old(walk).scan.sub_title,
                )
                &&& opt_str_view(final(walk).scan.name) == opt_str_view(old(walk).scan.name)
                &&& final(walk).id@ == old(walk).id@
                &&& final(walk).data_id@ == old(walk).data_id@
                &&& ((res.1 && old(walk).page_num < u64::MAX) ==> {
                    &&& final(walk).active
                    &&& final(walk).page_num == old(walk).page_num + 1
                    &&& r->Ok_0 is Some
                    &&& spec_card_list_request(
                        (r->Ok_0)->Some_0,
                        old(walk).data_id@,
                        old(walk).page_num as int + 1,
                    )
                })
                &&& (!(res.1 && old(walk).page_num < u64::MAX) ==> {
                    &&& !final(walk).active
                    &&& r->Ok_0 is None
                })
            },
        },
{
    let has_more = match get_field(page, "hasMore") {
        Some(JsonVal::Int(n)) => *n != 0,
        _ => false,
    };
    let cards = match get_field(page, "layoutData") {
        Some(JsonVal::Arr(items)) => items,
        _ => {
            return Err(UpstreamError::MalformedPayload);
        },
    };
    proof {
        crate::json::lemma_jv_arr(cards@);
    }
    let ghost apps0 = qvs(old(walk).scan.apps@);
    let ghost cv = jv_arr(cards@);
    let n = cards.len();
    let mut i: usize = 0;
    while i < n
        invariant
            i <= n,
            n == cards@.len(),
            cv == jv_arr(cards@),
            cv.len() == n,
            forall|k: int| 0 <= k < n ==> #[trigger] cv[k] == jv(cards@[k]),
            spec_fold_more_cards(apps0, cv.subrange(0, i as int)) == Some(qvs(walk.scan.apps@)),
            opt_str_view(walk.scan.title) == opt_str_view(old(walk).scan.title),
            opt_str_view(walk.scan.sub_title) == opt_str_view(old(walk).scan.sub_title),
            opt_str_view(walk.scan.name) == opt_str_view(old(walk).scan.name),
            walk.id@ == old(walk).id@,
            walk.data_id@ == old(walk).data_id@,
            walk.page_num == old(walk).page_num,
            walk.active == old(walk).active,
        decreases n - i,
    {
        proof {
            assert(cv.subrange(0, i + 1).drop_last() =~= cv.subrange(0, i as int));
            assert(cv.subrange(0, i + 1).last() == cv[i as int]);
        }
        let card = &cards[i];
        let entries = match get_field(card, "data") {
            Some(JsonVal::Arr(items)) => items,
            _ => {
                proof {
                    assert(spec_fold_more_cards(apps0, cv.subrange(0, i + 1)) is None);
                    lemma_fold_more_stuck(apps0, cv, i + 1);
                }
                return Err(UpstreamError::MalformedPayload);
            },
        };
        let is_vertical = match get_field(card, "type") {
            Some(JsonVal::Str(s)) => str_eq(
                s.as_str(),
                "com.huawei.hmsapp.appgallery.verticallistcard",
            ),
            _ => false,
        };
        if is_vertical {
            collect_ids_tolerant(&mut walk.scan.apps, entries);
        }
        i = i + 1;
    }
    proof {
        assert(cv.subrange(0, n as int) =~= cv);
    }
    if has_more && walk.page_num < u64::MAX {
        walk.page_num = walk.page_num + 1;
        Ok(
            Some(
                CardListRequest {
                    data_id: walk.data_id.clone(),
                    page_num: walk.page_num,
                    page_size: 25,
                    locale: "zh".to_owned(),
                },
            ),
        )
    } else {
        walk.active = false;
        Ok(None)
    }
}

/// Closes a finished walk into the collection's record: the title falls
/// back to empty, and the member list is deduplicated and sorted — it is
/// strictly increasing in the query order and holds exactly the queries
/// collected during the walk.
pub fn finish_discovery(walk: DiscoveryWalk) -> (r: SubstanceData)
    requires
        !walk.active,
    ensures
        r.id@ == walk.id@,
        r.title@ == (match walk.scan.title {
            Some(t) => t@,
            None => Seq::<char>::empty(),
        }),
        opt_str_view(r.sub_title) == opt_str_view(walk.scan.sub_title),
        opt_str_view(r.name) == opt_str_view(walk.scan.name),
        strictly_sorted_q(r.data@),
        forall|t: (int, Seq<char>)| #[trigger] contains_q(r.data@, t) == contains_q(
            walk.scan.apps@,
            t,
        ),
{
    let data = sorted_dedup(&walk.scan.apps);
    let title = match walk.scan.title {
        Some(t) => t,
        None => String::new(),
    };
    SubstanceData { id: walk.id, title, sub_title: walk.scan.sub_title, name: walk.scan.name, data }
}

} // verus!
