//! Change detection: whether a freshly fetched record warrants writes.
//!
//! The decision compares the fetch against the last stored snapshot at
//! three granularities. A payload identical to the last stored one short-
//! circuits the core-info and metrics comparison; otherwise each derived
//! row is compared field by field with the server-owned audit fields
//! carried forward, so that their churn alone never causes a write.
//! Ratings are insert-if-different: any difference, or no prior rating,
//! appends a new historical row. A regulatory-record block, when fetched,
//! is always upserted.

use vstd::prelude::*;

use crate::json::{json_copy, json_eq, jv, opt_jv, spec_mask, JsonVal};
use crate::model::{
    info_row_matches, metric_row_matches, rating_row_matches, spec_app_info_from_raw,
    spec_app_metric_from_raw, spec_app_rating_from_raw, spec_app_record_from_raw,
    spec_info_row_matches, spec_metric_row_matches, spec_rating_row_matches, AppInfo, AppMetric,
    AppRating, AppRecord,
};
use crate::raw::{RawAppData, RawJsonData, RawRatingData};

verus! {

/// The last stored state of one entity, as the persistence collaborator
/// reports it: the newest raw payload in history and the current rows.
pub struct StoredSnapshot {
    pub last_raw: Option<JsonVal>,
    pub info: Option<AppInfo>,
    pub metric: Option<AppMetric>,
    pub rating: Option<AppRating>,
}

/// What a fetch warrants: per granularity, whether to write and the row
/// to write. The regulatory record is present whenever the fetch carried
/// one; it is upserted unconditionally.
pub struct PersistPlan {
    pub write_info: bool,
    pub write_metrics: bool,
    pub write_rating: bool,
    pub append_history: bool,
    pub info_row: Option<AppInfo>,
    pub metric_row: Option<AppMetric>,
    pub rating_row: Option<AppRating>,
    pub record_row: Option<AppRecord>,
}

/// Whether the fetch's payload is identical to the last stored one, for a
/// known entity: the fast path that skips the row comparisons.
pub open spec fn spec_same_payload(fresh: RawAppData, stored: StoredSnapshot) -> bool {
    &&& stored.info is Some
    &&& opt_jv(stored.last_raw) == Some(jv(fresh.app_info_json))
}

/// Whether the core-info row needs a write: there is none yet, or the
/// stored one differs from what this record derives, audit fields aside.
pub open spec fn spec_info_changed(raw: RawJsonData, stored: Option<AppInfo>) -> bool {
    match stored {
        None => true,
        Some(old_row) => !spec_info_row_matches(old_row, raw),
    }
}

/// Whether the metrics row needs a write.
pub open spec fn spec_metric_changed(raw: RawJsonData, stored: Option<AppMetric>) -> bool {
    match stored {
        None => true,
        Some(old_row) => !spec_metric_row_matches(old_row, raw),
    }
}

/// Whether a fetched rating warrants a new historical row: there is no
/// prior rating, or the prior one differs, audit fields aside.
pub open spec fn spec_rating_changed(
    raw: RawJsonData,
    star: RawRatingData,
    stored: Option<AppRating>,
) -> bool {
    match stored {
        None => true,
        Some(old_row) => !spec_rating_row_matches(old_row, raw, star),
    }
}

/// The candidate core-info row that a write carries: derived from the
/// record, with the caller's listing instant and free-text comment in
/// place of the defaults.
pub open spec fn spec_candidate_info(
    a: AppInfo,
    raw: RawJsonData,
    listed_at: Option<i64>,
    comment: Option<JsonVal>,
    now: i64,
) -> bool {
    &&& spec_app_info_from_raw((AppInfo { listed_at: now, comment: None, ..a }), raw, now)
    &&& a.listed_at == (match listed_at {
        Some(t) => t,
        None => now,
    })
    &&& opt_jv(a.comment) == opt_jv(comment)
}

/// Decides, for one fetched record against the last stored snapshot,
/// which rows to write. Core info and metrics are written only on genuine
/// change; an unchanged payload for a known entity skips both outright; a
/// history entry is appended exactly when core info or metrics changed; a
/// rating row is appended when the fetch carried a rating that differs
/// from the stored one or none was stored; a fetched regulatory record is
/// always handed on for upsert.
#[verifier::rlimit(100)]
pub fn decide(
    fresh: &RawAppData,
    stored: &StoredSnapshot,
    listed_at: Option<i64>,
    comment: Option<&JsonVal>,
    now: i64,
) -> (plan: PersistPlan)
    ensures
        plan.write_info == (!spec_same_payload(*fresh, *stored) && spec_info_changed(
            fresh.app_info,
            stored.info,
        )),
        plan.write_metrics == (!spec_same_payload(*fresh, *stored) && spec_metric_changed(
            fresh.app_info,
            stored.metric,
        )),
        plan.write_rating == (match fresh.app_rating {
            Some(star) => spec_rating_changed(fresh.app_info, star, stored.rating),
            None => false,
        }),
        plan.append_history == (plan.write_info || plan.write_metrics),
        plan.info_row is Some <==> plan.write_info,
        plan.write_info ==> spec_candidate_info(
            plan.info_row->Some_0,
            fresh.app_info,
            listed_at,
            (match comment {
                Some(c) => Some(*c),
                None => None,
            }),
            now,
        ),
        plan.metric_row is Some <==> plan.write_metrics,
        plan.write_metrics ==> spec_app_metric_from_raw(
            plan.metric_row->Some_0,
            fresh.app_info,
            now,
        ),
        plan.rating_row is Some <==> plan.write_rating,
        plan.write_rating ==> spec_app_rating_from_raw(
            plan.rating_row->Some_0,
            fresh.app_info,
            fresh.app_rating->Some_0,
            now,
        ),
        plan.record_row is Some <==> fresh.app_record is Some,
        fresh.app_record is Some ==> spec_app_record_from_raw(
            plan.record_row->Some_0,
            fresh.app_info.app_id@,
            fresh.app_record->Some_0,
        ),
{
    let same_payload = match (&stored.info, &stored.last_raw) {
        (Some(_), Some(last)) => json_eq(last, &fresh.app_info_json),
        _ => false,
    };

    let mut write_info = false;
    let mut write_metrics = false;
    let mut info_row: Option<AppInfo> = None;
    let mut metric_row: Option<AppMetric> = None;

    if !same_payload {
        write_info = match &stored.info {
            Some(old_row) => !info_row_matches(old_row, &fresh.app_info),
            None => true,
        };
        if write_info {
            let mut cand = AppInfo::from_raw(&fresh.app_info, now);
            if let Some(t) = listed_at {
                cand.listed_at = t;
            }
            cand.comment = match comment {
                Some(c) => Some(json_copy(c)),
                None => None,
            };
            info_row = Some(cand);
        }
        write_metrics = match &stored.metric {
            Some(old_row) => !metric_row_matches(old_row, &fresh.app_info),
            None => true,
        };
        if write_metrics {
            metric_row = Some(AppMetric::from_raw_data(&fresh.app_info, now));
        }
    }

    let (write_rating, rating_row) = match &fresh.app_rating {
        Some(star) => {
            let changed = match &stored.rating {
                Some(old_row) => !rating_row_matches(old_row, &fresh.app_info, star),
                None => true,
            };
            if changed {
                (true, Some(AppRating::from_raw_star(&fresh.app_info, star, now)))
            } else {
                (false, None)
            }
        },
        None => (false, None),
    };

    let record_row = match &fresh.app_record {
        Some(rec) => Some(AppRecord::from_raw_record(fresh.app_info.app_id.as_str(), rec)),
        None => None,
    };

    let append_history = write_info || write_metrics;

    PersistPlan {
        write_info,
        write_metrics,
        write_rating,
        append_history,
        info_row,
        metric_row,
        rating_row,
        record_row,
    }
}

/// What a discovered collection warrants: whether its row is new, and
/// whether a history entry should be appended.
pub struct SubstancePlan {
    pub is_new: bool,
    pub write_history: bool,
}

/// Decides what to persist for one discovered collection: its row is new
/// exactly when none is stored, and a history entry is appended unless
/// the stored payload equals the fresh one once both are trace-masked.
pub fn decide_substance(fresh_raw: &JsonVal, stored_last: Option<&JsonVal>, exists: bool) -> (plan:
    SubstancePlan)
    ensures
        plan.is_new == !exists,
        plan.write_history == !(match stored_last {
            Some(last) => spec_mask(jv(*last)) == spec_mask(jv(*fresh_raw)),
            None => false,
        }),
{
    let same = match stored_last {
        Some(last) => is_same_substance_data(last, fresh_raw),
        None => false,
    };
    SubstancePlan { is_new: !exists, write_history: !same }
}

/// Compares a stored collection payload against a fresh one with both
/// trace-masked, so that volatile trace identifiers alone never read as a
/// change.
pub fn is_same_substance_data(last: &JsonVal, fresh: &JsonVal) -> (r: bool)
    ensures
        r == (spec_mask(jv(*last)) == spec_mask(jv(*fresh))),
{
    let a = crate::json::normalize_json_for_comparison(last);
    let b = crate::json::normalize_json_for_comparison(fresh);
    json_eq(&a, &b)
}

/// Change detection is idempotent: the rows written for one fetch read,
/// at the next fetch of a byte-identical record, as unchanged, so the
/// second decision writes nothing at any granularity.
pub proof fn lemma_decide_idempotent(
    cand_info: AppInfo,
    cand_metric: AppMetric,
    cand_rating: AppRating,
    raw: RawJsonData,
    star: RawRatingData,
    listed_at: Option<i64>,
    comment: Option<JsonVal>,
    now: i64,
)
    requires
        spec_candidate_info(cand_info, raw, listed_at, comment, now),
        spec_app_metric_from_raw(cand_metric, raw, now),
        spec_app_rating_from_raw(cand_rating, raw, star, now),
    ensures
        !spec_info_changed(raw, Some(cand_info)),
        !spec_metric_changed(raw, Some(cand_metric)),
        !spec_rating_changed(raw, star, Some(cand_rating)),
{
}

} // verus!
