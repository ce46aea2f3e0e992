//! Validation of caller-supplied listing parameters.
//!
//! The serving layer takes sort keys, search terms and paging numbers
//! from callers; everything here checks them against the allowed sets
//! and fills the defined defaults, so that only vetted values reach the
//! query layer.

use vstd::prelude::*;

use crate::query::{qv, AppQuery};
use crate::search::DbSearch;
use crate::utils::{opt_str_view, str_eq};

verus! {

/// Default page number of a paged listing.
pub fn default_page() -> (r: u32)
    ensures
        r == 1,
{
    1
}

/// Default page size of a paged listing.
pub fn default_page_size() -> (r: u32)
    ensures
        r == 50,
{
    50
}

/// Parameters of a ranking listing.
pub struct RankingQuery {
    pub limit: Option<u32>,
    pub exclude_pattern: Option<String>,
    pub time_range: Option<String>,
}

impl Default for RankingQuery {
    /// Ten entries, nothing excluded, no time bound.
    fn default() -> (r: RankingQuery)
        ensures
            r.limit == Some(10u32),
            r.exclude_pattern is None,
            r.time_range is None,
    {
        RankingQuery { limit: Some(10), exclude_pattern: None, time_range: None }
    }
}

/// The sort keys an entity listing accepts.
pub open spec fn spec_valid_app_sort(key: Seq<char>) -> bool {
    ||| key == "download_count"@
    ||| key == "average_rating"@
    ||| key == "total_star_rating_count"@
    ||| key == "price"@
    ||| key == "size_bytes"@
    ||| key == "rating_count"@
    ||| key == "created_at"@
    ||| key == "listed_at"@
    ||| key == "metrics_created_at"@
    ||| key == "rating_created_at"@
    ||| key == "version"@
    ||| key == "version_code"@
}

/// The columns an entity listing may search.
pub open spec fn spec_valid_app_search(key: Seq<char>) -> bool {
    ||| key == "name"@
    ||| key == "pkg_name"@
    ||| key == "app_id"@
    ||| key == "dev_id"@
    ||| key == "developer_name"@
    ||| key == "dev_en_name"@
    ||| key == "description"@
    ||| key == "supplier"@
    ||| key == "kind_name"@
    ||| key == "kind_type_name"@
    ||| key == "tag_name"@
    ||| key == "minsdk"@
    ||| key == "target_sdk"@
}

/// Parameters of an entity listing.
pub struct AppListQuery {
    pub sort: Option<String>,
    pub desc: Option<bool>,
    pub search_key: Option<String>,
    pub search_value: Option<String>,
    pub search_exact: Option<bool>,
    pub search_not_null: Option<bool>,
    pub page_size: Option<u32>,
    pub detail: Option<bool>,
    pub exclude_huawei: Option<bool>,
    pub exclude_atomic: Option<bool>,
}

impl AppListQuery {
    /// Whether the requested sort key is one the listing accepts.
    pub fn is_valid_sort(&self) -> (r: bool)
        ensures
            r == (match self.sort {
                Some(k) => spec_valid_app_sort(k@),
                None => false,
            }),
    {
        match &self.sort {
            Some(k) => {
                let s = k.as_str();
                str_eq(s, "download_count") || str_eq(s, "average_rating") || str_eq(
                    s,
                    "total_star_rating_count",
                ) || str_eq(s, "price") || str_eq(s, "size_bytes") || str_eq(s, "rating_count")
                    || str_eq(s, "created_at") || str_eq(s, "listed_at") || str_eq(
                    s,
                    "metrics_created_at",
                ) || str_eq(s, "rating_created_at") || str_eq(s, "version") || str_eq(
                    s,
                    "version_code",
                )
            },
            None => false,
        }
    }

    /// Whether rows of the first-party developer are excluded.
    pub fn exclude_huawei(&self) -> (r: bool)
        ensures
            r == (self.exclude_huawei == Some(true)),
    {
        match self.exclude_huawei {
            Some(b) => b,
            None => false,
        }
    }

    /// Whether lightweight services are excluded.
    pub fn exclude_atomic(&self) -> (r: bool)
        ensures
            r == (self.exclude_atomic == Some(true)),
    {
        match self.exclude_atomic {
            Some(b) => b,
            None => false,
        }
    }

    /// The sort key actually used: the requested one when it is allowed,
    /// the creation instant otherwise.
    pub fn sort_key(&self) -> (r: String)
        ensures
            r@ == (match self.sort {
                Some(k) => if spec_valid_app_sort(k@) {
                    k@
                } else {
                    "created_at"@
                },
                None => "created_at"@,
            }),
    {
        if self.is_valid_sort() {
            match &self.sort {
                Some(k) => k.clone(),
                None => "created_at".to_owned(),
            }
        } else {
            "created_at".to_owned()
        }
    }

    /// The requested sort key as given.
    pub fn raw_sort_key(&self) -> (r: Option<String>)
        ensures
            opt_str_view(r) == opt_str_view(self.sort),
    {
        match &self.sort {
            Some(k) => Some(k.clone()),
            None => None,
        }
    }

    /// The page size, defaulting to one hundred rows.
    pub fn page_size(&self) -> (r: u32)
        ensures
            r == (match self.page_size {
                Some(v) => v,
                None => 100u32,
            }),
    {
        match self.page_size {
            Some(v) => v,
            None => 100,
        }
    }

    /// Whether full rows were asked for; the default is yes.
    pub fn detail(&self) -> (r: bool)
        ensures
            r == (self.detail != Some(false)),
    {
        match self.detail {
            Some(b) => b,
            None => true,
        }
    }

    /// Whether the requested search column is one the listing accepts.
    pub fn is_valid_search(&self) -> (r: bool)
        ensures
            r == (match self.search_key {
                Some(k) => spec_valid_app_search(k@),
                None => false,
            }),
    {
        match &self.search_key {
            Some(k) => {
                let s = k.as_str();
                str_eq(s, "name") || str_eq(s, "pkg_name") || str_eq(s, "app_id") || str_eq(
                    s,
                    "dev_id",
                ) || str_eq(s, "developer_name") || str_eq(s, "dev_en_name") || str_eq(
                    s,
                    "description",
                ) || str_eq(s, "supplier") || str_eq(s, "kind_name") || str_eq(s, "kind_type_name")
                    || str_eq(s, "tag_name") || str_eq(s, "minsdk") || str_eq(s, "target_sdk")
            },
            None => false,
        }
    }

    /// The requested search column as given.
    pub fn raw_search_key(&self) -> (r: Option<String>)
        ensures
            opt_str_view(r) == opt_str_view(self.search_key),
    {
        match &self.search_key {
            Some(k) => Some(k.clone()),
            None => None,
        }
    }

    /// The vetted search term: only an allowed column with a value makes
    /// one; an exact match must be asked for, excluding empty values is
    /// the default.
    pub fn search_option(&self) -> (r: Option<DbSearch>)
        ensures
            match r {
                Some(term) => {
                    &&& self.search_key is Some
                    &&& spec_valid_app_search(self.search_key->Some_0@)
                    &&& self.search_value is Some
                    &&& term.key@ == self.search_key->Some_0@
                    &&& term.value@ == self.search_value->Some_0@
                    &&& term.is_exact == (self.search_exact == Some(true))
                    &&& term.not_null == (self.search_not_null != Some(false))
                },
                None => !(match self.search_key {
                    Some(k) => spec_valid_app_search(k@),
                    None => false,
                }) || self.search_value is None,
            },
{
        if !self.is_valid_search() {
            return None;
        }
        match (&self.search_key, &self.search_value) {
            (Some(key), Some(value)) => Some(
                DbSearch::new(
                    key.clone(),
                    value.clone(),
                    match self.search_exact {
                        Some(b) => b,
                        None => false,
                    },
                    match self.search_not_null {
                        Some(b) => b,
                        None => true,
                    },
                ),
            ),
            _ => None,
        }
    }
}

/// Parameters of the download-increase listing.
pub struct IntervalParams {
    pub months: Option<u32>,
    pub days: Option<u32>,
    pub limit: Option<u32>,
    pub listed_days: Option<u32>,
    pub listed_months: Option<u32>,
    pub page: Option<u32>,
    pub exclude_huawei: Option<bool>,
    pub exclude_atomic: Option<bool>,
}

impl IntervalParams {
    /// The row cap, defaulting to one hundred.
    pub fn limit(&self) -> (r: u32)
        ensures
            r == (match self.limit {
                Some(v) => v,
                None => 100u32,
            }),
    {
        match self.limit {
            Some(v) => v,
            None => 100,
        }
    }

    /// Whether rows of the first-party developer are excluded.
    pub fn exclude_huawei(&self) -> (r: bool)
        ensures
            r == (self.exclude_huawei == Some(true)),
    {
        match self.exclude_huawei {
            Some(b) => b,
            None => false,
        }
    }

    /// Whether lightweight services are excluded.
    pub fn exclude_atomic(&self) -> (r: bool)
        ensures
            r == (self.exclude_atomic == Some(true)),
    {
        match self.exclude_atomic {
            Some(b) => b,
            None => false,
        }
    }
}

/// One entity named by a caller: by identifier, by package name, or not
/// at all.
pub struct AppQueryParam {
    pub app_id: Option<String>,
    pub pkg_name: Option<String>,
}

impl AppQueryParam {
    /// Whether the caller named an entity at all.
    pub fn is_valid(&self) -> (r: bool)
        ensures
            r == (self.app_id is Some || self.pkg_name is Some),
    {
        self.app_id.is_some() || self.pkg_name.is_some()
    }

    /// The named entity as a query; an identifier wins over a package
    /// name.
    pub fn as_query(&self) -> (r: Option<AppQuery>)
        ensures
            match r {
                Some(q) => qv(q) == (if self.app_id is Some {
                    (1int, self.app_id->Some_0@)
                } else {
                    (0int, self.pkg_name->Some_0@)
                }),
                None => self.app_id is None && self.pkg_name is None,
            },
    {
        match &self.app_id {
            Some(app_id) => Some(AppQuery::app_id(app_id.as_str())),
            None => match &self.pkg_name {
                Some(pkg_name) => Some(AppQuery::pkg_name(pkg_name.as_str())),
                None => None,
            },
        }
    }
}

/// The sort keys a collection listing accepts.
pub open spec fn spec_valid_substance_sort(key: Seq<char>) -> bool {
    key == "created_at"@ || key == "substance_id"@
}

/// Parameters of a collection listing.
pub struct SubstanceListQuery {
    pub sort: Option<String>,
    pub desc: Option<bool>,
    pub page_size: Option<u32>,
}

impl SubstanceListQuery {
    /// Whether the requested sort key is one the listing accepts.
    pub fn is_valid_sort(&self) -> (r: bool)
        ensures
            r == (match self.sort {
                Some(k) => spec_valid_substance_sort(k@),
                None => false,
            }),
    {
        match &self.sort {
            Some(k) => str_eq(k.as_str(), "created_at") || str_eq(k.as_str(), "substance_id"),
            None => false,
        }
    }

    /// The sort key actually used: the requested one when it is allowed,
    /// the creation instant otherwise.
    pub fn sort_key(&self) -> (r: String)
        ensures
            r@ == (match self.sort {
                Some(k) => if spec_valid_substance_sort(k@) {
                    k@
                } else {
                    "created_at"@
                },
                None => "created_at"@,
            }),
    {
        if self.is_valid_sort() {
            match &self.sort {
                Some(k) => k.clone(),
                None => "created_at".to_owned(),
            }
        } else {
            "created_at".to_owned()
        }
    }

    /// The requested sort key as given.
    pub fn raw_sort_key(&self) -> (r: Option<String>)
        ensures
            opt_str_view(r) == opt_str_view(self.sort),
    {
        match &self.sort {
            Some(k) => Some(k.clone()),
            None => None,
        }
    }

    /// The page size, defaulting to one hundred rows.
    pub fn page_size(&self) -> (r: u32)
        ensures
            r == (match self.page_size {
                Some(v) => v,
                None => 100u32,
            }),
    {
        match self.page_size {
            Some(v) => v,
            None => 100,
        }
    }
}

} // verus!
