//! Search terms handed to the persistence collaborator's query layer.

use vstd::prelude::*;

use crate::utils::str_eq;

verus! {

/// A page of rows with its paging bookkeeping.
pub struct PageInfo<D> {
    pub data: Vec<D>,
    pub total_count: u32,
    pub page: u32,
    pub page_size: u32,
    pub total_pages: u32,
}

/// How many entities are stored, split by kind.
pub struct AppCounts {
    pub total: i64,
    pub apps: i64,
    pub atomic_services: i64,
}

/// The icon row of one entity.
pub struct AppIconInfo {
    pub app_id: String,
    pub pkg_name: String,
    pub name: String,
    pub icon_url: String,
}

/// The configured cap on rows a query may return, with its default.
pub fn get_max_limit(configured: Option<u32>) -> (r: u32)
    ensures
        r == (match configured {
            Some(v) => v,
            None => 100u32,
        }),
{
    match configured {
        Some(v) => v,
        None => 100,
    }
}

/// One search term: the column, the value, and whether the match is exact
/// and excludes empty values.
pub struct DbSearch {
    pub key: String,
    pub value: String,
    pub is_exact: bool,
    pub not_null: bool,
}

/// True when the term searches an integer column, which is matched by
/// equality rather than by pattern.
pub open spec fn spec_is_int_search(key: Seq<char>) -> bool {
    key == "minsdk"@ || key == "target_sdk"@
}

impl DbSearch {
    /// A search term.
    pub fn new(key: String, value: String, is_exact: bool, not_null: bool) -> (r: DbSearch)
        ensures
            r.key@ == key@,
            r.value@ == value@,
            r.is_exact == is_exact,
            r.not_null == not_null,
    {
        DbSearch { key, value, is_exact, not_null }
    }

    /// An exact-match term.
    pub fn exact(key: String, value: String, not_null: bool) -> (r: DbSearch)
        ensures
            r.key@ == key@,
            r.value@ == value@,
            r.is_exact,
            r.not_null == not_null,
    {
        DbSearch { key, value, is_exact: true, not_null }
    }

    /// A pattern-match term.
    pub fn fuzzy(key: String, value: String, not_null: bool) -> (r: DbSearch)
        ensures
            r.key@ == key@,
            r.value@ == value@,
            !r.is_exact,
            r.not_null == not_null,
    {
        DbSearch { key, value, is_exact: false, not_null }
    }

    /// The value as bound to the query: kept as it is for an exact or
    /// integer search, wrapped in wildcards for a pattern search.
    pub fn search_value(&self) -> (r: String)
        ensures
            r@ == (if self.is_exact || spec_is_int_search(self.key@) {
                self.value@
            } else {
                "%"@ + self.value@ + "%"@
            }),
    {
        if self.is_exact || self.is_int_search() {
            self.value.clone()
        } else {
            let r = "%".to_owned().concat(self.value.as_str()).concat("%");
            proof {
                assert(r@ =~= "%"@ + self.value@ + "%"@);
            }
            r
        }
    }

    /// Whether the term searches an integer column.
    pub fn is_int_search(&self) -> (r: bool)
        ensures
            r == spec_is_int_search(self.key@),
    {
        str_eq(self.key.as_str(), "minsdk") || str_eq(self.key.as_str(), "target_sdk")
    }

    /// The comparison the term uses: equality for an integer column, a
    /// case-insensitive pattern otherwise.
    pub fn search_method(&self) -> (r: String)
        ensures
            r@ == (if spec_is_int_search(self.key@) {
                "="@
            } else {
                "ILIKE"@
            }),
    {
        if self.is_int_search() {
            "=".to_owned()
        } else {
            "ILIKE".to_owned()
        }
    }
}

} // verus!
