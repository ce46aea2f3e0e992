//! Structural model of the upstream JSON payloads.
//!
//! Fetched payloads are held as [`JsonVal`] trees so that change detection,
//! trace masking and card extraction are ordinary verified functions. The
//! mathematical model of a tree is [`JsonSpec`], with sequences in place of
//! vectors and character sequences in place of strings; non-integer numbers
//! keep their decimal text, so two payloads are equal exactly when their
//! models are.

use vstd::prelude::*;

use crate::utils::str_eq;

verus! {

broadcast use vstd::std_specs::vec::group_vec_axioms;

/// One JSON value as the library holds it.
pub enum JsonVal {
    Null,
    Bool(bool),
    Int(i64),
    /// A number that does not fit an `i64`, kept as its decimal text.
    Num(String),
    Str(String),
    Arr(Vec<JsonVal>),
    Obj(Vec<(String, JsonVal)>),
}

/// The mathematical model of a JSON value.
#[verifier::ext_equal]
pub enum JsonSpec {
    Null,
    Bool(bool),
    Int(i64),
    Num(Seq<char>),
    Str(Seq<char>),
    Arr(Seq<JsonSpec>),
    Obj(Seq<(Seq<char>, JsonSpec)>),
}

/// Model of a JSON value.
pub open spec fn jv(j: JsonVal) -> JsonSpec
    decreases j,
{
    match j {
        JsonVal::Null => JsonSpec::Null,
        JsonVal::Bool(b) => JsonSpec::Bool(b),
        JsonVal::Int(n) => JsonSpec::Int(n),
        JsonVal::Num(s) => JsonSpec::Num(s@),
        JsonVal::Str(s) => JsonSpec::Str(s@),
        JsonVal::Arr(items) => JsonSpec::Arr(jv_arr(items@)),
        JsonVal::Obj(fields) => JsonSpec::Obj(jv_obj(fields@)),
    }
}

/// Model of an optional JSON value.
pub open spec fn opt_jv(o: Option<JsonVal>) -> Option<JsonSpec> {
    match o {
        Some(v) => Some(jv(v)),
        None => None,
    }
}

/// Model of a sequence of JSON values.
pub open spec fn jv_arr(items: Seq<JsonVal>) -> Seq<JsonSpec>
    decreases items,
{
    if items.len() == 0 {
        Seq::empty()
    } else {
        jv_arr(items.drop_last()).push(jv(items.last()))
    }
}

/// Model of a sequence of JSON object fields.
pub open spec fn jv_obj(fields: Seq<(String, JsonVal)>) -> Seq<(Seq<char>, JsonSpec)>
    decreases fields,
{
    if fields.len() == 0 {
        Seq::empty()
    } else {
        jv_obj(fields.drop_last()).push((fields.last().0@, jv(fields.last().1)))
    }
}

pub proof fn lemma_jv_arr(items: Seq<JsonVal>)
    ensures
        jv_arr(items).len() == items.len(),
        forall|i: int| 0 <= i < items.len() ==> #[trigger] jv_arr(items)[i] == jv(items[i]),
    decreases items.len(),
{
    if items.len() > 0 {
        lemma_jv_arr(items.drop_last());
    }
}

pub proof fn lemma_jv_obj(fields: Seq<(String, JsonVal)>)
    ensures
        jv_obj(fields).len() == fields.len(),
        forall|i: int| 0 <= i < fields.len() ==> #[trigger] jv_obj(fields)[i] == (
        fields[i].0@,
        jv(fields[i].1),
        ),
    decreases fields.len(),
{
    if fields.len() > 0 {
        lemma_jv_obj(fields.drop_last());
    }
}

/// Structural equality of two JSON values, decided over their models.
#[verifier::loop_isolation(false)]
pub fn json_eq(a: &JsonVal, b: &JsonVal) -> (r: bool)
    ensures
        r == (jv(*a) == jv(*b)),
    decreases *a,
{
    match (a, b) {
        (JsonVal::Null, JsonVal::Null) => true,
        (JsonVal::Bool(x), JsonVal::Bool(y)) => x == y,
        (JsonVal::Int(x), JsonVal::Int(y)) => x == y,
        (JsonVal::Num(x), JsonVal::Num(y)) => str_eq(x.as_str(), y.as_str()),
        (JsonVal::Str(x), JsonVal::Str(y)) => str_eq(x.as_str(), y.as_str()),
        (JsonVal::Arr(xs), JsonVal::Arr(ys)) => {
            proof {
                lemma_jv_arr(xs@);
                lemma_jv_arr(ys@);
            }
            if xs.len() != ys.len() {
                return false;
            }
            let n = xs.len();
            let mut i: usize = 0;
            while i < n
                invariant
                    n == xs.len() == ys.len(),
                    i <= n,
                    jv(*a) == JsonSpec::Arr(jv_arr(xs@)),
                    jv(*b) == JsonSpec::Arr(jv_arr(ys@)),
                    jv_arr(xs@).len() == n,
                    jv_arr(ys@).len() == n,
                    forall|k: int| 0 <= k < i ==> #[trigger] jv_arr(xs@)[k] == jv_arr(ys@)[k],
                decreases n - i,
            {
                proof {
                    lemma_jv_arr(xs@);
                    lemma_jv_arr(ys@);
                }
                if !json_eq(&xs[i], &ys[i]) {
                    proof {
                        assert(jv_arr(xs@)[i as int] != jv_arr(ys@)[i as int]);
                    }
                    return false;
                }
                i = i + 1;
            }
            proof {
                assert(jv_arr(xs@) =~= jv_arr(ys@));
            }
            true
        },
        (JsonVal::Obj(xs), JsonVal::Obj(ys)) => {
            proof {
                lemma_jv_obj(xs@);
                lemma_jv_obj(ys@);
            }
            if xs.len() != ys.len() {
                return false;
            }
            let n = xs.len();
            let mut i: usize = 0;
            while i < n
                invariant
                    n == xs.len() == ys.len(),
                    i <= n,
                    jv(*a) == JsonSpec::Obj(jv_obj(xs@)),
                    jv(*b) == JsonSpec::Obj(jv_obj(ys@)),
                    jv_obj(xs@).len() == n,
                    jv_obj(ys@).len() == n,
                    forall|k: int| 0 <= k < i ==> #[trigger] jv_obj(xs@)[k] == jv_obj(ys@)[k],
                decreases n - i,
            {
                proof {
                    lemma_jv_obj(xs@);
                    lemma_jv_obj(ys@);
                }
                let keys_equal = str_eq(xs[i].0.as_str(), ys[i].0.as_str());
                if !keys_equal {
                    proof {
                        assert(jv_obj(xs@)[i as int] != jv_obj(ys@)[i as int]);
                    }
                    return false;
                }
                if !json_eq(&xs[i].1, &ys[i].1) {
                    proof {
                        assert(jv_obj(xs@)[i as int] != jv_obj(ys@)[i as int]);
                    }
                    return false;
                }
                i = i + 1;
            }
            proof {
                assert(jv_obj(xs@) =~= jv_obj(ys@));
            }
            true
        },
        _ => {
            proof {
                assert(jv(*a) != jv(*b));
            }
            false
        },
    }
}

/// An exact copy of a JSON value.
#[verifier::loop_isolation(false)]
pub fn json_copy(v: &JsonVal) -> (r: JsonVal)
    ensures
        jv(r) == jv(*v),
    decreases *v,
{
    match v {
        JsonVal::Null => JsonVal::Null,
        JsonVal::Bool(b) => JsonVal::Bool(*b),
        JsonVal::Int(n) => JsonVal::Int(*n),
        JsonVal::Num(s) => JsonVal::Num(s.clone()),
        JsonVal::Str(s) => JsonVal::Str(s.clone()),
        JsonVal::Arr(xs) => {
            let n = xs.len();
            let mut out: Vec<JsonVal> = Vec::new();
            let mut i: usize = 0;
            while i < n
                invariant
                    n == xs.len(),
                    i <= n,
                    out@.len() == i,
                    forall|k: int| 0 <= k < i ==> #[trigger] jv(out@[k]) == jv(xs@[k]),
                decreases n - i,
            {
                let item = json_copy(&xs[i]);
                out.push(item);
                i = i + 1;
            }
            proof {
                lemma_jv_arr(xs@);
                lemma_jv_arr(out@);
                assert(jv_arr(out@) =~= jv_arr(xs@));
            }
            JsonVal::Arr(out)
        },
        JsonVal::Obj(xs) => {
            let n = xs.len();
            let mut out: Vec<(String, JsonVal)> = Vec::new();
            let mut i: usize = 0;
            while i < n
                invariant
                    n == xs.len(),
                    i <= n,
                    out@.len() == i,
                    forall|k: int| 0 <= k < i ==> #[trigger] out@[k].0@ == xs@[k].0@ && jv(
                        out@[k].1,
                    ) == jv(xs@[k].1),
                decreases n - i,
            {
                let key = xs[i].0.clone();
                let val = json_copy(&xs[i].1);
                out.push((key, val));
                i = i + 1;
            }
            proof {
                lemma_jv_obj(xs@);
                lemma_jv_obj(out@);
                assert(jv_obj(out@) =~= jv_obj(xs@));
            }
            JsonVal::Obj(out)
        },
    }
}

/// True when the five characters starting at `i` read "trace", letter case
/// ignored.
pub open spec fn spec_trace_at(s: Seq<char>, i: int) -> bool {
    &&& (s[i] == 't' || s[i] == 'T')
    &&& (s[i + 1] == 'r' || s[i + 1] == 'R')
    &&& (s[i + 2] == 'a' || s[i + 2] == 'A')
    &&& (s[i + 3] == 'c' || s[i + 3] == 'C')
    &&& (s[i + 4] == 'e' || s[i + 4] == 'E')
}

/// True when the string holds the substring "trace", letter case ignored.
pub open spec fn spec_contains_trace(s: Seq<char>) -> bool {
    exists|i: int| 0 <= i && i + 5 <= s.len() && spec_trace_at(s, i)
}

/// Reports whether the string holds the substring "trace", letter case
/// ignored.
pub fn contains_trace(s: &str) -> (r: bool)
    ensures
        r == spec_contains_trace(s@),
{
    let n: usize = s.unicode_len();
    if n < 5 {
        return false;
    }
    let mut i: usize = 0;
    while i <= n - 5
        invariant
            n == s@.len(),
            5 <= n,
            i <= n,
            forall|j: int| 0 <= j < i ==> !spec_trace_at(s@, j),
        decreases n - i,
    {
        let c0 = s.get_char(i);
        let c1 = s.get_char(i + 1);
        let c2 = s.get_char(i + 2);
        let c3 = s.get_char(i + 3);
        let c4 = s.get_char(i + 4);
        if (c0 == 't' || c0 == 'T') && (c1 == 'r' || c1 == 'R') && (c2 == 'a' || c2 == 'A') && (c3
            == 'c' || c3 == 'C') && (c4 == 'e' || c4 == 'E') {
            proof {
                assert(spec_trace_at(s@, i as int));
            }
            return true;
        }
        i = i + 1;
    }
    false
}

/// The mask that replaces any string value holding a trace identifier.
pub open spec fn spec_trace_mask() -> Seq<char> {
    "TRACE_MASKED"@
}

/// The trace-masked form of a string value.
pub open spec fn spec_mask_string(s: Seq<char>) -> Seq<char> {
    if spec_contains_trace(s) {
        spec_trace_mask()
    } else {
        s
    }
}

/// The trace-masked form of a JSON value: every string value that holds the
/// substring "trace", letter case ignored, becomes the fixed mask; keys and
/// everything else stay as they are.
pub open spec fn spec_mask(j: JsonSpec) -> JsonSpec
    decreases j,
{
    match j {
        JsonSpec::Str(s) => JsonSpec::Str(spec_mask_string(s)),
        JsonSpec::Arr(items) => JsonSpec::Arr(spec_mask_arr(items)),
        JsonSpec::Obj(fields) => JsonSpec::Obj(spec_mask_obj(fields)),
        other => other,
    }
}

/// The trace-masked form of a sequence of JSON values.
pub open spec fn spec_mask_arr(items: Seq<JsonSpec>) -> Seq<JsonSpec>
    decreases items,
{
    if items.len() == 0 {
        Seq::empty()
    } else {
        spec_mask_arr(items.drop_last()).push(spec_mask(items.last()))
    }
}

/// The trace-masked form of a sequence of JSON object fields.
pub open spec fn spec_mask_obj(fields: Seq<(Seq<char>, JsonSpec)>) -> Seq<(Seq<char>, JsonSpec)>
    decreases fields,
{
    if fields.len() == 0 {
        Seq::empty()
    } else {
        spec_mask_obj(fields.drop_last()).push(
            (fields.last().0, spec_mask(fields.last().1)),
        )
    }
}

pub proof fn lemma_mask_arr(items: Seq<JsonSpec>)
    ensures
        spec_mask_arr(items).len() == items.len(),
        forall|i: int| 0 <= i < items.len() ==> #[trigger] spec_mask_arr(items)[i] == spec_mask(
            items[i],
        ),
    decreases items.len(),
{
    if items.len() > 0 {
        lemma_mask_arr(items.drop_last());
    }
}

pub proof fn lemma_mask_obj(fields: Seq<(Seq<char>, JsonSpec)>)
    ensures
        spec_mask_obj(fields).len() == fields.len(),
        forall|i: int| 0 <= i < fields.len() ==> #[trigger] spec_mask_obj(fields)[i] == (
        fields[i].0,
        spec_mask(fields[i].1),
        ),
    decreases fields.len(),
{
    if fields.len() > 0 {
        lemma_mask_obj(fields.drop_last());
    }
}

/// Replaces a string value by the fixed mask when it holds a trace
/// identifier.
fn mask_string(s: &String) -> (r: String)
    ensures
        r@ == spec_mask_string(s@),
{
    if contains_trace(s.as_str()) {
        "TRACE_MASKED".to_owned()
    } else {
        s.clone()
    }
}

/// The trace-masking normalization applied to collection payloads before
/// they are compared: volatile trace identifiers are replaced by a fixed
/// mask so that their churn alone never reads as a data change.
#[verifier::loop_isolation(false)]
pub fn normalize_json_for_comparison(v: &JsonVal) -> (r: JsonVal)
    ensures
        jv(r) == spec_mask(jv(*v)),
    decreases *v,
{
    match v {
        JsonVal::Null => JsonVal::Null,
        JsonVal::Bool(b) => JsonVal::Bool(*b),
        JsonVal::Int(n) => JsonVal::Int(*n),
        JsonVal::Num(s) => JsonVal::Num(s.clone()),
        JsonVal::Str(s) => JsonVal::Str(mask_string(s)),
        JsonVal::Arr(xs) => {
            let n = xs.len();
            let mut out: Vec<JsonVal> = Vec::new();
            let mut i: usize = 0;
            while i < n
                invariant
                    n == xs.len(),
                    i <= n,
                    out@.len() == i,
                    forall|k: int| 0 <= k < i ==> #[trigger] jv(out@[k]) == spec_mask(jv(xs@[k])),
                decreases n - i,
            {
                let item = normalize_json_for_comparison(&xs[i]);
                out.push(item);
                i = i + 1;
            }
            proof {
                lemma_jv_arr(xs@);
                lemma_jv_arr(out@);
                lemma_mask_arr(jv_arr(xs@));
                assert(jv_arr(out@) =~= spec_mask_arr(jv_arr(xs@)));
            }
            JsonVal::Arr(out)
        },
        JsonVal::Obj(xs) => {
            let n = xs.len();
            let mut out: Vec<(String, JsonVal)> = Vec::new();
            let mut i: usize = 0;
            while i < n
                invariant
                    n == xs.len(),
                    i <= n,
                    out@.len() == i,
                    forall|k: int| 0 <= k < i ==> #[trigger] out@[k].0@ == xs@[k].0@ && jv(
                        out@[k].1,
                    ) == spec_mask(jv(xs@[k].1)),
                decreases n - i,
            {
                let key = xs[i].0.clone();
                let val = normalize_json_for_comparison(&xs[i].1);
                out.push((key, val));
                i = i + 1;
            }
            proof {
                lemma_jv_obj(xs@);
                lemma_jv_obj(out@);
                lemma_mask_obj(jv_obj(xs@));
                assert(jv_obj(out@) =~= spec_mask_obj(jv_obj(xs@)));
            }
            JsonVal::Obj(out)
        },
    }
}

/// The value of the first field with the given key, if the value is an
/// object that has one.
pub open spec fn spec_get_field(j: JsonSpec, key: Seq<char>) -> Option<JsonSpec> {
    match j {
        JsonSpec::Obj(fields) => spec_get_in_fields(fields, key),
        _ => None,
    }
}

/// The value of the first field with the given key in a field sequence.
pub open spec fn spec_get_in_fields(
    fields: Seq<(Seq<char>, JsonSpec)>,
    key: Seq<char>,
) -> Option<JsonSpec>
    decreases fields,
{
    if fields.len() == 0 {
        None
    } else if fields.first().0 == key {
        Some(fields.first().1)
    } else {
        spec_get_in_fields(fields.drop_first(), key)
    }
}

/// Looks a field up by key; yields the first match of an object, nothing
/// otherwise.
#[verifier::loop_isolation(false)]
pub fn get_field<'a>(v: &'a JsonVal, key: &str) -> (r: Option<&'a JsonVal>)
    ensures
        match r {
            Some(f) => spec_get_field(jv(*v), key@) == Some(jv(*f)),
            None => spec_get_field(jv(*v), key@) is None,
        },
{
    match v {
        JsonVal::Obj(fields) => {
            proof {
                lemma_jv_obj(fields@);
            }
            let n = fields.len();
            proof {
                assert(jv_obj(fields@).skip(0) =~= jv_obj(fields@));
            }
            let mut i: usize = 0;
            while i < n
                invariant
                    n == fields.len(),
                    i <= n,
                    spec_get_in_fields(jv_obj(fields@), key@) == spec_get_in_fields(
                        jv_obj(fields@).skip(i as int),
                        key@,
                    ),
                    jv_obj(fields@).len() == n,
                    forall|k: int| 0 <= k < n ==> #[trigger] jv_obj(fields@)[k] == (
                    fields@[k].0@,
                    jv(fields@[k].1),
                    ),
                decreases n - i,
            {
                proof {
                    assert(jv_obj(fields@).skip(i as int).first() == jv_obj(fields@)[i as int]);
                    assert(jv_obj(fields@).skip(i as int).drop_first() =~= jv_obj(fields@).skip(
                        i + 1,
                    ));
                }
                if str_eq(fields[i].0.as_str(), key) {
                    return Some(&fields[i].1);
                }
                i = i + 1;
            }
            proof {
                assert(jv_obj(fields@).skip(n as int) =~= Seq::empty());
            }
            None
        },
        _ => None,
    }
}

/// The string content of a JSON value, when it is a string.
pub fn as_str_val<'a>(v: &'a JsonVal) -> (r: Option<&'a String>)
    ensures
        match r {
            Some(s) => jv(*v) == JsonSpec::Str(s@),
            None => !(jv(*v) is Str),
        },
{
    match v {
        JsonVal::Str(s) => Some(s),
        _ => None,
    }
}


/// Two JSON values that differ only in string values holding a trace
/// identifier (letter case ignored): everything else is equal, and
/// corresponding strings are either equal or both hold one.
pub open spec fn trace_equiv(a: JsonSpec, b: JsonSpec) -> bool
    decreases a,
{
    match (a, b) {
        (JsonSpec::Str(x), JsonSpec::Str(y)) => x == y || (spec_contains_trace(x)
            && spec_contains_trace(y)),
        (JsonSpec::Arr(xs), JsonSpec::Arr(ys)) => trace_equiv_arr(xs, ys),
        (JsonSpec::Obj(xs), JsonSpec::Obj(ys)) => trace_equiv_obj(xs, ys),
        (x, y) => x == y,
    }
}

/// Element-wise trace equivalence of two JSON lists.
pub open spec fn trace_equiv_arr(xs: Seq<JsonSpec>, ys: Seq<JsonSpec>) -> bool
    decreases xs,
{
    if xs.len() != ys.len() {
        false
    } else if xs.len() == 0 {
        true
    } else {
        trace_equiv_arr(xs.drop_last(), ys.drop_last()) && trace_equiv(xs.last(), ys.last())
    }
}

/// Field-wise trace equivalence of two JSON objects: keys equal, values
/// equivalent.
pub open spec fn trace_equiv_obj(
    xs: Seq<(Seq<char>, JsonSpec)>,
    ys: Seq<(Seq<char>, JsonSpec)>,
) -> bool
    decreases xs,
{
    if xs.len() != ys.len() {
        false
    } else if xs.len() == 0 {
        true
    } else {
        trace_equiv_obj(xs.drop_last(), ys.drop_last()) && xs.last().0 == ys.last().0
            && trace_equiv(xs.last().1, ys.last().1)
    }
}

/// The mask itself holds the substring it masks.
proof fn lemma_mask_contains_trace()
    ensures
        spec_contains_trace(spec_trace_mask()),
{
    reveal_strlit("TRACE_MASKED");
    assert(spec_trace_at("TRACE_MASKED"@, 0));
}

/// Two masked strings are equal exactly when the strings are equal or
/// both hold a trace identifier: masking makes every trace-holding value
/// one and the same, and keeps every other value apart.
pub proof fn lemma_mask_string_eq_iff(x: Seq<char>, y: Seq<char>)
    ensures
        (spec_mask_string(x) == spec_mask_string(y)) <==> (x == y || (spec_contains_trace(x)
            && spec_contains_trace(y))),
{
    lemma_mask_contains_trace();
    if spec_contains_trace(x) && !spec_contains_trace(y) {
        assert(spec_mask_string(y) == y);
        if spec_mask_string(x) == spec_mask_string(y) {
            assert(y == spec_trace_mask());
        }
    }
    if !spec_contains_trace(x) && spec_contains_trace(y) {
        assert(spec_mask_string(x) == x);
        if spec_mask_string(x) == spec_mask_string(y) {
            assert(x == spec_trace_mask());
        }
    }
}

/// The trace-masking comparator treats two payloads as equal exactly when
/// they differ in nothing but string values holding a trace identifier:
/// the churn of injected trace identifiers never reads as a change, and
/// any other textual difference always does.
pub proof fn lemma_mask_eq_iff_trace_equiv(a: JsonSpec, b: JsonSpec)
    ensures
        (spec_mask(a) == spec_mask(b)) <==> trace_equiv(a, b),
    decreases a,
{
    match (a, b) {
        (JsonSpec::Str(x), JsonSpec::Str(y)) => {
            lemma_mask_string_eq_iff(x, y);
        },
        (JsonSpec::Arr(xs), JsonSpec::Arr(ys)) => {
            lemma_mask_arr_eq_iff(xs, ys);
        },
        (JsonSpec::Obj(xs), JsonSpec::Obj(ys)) => {
            lemma_mask_obj_eq_iff(xs, ys);
        },
        (x, y) => {
            lemma_mask_contains_trace();
        },
    }
}

proof fn lemma_mask_arr_eq_iff(xs: Seq<JsonSpec>, ys: Seq<JsonSpec>)
    ensures
        (spec_mask_arr(xs) == spec_mask_arr(ys)) <==> trace_equiv_arr(xs, ys),
    decreases xs,
{
    lemma_mask_arr(xs);
    lemma_mask_arr(ys);
    if xs.len() != ys.len() {
        assert(spec_mask_arr(xs).len() != spec_mask_arr(ys).len());
    } else if xs.len() == 0 {
        assert(spec_mask_arr(xs) =~= spec_mask_arr(ys));
    } else {
        lemma_mask_arr_eq_iff(xs.drop_last(), ys.drop_last());
        lemma_mask_eq_iff_trace_equiv(xs.last(), ys.last());
        lemma_mask_arr(xs.drop_last());
        lemma_mask_arr(ys.drop_last());
        if trace_equiv_arr(xs, ys) {
            assert(spec_mask_arr(xs) =~= spec_mask_arr(ys));
        }
        if spec_mask_arr(xs) == spec_mask_arr(ys) {
            assert forall|i: int| 0 <= i < xs.len() - 1 implies #[trigger] spec_mask_arr(
                xs.drop_last(),
            )[i] == spec_mask_arr(ys.drop_last())[i] by {
                assert(spec_mask_arr(xs.drop_last())[i] == spec_mask(xs.drop_last()[i]));
                assert(spec_mask(xs.drop_last()[i]) == spec_mask(xs[i]));
                assert(spec_mask_arr(xs)[i] == spec_mask(xs[i]));
                assert(spec_mask_arr(xs)[i] == spec_mask_arr(ys)[i]);
                assert(spec_mask_arr(ys)[i] == spec_mask(ys[i]));
                assert(spec_mask(ys.drop_last()[i]) == spec_mask(ys[i]));
            }
            assert(spec_mask_arr(xs.drop_last()) =~= spec_mask_arr(ys.drop_last()));
            assert(spec_mask_arr(xs)[xs.len() - 1] == spec_mask_arr(ys)[ys.len() - 1]);
            assert(spec_mask(xs.last()) == spec_mask(ys.last()));
        }
    }
}

proof fn lemma_mask_obj_eq_iff(xs: Seq<(Seq<char>, JsonSpec)>, ys: Seq<(Seq<char>, JsonSpec)>)
    ensures
        (spec_mask_obj(xs) == spec_mask_obj(ys)) <==> trace_equiv_obj(xs, ys),
    decreases xs,
{
    lemma_mask_obj(xs);
    lemma_mask_obj(ys);
    if xs.len() != ys.len() {
        assert(spec_mask_obj(xs).len() != spec_mask_obj(ys).len());
    } else if xs.len() == 0 {
        assert(spec_mask_obj(xs) =~= spec_mask_obj(ys));
    } else {
        lemma_mask_obj_eq_iff(xs.drop_last(), ys.drop_last());
        lemma_mask_eq_iff_trace_equiv(xs.last().1, ys.last().1);
        lemma_mask_obj(xs.drop_last());
        lemma_mask_obj(ys.drop_last());
        if trace_equiv_obj(xs, ys) {
            assert(spec_mask_obj(xs) =~= spec_mask_obj(ys));
        }
        if spec_mask_obj(xs) == spec_mask_obj(ys) {
            assert forall|i: int| 0 <= i < xs.len() - 1 implies #[trigger] spec_mask_obj(
                xs.drop_last(),
            )[i] == spec_mask_obj(ys.drop_last())[i] by {
                assert(spec_mask_obj(xs.drop_last())[i] == (
                xs.drop_last()[i].0,
                spec_mask(xs.drop_last()[i].1),
                ));
                assert(xs.drop_last()[i] == xs[i]);
                assert(spec_mask_obj(xs)[i] == (xs[i].0, spec_mask(xs[i].1)));
                assert(spec_mask_obj(xs)[i] == spec_mask_obj(ys)[i]);
                assert(spec_mask_obj(ys)[i] == (ys[i].0, spec_mask(ys[i].1)));
                assert(ys.drop_last()[i] == ys[i]);
            }
            assert(spec_mask_obj(xs.drop_last()) =~= spec_mask_obj(ys.drop_last()));
            assert(spec_mask_obj(xs)[xs.len() - 1] == spec_mask_obj(ys)[ys.len() - 1]);
            assert(xs.last().0 == ys.last().0);
            assert(spec_mask(xs.last().1) == spec_mask(ys.last().1));
        }
    }
}

} // verus!
