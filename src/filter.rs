use vstd::prelude::*;

use crate::text::{decimal, render_i32, render_i64};

verus! {

/// Query parameters in the order they are appended to a request: each a key and
/// its value.
pub type Params = Vec<(String, String)>;

/// A caller's query constraints. Every field is optional; an absent field adds
/// no parameter. Values are passed through without validation.
#[derive(Debug, Clone, PartialEq, Default)]
pub struct GwasFilter {
    /// Lower and upper p-value bounds, as decimal text.
    pub p_value_range: Option<(String, String)>,
    /// Lower and upper base-pair locations.
    pub bp_location_range: Option<(i64, i64)>,
    pub study: Option<String>,
    pub trait_id: Option<String>,
    /// Which fields the service reveals (for example `raw` or `all`).
    pub reveal: Option<String>,
    /// Offset of the first item of a page.
    pub start: Option<i32>,
    /// Number of items of a page.
    pub size: Option<i32>,
}

/// The parameter of one optional text field.
pub open spec fn text_param(key: Seq<char>, value: Option<String>) -> Seq<(Seq<char>, Seq<char>)> {
    match value {
        Some(v) => seq![(key, v@)],
        None => seq![],
    }
}

/// The parameter of one optional integer field, in decimal.
pub open spec fn int_param(key: Seq<char>, value: Option<i32>) -> Seq<(Seq<char>, Seq<char>)> {
    match value {
        Some(n) => seq![(key, decimal(n as int))],
        None => seq![],
    }
}

/// The two parameters of the p-value range.
pub open spec fn p_value_params(range: Option<(String, String)>) -> Seq<(Seq<char>, Seq<char>)> {
    match range {
        Some((lower, upper)) => seq![("p_lower"@, lower@), ("p_upper"@, upper@)],
        None => seq![],
    }
}

/// The two parameters of the base-pair range.
pub open spec fn bp_params(range: Option<(i64, i64)>) -> Seq<(Seq<char>, Seq<char>)> {
    match range {
        Some((lower, upper)) => seq![
            ("bp_lower"@, decimal(lower as int)),
            ("bp_upper"@, decimal(upper as int)),
        ],
        None => seq![],
    }
}

/// The parameters of a filter, in their fixed order.
pub open spec fn filter_params(f: GwasFilter) -> Seq<(Seq<char>, Seq<char>)> {
    p_value_params(f.p_value_range) + bp_params(f.bp_location_range) + text_param(
        "study_accession"@,
        f.study,
    ) + text_param("trait"@, f.trait_id) + text_param("reveal"@, f.reveal) + int_param(
        "start"@,
        f.start,
    ) + int_param("size"@, f.size)
}

/// The keys of a parameter list.
pub open spec fn param_keys(params: Seq<(Seq<char>, Seq<char>)>) -> Seq<Seq<char>> {
    params.map_values(|p: (Seq<char>, Seq<char>)| p.0)
}

/// Which optional fields of a filter are set, in field order.
pub open spec fn presence(f: GwasFilter) -> Seq<bool> {
    seq![
        f.p_value_range is Some,
        f.bp_location_range is Some,
        f.study is Some,
        f.trait_id is Some,
        f.reveal is Some,
        f.start is Some,
        f.size is Some,
    ]
}

/// Keys of a concatenation are the concatenation of the keys.
proof fn lemma_keys_concat(a: Seq<(Seq<char>, Seq<char>)>, b: Seq<(Seq<char>, Seq<char>)>)
    ensures
        param_keys(a + b) == param_keys(a) + param_keys(b),
{
    assert(param_keys(a + b) =~= param_keys(a) + param_keys(b));
}

/// The keys that a filter emits are a function of which of its fields are set:
/// two filters with the same fields set emit the same keys, in the same order.
pub proof fn lemma_keys_follow_presence(f: GwasFilter, g: GwasFilter)
    requires
        presence(f) == presence(g),
    ensures
        param_keys(filter_params(f)) == param_keys(filter_params(g)),
{
    assert(presence(f)[0] == presence(g)[0]);
    assert(presence(f)[1] == presence(g)[1]);
    assert(presence(f)[2] == presence(g)[2]);
    assert(presence(f)[3] == presence(g)[3]);
    assert(presence(f)[4] == presence(g)[4]);
    assert(presence(f)[5] == presence(g)[5]);
    assert(presence(f)[6] == presence(g)[6]);
    let fs = seq![
        p_value_params(f.p_value_range),
        bp_params(f.bp_location_range),
        text_param("study_accession"@, f.study),
        text_param("trait"@, f.trait_id),
        text_param("reveal"@, f.reveal),
        int_param("start"@, f.start),
        int_param("size"@, f.size),
    ];
    let gs = seq![
        p_value_params(g.p_value_range),
        bp_params(g.bp_location_range),
        text_param("study_accession"@, g.study),
        text_param("trait"@, g.trait_id),
        text_param("reveal"@, g.reveal),
        int_param("start"@, g.start),
        int_param("size"@, g.size),
    ];
    assert forall|i: int| 0 <= i < 7 implies param_keys(#[trigger] fs[i]) == param_keys(gs[i]) by {
        assert(param_keys(fs[i]) =~= param_keys(gs[i]));
    }
    assert(param_keys(fs[0]) == param_keys(gs[0]));
    assert(param_keys(fs[1]) == param_keys(gs[1]));
    assert(param_keys(fs[2]) == param_keys(gs[2]));
    assert(param_keys(fs[3]) == param_keys(gs[3]));
    assert(param_keys(fs[4]) == param_keys(gs[4]));
    assert(param_keys(fs[5]) == param_keys(gs[5]));
    assert(param_keys(fs[6]) == param_keys(gs[6]));
    lemma_keys_concat(fs[0], fs[1]);
    lemma_keys_concat(fs[0] + fs[1], fs[2]);
    lemma_keys_concat(fs[0] + fs[1] + fs[2], fs[3]);
    lemma_keys_concat(fs[0] + fs[1] + fs[2] + fs[3], fs[4]);
    lemma_keys_concat(fs[0] + fs[1] + fs[2] + fs[3] + fs[4], fs[5]);
    lemma_keys_concat(fs[0] + fs[1] + fs[2] + fs[3] + fs[4] + fs[5], fs[6]);
    lemma_keys_concat(gs[0], gs[1]);
    lemma_keys_concat(gs[0] + gs[1], gs[2]);
    lemma_keys_concat(gs[0] + gs[1] + gs[2], gs[3]);
    lemma_keys_concat(gs[0] + gs[1] + gs[2] + gs[3], gs[4]);
    lemma_keys_concat(gs[0] + gs[1] + gs[2] + gs[3] + gs[4], gs[5]);
    lemma_keys_concat(gs[0] + gs[1] + gs[2] + gs[3] + gs[4] + gs[5], gs[6]);
}

/// A key occurs in a concatenation exactly when it occurs in one of the parts.
proof fn lemma_contains_concat(a: Seq<Seq<char>>, b: Seq<Seq<char>>, x: Seq<char>)
    ensures
        (a + b).contains(x) <==> a.contains(x) || b.contains(x),
{
    if (a + b).contains(x) {
        let i = choose|i: int| 0 <= i < (a + b).len() && (a + b)[i] == x;
        if i < a.len() {
            assert(a[i] == x);
        } else {
            assert(b[i - a.len()] == x);
        }
    }
    if a.contains(x) {
        let i = choose|i: int| 0 <= i < a.len() && a[i] == x;
        assert((a + b)[i] == x);
    }
    if b.contains(x) {
        let i = choose|i: int| 0 <= i < b.len() && b[i] == x;
        assert((a + b)[a.len() + i] == x);
    }
}

/// The keys that a filter may emit.
pub open spec fn documented_key(k: Seq<char>) -> bool {
    ||| k == "p_lower"@
    ||| k == "p_upper"@
    ||| k == "bp_lower"@
    ||| k == "bp_upper"@
    ||| k == "study_accession"@
    ||| k == "trait"@
    ||| k == "reveal"@
    ||| k == "start"@
    ||| k == "size"@
}

/// Whether `f` emits key `k`, by the field behind each documented key.
pub open spec fn emits_by_field(f: GwasFilter, k: Seq<char>) -> bool {
    ||| (f.p_value_range is Some && (k == "p_lower"@ || k == "p_upper"@))
    ||| (f.bp_location_range is Some && (k == "bp_lower"@ || k == "bp_upper"@))
    ||| (f.study is Some && k == "study_accession"@)
    ||| (f.trait_id is Some && k == "trait"@)
    ||| (f.reveal is Some && k == "reveal"@)
    ||| (f.start is Some && k == "start"@)
    ||| (f.size is Some && k == "size"@)
}

/// Keys of at most two parameters.
proof fn lemma_two_keys(params: Seq<(Seq<char>, Seq<char>)>, a: Seq<char>, b: Seq<char>, k: Seq<char>)
    requires
        params.len() == 2,
        params[0].0 == a,
        params[1].0 == b,
    ensures
        param_keys(params).contains(k) <==> (k == a || k == b),
{
    let keys = param_keys(params);
    assert(keys[0] == a);
    assert(keys[1] == b);
}

/// The key of one optional text field.
proof fn lemma_text_param_keys(key: Seq<char>, value: Option<String>, k: Seq<char>)
    ensures
        param_keys(text_param(key, value)).contains(k) <==> (value is Some && k == key),
{
    let keys = param_keys(text_param(key, value));
    if value is Some {
        assert(keys[0] == key);
    }
}

/// The key of one optional integer field.
proof fn lemma_int_param_keys(key: Seq<char>, value: Option<i32>, k: Seq<char>)
    ensures
        param_keys(int_param(key, value)).contains(k) <==> (value is Some && k == key),
{
    let keys = param_keys(int_param(key, value));
    if value is Some {
        assert(keys[0] == key);
    }
}

/// A filter emits a key exactly when the field behind that key is set: each
/// documented key while its field is set, and no other key.
pub proof fn lemma_key_emitted_iff_field_set(f: GwasFilter, k: Seq<char>)
    ensures
        param_keys(filter_params(f)).contains(k) <==> emits_by_field(f, k),
        param_keys(filter_params(f)).contains(k) ==> documented_key(k),
{
    let s0 = p_value_params(f.p_value_range);
    let s1 = bp_params(f.bp_location_range);
    let s2 = text_param("study_accession"@, f.study);
    let s3 = text_param("trait"@, f.trait_id);
    let s4 = text_param("reveal"@, f.reveal);
    let s5 = int_param("start"@, f.start);
    let s6 = int_param("size"@, f.size);
    lemma_keys_concat(s0, s1);
    lemma_keys_concat(s0 + s1, s2);
    lemma_keys_concat(s0 + s1 + s2, s3);
    lemma_keys_concat(s0 + s1 + s2 + s3, s4);
    lemma_keys_concat(s0 + s1 + s2 + s3 + s4, s5);
    lemma_keys_concat(s0 + s1 + s2 + s3 + s4 + s5, s6);
    let k0 = param_keys(s0);
    let k1 = param_keys(s1);
    let k2 = param_keys(s2);
    let k3 = param_keys(s3);
    let k4 = param_keys(s4);
    let k5 = param_keys(s5);
    let k6 = param_keys(s6);
    lemma_contains_concat(k0, k1, k);
    lemma_contains_concat(k0 + k1, k2, k);
    lemma_contains_concat(k0 + k1 + k2, k3, k);
    lemma_contains_concat(k0 + k1 + k2 + k3, k4, k);
    lemma_contains_concat(k0 + k1 + k2 + k3 + k4, k5, k);
    lemma_contains_concat(k0 + k1 + k2 + k3 + k4 + k5, k6, k);
    if f.p_value_range is Some {
        lemma_two_keys(s0, "p_lower"@, "p_upper"@, k);
    } else {
        assert(k0 =~= Seq::<Seq<char>>::empty());
    }
    if f.bp_location_range is Some {
        lemma_two_keys(s1, "bp_lower"@, "bp_upper"@, k);
    } else {
        assert(k1 =~= Seq::<Seq<char>>::empty());
    }
    lemma_text_param_keys("study_accession"@, f.study, k);
    lemma_text_param_keys("trait"@, f.trait_id, k);
    lemma_text_param_keys("reveal"@, f.reveal, k);
    lemma_int_param_keys("start"@, f.start, k);
    lemma_int_param_keys("size"@, f.size, k);
}

/// Appends one parameter.
fn push_param(params: &mut Params, key: &str, value: String)
    ensures
        final(params).deep_view() == old(params).deep_view().push((key@, value@)),
{
    let ghost before = params.deep_view();
    params.push((String::from_str(key), value));
    assert(params.deep_view() =~= before.push((key@, value@)));
}

impl GwasFilter {
    /// A filter with no constraint.
    pub fn empty() -> (r: GwasFilter)
        ensures
            filter_params(r) == Seq::<(Seq<char>, Seq<char>)>::empty(),
            r.p_value_range is None,
            r.bp_location_range is None,
            r.study is None,
            r.trait_id is None,
            r.reveal is None,
            r.start is None,
            r.size is None,
    {
        let r = GwasFilter {
            p_value_range: None,
            bp_location_range: None,
            study: None,
            trait_id: None,
            reveal: None,
            start: None,
            size: None,
        };
        assert(filter_params(r) =~= Seq::<(Seq<char>, Seq<char>)>::empty());
        r
    }

    /// A filter that only pages through results.
    pub fn paging(start: Option<i32>, size: Option<i32>) -> (r: GwasFilter)
        ensures
            r.p_value_range is None,
            r.bp_location_range is None,
            r.study is None,
            r.trait_id is None,
            r.reveal is None,
            r.start == start,
            r.size == size,
    {
        GwasFilter {
            p_value_range: None,
            bp_location_range: None,
            study: None,
            trait_id: None,
            reveal: None,
            start,
            size,
        }
    }

    /// The query parameters of this filter: one pair per set field (two for a
    /// range) under the keys `p_lower`, `p_upper`, `bp_lower`, `bp_upper`,
    /// `study_accession`, `trait`, `reveal`, `start` and `size`; integers in
    /// plain decimal.
    pub fn to_params(&self) -> (r: Params)
        ensures
            r.deep_view() == filter_params(*self),
    {
        let mut params: Params = Vec::new();
        assert(params.deep_view() =~= Seq::<(Seq<char>, Seq<char>)>::empty());
        if let Some((lower, upper)) = &self.p_value_range {
            push_param(&mut params, "p_lower", lower.clone());
            push_param(&mut params, "p_upper", upper.clone());
        }
        assert(params.deep_view() =~= p_value_params(self.p_value_range));
        let ghost acc = params.deep_view();
        if let Some((lower, upper)) = &self.bp_location_range {
            push_param(&mut params, "bp_lower", render_i64(*lower));
            push_param(&mut params, "bp_upper", render_i64(*upper));
        }
        assert(params.deep_view() =~= acc + bp_params(self.bp_location_range));
        let ghost acc = params.deep_view();
        if let Some(study) = &self.study {
            push_param(&mut params, "study_accession", study.clone());
        }
        assert(params.deep_view() =~= acc + text_param("study_accession"@, self.study));
        let ghost acc = params.deep_view();
        if let Some(trait_id) = &self.trait_id {
            push_param(&mut params, "trait", trait_id.clone());
        }
        assert(params.deep_view() =~= acc + text_param("trait"@, self.trait_id));
        let ghost acc = params.deep_view();
        if let Some(reveal) = &self.reveal {
            push_param(&mut params, "reveal", reveal.clone());
        }
        assert(params.deep_view() =~= acc + text_param("reveal"@, self.reveal));
        let ghost acc = params.deep_view();
        if let Some(start) = self.start {
            push_param(&mut params, "start", render_i32(start));
        }
        assert(params.deep_view() =~= acc + int_param("start"@, self.start));
        let ghost acc = params.deep_view();
        if let Some(size) = self.size {
            push_param(&mut params, "size", render_i32(size));
        }
        assert(params.deep_view() =~= acc + int_param("size"@, self.size));
        params
    }
}

/// The p-value range of two optional bounds: both as given; a missing lower
/// bound defaults to `0.0` and a missing upper one to `1.0`; no range when
/// neither is given.
pub fn p_value_range_of(min: Option<String>, max: Option<String>) -> (r: Option<(String, String)>)
    ensures
        match (min, max) {
            (Some(a), Some(b)) => r matches Some((x, y)) && x@ == a@ && y@ == b@,
            (Some(a), None) => r matches Some((x, y)) && x@ == a@ && y@ == "1.0"@,
            (None, Some(b)) => r matches Some((x, y)) && x@ == "0.0"@ && y@ == b@,
            (None, None) => r is None,
        },
{
    match (min, max) {
        (Some(a), Some(b)) => Some((a, b)),
        (Some(a), None) => Some((a, String::from_str("1.0"))),
        (None, Some(b)) => Some((String::from_str("0.0"), b)),
        (None, None) => None,
    }
}

/// The base-pair range of two optional bounds: a range only when both are
/// given.
pub fn bp_range_of(min: Option<i64>, max: Option<i64>) -> (r: Option<(i64, i64)>)
    ensures
        match (min, max) {
            (Some(a), Some(b)) => r == Some((a, b)),
            _ => r is None,
        },
{
    match (min, max) {
        (Some(a), Some(b)) => Some((a, b)),
        _ => None,
    }
}

impl GwasFilter {
    /// The filter of an association query given as optional scalars: the
    /// ranges as `p_value_range_of` and `bp_range_of` form them, every other
    /// field as given.
    pub fn for_associations(
        p_value_min: Option<String>,
        p_value_max: Option<String>,
        bp_min: Option<i64>,
        bp_max: Option<i64>,
        study: Option<String>,
        trait_id: Option<String>,
        reveal: Option<String>,
        start: Option<i32>,
        size: Option<i32>,
    ) -> (r: GwasFilter)
        ensures
            match (p_value_min, p_value_max) {
                (Some(a), Some(b)) => r.p_value_range matches Some((x, y)) && x@ == a@ && y@ == b@,
                (Some(a), None) => r.p_value_range matches Some((x, y)) && x@ == a@ && y@
                    == "1.0"@,
                (None, Some(b)) => r.p_value_range matches Some((x, y)) && x@ == "0.0"@ && y@
                    == b@,
                (None, None) => r.p_value_range is None,
            },
            match (bp_min, bp_max) {
                (Some(a), Some(b)) => r.bp_location_range == Some((a, b)),
                _ => r.bp_location_range is None,
            },
            r.study == study,
            r.trait_id == trait_id,
            r.reveal == reveal,
            r.start == start,
            r.size == size,
    {
        GwasFilter {
            p_value_range: p_value_range_of(p_value_min, p_value_max),
            bp_location_range: bp_range_of(bp_min, bp_max),
            study,
            trait_id,
            reveal,
            start,
            size,
        }
    }
}

} // verus!
