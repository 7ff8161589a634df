use vstd::prelude::*;

use crate::error::ClientError;
use crate::json::{field, find_field, is_missing, member, Json, Members};
use crate::text::{decimal, render_i64};

verus! {

/// The error for a value of the wrong shape at `key`.
pub fn shape_error(key: &str) -> (e: ClientError)
    ensures
        e is Decode,
{
    ClientError::Decode { field: String::from_str(key) }
}

/// `r` is the text that member value `v` holds.
pub open spec fn text_of(v: Option<Json>, r: String) -> bool {
    v matches Some(Json::Str(s)) && r@ == s@
}

/// Whether an optional text member decodes: missing, or text.
pub open spec fn opt_text_fits(v: Option<Json>) -> bool {
    is_missing(v) || v matches Some(Json::Str(_))
}

/// `r` is what an optional text member decodes to.
pub open spec fn opt_text_of(v: Option<Json>, r: Option<String>) -> bool {
    match r {
        None => is_missing(v),
        Some(t) => text_of(v, t),
    }
}

/// Whether an optional integer member decodes within `[lo, hi]`.
pub open spec fn opt_int_fits(v: Option<Json>, lo: int, hi: int) -> bool {
    is_missing(v) || (v matches Some(Json::Int(n)) && lo <= n <= hi)
}

/// An optional 32-bit integer as a mathematical integer.
pub open spec fn widen_i32(o: Option<i32>) -> Option<int> {
    match o {
        Some(x) => Some(x as int),
        None => None,
    }
}

/// An optional 64-bit integer as a mathematical integer.
pub open spec fn widen_i64(o: Option<i64>) -> Option<int> {
    match o {
        Some(x) => Some(x as int),
        None => None,
    }
}

/// `r` is what an optional integer member decodes to.
pub open spec fn opt_int_of(v: Option<Json>, r: Option<int>) -> bool {
    match r {
        None => is_missing(v),
        Some(x) => v matches Some(Json::Int(n)) && n == x,
    }
}

/// Whether an optional decimal member decodes: missing, or any number.
pub open spec fn opt_decimal_fits(v: Option<Json>) -> bool {
    is_missing(v) || v matches Some(Json::Int(_)) || v matches Some(Json::Number(_))
}

/// `r` is the decimal text of an optional number member.
pub open spec fn opt_decimal_of(v: Option<Json>, r: Option<String>) -> bool {
    match r {
        None => is_missing(v),
        Some(t) => match v {
            Some(Json::Int(n)) => t@ == decimal(n as int),
            Some(Json::Number(d)) => t@ == d@,
            _ => false,
        },
    }
}

/// Whether an optional list-of-text member decodes.
pub open spec fn opt_text_list_fits(v: Option<Json>) -> bool {
    is_missing(v) || (v matches Some(Json::Array(items)) && forall|i: int|
        0 <= i < items@.len() ==> (#[trigger] items@[i]) is Str)
}

/// `r` is what an optional list-of-text member decodes to.
pub open spec fn opt_text_list_of(v: Option<Json>, r: Option<Vec<String>>) -> bool {
    match r {
        None => is_missing(v),
        Some(l) => v matches Some(Json::Array(items)) && l@.len() == items@.len() && forall|i: int|
            0 <= i < items@.len() ==> text_of(Some(#[trigger] items@[i]), l@[i]),
    }
}

/// A hyperlink.
#[derive(Debug, PartialEq)]
pub struct Link {
    pub href: String,
}

/// Named hyperlinks, in order.
pub type LinkMap = Vec<(String, Link)>;

/// Whether `j` is a link: an object with a text `href`.
pub open spec fn link_fits(j: Json) -> bool {
    member(j, "href"@) matches Some(Json::Str(_))
}

/// Whether an optional link-map member decodes: missing, or an object of links.
pub open spec fn opt_link_map_fits(v: Option<Json>) -> bool {
    is_missing(v) || (v matches Some(Json::Object(ms)) && forall|i: int|
        0 <= i < ms@.len() ==> link_fits(#[trigger] ms@[i].1))
}

/// `r` is what an optional link-map member decodes to.
pub open spec fn opt_link_map_of(v: Option<Json>, r: Option<LinkMap>) -> bool {
    match r {
        None => is_missing(v),
        Some(l) => v matches Some(Json::Object(ms)) && l@.len() == ms@.len() && forall|i: int|
            0 <= i < ms@.len() ==> (#[trigger] l@[i]).0@ == ms@[i].0@ && text_of(
                member(ms@[i].1, "href"@),
                l@[i].1.href,
            ),
    }
}

/// A required text member.
pub fn text_member(ms: &Members, key: &str) -> (r: Result<String, ClientError>)
    ensures
        r is Ok <==> field(ms@, key@) matches Some(Json::Str(_)),
        match r {
            Ok(t) => text_of(field(ms@, key@), t),
            Err(e) => e is Decode,
        },
{
    match find_field(ms, key) {
        Some(i) => match &ms[i].1 {
            Json::Str(t) => Ok(t.clone()),
            _ => Err(shape_error(key)),
        },
        None => Err(shape_error(key)),
    }
}

/// An optional text member.
pub fn opt_text_member(ms: &Members, key: &str) -> (r: Result<Option<String>, ClientError>)
    ensures
        r is Ok <==> opt_text_fits(field(ms@, key@)),
        match r {
            Ok(t) => opt_text_of(field(ms@, key@), t),
            Err(e) => e is Decode,
        },
{
    match find_field(ms, key) {
        Some(i) => match &ms[i].1 {
            Json::Null => Ok(None),
            Json::Str(t) => Ok(Some(t.clone())),
            _ => Err(shape_error(key)),
        },
        None => Ok(None),
    }
}

/// An optional member holding a 32-bit integer.
pub fn opt_i32_member(ms: &Members, key: &str) -> (r: Result<Option<i32>, ClientError>)
    ensures
        r is Ok <==> opt_int_fits(field(ms@, key@), i32::MIN as int, i32::MAX as int),
        match r {
            Ok(n) => opt_int_of(field(ms@, key@), widen_i32(n)),
            Err(e) => e is Decode,
        },
{
    match find_field(ms, key) {
        Some(i) => match &ms[i].1 {
            Json::Null => Ok(None),
            Json::Int(n) => {
                if *n >= i32::MIN as i64 && *n <= i32::MAX as i64 {
                    Ok(Some(*n as i32))
                } else {
                    Err(shape_error(key))
                }
            },
            _ => Err(shape_error(key)),
        },
        None => Ok(None),
    }
}

/// An optional member holding a 64-bit integer.
pub fn opt_i64_member(ms: &Members, key: &str) -> (r: Result<Option<i64>, ClientError>)
    ensures
        r is Ok <==> opt_int_fits(field(ms@, key@), i64::MIN as int, i64::MAX as int),
        match r {
            Ok(n) => opt_int_of(field(ms@, key@), widen_i64(n)),
            Err(e) => e is Decode,
        },
{
    match find_field(ms, key) {
        Some(i) => match &ms[i].1 {
            Json::Null => Ok(None),
            Json::Int(n) => Ok(Some(*n)),
            _ => Err(shape_error(key)),
        },
        None => Ok(None),
    }
}

/// An optional number member, as decimal text.
pub fn opt_decimal_member(ms: &Members, key: &str) -> (r: Result<Option<String>, ClientError>)
    ensures
        r is Ok <==> opt_decimal_fits(field(ms@, key@)),
        match r {
            Ok(t) => opt_decimal_of(field(ms@, key@), t),
            Err(e) => e is Decode,
        },
{
    match find_field(ms, key) {
        Some(i) => match &ms[i].1 {
            Json::Null => Ok(None),
            Json::Int(n) => Ok(Some(render_i64(*n))),
            Json::Number(d) => Ok(Some(d.clone())),
            _ => Err(shape_error(key)),
        },
        None => Ok(None),
    }
}

/// The texts of a list of JSON values, all of which are text.
fn texts_of(items: &Vec<Json>, key: &str) -> (r: Result<Vec<String>, ClientError>)
    ensures
        r is Ok <==> forall|i: int| 0 <= i < items@.len() ==> (#[trigger] items@[i]) is Str,
        match r {
            Ok(l) => l@.len() == items@.len() && forall|i: int|
                0 <= i < items@.len() ==> text_of(Some(#[trigger] items@[i]), l@[i]),
            Err(e) => e is Decode,
        },
{
    let mut out: Vec<String> = Vec::new();
    let mut k: usize = 0;
    while k < items.len()
        invariant
            k <= items@.len(),
            out@.len() == k,
            forall|i: int| 0 <= i < k ==> (#[trigger] items@[i]) is Str,
            forall|i: int| 0 <= i < k ==> text_of(Some(#[trigger] items@[i]), out@[i]),
        decreases items@.len() - k,
    {
        match &items[k] {
            Json::Str(t) => {
                out.push(t.clone());
            },
            _ => {
                return Err(shape_error(key));
            },
        }
        k = k + 1;
    }
    Ok(out)
}

/// An optional member holding a list of texts.
pub fn opt_text_list_member(ms: &Members, key: &str) -> (r: Result<Option<Vec<String>>, ClientError>)
    ensures
        r is Ok <==> opt_text_list_fits(field(ms@, key@)),
        match r {
            Ok(l) => opt_text_list_of(field(ms@, key@), l),
            Err(e) => e is Decode,
        },
{
    match find_field(ms, key) {
        Some(i) => match &ms[i].1 {
            Json::Null => Ok(None),
            Json::Array(items) => match texts_of(items, key) {
                Ok(l) => Ok(Some(l)),
                Err(e) => Err(e),
            },
            _ => Err(shape_error(key)),
        },
        None => Ok(None),
    }
}

/// The links of an object's members, all of which are links.
fn links_of(ms: &Members, key: &str) -> (r: Result<LinkMap, ClientError>)
    ensures
        r is Ok <==> forall|i: int| 0 <= i < ms@.len() ==> link_fits(#[trigger] ms@[i].1),
        match r {
            Ok(l) => l@.len() == ms@.len() && forall|i: int|
                0 <= i < ms@.len() ==> (#[trigger] l@[i]).0@ == ms@[i].0@ && text_of(
                    member(ms@[i].1, "href"@),
                    l@[i].1.href,
                ),
            Err(e) => e is Decode,
        },
{
    let mut out: LinkMap = Vec::new();
    let mut k: usize = 0;
    while k < ms.len()
        invariant
            k <= ms@.len(),
            out@.len() == k,
            forall|i: int| 0 <= i < k ==> link_fits(#[trigger] ms@[i].1),
            forall|i: int|
                0 <= i < k ==> (#[trigger] out@[i]).0@ == ms@[i].0@ && text_of(
                    member(ms@[i].1, "href"@),
                    out@[i].1.href,
                ),
        decreases ms@.len() - k,
    {
        let (name, value) = &ms[k];
        match value {
            Json::Object(inner) => match text_member(inner, "href") {
                Ok(href) => {
                    out.push((name.clone(), Link { href }));
                },
                Err(e) => {
                    return Err(e);
                },
            },
            _ => {
                return Err(shape_error(key));
            },
        }
        k = k + 1;
    }
    Ok(out)
}

/// An optional member holding named links.
pub fn opt_link_map_member(ms: &Members, key: &str) -> (r: Result<Option<LinkMap>, ClientError>)
    ensures
        r is Ok <==> opt_link_map_fits(field(ms@, key@)),
        match r {
            Ok(l) => opt_link_map_of(field(ms@, key@), l),
            Err(e) => e is Decode,
        },
{
    match find_field(ms, key) {
        Some(i) => match &ms[i].1 {
            Json::Null => Ok(None),
            Json::Object(inner) => match links_of(inner, key) {
                Ok(l) => Ok(Some(l)),
                Err(e) => Err(e),
            },
            _ => Err(shape_error(key)),
        },
        None => Ok(None),
    }
}

/// Values decoded from JSON with a fixed shape.
pub trait FromJson: Sized {
    /// Whether `j` has the shape of this type.
    spec fn fits(j: Json) -> bool;

    /// Whether `self` is what `j` decodes to.
    spec fn decoded_from(&self, j: Json) -> bool;

    /// Decodes `j`: succeeds exactly when it has the shape of this type.
    fn from_json(j: Json) -> (r: Result<Self, ClientError>)
        ensures
            r is Ok <==> Self::fits(j),
            match r {
                Ok(x) => x.decoded_from(j),
                Err(e) => e is Decode,
            },
    ;
}

/// A JSON array, item by item.
impl<T: FromJson> FromJson for Vec<T> {
    open spec fn fits(j: Json) -> bool {
        j matches Json::Array(items) && forall|i: int|
            0 <= i < items@.len() ==> T::fits(#[trigger] items@[i])
    }

    open spec fn decoded_from(&self, j: Json) -> bool {
        j matches Json::Array(items) && self@.len() == items@.len() && forall|i: int|
            0 <= i < items@.len() ==> (#[trigger] self@[i]).decoded_from(items@[i])
    }

    fn from_json(j: Json) -> (r: Result<Self, ClientError>) {
        let ghost j0 = j;
        match j {
            Json::Array(mut items) => {
                let ghost all = items@;
                let n = items.len();
                let mut out: Vec<T> = Vec::new();
                let mut k: usize = 0;
                while k < n
                    invariant
                        j0 == j,
                        j0 is Array,
                        j0->Array_0@ == all,
                        n == all.len(),
                        k <= n,
                        items@ == all.subrange(k as int, n as int),
                        out@.len() == k,
                        forall|i: int| 0 <= i < k ==> T::fits(#[trigger] all[i]),
                        forall|i: int| 0 <= i < k ==> (#[trigger] out@[i]).decoded_from(all[i]),
                    decreases n - k,
                {
                    let item = items.remove(0);
                    assert(item == all[k as int]);
                    match T::from_json(item) {
                        Ok(x) => {
                            out.push(x);
                        },
                        Err(e) => {
                            assert(!T::fits(all[k as int]));
                            assert(!Self::fits(j0));
                            return Err(e);
                        },
                    }
                    assert(items@ =~= all.subrange(k + 1, n as int));
                    k = k + 1;
                }
                Ok(out)
            },
            _ => Err(shape_error("[]")),
        }
    }
}

/// `es` is what object `j` decodes to, member by member.
pub open spec fn entries_from<T: FromJson>(es: Seq<(String, T)>, j: Json) -> bool {
    j matches Json::Object(ms) && es.len() == ms@.len() && forall|i: int|
        0 <= i < ms@.len() ==> (#[trigger] es[i]).0@ == ms@[i].0@ && es[i].1.decoded_from(ms@[i].1)
}

/// A JSON object whose members all have the shape `T`, kept in order with
/// their keys.
#[derive(Debug, PartialEq)]
pub struct Keyed<T> {
    pub entries: Vec<(String, T)>,
}

impl<T: FromJson> FromJson for Keyed<T> {
    open spec fn fits(j: Json) -> bool {
        j matches Json::Object(ms) && forall|i: int|
            0 <= i < ms@.len() ==> T::fits(#[trigger] ms@[i].1)
    }

    open spec fn decoded_from(&self, j: Json) -> bool {
        entries_from(self.entries@, j)
    }

    fn from_json(j: Json) -> (r: Result<Self, ClientError>) {
        let ghost j0 = j;
        match j {
            Json::Object(mut ms) => {
                let ghost all = ms@;
                let n = ms.len();
                let mut out: Vec<(String, T)> = Vec::new();
                let mut k: usize = 0;
                while k < n
                    invariant
                        j0 == j,
                        j0 is Object,
                        j0->Object_0@ == all,
                        n == all.len(),
                        k <= n,
                        ms@ == all.subrange(k as int, n as int),
                        out@.len() == k,
                        forall|i: int| 0 <= i < k ==> T::fits(#[trigger] all[i].1),
                        forall|i: int|
                            0 <= i < k ==> (#[trigger] out@[i]).0@ == all[i].0@
                                && out@[i].1.decoded_from(all[i].1),
                    decreases n - k,
                {
                    let (key, item) = ms.remove(0);
                    assert(item == all[k as int].1 && key == all[k as int].0);
                    match T::from_json(item) {
                        Ok(x) => {
                            out.push((key, x));
                        },
                        Err(e) => {
                            assert(!T::fits(all[k as int].1));
                            assert(!Self::fits(j0));
                            return Err(e);
                        },
                    }
                    assert(ms@ =~= all.subrange(k + 1, n as int));
                    k = k + 1;
                }
                Ok(Keyed { entries: out })
            },
            _ => Err(shape_error("{}")),
        }
    }
}

} // verus!
