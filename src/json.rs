use vstd::prelude::*;

use crate::text::str_eq;

verus! {

/// A JSON value. Integers that fit an `i64` are held as such; every other
/// number is held as its decimal text. Object members keep their order.
#[derive(Debug, PartialEq)]
pub enum Json {
    Null,
    Bool(bool),
    Int(i64),
    Number(String),
    Str(String),
    Array(Vec<Json>),
    Object(Vec<(String, Json)>),
}

/// Object members, in order: each a key and its value.
pub type Members = Vec<(String, Json)>;

/// The value of the first member named `key`.
pub open spec fn field(members: Seq<(String, Json)>, key: Seq<char>) -> Option<Json>
    decreases members.len(),
{
    if members.len() == 0 {
        None
    } else if members[0].0@ == key {
        Some(members[0].1)
    } else {
        field(members.drop_first(), key)
    }
}

/// The value of member `key` of `j`, where `j` is an object.
pub open spec fn member(j: Json, key: Seq<char>) -> Option<Json> {
    match j {
        Json::Object(members) => field(members@, key),
        _ => None,
    }
}

/// Whether an optional member is missing: absent or `null`.
pub open spec fn is_missing(v: Option<Json>) -> bool {
    v is None || v == Some(Json::Null)
}

/// The position of the first member named `key`.
pub fn find_field(members: &Members, key: &str) -> (r: Option<usize>)
    ensures
        match r {
            Some(i) => i < members@.len() && members@[i as int].0@ == key@ && field(
                members@,
                key@,
            ) == Some(members@[i as int].1),
            None => field(members@, key@) is None,
        },
{
    let n = members.len();
    let mut i: usize = 0;
    assert(members@.subrange(0, n as int) =~= members@);
    while i < n
        invariant
            n == members@.len(),
            i <= n,
            field(members@, key@) == field(members@.subrange(i as int, n as int), key@),
        decreases n - i,
    {
        if str_eq(members[i].0.as_str(), key) {
            return Some(i);
        }
        assert(members@.subrange(i as int, n as int).drop_first() =~= members@.subrange(
            i + 1,
            n as int,
        ));
        i = i + 1;
    }
    None
}

/// Removing a member with another key leaves the lookup of `key` unchanged.
pub proof fn lemma_field_after_remove(members: Seq<(String, Json)>, i: int, key: Seq<char>)
    requires
        0 <= i < members.len(),
        members[i].0@ != key,
    ensures
        field(members.remove(i), key) == field(members, key),
    decreases members.len(),
{
    if i > 0 {
        assert(members.remove(i).drop_first() =~= members.drop_first().remove(i - 1));
        lemma_field_after_remove(members.drop_first(), i - 1, key);
    } else {
        assert(members.remove(0) =~= members.drop_first());
    }
}

/// Removes the first member named `key` and hands its value over.
pub fn take_field(members: &mut Members, key: &str) -> (r: Option<Json>)
    ensures
        r == field(old(members)@, key@),
        forall|k: Seq<char>| k != key@ ==> field(final(members)@, k) == field(old(members)@, k),
{
    match find_field(members, key) {
        Some(i) => {
            let ghost before = members@;
            let (_, v) = members.remove(i);
            proof {
                assert forall|k: Seq<char>| k != key@ implies field(members@, k) == field(
                    before,
                    k,
                ) by {
                    lemma_field_after_remove(before, i as int, k);
                }
            }
            Some(v)
        },
        None => None,
    }
}

} // verus!
