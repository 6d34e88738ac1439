//! A JSON document tree as the decoders read it, with field lookup.
use vstd::prelude::*;

verus! {

/// One JSON value. Integers are held exactly; a number with a fraction or an
/// exponent keeps its source text.
#[derive(Debug)]
pub enum JsonValue {
    Null,
    Bool(bool),
    Integer(i128),
    Fraction(String),
    Str(String),
    Array(Vec<JsonValue>),
    Object(Vec<(String, JsonValue)>),
}

/// The value of the first entry named `key`, if any.
pub open spec fn lookup(entries: Seq<(String, JsonValue)>, key: Seq<char>) -> Option<JsonValue>
    decreases entries.len(),
{
    if entries.len() == 0 {
        None
    } else if entries[0].0@ == key {
        Some(entries[0].1)
    } else {
        lookup(entries.drop_first(), key)
    }
}

/// The member `key` of `v`; nothing where `v` is not an object.
pub open spec fn member(v: JsonValue, key: Seq<char>) -> Option<JsonValue> {
    match v {
        JsonValue::Object(entries) => lookup(entries@, key),
        _ => None,
    }
}

proof fn lemma_lookup_skip(entries: Seq<(String, JsonValue)>, key: Seq<char>, i: int)
    requires
        0 <= i < entries.len(),
        entries[i].0@ != key,
    ensures
        lookup(entries.subrange(i, entries.len() as int), key)
            == lookup(entries.subrange(i + 1, entries.len() as int), key),
{
    let s = entries.subrange(i, entries.len() as int);
    assert(s.drop_first() =~= entries.subrange(i + 1, entries.len() as int));
}

/// Looks up the member `key` of the object `v`.
pub fn get_member<'a>(v: &'a JsonValue, key: &String) -> (r: Option<&'a JsonValue>)
    ensures
        r is Some <==> member(*v, key@) is Some,
        r is Some ==> *r->0 == member(*v, key@)->0,
{
    match v {
        JsonValue::Object(entries) => {
            assert(member(*v, key@) == lookup(entries@, key@));
            let n = entries.len();
            let mut i: usize = 0;
            assert(entries@.subrange(0, n as int) =~= entries@);
            while i < n
                invariant
                    n == entries@.len(),
                    member(*v, key@) == lookup(entries@, key@),
                    0 <= i <= n,
                    lookup(entries@, key@) == lookup(entries@.subrange(i as int, n as int), key@),
                decreases n - i,
            {
                if entries[i].0 == *key {
                    let ghost s = entries@.subrange(i as int, n as int);
                    assert(s[0] == entries@[i as int]);
                    assert(s.len() > 0 && s[0].0@ == key@);
                    assert(lookup(s, key@) == Some(s[0].1));
                    return Some(&entries[i].1);
                }
                proof {
                    lemma_lookup_skip(entries@, key@, i as int);
                }
                i = i + 1;
            }
            None
        },
        _ => None,
    }
}

} // verus!
