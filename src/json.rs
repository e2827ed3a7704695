use vstd::prelude::*;

verus! {

/// A JSON value as the wire carries it. Object members keep the order in
/// which they were written; a number that is not an integer is kept as its
/// decimal text.
#[derive(Debug, PartialEq)]
pub enum JsonValue {
    Null,
    Bool(bool),
    Int(i128),
    Decimal(String),
    Str(String),
    Array(Vec<JsonValue>),
    Object(Vec<(String, JsonValue)>),
}

impl Default for JsonValue {
    fn default() -> (r: JsonValue)
        ensures
            r is Null,
    {
        JsonValue::Null
    }
}

/// Member `i` is the first one named `key`.
pub open spec fn key_at(fs: Seq<(String, JsonValue)>, key: Seq<char>, i: int) -> bool {
    &&& 0 <= i < fs.len()
    &&& fs[i].0@ == key
    &&& forall|j: int| 0 <= j < i ==> fs[j].0@ != key
}

/// The value of the first member named `key`, if any.
pub open spec fn lookup(fs: Seq<(String, JsonValue)>, key: Seq<char>) -> Option<JsonValue> {
    if exists|i: int| key_at(fs, key, i) {
        Some(fs[choose|i: int| key_at(fs, key, i)].1)
    } else {
        None
    }
}

/// The first member named `key` is the one that `lookup` finds.
pub proof fn lemma_lookup_at(fs: Seq<(String, JsonValue)>, key: Seq<char>, i: int)
    requires
        key_at(fs, key, i),
    ensures
        lookup(fs, key) == Some(fs[i].1),
{
    let k = choose|k: int| key_at(fs, key, k);
    assert(key_at(fs, key, k));
    if k < i {
        assert(fs[k].0@ != key);
    } else if i < k {
        assert(fs[i].0@ != key);
    }
}

/// Where no member is named `key`, `lookup` finds nothing.
pub proof fn lemma_lookup_absent(fs: Seq<(String, JsonValue)>, key: Seq<char>)
    requires
        forall|j: int| 0 <= j < fs.len() ==> fs[j].0@ != key,
    ensures
        lookup(fs, key) is None,
{
}

/// Index of the first member named `key`.
pub fn member_index(fs: &Vec<(String, JsonValue)>, key: &str) -> (r: Option<usize>)
    ensures
        r is None <==> lookup(fs@, key@) is None,
        r is Some ==> key_at(fs@, key@, r->Some_0 as int),
{
    let k = key.to_owned();
    let mut i: usize = 0;
    while i < fs.len()
        invariant
            i <= fs@.len(),
            k@ == key@,
            forall|j: int| 0 <= j < i ==> fs@[j].0@ != key@,
        decreases fs@.len() - i,
    {
        if fs[i].0 == k {
            proof {
                lemma_lookup_at(fs@, key@, i as int);
            }
            return Some(i);
        }
        i += 1;
    }
    proof {
        lemma_lookup_absent(fs@, key@);
    }
    None
}

/// The value of the first member named `key`.
pub fn member<'a>(fs: &'a Vec<(String, JsonValue)>, key: &str) -> (r: Option<&'a JsonValue>)
    ensures
        r is None <==> lookup(fs@, key@) is None,
        r is Some ==> lookup(fs@, key@) == Some(*r->Some_0),
{
    match member_index(fs, key) {
        Some(i) => {
            proof {
                lemma_lookup_at(fs@, key@, i as int);
            }
            Some(&fs[i].1)
        },
        None => None,
    }
}

} // verus!
