//! JSON texts, handled through serde_json.
//!
//! A JSON value is opaque here. What the library needs of it is named: the
//! value a text parses to, the members of an object, and the text a value
//! is written as.

use vstd::prelude::*;
use serde_json::Value;

verus! {

#[verifier::external_type_specification]
#[verifier::external_body]
pub struct ExJsonValue(serde_json::Value);

#[verifier::external_type_specification]
#[verifier::external_body]
#[verifier::reject_recursive_types(K)]
#[verifier::reject_recursive_types(V)]
pub struct ExJsonMap<K, V>(serde_json::Map<K, V>);

/// What `serde_json::from_str::<Value>` gives for a text: the value it
/// reads, or `None` where it fails.
pub uninterp spec fn json_parsed(text: Seq<char>) -> Option<Value>;

/// What `serde_json::to_string` writes for a value, or `None` where it
/// fails.
pub uninterp spec fn json_written(v: Value) -> Option<Seq<char>>;

/// The members of a serde_json map, by name.
pub uninterp spec fn json_map_contents(m: serde_json::Map<String, Value>) -> Map<Seq<char>, Value>;

/// The members of a JSON value that is an object (`Value::Object`), by name;
/// `None` for every other value.
pub uninterp spec fn json_object_members(v: Value) -> Option<Map<Seq<char>, Value>>;

/// Calls `serde_json::from_str::<Value>`, dropping the error's details.
#[verifier::external_body]
fn parse_json_value(text: &str) -> (r: Option<Value>)
    ensures
        r == json_parsed(text@),
{
    serde_json::from_str(text).ok()
}

/// Tells a JSON object (`Value::Object`) apart from the other JSON values;
/// the value is handed back unchanged when it is not an object.
#[verifier::external_body]
fn json_as_object(v: Value) -> (r: Result<serde_json::Map<String, Value>, Value>)
    ensures
        match r {
            Ok(m) => json_object_members(v) == Some(json_map_contents(m)),
            Err(w) => w == v && json_object_members(v) is None,
        },
{
    match v {
        Value::Object(map) => Ok(map),
        other => Err(other),
    }
}

/// Calls `Map::into_iter` and collects the members: each member of the map
/// once, under its own name.
#[verifier::external_body]
fn json_map_members(map: serde_json::Map<String, Value>) -> (r: Vec<(String, Value)>)
    ensures
        forall|i: int, j: int| 0 <= i < j < r@.len() ==> r@[i].0@ != r@[j].0@,
        forall|i: int|
            0 <= i < r@.len() ==> #[trigger] json_map_contents(map).contains_key(r@[i].0@)
                && json_map_contents(map)[r@[i].0@] == r@[i].1,
        forall|k: Seq<char>|
            #[trigger] json_map_contents(map).contains_key(k) ==> exists|i: int|
                0 <= i < r@.len() && #[trigger] r@[i].0@ == k,
{
    map.into_iter().collect()
}

/// Calls `Map::new`: a map with no members.
#[verifier::external_body]
fn json_map_new() -> (r: serde_json::Map<String, Value>)
    ensures
        json_map_contents(r).dom().is_empty(),
{
    serde_json::Map::new()
}

/// Calls `Map::insert`: the member named `key` now holds `value`, whether
/// or not the map had one before.
#[verifier::external_body]
fn json_map_insert(map: &mut serde_json::Map<String, Value>, key: String, value: Value)
    ensures
        json_map_contents(*final(map)) == json_map_contents(*old(map)).insert(key@, value),
{
    map.insert(key, value);
}

/// Wraps a map as a JSON object (`Value::Object`).
#[verifier::external_body]
fn json_object_value(map: serde_json::Map<String, Value>) -> (r: Value)
    ensures
        json_object_members(r) == Some(json_map_contents(map)),
{
    Value::Object(map)
}

/// Calls `serde_json::to_string` on a JSON value. Writing a `Value` never
/// fails: its object keys are strings, its numbers are finite, and the
/// text goes into a `Vec<u8>`, a writer that never fails.
#[verifier::external_body]
pub(crate) fn json_value_to_string(v: &Value) -> (r: Option<String>)
    ensures
        r is Some,
        match r {
            Some(t) => json_written(*v) == Some(t@),
            None => json_written(*v) is None,
        },
{
    serde_json::to_string(v).ok()
}

/// Calls `Value::get` with a member name and clones what it finds: `None`
/// when the value is not an object or has no such member.
#[verifier::external_body]
pub(crate) fn json_member(v: &Value, name: &str) -> (r: Option<Value>)
    ensures
        r == member_of(*v, name@),
{
    v.get(name).cloned()
}

/// The member of an object with the given name, if the value is an object
/// that has one.
pub open spec fn member_of(v: Value, name: Seq<char>) -> Option<Value> {
    match json_object_members(v) {
        Some(ms) => if ms.contains_key(name) { Some(ms[name]) } else { None },
        None => None,
    }
}

/// Whether `t` is the text serde_json writes for `v`.
pub open spec fn written_as(v: Value, t: Seq<char>) -> bool {
    json_written(v) == Some(t)
}

/// Whether `t` is what re-encoding `v` gives: an object is written with
/// exactly its members, each once; any other value is written as it is.
pub open spec fn reencoded_as(v: Value, t: Seq<char>) -> bool {
    match json_object_members(v) {
        Some(ms) => exists|w: Value| #[trigger] json_object_members(w) == Some(ms) && written_as(w, t),
        None => written_as(v, t),
    }
}

/// The map that a list of members builds when they are inserted in order.
pub open spec fn members_map(s: Seq<(String, Value)>) -> Map<Seq<char>, Value>
    decreases s.len(),
{
    if s.len() == 0 {
        Map::empty()
    } else {
        members_map(s.drop_last()).insert(s.last().0@, s.last().1)
    }
}

/// With distinct names, the built map has exactly the listed members.
proof fn lemma_members_map_distinct(s: Seq<(String, Value)>)
    requires
        forall|i: int, j: int| 0 <= i < j < s.len() ==> s[i].0@ != s[j].0@,
    ensures
        forall|i: int|
            0 <= i < s.len() ==> #[trigger] members_map(s).contains_key(s[i].0@) && members_map(
                s,
            )[s[i].0@] == s[i].1,
        forall|k: Seq<char>|
            #[trigger] members_map(s).contains_key(k) ==> exists|i: int|
                0 <= i < s.len() && #[trigger] s[i].0@ == k,
    decreases s.len(),
{
    if s.len() > 0 {
        let t = s.drop_last();
        let last = s.last();
        lemma_members_map_distinct(t);
        assert(members_map(s) == members_map(t).insert(last.0@, last.1));
        assert forall|i: int| 0 <= i < s.len() implies #[trigger] members_map(s).contains_key(
            s[i].0@,
        ) && members_map(s)[s[i].0@] == s[i].1 by {
            if i < s.len() - 1 {
                assert(t[i] == s[i]);
                assert(members_map(t).contains_key(t[i].0@));
                assert(s[i].0@ != s[s.len() - 1].0@);
            }
        }
        assert forall|k: Seq<char>| #[trigger] members_map(s).contains_key(k) implies exists|i: int|
            0 <= i < s.len() && #[trigger] s[i].0@ == k by {
            if k == last.0@ {
                assert(s[s.len() - 1].0@ == k);
            } else {
                assert(members_map(t).contains_key(k));
                let i = choose|i: int| 0 <= i < t.len() && #[trigger] t[i].0@ == k;
                assert(s[i] == t[i]);
            }
        }
    }
}

/// Rebuilds a map by inserting its members one by one into a new map; the
/// result has exactly the members of `map`.
pub fn rebuild_members(map: serde_json::Map<String, Value>) -> (r: serde_json::Map<String, Value>)
    ensures
        json_map_contents(r) == json_map_contents(map),
{
    let ghost contents = json_map_contents(map);
    let mut members = json_map_members(map);
    let ghost all = members@;
    let mut unique_map = json_map_new();
    let ghost mut taken: int = 0;
    assert(json_map_contents(unique_map) =~= members_map(all.take(0)));
    while members.len() > 0
        invariant
            0 <= taken <= all.len(),
            members@ == all.subrange(taken, all.len() as int),
            json_map_contents(unique_map) == members_map(all.take(taken)),
        decreases members.len(),
    {
        let (k, v) = members.remove(0);
        proof {
            assert(all.take(taken + 1).drop_last() =~= all.take(taken));
            assert(all[taken] == (k, v));
        }
        json_map_insert(&mut unique_map, k, v);
        proof {
            taken = taken + 1;
            assert(members@ =~= all.subrange(taken, all.len() as int));
        }
    }
    proof {
        assert(all.take(taken) =~= all);
        lemma_members_map_distinct(all);
        assert(json_map_contents(unique_map) =~= contents);
    }
    unique_map
}

/// Writes a JSON value back as text; an object is rebuilt member by member
/// first, so each name is written once.
pub fn reencode_json_value(value: Value) -> (r: String)
    ensures
        reencoded_as(value, r@),
{
    match json_as_object(value) {
        Ok(map) => {
            let ghost ms = json_map_contents(map);
            let unique = rebuild_members(map);
            let object = json_object_value(unique);
            let r = written_text(&object);
            assert(json_object_members(object) == Some(ms) && written_as(object, r@));
            r
        },
        Err(other) => written_text(&other),
    }
}

/// The text a value is written as.
fn written_text(v: &Value) -> (r: String)
    ensures
        written_as(*v, r@),
{
    json_value_to_string(v).unwrap()
}

/// A text that serde_json could not read as JSON.
#[derive(PartialEq, Eq, Structural, Clone, Copy, Debug)]
pub struct JsonFormatError;

/// Re-encodes a JSON text so that an object at its top level keeps one
/// member per name: the text serde_json reads is written back, an object
/// with exactly the members that were read. Fails exactly when serde_json
/// cannot read the text.
pub fn remove_duplicate_keys(json: &str) -> (r: Result<String, JsonFormatError>)
    ensures
        r is Ok <==> json_parsed(json@) is Some,
        r matches Ok(t) ==> json_parsed(json@) matches Some(v) && reencoded_as(v, t@),
{
    match parse_json_value(json) {
        Some(v) => Ok(reencode_json_value(v)),
        None => Err(JsonFormatError),
    }
}

} // verus!
