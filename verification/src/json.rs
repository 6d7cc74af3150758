//! JSON values as the rest of the library sees them.
//!
//! Parsing and printing are done by `serde_json`, and a JSON value is a
//! `serde_json::Value`. The contracts speak of such a value through a handful
//! of spec functions that name what `serde_json` reports about it.

use vstd::prelude::*;

verus! {

/// `serde_json::Value`, a JSON value. Nothing is known of what is inside
/// but through the names below.
#[verifier::external_type_specification]
#[verifier::external_body]
pub struct ExValue(serde_json::Value);

/// `serde_json::Map`, the members of a JSON object while it is built.
#[verifier::external_type_specification]
#[verifier::external_body]
#[verifier::reject_recursive_types(K)]
#[verifier::reject_recursive_types(V)]
pub struct ExJsonMap<K, V>(serde_json::Map<K, V>);

/// The value `serde_json` reads from a text, if the text is one JSON document.
pub uninterp spec fn json_parsed(text: Seq<char>) -> Option<serde_json::Value>;

/// The compact text `serde_json` prints for a value, if it prints one.
pub uninterp spec fn json_text(value: serde_json::Value) -> Option<Seq<char>>;

/// The member of an object under a key; `None` for a missing key and for a
/// value that is no object.
pub uninterp spec fn json_member(value: serde_json::Value, key: Seq<char>) -> Option<
    serde_json::Value,
>;

/// The characters of a JSON string; `None` for any other value.
pub uninterp spec fn json_string(value: serde_json::Value) -> Option<Seq<char>>;

/// The number as an unsigned 64-bit integer; `None` for a number that is no
/// integer of that range and for a value that is no number.
pub uninterp spec fn json_u64(value: serde_json::Value) -> Option<u64>;

/// The elements of a JSON array in order; `None` for any other value.
pub uninterp spec fn json_elements(value: serde_json::Value) -> Option<Seq<serde_json::Value>>;

/// Whether the value is JSON `null`.
pub uninterp spec fn json_null(value: serde_json::Value) -> bool;

/// Whether the value is a JSON object.
pub uninterp spec fn json_is_object(value: serde_json::Value) -> bool;

/// The truth value of a JSON boolean; `None` for any other value.
pub uninterp spec fn json_bool(value: serde_json::Value) -> Option<bool>;

/// The JSON number for an unsigned integer.
pub uninterp spec fn json_of_u64(n: u64) -> serde_json::Value;

/// The JSON boolean for a truth value.
pub uninterp spec fn json_of_bool(b: bool) -> serde_json::Value;

/// The JSON string with the characters given.
pub uninterp spec fn json_of_string(s: Seq<char>) -> serde_json::Value;

/// The JSON array with the elements given, in order.
pub uninterp spec fn json_of_array(items: Seq<serde_json::Value>) -> serde_json::Value;

/// The members of a JSON object while it is built.
pub type JsonMembers = serde_json::Map<String, serde_json::Value>;

/// The members that a `serde_json::Map` holds, each under its key.
pub uninterp spec fn json_members(map: JsonMembers) -> Map<Seq<char>, serde_json::Value>;

/// The JSON object that holds the members given.
pub uninterp spec fn json_object(members: Map<Seq<char>, serde_json::Value>) -> serde_json::Value;

/// The members that are held after the members given were inserted one
/// after the other: a later member replaces an earlier one with its key.
pub open spec fn members_of(entries: Seq<(Seq<char>, serde_json::Value)>) -> Map<
    Seq<char>,
    serde_json::Value,
>
    decreases entries.len(),
{
    if entries.len() == 0 {
        Map::empty()
    } else {
        members_of(entries.drop_last()).insert(entries.last().0, entries.last().1)
    }
}

/// The JSON object built from the members given, inserted one after the
/// other.
pub open spec fn json_of_object(entries: Seq<(Seq<char>, serde_json::Value)>) -> serde_json::Value {
    json_object(members_of(entries))
}

/// The member that a map holds under `key`, if it holds one.
pub open spec fn held(members: Map<Seq<char>, serde_json::Value>, key: Seq<char>) -> Option<
    serde_json::Value,
> {
    if members.contains_key(key) {
        Some(members[key])
    } else {
        None
    }
}

/// The member under `key` among the members given: of two members with
/// one key the later one counts.
pub open spec fn member_of(entries: Seq<(Seq<char>, serde_json::Value)>, key: Seq<char>) -> Option<
    serde_json::Value,
>
    decreases entries.len(),
{
    if entries.len() == 0 {
        None
    } else if entries.last().0 == key {
        Some(entries.last().1)
    } else {
        member_of(entries.drop_last(), key)
    }
}

/// The members as the contracts see them: each key by its characters.
pub open spec fn entry_views(entries: Seq<(String, serde_json::Value)>) -> Seq<
    (Seq<char>, serde_json::Value),
> {
    entries.map_values(|e: (String, serde_json::Value)| (e.0@, e.1))
}

/// `Value::clone` gives a value equal to the one it copies.
pub assume_specification[ <serde_json::Value as Clone>::clone ](
    value: &serde_json::Value,
) -> (r: serde_json::Value)
    ensures
        r == *value,
;

/// Calls `serde_json::from_str` for a `Value`. The result is what
/// `json_parsed` names for this text; a text that is rejected gives `None`.
#[verifier::external_body]
pub(crate) fn value_from_text(text: &str) -> (r: Option<serde_json::Value>)
    ensures
        r == json_parsed(text@),
{
    serde_json::from_str::<serde_json::Value>(text).ok()
}

/// Calls `serde_json::to_string`. The result is what `json_text` names for
/// this value.
#[verifier::external_body]
pub(crate) fn value_to_text(value: &serde_json::Value) -> (r: Option<String>)
    ensures
        r.deep_view() == json_text(*value),
{
    serde_json::to_string(value).ok()
}

/// Calls `Value::get` with a string key and copies the member found.
#[verifier::external_body]
pub(crate) fn value_member(value: &serde_json::Value, key: &str) -> (r: Option<serde_json::Value>)
    ensures
        r == json_member(*value, key@),
{
    value.get(key).cloned()
}

/// Calls `Value::as_str` and copies the characters.
#[verifier::external_body]
pub(crate) fn value_string(value: &serde_json::Value) -> (r: Option<String>)
    ensures
        r.deep_view() == json_string(*value),
{
    value.as_str().map(String::from)
}

/// Calls `Value::as_u64`.
#[verifier::external_body]
pub(crate) fn value_u64(value: &serde_json::Value) -> (r: Option<u64>)
    ensures
        r == json_u64(*value),
{
    value.as_u64()
}

/// Calls `Value::as_array` and copies the elements in order.
#[verifier::external_body]
pub(crate) fn value_elements(value: &serde_json::Value) -> (r: Option<Vec<serde_json::Value>>)
    ensures
        match r {
            Some(items) => json_elements(*value) == Some(items@),
            None => json_elements(*value) is None,
        },
{
    value.as_array().cloned()
}

/// Calls `Value::is_object`.
#[verifier::external_body]
pub(crate) fn value_is_object(value: &serde_json::Value) -> (r: bool)
    ensures
        r == json_is_object(*value),
{
    value.is_object()
}

/// Builds a number with `Value::from`. The result is what `json_of_u64`
/// names.
#[verifier::external_body]
pub(crate) fn value_of_u64(n: u64) -> (r: serde_json::Value)
    ensures
        r == json_of_u64(n),
{
    serde_json::Value::from(n)
}

/// Builds `Value::Bool`. The result is what `json_of_bool` names: a boolean
/// with this truth value, and so not `null`.
#[verifier::external_body]
pub(crate) fn value_of_bool(b: bool) -> (r: serde_json::Value)
    ensures
        r == json_of_bool(b),
        json_bool(r) == Some(b),
        !json_null(r),
{
    serde_json::Value::Bool(b)
}

/// Calls `Value::as_bool`.
#[verifier::external_body]
pub(crate) fn value_bool(value: &serde_json::Value) -> (r: Option<bool>)
    ensures
        r == json_bool(*value),
{
    value.as_bool()
}

/// Calls `Value::is_null`.
#[verifier::external_body]
pub(crate) fn value_is_null(value: &serde_json::Value) -> (r: bool)
    ensures
        r == json_null(*value),
{
    value.is_null()
}

/// Builds the object without members, the value that the text `{}` parses
/// to.
#[verifier::external_body]
pub(crate) fn value_empty_object() -> (r: serde_json::Value)
    ensures
        json_parsed("{}"@) == Some(r),
{
    serde_json::Value::Object(serde_json::Map::new())
}

/// Builds `Value::String`. The result is what `json_of_string` names: a
/// string with these characters, and so not `null`.
#[verifier::external_body]
pub(crate) fn value_of_string(s: &str) -> (r: serde_json::Value)
    ensures
        r == json_of_string(s@),
        json_string(r) == Some(s@),
        !json_null(r),
{
    serde_json::Value::String(s.to_string())
}

/// Builds `Value::Array`. The result is what `json_of_array` names: an
/// array with these elements, and so neither a string nor `null`.
#[verifier::external_body]
pub(crate) fn value_of_array(items: Vec<serde_json::Value>) -> (r: serde_json::Value)
    ensures
        r == json_of_array(items@),
        json_elements(r) == Some(items@),
        json_string(r) is None,
        !json_null(r),
{
    serde_json::Value::Array(items)
}

/// Calls `Map::new`: a map without members.
#[verifier::external_body]
pub(crate) fn members_new() -> (r: JsonMembers)
    ensures
        json_members(r) == members_of(Seq::empty()),
{
    serde_json::Map::new()
}

/// Calls `Map::insert`: the map then holds the value under the key, in
/// place of what it held there before, and its other members as before.
#[verifier::external_body]
pub(crate) fn members_insert(map: &mut JsonMembers, key: String, value: serde_json::Value)
    ensures
        json_members(*final(map)) == json_members(*old(map)).insert(key@, value),
{
    map.insert(key, value);
}

/// Builds `Value::Object`. The result is what `json_object` names for the
/// members of the map: an object, and so not `null`, in which `get` finds
/// under each key what the map holds there.
#[verifier::external_body]
pub(crate) fn value_of_members(map: JsonMembers) -> (r: serde_json::Value)
    ensures
        r == json_object(json_members(map)),
        json_is_object(r),
        !json_null(r),
        forall|key: Seq<char>| #[trigger] json_member(r, key) == held(json_members(map), key),
{
    serde_json::Value::Object(map)
}

/// The empty object `{}`.
pub open spec fn empty_object_value() -> serde_json::Value {
    json_parsed("{}"@).unwrap()
}

/// What [`parse_or_empty`] returns.
pub open spec fn parsed_or_empty(text: Seq<char>) -> serde_json::Value {
    match json_parsed(text) {
        Some(value) => value,
        None => empty_object_value(),
    }
}

/// What [`to_text`] returns.
pub open spec fn text_or_empty(value: serde_json::Value) -> Seq<char> {
    match json_text(value) {
        Some(s) => s,
        None => "{}"@,
    }
}

/// The string member under `key`: `None` where the member is missing or is
/// no string.
pub open spec fn string_member(value: serde_json::Value, key: Seq<char>) -> Option<Seq<char>> {
    match json_member(value, key) {
        Some(m) => json_string(m),
        None => None,
    }
}

/// The unsigned integer member under `key`.
pub open spec fn u64_member(value: serde_json::Value, key: Seq<char>) -> Option<u64> {
    match json_member(value, key) {
        Some(m) => json_u64(m),
        None => None,
    }
}

/// The number of elements of the array member under `key`.
pub open spec fn array_member_len(value: serde_json::Value, key: Seq<char>) -> Option<nat> {
    match json_member(value, key) {
        Some(m) => match json_elements(m) {
            Some(items) => Some(items.len()),
            None => None,
        },
        None => None,
    }
}

/// The JSON array of the strings given.
pub open spec fn json_of_strings(items: Seq<Seq<char>>) -> serde_json::Value {
    json_of_array(items.map_values(|s: Seq<char>| json_of_string(s)))
}

/// The JSON string with the characters of `s`.
pub fn string(s: &str) -> (r: serde_json::Value)
    ensures
        r == json_of_string(s@),
        json_string(r) == Some(s@),
        !json_null(r),
{
    value_of_string(s)
}

/// The JSON array of the strings given, in order. Reading the result gives
/// the strings back.
pub fn array_of_strings(items: &Vec<String>) -> (r: serde_json::Value)
    ensures
        r == json_of_strings(items.deep_view()),
        !json_null(r),
        json_elements(r) is Some,
        strings_of_json(json_elements(r)->0) == Some(items.deep_view()),
{
    let mut values: Vec<serde_json::Value> = Vec::new();
    let mut i: usize = 0;
    while i < items.len()
        invariant
            0 <= i <= items.len(),
            values.len() == i,
            values@ == items.deep_view().take(i as int).map_values(
                |s: Seq<char>| json_of_string(s),
            ),
            strings_of_json(values@) == Some(items.deep_view().take(i as int)),
        decreases items.len() - i,
    {
        let ghost before = values@;
        values.push(value_of_string(items[i].as_str()));
        proof {
            assert(values@ =~= items.deep_view().take(i + 1).map_values(
                |s: Seq<char>| json_of_string(s),
            ));
            assert(values@.drop_last() =~= before);
            assert(items.deep_view().take(i + 1) =~= items.deep_view().take(i as int).push(
                items[i as int]@,
            ));
        }
        i += 1;
    }
    proof {
        assert(items.deep_view().take(items.len() as int) =~= items.deep_view());
    }
    value_of_array(values)
}

/// What a map holds under a key after members were inserted one after the
/// other is the last of them with that key.
pub proof fn lemma_members_of(entries: Seq<(Seq<char>, serde_json::Value)>, key: Seq<char>)
    ensures
        held(members_of(entries), key) == member_of(entries, key),
    decreases entries.len(),
{
    if entries.len() > 0 {
        lemma_members_of(entries.drop_last(), key);
    }
}

/// The JSON object with the members given, inserted one after the other; of
/// two members with one key the later one stays.
pub fn object(entries: Vec<(String, serde_json::Value)>) -> (r: serde_json::Value)
    ensures
        r == json_of_object(entry_views(entries@)),
        json_is_object(r),
        !json_null(r),
        forall|key: Seq<char>| #[trigger]
            json_member(r, key) == member_of(entry_views(entries@), key),
{
    let ghost all = entry_views(entries@);
    let ghost mut done: Seq<(Seq<char>, serde_json::Value)> = Seq::empty();
    let mut rest = entries;
    let mut map = members_new();
    proof {
        assert(done + entry_views(rest@) =~= all);
    }
    while rest.len() > 0
        invariant
            done + entry_views(rest@) == all,
            json_members(map) == members_of(done),
        decreases rest.len(),
    {
        let ghost before = entry_views(rest@);
        let first = rest.remove(0);
        proof {
            let added = (first.0@, first.1);
            assert(before[0] == added);
            assert(entry_views(rest@) =~= before.skip(1));
            assert(done.push(added) + entry_views(rest@) =~= done + before);
            assert(done.push(added).drop_last() =~= done);
            done = done.push(added);
        }
        members_insert(&mut map, first.0, first.1);
    }
    proof {
        assert(done =~= all);
        assert forall|key: Seq<char>| held(json_members(map), key) == member_of(all, key) by {
            lemma_members_of(all, key);
        }
    }
    value_of_members(map)
}

/// The boolean member under `key`.
pub open spec fn bool_member(value: serde_json::Value, key: Seq<char>) -> Option<bool> {
    match json_member(value, key) {
        Some(m) => json_bool(m),
        None => None,
    }
}

/// A member that may be left out. `Some(None)` stands for a member that is
/// missing or `null`, `Some(Some(..))` for one that is a string, and `None`
/// for one that is anything else.
pub open spec fn optional_string_member(value: serde_json::Value, key: Seq<char>) -> Option<
    Option<Seq<char>>,
> {
    match json_member(value, key) {
        None => Some(None),
        Some(m) => if json_null(m) {
            Some(None)
        } else {
            match json_string(m) {
                Some(s) => Some(Some(s)),
                None => None,
            }
        },
    }
}

/// A truth value that may be left out, read like
/// [`optional_string_member`].
pub open spec fn optional_bool_member(value: serde_json::Value, key: Seq<char>) -> Option<
    Option<bool>,
> {
    match json_member(value, key) {
        None => Some(None),
        Some(m) => if json_null(m) {
            Some(None)
        } else {
            match json_bool(m) {
                Some(b) => Some(Some(b)),
                None => None,
            }
        },
    }
}

/// A number that may be left out, read like [`optional_string_member`].
pub open spec fn optional_u64_member(value: serde_json::Value, key: Seq<char>) -> Option<
    Option<u64>,
> {
    match json_member(value, key) {
        None => Some(None),
        Some(m) => if json_null(m) {
            Some(None)
        } else {
            match json_u64(m) {
                Some(n) => Some(Some(n)),
                None => None,
            }
        },
    }
}

/// The elements of the array member under `key`.
pub open spec fn array_member(value: serde_json::Value, key: Seq<char>) -> Option<
    Seq<serde_json::Value>,
> {
    match json_member(value, key) {
        Some(m) => json_elements(m),
        None => None,
    }
}

/// A member that may be left out: `None` where it is missing or `null`.
pub open spec fn present_member(value: serde_json::Value, key: Seq<char>) -> Option<
    serde_json::Value,
> {
    match json_member(value, key) {
        Some(m) => if json_null(m) {
            None
        } else {
            Some(m)
        },
        None => None,
    }
}

/// The unsigned integer member under `key`, where it fits 32 bits.
pub open spec fn u32_member(value: serde_json::Value, key: Seq<char>) -> Option<u32> {
    match u64_member(value, key) {
        Some(n) => if n <= u32::MAX {
            Some(n as u32)
        } else {
            None
        },
        None => None,
    }
}

/// A member that may be left out: `None` where it is missing or `null`.
pub fn get_present(value: &serde_json::Value, key: &str) -> (r: Option<serde_json::Value>)
    ensures
        r == present_member(*value, key@),
{
    match value_member(value, key) {
        Some(m) => {
            if value_is_null(&m) {
                None
            } else {
                Some(m)
            }
        },
        None => None,
    }
}

/// The unsigned integer member under `key`, where it fits 32 bits.
pub fn get_u32(value: &serde_json::Value, key: &str) -> (r: Option<u32>)
    ensures
        r == u32_member(*value, key@),
{
    match get_u64(value, key) {
        Some(n) => {
            if n <= 0xffff_ffff {
                Some(n as u32)
            } else {
                None
            }
        },
        None => None,
    }
}

/// Whether the value is a JSON object.
pub fn is_object(value: &serde_json::Value) -> (r: bool)
    ensures
        r == json_is_object(*value),
{
    value_is_object(value)
}

/// The string value, where the value is a string.
pub fn as_string(value: &serde_json::Value) -> (r: Option<String>)
    ensures
        r.deep_view() == json_string(*value),
{
    value_string(value)
}

/// The elements, where the value is an array.
pub fn as_elements(value: &serde_json::Value) -> (r: Option<Vec<serde_json::Value>>)
    ensures
        match r {
            Some(items) => json_elements(*value) == Some(items@),
            None => json_elements(*value) is None,
        },
{
    value_elements(value)
}

/// Puts a member behind the others.
pub fn put(entries: &mut Vec<(String, serde_json::Value)>, key: &str, value: serde_json::Value)
    ensures
        entry_views(final(entries)@) == entry_views(old(entries)@).push((key@, value)),
{
    entries.push((key.to_string(), value));
    proof {
        assert(entry_views(entries@) =~= entry_views(old(entries)@).push((key@, value)));
    }
}

/// The JSON number for an unsigned integer.
pub fn number(n: u64) -> (r: serde_json::Value)
    ensures
        r == json_of_u64(n),
{
    value_of_u64(n)
}

/// The JSON boolean for a truth value.
pub fn boolean(b: bool) -> (r: serde_json::Value)
    ensures
        r == json_of_bool(b),
        json_bool(r) == Some(b),
        !json_null(r),
{
    value_of_bool(b)
}

/// The JSON array of the values given.
pub fn array(items: Vec<serde_json::Value>) -> (r: serde_json::Value)
    ensures
        r == json_of_array(items@),
        json_elements(r) == Some(items@),
        json_string(r) is None,
        !json_null(r),
{
    value_of_array(items)
}

/// The boolean member under `key`.
pub fn get_bool(value: &serde_json::Value, key: &str) -> (r: Option<bool>)
    ensures
        r == bool_member(*value, key@),
{
    match value_member(value, key) {
        Some(m) => value_bool(&m),
        None => None,
    }
}

/// A string member that may be left out: `Err` where the member is there
/// and is neither a string nor `null`.
pub fn get_optional_str(value: &serde_json::Value, key: &str) -> (r: Result<Option<String>, ()>)
    ensures
        match r {
            Ok(found) => optional_string_member(*value, key@) == Some(found.deep_view()),
            Err(_) => optional_string_member(*value, key@) is None,
        },
{
    match value_member(value, key) {
        None => Ok(None),
        Some(m) => {
            if value_is_null(&m) {
                Ok(None)
            } else {
                match value_string(&m) {
                    Some(s) => Ok(Some(s)),
                    None => Err(()),
                }
            }
        },
    }
}

/// A boolean member that may be left out: `Err` where the member is there
/// and is neither a boolean nor `null`.
pub fn get_optional_bool(value: &serde_json::Value, key: &str) -> (r: Result<Option<bool>, ()>)
    ensures
        match r {
            Ok(found) => optional_bool_member(*value, key@) == Some(found),
            Err(_) => optional_bool_member(*value, key@) is None,
        },
{
    match value_member(value, key) {
        None => Ok(None),
        Some(m) => {
            if value_is_null(&m) {
                Ok(None)
            } else {
                match value_bool(&m) {
                    Some(b) => Ok(Some(b)),
                    None => Err(()),
                }
            }
        },
    }
}

/// The member under `key`, whatever it is.
pub fn get_member(value: &serde_json::Value, key: &str) -> (r: Option<serde_json::Value>)
    ensures
        r == json_member(*value, key@),
{
    value_member(value, key)
}

/// A number member that may be left out: `Err` where the member is there
/// and is neither an unsigned integer nor `null`.
pub fn get_optional_u64(value: &serde_json::Value, key: &str) -> (r: Result<Option<u64>, ()>)
    ensures
        match r {
            Ok(found) => optional_u64_member(*value, key@) == Some(found),
            Err(_) => optional_u64_member(*value, key@) is None,
        },
{
    match value_member(value, key) {
        None => Ok(None),
        Some(m) => {
            if value_is_null(&m) {
                Ok(None)
            } else {
                match value_u64(&m) {
                    Some(n) => Ok(Some(n)),
                    None => Err(()),
                }
            }
        },
    }
}

/// The elements of the array member under `key`.
pub fn get_elements(value: &serde_json::Value, key: &str) -> (r: Option<Vec<serde_json::Value>>)
    ensures
        match r {
            Some(items) => array_member(*value, key@) == Some(items@),
            None => array_member(*value, key@) is None,
        },
{
    match value_member(value, key) {
        Some(m) => value_elements(&m),
        None => None,
    }
}

/// The strings that JSON values hold, if each is a string.
pub open spec fn strings_of_json(values: Seq<serde_json::Value>) -> Option<Seq<Seq<char>>>
    decreases values.len(),
{
    if values.len() == 0 {
        Some(Seq::empty())
    } else {
        match (strings_of_json(values.drop_last()), json_string(values.last())) {
            (Some(rest), Some(s)) => Some(rest.push(s)),
            _ => None,
        }
    }
}

/// An array of strings that may be left out, read like
/// [`optional_string_member`].
pub open spec fn optional_strings_member(value: serde_json::Value, key: Seq<char>) -> Option<
    Option<Seq<Seq<char>>>,
> {
    match present_member(value, key) {
        None => Some(None),
        Some(m) => match json_elements(m) {
            Some(values) => match strings_of_json(values) {
                Some(strings) => Some(Some(strings)),
                None => None,
            },
            None => None,
        },
    }
}

/// Where the first values are not all strings, the whole is not either.
pub proof fn lemma_strings_prefix(values: Seq<serde_json::Value>, n: int)
    requires
        0 <= n <= values.len(),
        strings_of_json(values.take(n)) is None,
    ensures
        strings_of_json(values) is None,
    decreases values.len() - n,
{
    if n < values.len() {
        assert(values.take(n + 1).drop_last() =~= values.take(n));
        lemma_strings_prefix(values, n + 1);
    } else {
        assert(values.take(n) =~= values);
    }
}

/// The strings that JSON values hold, if each is a string.
pub fn as_strings(values: &Vec<serde_json::Value>) -> (r: Option<Vec<String>>)
    ensures
        r.deep_view() == strings_of_json(values@),
{
    let mut out: Vec<String> = Vec::new();
    let mut i: usize = 0;
    proof {
        assert(out.deep_view() =~= Seq::empty());
    }
    while i < values.len()
        invariant
            0 <= i <= values.len(),
            strings_of_json(values@.take(i as int)) == Some(out.deep_view()),
        decreases values.len() - i,
    {
        proof {
            let next = values@.take(i + 1);
            assert(next.drop_last() =~= values@.take(i as int));
            assert(next.last() == values[i as int]);
        }
        match value_string(&values[i]) {
            Some(s) => {
                let ghost before = out.deep_view();
                let ghost added = s@;
                out.push(s);
                proof {
                    assert(out.deep_view() =~= before.push(added));
                }
            },
            None => {
                proof {
                    lemma_strings_prefix(values@, i + 1);
                }
                return None;
            },
        }
        i += 1;
    }
    proof {
        assert(values@.take(values.len() as int) =~= values@);
    }
    Some(out)
}

/// An array of strings under `key` that may be left out: `Err` where the
/// member is there and is no array of strings.
pub fn get_optional_strings(value: &serde_json::Value, key: &str) -> (r: Result<
    Option<Vec<String>>,
    (),
>)
    ensures
        match r {
            Ok(found) => optional_strings_member(*value, key@) == Some(found.deep_view()),
            Err(_) => optional_strings_member(*value, key@) is None,
        },
{
    match get_present(value, key) {
        None => Ok(None),
        Some(m) => match value_elements(&m) {
            Some(values) => match as_strings(&values) {
                Some(strings) => Ok(Some(strings)),
                None => Err(()),
            },
            None => Err(()),
        },
    }
}

/// Parses a JSON document.
pub fn parse(text: &str) -> (r: Option<serde_json::Value>)
    ensures
        r == json_parsed(text@),
{
    value_from_text(text)
}

/// The empty object `{}`.
pub fn empty_object() -> (r: serde_json::Value)
    ensures
        r == empty_object_value(),
{
    value_empty_object()
}

/// Parses `text`; a text that is no JSON document gives the empty object.
pub fn parse_or_empty(text: &str) -> (r: serde_json::Value)
    ensures
        r == parsed_or_empty(text@),
{
    match value_from_text(text) {
        Some(value) => value,
        None => value_empty_object(),
    }
}

/// The compact text of the value, or `{}` where it cannot be printed.
pub fn to_text(value: &serde_json::Value) -> (r: String)
    ensures
        r@ == text_or_empty(*value),
{
    match value_to_text(value) {
        Some(s) => s,
        None => "{}".to_string(),
    }
}

/// The string member under `key`.
pub fn get_str(value: &serde_json::Value, key: &str) -> (r: Option<String>)
    ensures
        r.deep_view() == string_member(*value, key@),
{
    match value_member(value, key) {
        Some(m) => value_string(&m),
        None => None,
    }
}

/// The unsigned integer member under `key`.
pub fn get_u64(value: &serde_json::Value, key: &str) -> (r: Option<u64>)
    ensures
        r == u64_member(*value, key@),
{
    match value_member(value, key) {
        Some(m) => value_u64(&m),
        None => None,
    }
}

/// The number of elements of the array member under `key`.
pub fn get_array_len(value: &serde_json::Value, key: &str) -> (r: Option<usize>)
    ensures
        match r {
            Some(n) => array_member_len(*value, key@) == Some(n as nat),
            None => array_member_len(*value, key@) is None,
        },
{
    match value_member(value, key) {
        Some(m) => match value_elements(&m) {
            Some(items) => Some(items.len()),
            None => None,
        },
        None => None,
    }
}

} // verus!
