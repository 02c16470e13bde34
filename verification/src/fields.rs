//! Typed members of JSON documents: what counts as a text, a byte string, a
//! list of texts or a map of texts, how each is read from a document and how
//! each is written into one.

use vstd::prelude::*;
use crate::entries::{entries_map, lemma_entries_map_agrees, lemma_entries_map_names};
use crate::json::{
    array_value, as_items, as_object, as_text, as_unsigned, field_names, is_null, json_fields,
    json_member, json_model, json_rendering, member, models_of, render_text, text_value,
    unsigned_value, JsonModel, NumberModel,
};

verus! {

/// The text of a JSON string; nothing else is a text.
pub open spec fn json_text(model: JsonModel) -> Option<Seq<char>> {
    match model {
        JsonModel::String(text) => Some(text),
        _ => None,
    }
}

/// The byte that a JSON number stands for: a non-negative integer up to 255.
pub open spec fn json_byte(model: JsonModel) -> Option<u8> {
    match model {
        JsonModel::Number(NumberModel::PosInt(n)) => if n <= 255 {
            Some(n as u8)
        } else {
            None
        },
        _ => None,
    }
}

/// The byte string of a JSON array whose every item is a byte.
pub open spec fn json_bytes(model: JsonModel) -> Option<Seq<u8>> {
    match model {
        JsonModel::Array(items) => if forall|j: int|
            0 <= j < items.len() ==> (#[trigger] json_byte(items[j])) is Some {
            Some(Seq::new(items.len(), |j: int| json_byte(items[j])->0))
        } else {
            None
        },
        _ => None,
    }
}

/// The list of texts of a JSON array whose every item is a string.
pub open spec fn json_texts(model: JsonModel) -> Option<Seq<Seq<char>>> {
    match model {
        JsonModel::Array(items) => if forall|j: int|
            0 <= j < items.len() ==> (#[trigger] json_text(items[j])) is Some {
            Some(Seq::new(items.len(), |j: int| json_text(items[j])->0))
        } else {
            None
        },
        _ => None,
    }
}

/// The map of texts of a JSON object whose every value is a string.
pub open spec fn json_text_map(model: JsonModel) -> Option<Map<Seq<char>, Seq<char>>> {
    match model {
        JsonModel::Object(fields) => if forall|name: Seq<char>|
            fields.contains_key(name) ==> (#[trigger] json_text(fields[name])) is Some {
            Some(fields.map_values(|value: JsonModel| json_text(value)->0))
        } else {
            None
        },
        _ => None,
    }
}

/// The map of text lists of a JSON object whose every value is an array of strings.
pub open spec fn json_texts_map(model: JsonModel) -> Option<Map<Seq<char>, Seq<Seq<char>>>> {
    match model {
        JsonModel::Object(fields) => if forall|name: Seq<char>|
            fields.contains_key(name) ==> (#[trigger] json_texts(fields[name])) is Some {
            Some(fields.map_values(|value: JsonModel| json_texts(value)->0))
        } else {
            None
        },
        _ => None,
    }
}

/// The member `key` where it is given: a member that is `null` counts as left out.
pub open spec fn json_given(model: JsonModel, key: Seq<char>) -> Option<JsonModel> {
    match json_member(model, key) {
        Some(JsonModel::Null) => None,
        other => other,
    }
}

/// The JSON array of numbers that a byte string is written as.
pub open spec fn bytes_model(bytes: Seq<u8>) -> JsonModel {
    JsonModel::Array(
        Seq::new(bytes.len(), |j: int| JsonModel::Number(NumberModel::PosInt(bytes[j] as u64))),
    )
}

/// The JSON array of strings that a list of texts is written as.
pub open spec fn texts_model(texts: Seq<Seq<char>>) -> JsonModel {
    JsonModel::Array(Seq::new(texts.len(), |j: int| JsonModel::String(texts[j])))
}

/// Reads a text.
pub fn text_of(value: &serde_json::Value) -> (text: Option<String>)
    ensures
        match text {
            Some(text) => json_text(json_model(*value)) == Some(text@),
            None => json_text(json_model(*value)) is None,
        },
{
    match as_text(value) {
        Some(text) => Some(text.to_owned()),
        None => None,
    }
}

/// Reads a byte string.
pub fn bytes_of(value: &serde_json::Value) -> (bytes: Option<Vec<u8>>)
    ensures
        match bytes {
            Some(bytes) => json_bytes(json_model(*value)) == Some(bytes@),
            None => json_bytes(json_model(*value)) is None,
        },
{
    match as_items(value) {
        None => None,
        Some(items) => {
            let ghost models = models_of(items@);
            let mut bytes: Vec<u8> = Vec::new();
            let mut i: usize = 0;
            while i < items.len()
                invariant
                    i <= items@.len(),
                    models == models_of(items@),
                    json_model(*value) == JsonModel::Array(models),
                    bytes@.len() == i,
                    forall|j: int| 0 <= j < i ==> json_byte(models[j]) == Some(#[trigger] bytes@[j]),
                decreases items@.len() - i,
            {
                assert(models[i as int] == json_model(items@[i as int]));
                match as_unsigned(&items[i]) {
                    Some(n) => {
                        if n <= 255 {
                            bytes.push(n as u8);
                        } else {
                            assert(json_byte(models[i as int]) is None);
                            return None;
                        }
                    },
                    None => {
                        assert(json_byte(models[i as int]) is None);
                        return None;
                    },
                }
                i += 1;
            }
            proof {
                assert(models.len() == bytes@.len());
                assert forall|j: int| 0 <= j < models.len() implies (#[trigger] json_byte(
                    models[j],
                )) is Some by {
                    assert(json_byte(models[j]) == Some(bytes@[j]));
                }
                assert forall|j: int| 0 <= j < models.len() implies bytes@[j] == json_byte(
                    models[j],
                )->0 by {
                    assert(json_byte(models[j]) == Some(bytes@[j]));
                }
                assert(bytes@ =~= json_bytes(json_model(*value))->0);
            }
            Some(bytes)
        },
    }
}

/// Reads a list of texts.
pub fn texts_of(value: &serde_json::Value) -> (texts: Option<Vec<String>>)
    ensures
        match texts {
            Some(texts) => json_texts(json_model(*value)) == Some(texts.deep_view()),
            None => json_texts(json_model(*value)) is None,
        },
{
    match as_items(value) {
        None => None,
        Some(items) => {
            let ghost models = models_of(items@);
            let mut texts: Vec<String> = Vec::new();
            let mut i: usize = 0;
            while i < items.len()
                invariant
                    i <= items@.len(),
                    models == models_of(items@),
                    json_model(*value) == JsonModel::Array(models),
                    texts@.len() == i,
                    forall|j: int| 0 <= j < i ==> json_text(models[j]) == Some(#[trigger] texts@[j]@),
                decreases items@.len() - i,
            {
                assert(models[i as int] == json_model(items@[i as int]));
                match as_text(&items[i]) {
                    Some(text) => {
                        texts.push(text.to_owned());
                    },
                    None => {
                        assert(json_text(models[i as int]) is None);
                        return None;
                    },
                }
                i += 1;
            }
            proof {
                assert(models.len() == texts@.len());
                assert forall|j: int| 0 <= j < models.len() implies (#[trigger] json_text(
                    models[j],
                )) is Some by {
                    assert(json_text(models[j]) == Some(texts@[j]@));
                }
                assert forall|j: int| 0 <= j < models.len() implies texts.deep_view()[j]
                    == json_text(models[j])->0 by {
                    assert(json_text(models[j]) == Some(texts@[j]@));
                }
                assert(texts.deep_view() =~= json_texts(json_model(*value))->0);
            }
            Some(texts)
        },
    }
}

/// Reads a map of texts, as a list of named entries.
pub fn text_map_of(value: &serde_json::Value) -> (entries: Option<Vec<(String, String)>>)
    ensures
        match entries {
            Some(entries) => json_text_map(json_model(*value)) == Some(entries_map(entries@)),
            None => json_text_map(json_model(*value)) is None,
        },
{
    match as_object(value) {
        None => None,
        Some(object) => {
            let names = field_names(object);
            let ghost fields = json_fields(*object);
            let mut entries: Vec<(String, String)> = Vec::new();
            let mut i: usize = 0;
            while i < names.len()
                invariant
                    i <= names@.len(),
                    json_model(*value) == JsonModel::Object(fields),
                    forall|j: int| 0 <= j < names@.len() ==> fields.contains_key(#[trigger] names@[j]@),
                    entries@.len() == i,
                    forall|j: int|
                        0 <= j < i ==> (#[trigger] entries@[j]).0@ == names@[j]@ && json_text(
                            fields[names@[j]@],
                        ) == Some(entries@[j].1@),
                decreases names@.len() - i,
            {
                assert(fields.contains_key(names@[i as int]@));
                match member(value, names[i].as_str()) {
                    None => {
                        return None;
                    },
                    Some(inner) => match as_text(inner) {
                        None => {
                            assert(json_text(fields[names@[i as int]@]) is None);
                            return None;
                        },
                        Some(text) => {
                            entries.push((names[i].clone(), text.to_owned()));
                        },
                    },
                }
                i += 1;
            }
            proof {
                let target = json_text_map(json_model(*value));
                assert forall|name: Seq<char>| fields.contains_key(name) implies (#[trigger] json_text(
                    fields[name],
                )) is Some by {
                    let j = choose|j: int| 0 <= j < names@.len() && #[trigger] names@[j]@ == name;
                    assert(entries@[j].0@ == name);
                }
                assert(target is Some);
                lemma_entries_map_names(entries@);
                lemma_entries_map_agrees(entries@, target->0);
                assert forall|name: Seq<char>| #[trigger]
                    target->0.contains_key(name) implies entries_map(entries@).contains_key(name) by {
                    let j = choose|j: int| 0 <= j < names@.len() && #[trigger] names@[j]@ == name;
                    assert(entries@[j].0@ == name);
                }
                assert(entries_map(entries@) =~= target->0);
            }
            Some(entries)
        },
    }
}

/// Reads a map of text lists, as a list of named entries.
pub fn texts_map_of(value: &serde_json::Value) -> (entries: Option<Vec<(String, Vec<String>)>>)
    ensures
        match entries {
            Some(entries) => json_texts_map(json_model(*value)) == Some(entries_map(entries@)),
            None => json_texts_map(json_model(*value)) is None,
        },
{
    match as_object(value) {
        None => None,
        Some(object) => {
            let names = field_names(object);
            let ghost fields = json_fields(*object);
            let mut entries: Vec<(String, Vec<String>)> = Vec::new();
            let mut i: usize = 0;
            while i < names.len()
                invariant
                    i <= names@.len(),
                    json_model(*value) == JsonModel::Object(fields),
                    forall|j: int| 0 <= j < names@.len() ==> fields.contains_key(#[trigger] names@[j]@),
                    entries@.len() == i,
                    forall|j: int|
                        0 <= j < i ==> (#[trigger] entries@[j]).0@ == names@[j]@ && json_texts(
                            fields[names@[j]@],
                        ) == Some(entries@[j].1.deep_view()),
                decreases names@.len() - i,
            {
                assert(fields.contains_key(names@[i as int]@));
                match member(value, names[i].as_str()) {
                    None => {
                        return None;
                    },
                    Some(inner) => match texts_of(inner) {
                        None => {
                            assert(json_texts(fields[names@[i as int]@]) is None);
                            return None;
                        },
                        Some(texts) => {
                            entries.push((names[i].clone(), texts));
                        },
                    },
                }
                i += 1;
            }
            proof {
                let target = json_texts_map(json_model(*value));
                assert forall|name: Seq<char>| fields.contains_key(name) implies (#[trigger] json_texts(
                    fields[name],
                )) is Some by {
                    let j = choose|j: int| 0 <= j < names@.len() && #[trigger] names@[j]@ == name;
                    assert(entries@[j].0@ == name);
                }
                assert(target is Some);
                lemma_entries_map_names(entries@);
                lemma_entries_map_agrees(entries@, target->0);
                assert forall|name: Seq<char>| #[trigger]
                    target->0.contains_key(name) implies entries_map(entries@).contains_key(name) by {
                    let j = choose|j: int| 0 <= j < names@.len() && #[trigger] names@[j]@ == name;
                    assert(entries@[j].0@ == name);
                }
                assert(entries_map(entries@) =~= target->0);
            }
            Some(entries)
        },
    }
}

/// Finds the member `key` where it is given and not `null`.
pub fn given_member<'a>(value: &'a serde_json::Value, key: &str) -> (found: Option<
    &'a serde_json::Value,
>)
    ensures
        match found {
            Some(inner) => json_given(json_model(*value), key@) == Some(json_model(*inner)),
            None => json_given(json_model(*value), key@) is None,
        },
{
    match member(value, key) {
        Some(inner) => if is_null(inner) {
            None
        } else {
            Some(inner)
        },
        None => None,
    }
}

/// Writes a byte string as a JSON array of numbers.
pub fn bytes_value(bytes: &Vec<u8>) -> (value: serde_json::Value)
    ensures
        json_model(value) == bytes_model(bytes@),
{
    let mut items: Vec<serde_json::Value> = Vec::new();
    let mut i: usize = 0;
    while i < bytes.len()
        invariant
            i <= bytes@.len(),
            items@.len() == i,
            forall|j: int|
                0 <= j < i ==> json_model(#[trigger] items@[j]) == JsonModel::Number(
                    NumberModel::PosInt(bytes@[j] as u64),
                ),
        decreases bytes@.len() - i,
    {
        items.push(unsigned_value(bytes[i] as u64));
        i += 1;
    }
    assert(models_of(items@) =~= bytes_model(bytes@)->Array_0);
    array_value(items)
}

/// Writes a list of texts as a JSON array of strings.
pub fn texts_value(texts: &Vec<String>) -> (value: serde_json::Value)
    ensures
        json_model(value) == texts_model(texts.deep_view()),
{
    let mut items: Vec<serde_json::Value> = Vec::new();
    let mut i: usize = 0;
    while i < texts.len()
        invariant
            i <= texts@.len(),
            items@.len() == i,
            forall|j: int|
                0 <= j < i ==> json_model(#[trigger] items@[j]) == JsonModel::String(texts@[j]@),
        decreases texts@.len() - i,
    {
        items.push(text_value(texts[i].clone()));
        i += 1;
    }
    assert(models_of(items@) =~= texts_model(texts.deep_view())->Array_0);
    array_value(items)
}

/// The view of an optional text.
pub open spec fn text_view(text: Option<String>) -> Option<Seq<char>> {
    match text {
        Some(text) => Some(text@),
        None => None,
    }
}

/// The view of an optional list of named texts.
pub open spec fn data_view(data: Option<Vec<(String, String)>>) -> Option<Map<Seq<char>, Seq<char>>> {
    match data {
        Some(entries) => Some(entries_map(entries@)),
        None => None,
    }
}

/// The text member `key` of a document, where it is there and is a string.
pub open spec fn json_text_member(model: JsonModel, key: Seq<char>) -> Option<Seq<char>> {
    match json_member(model, key) {
        Some(inner) => json_text(inner),
        None => None,
    }
}

/// An optional text member: left out, or a string. `None` where it is given and is no string.
pub open spec fn json_optional_text(model: JsonModel, key: Seq<char>) -> Option<Option<Seq<char>>> {
    match json_given(model, key) {
        None => Some(None),
        Some(inner) => match json_text(inner) {
            Some(text) => Some(Some(text)),
            None => None,
        },
    }
}

/// An optional member that maps texts to texts: left out, or an object of
/// strings. `None` where it is given and is no such object.
pub open spec fn json_optional_text_map(model: JsonModel, key: Seq<char>) -> Option<
    Option<Map<Seq<char>, Seq<char>>>,
> {
    match json_given(model, key) {
        None => Some(None),
        Some(inner) => match json_text_map(inner) {
            Some(map) => Some(Some(map)),
            None => None,
        },
    }
}

/// The text of a document, where it can be written.
pub fn text_of_json(value: &serde_json::Value) -> (text: Option<String>)
    ensures
        text_view(text) == json_rendering(json_model(*value)),
{
    match render_text(value) {
        Ok(text) => Some(text),
        Err(_) => None,
    }
}

/// Reads an optional text member.
pub fn optional_text(value: &serde_json::Value, key: &str) -> (text: Option<Option<String>>)
    ensures
        match text {
            Some(text) => json_optional_text(json_model(*value), key@) == Some(text_view(text)),
            None => json_optional_text(json_model(*value), key@) is None,
        },
{
    match given_member(value, key) {
        None => Some(None),
        Some(inner) => match text_of(inner) {
            Some(text) => Some(Some(text)),
            None => None,
        },
    }
}

/// Reads an optional member that maps texts to texts.
pub fn optional_text_map(value: &serde_json::Value, key: &str) -> (data: Option<
    Option<Vec<(String, String)>>,
>)
    ensures
        match data {
            Some(data) => json_optional_text_map(json_model(*value), key@) == Some(data_view(data)),
            None => json_optional_text_map(json_model(*value), key@) is None,
        },
{
    match given_member(value, key) {
        None => Some(None),
        Some(inner) => match text_map_of(inner) {
            Some(entries) => Some(Some(entries)),
            None => None,
        },
    }
}

/// Reads a required text member.
pub fn text_member(value: &serde_json::Value, key: &str) -> (text: Option<String>)
    ensures
        text_view(text) == json_text_member(json_model(*value), key@),
{
    match member(value, key) {
        Some(inner) => text_of(inner),
        None => None,
    }
}

/// The byte-string member `key` of a document, where it is there and is one.
pub open spec fn json_bytes_member(model: JsonModel, key: Seq<char>) -> Option<Seq<u8>> {
    match json_member(model, key) {
        Some(inner) => json_bytes(inner),
        None => None,
    }
}

/// Reads a required byte-string member.
pub fn bytes_member(value: &serde_json::Value, key: &str) -> (bytes: Option<Vec<u8>>)
    ensures
        match bytes {
            Some(bytes) => json_bytes_member(json_model(*value), key@) == Some(bytes@),
            None => json_bytes_member(json_model(*value), key@) is None,
        },
{
    match member(value, key) {
        Some(inner) => bytes_of(inner),
        None => None,
    }
}

} // verus!
