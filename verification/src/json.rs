//! Decoded JSON documents, and the rule by which one stands in for a record
//! with named fields.

use vstd::prelude::*;
use vstd::string::StringExecFns;
use crate::error::DecodeError;
use crate::error::DecodeErrorView;
use crate::text::str_eq;
use crate::text::strings_view;

verus! {

/// `serde_json::Value`, a parsed JSON document. It is carried through as it
/// is: of what it holds, only what `json_keys` and `json_member` name is
/// spoken of.
#[verifier::external_type_specification]
#[verifier::external_body]
pub struct ExValue(serde_json::Value);

/// The keys of a JSON object, in the order in which `serde_json` walks
/// them; `None` for a document that is no object.
pub uninterp spec fn json_keys(doc: serde_json::Value) -> Option<Seq<Seq<char>>>;

/// The member that a JSON object holds under a key; `None` where it has no
/// such key or is no object.
pub uninterp spec fn json_member(doc: serde_json::Value, key: Seq<char>) -> Option<
    serde_json::Value,
>;

/// `serde_json::Value::as_object`, then `serde_json::Map::keys`: the keys of
/// an object, in the map's own order; nothing for any other document.
#[verifier::external_body]
pub(crate) fn object_keys(doc: &serde_json::Value) -> (keys: Option<Vec<String>>)
    ensures
        keys_view(keys) == json_keys(*doc),
{
    let object = doc.as_object()?;
    Some(object.keys().cloned().collect())
}

/// `serde_json::Map::new`, `serde_json::Map::insert` and
/// `serde_json::Value::Object`: the object whose one member is `inner`,
/// under `key`.
#[verifier::external_body]
pub(crate) fn wrap_under(key: &str, inner: serde_json::Value) -> (doc: serde_json::Value)
    ensures
        json_keys(doc) == Some(seq![key@]),
        json_member(doc, key@) == Some(inner),
{
    let mut object = serde_json::Map::new();
    object.insert(key.to_owned(), inner);
    serde_json::Value::Object(object)
}

/// The texts of a list of keys that may be absent.
pub open spec fn keys_view(keys: Option<Vec<String>>) -> Option<Seq<Seq<char>>> {
    match keys {
        Some(keys) => Some(strings_view(keys@)),
        None => None,
    }
}

/// The texts of the names of a record's fields.
pub open spec fn fields_view(fields: &[&str]) -> Seq<Seq<char>> {
    fields@.map_values(|field: &str| field@)
}

/// How a JSON document stands in for a record.
#[derive(Debug, Clone, Copy, PartialEq, Eq, Structural)]
pub enum Flattening {
    /// The document itself is read as the record.
    Direct,
    /// The document becomes the one member of a new object, under the name
    /// of the record's only field, and that object is read as the record.
    Wrap,
}

/// Whether every one of `fields` is among `keys`.
pub open spec fn has_all(keys: Seq<Seq<char>>, fields: Seq<Seq<char>>) -> bool {
    forall|i: int| 0 <= i < fields.len() ==> keys.contains(#[trigger] fields[i])
}

/// The flattening rule. A document that is no object is read as it is. An
/// object stands for a record of one field directly if it has the field,
/// and wrapped under the field's name if not. For any other number of
/// fields the object must have them all: a missing one is an error that
/// lists the expected fields and the keys found.
pub open spec fn flattening(fields: Seq<Seq<char>>, keys: Option<Seq<Seq<char>>>) -> Result<
    Flattening,
    DecodeErrorView,
> {
    match keys {
        None => Ok(Flattening::Direct),
        Some(keys) => if fields.len() == 1 {
            if keys.contains(fields[0]) {
                Ok(Flattening::Direct)
            } else {
                Ok(Flattening::Wrap)
            }
        } else if has_all(keys, fields) {
            Ok(Flattening::Direct)
        } else {
            Err(DecodeErrorView::MissingKeys { expected: fields, found: keys })
        },
    }
}

/// The view of what the flattening rule returns.
pub open spec fn flattening_view(result: Result<Flattening, DecodeError>) -> Result<
    Flattening,
    DecodeErrorView,
> {
    match result {
        Ok(how) => Ok(how),
        Err(error) => Err(error@),
    }
}

/// Whether `key` is among `keys`.
pub fn has_key(keys: &Vec<String>, key: &str) -> (found: bool)
    ensures
        found == strings_view(keys@).contains(key@),
{
    let mut i: usize = 0;
    while i < keys.len()
        invariant
            i <= keys@.len(),
            forall|j: int| 0 <= j < i ==> strings_view(keys@)[j] != key@,
        decreases keys@.len() - i,
    {
        if str_eq(keys[i].as_str(), key) {
            assert(strings_view(keys@)[i as int] == key@);
            return true;
        }
        i += 1;
    }
    false
}

/// Whether every one of `fields` is among `keys`.
pub fn has_all_keys(keys: &Vec<String>, fields: &[&str]) -> (found: bool)
    ensures
        found == has_all(strings_view(keys@), fields_view(fields)),
{
    let mut i: usize = 0;
    while i < fields.len()
        invariant
            i <= fields@.len(),
            forall|j: int|
                0 <= j < i ==> strings_view(keys@).contains(#[trigger] fields_view(fields)[j]),
        decreases fields@.len() - i,
    {
        if !has_key(keys, fields[i]) {
            assert(!strings_view(keys@).contains(fields_view(fields)[i as int]));
            return false;
        }
        i += 1;
    }
    true
}

fn owned_strings(items: &[&str]) -> (owned: Vec<String>)
    ensures
        strings_view(owned@) == fields_view(items),
{
    let mut owned: Vec<String> = Vec::new();
    let mut i: usize = 0;
    while i < items.len()
        invariant
            i <= items@.len(),
            owned@.len() == i,
            forall|j: int| 0 <= j < i ==> owned@[j]@ == items@[j]@,
        decreases items@.len() - i,
    {
        owned.push(String::from_str(items[i]));
        i += 1;
    }
    assert(strings_view(owned@) =~= fields_view(items));
    owned
}

/// The flattening rule, on the keys of the document: `None` where the
/// document is no object.
pub fn record_plan(fields: &[&str], keys: Option<Vec<String>>) -> (result: Result<
    Flattening,
    DecodeError,
>)
    ensures
        flattening_view(result) == flattening(fields_view(fields), keys_view(keys)),
{
    let keys = match keys {
        None => {
            return Ok(Flattening::Direct);
        },
        Some(keys) => keys,
    };
    if fields.len() == 1 {
        if has_key(&keys, fields[0]) {
            Ok(Flattening::Direct)
        } else {
            Ok(Flattening::Wrap)
        }
    } else if has_all_keys(&keys, fields) {
        Ok(Flattening::Direct)
    } else {
        Err(DecodeError::MissingKeys { expected: owned_strings(fields), found: keys })
    }
}

/// Whether `result` is what stands in for a record with the named fields,
/// given the JSON document of a column: the document itself where the rule
/// says `Direct`; where it says `Wrap`, the object whose only key is the
/// only field's name and whose member under it is the document; and the
/// rule's error where a field is missing.
pub open spec fn stands_in(
    fields: Seq<Seq<char>>,
    doc: serde_json::Value,
    result: Result<serde_json::Value, DecodeError>,
) -> bool {
    match flattening(fields, json_keys(doc)) {
        Ok(Flattening::Direct) => result == Ok::<serde_json::Value, DecodeError>(doc),
        Ok(Flattening::Wrap) => {
            &&& result is Ok
            &&& json_keys(result->Ok_0) == Some(seq![fields[0]])
            &&& json_member(result->Ok_0, fields[0]) == Some(doc)
        },
        Err(error) => result is Err && result->Err_0@ == error,
    }
}

/// The document that is read as the record with the named fields, for the
/// JSON document of a column.
pub fn flatten_record(fields: &[&str], doc: serde_json::Value) -> (result: Result<
    serde_json::Value,
    DecodeError,
>)
    ensures
        stands_in(fields_view(fields), doc, result),
{
    match record_plan(fields, object_keys(&doc)) {
        Ok(Flattening::Direct) => Ok(doc),
        Ok(Flattening::Wrap) => Ok(wrap_under(fields[0], doc)),
        Err(error) => Err(error),
    }
}

/// An object that has every field of the record is read as the record
/// directly, whatever the number of fields.
pub proof fn complete_object_is_direct(fields: Seq<Seq<char>>, keys: Seq<Seq<char>>)
    requires
        has_all(keys, fields),
    ensures
        flattening(fields, Some(keys)) == Ok::<Flattening, DecodeErrorView>(Flattening::Direct),
{
    if fields.len() == 1 {
        assert(keys.contains(fields[0]));
    }
}

/// An object that lacks a field is never read directly: for a record of one
/// field it is wrapped under that field's name, and for a record of several
/// fields it is an error that lists the fields expected and the keys found.
pub proof fn incomplete_object_is_wrapped_or_refused(
    fields: Seq<Seq<char>>,
    keys: Seq<Seq<char>>,
    missing: int,
)
    requires
        0 <= missing < fields.len(),
        !keys.contains(fields[missing]),
    ensures
        fields.len() == 1 ==> flattening(fields, Some(keys)) == Ok::<Flattening, DecodeErrorView>(
            Flattening::Wrap,
        ),
        fields.len() > 1 ==> flattening(fields, Some(keys)) == Err::<Flattening, DecodeErrorView>(
            DecodeErrorView::MissingKeys { expected: fields, found: keys },
        ),
{
}

} // verus!
