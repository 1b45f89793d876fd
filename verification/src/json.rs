//! JSON documents as plain values.

use vstd::prelude::*;

use crate::text::text_eq;

verus! {

/// A JSON document. An object keeps its members in a list of key and value;
/// a number keeps its literal text.
#[derive(Debug, PartialEq, Eq)]
pub enum JsonValue {
    Null,
    Bool(bool),
    Number(String),
    Text(String),
    Array(Vec<JsonValue>),
    Object(Vec<(String, JsonValue)>),
}

/// A JSON document with its texts as character sequences.
pub enum JsonView {
    Null,
    Bool(bool),
    Number(Seq<char>),
    Text(Seq<char>),
    Array(Seq<JsonView>),
    Object(Seq<(Seq<char>, JsonView)>),
}

impl View for JsonValue {
    type V = JsonView;

    open spec fn view(&self) -> JsonView
        decreases self,
    {
        match self {
            JsonValue::Null => JsonView::Null,
            JsonValue::Bool(b) => JsonView::Bool(*b),
            JsonValue::Number(n) => JsonView::Number(n@),
            JsonValue::Text(t) => JsonView::Text(t@),
            JsonValue::Array(items) => JsonView::Array(
                Seq::new(
                    items@.len(),
                    |i: int|
                        if 0 <= i < items@.len() {
                            items@[i].view()
                        } else {
                            JsonView::Null
                        },
                ),
            ),
            JsonValue::Object(members) => JsonView::Object(
                Seq::new(
                    members@.len(),
                    |i: int|
                        (
                            members@[i].0@,
                            if 0 <= i < members@.len() {
                                members@[i].1.view()
                            } else {
                                JsonView::Null
                            },
                        ),
                ),
            ),
        }
    }
}

/// The value of the first member of `members` whose key is `key`.
pub open spec fn first_member(members: Seq<(Seq<char>, JsonView)>, key: Seq<char>) -> Option<
    JsonView,
>
    decreases members.len(),
{
    if members.len() == 0 {
        None
    } else if members[0].0 == key {
        Some(members[0].1)
    } else {
        first_member(members.drop_first(), key)
    }
}

impl JsonView {
    /// The value under `key`, where this document is an object that has it.
    pub open spec fn member(self, key: Seq<char>) -> Option<JsonView> {
        match self {
            JsonView::Object(members) => first_member(members, key),
            _ => None,
        }
    }

    /// The characters of this document, where it is a string.
    pub open spec fn text(self) -> Option<Seq<char>> {
        match self {
            JsonView::Text(t) => Some(t),
            _ => None,
        }
    }

    /// The elements of this document, where it is an array.
    pub open spec fn items(self) -> Option<Seq<JsonView>> {
        match self {
            JsonView::Array(items) => Some(items),
            _ => None,
        }
    }
}

/// The view of an object lists the views of its members, in their order.
pub proof fn lemma_object_view(v: JsonValue)
    requires
        v is Object,
    ensures
        v@ is Object,
        v@->Object_0.len() == v->Object_0@.len(),
        forall|k: int|
            0 <= k < v->Object_0@.len() ==> #[trigger] v@->Object_0[k] == (
                v->Object_0@[k].0@,
                v->Object_0@[k].1@,
            ),
{
    match v {
        JsonValue::Object(members) => {
            assert(v@ is Object);
            assert(v@->Object_0.len() == members@.len());
        },
        _ => {},
    }
}

/// The view of an array lists the views of its elements, in their order.
pub proof fn lemma_array_view(v: JsonValue)
    requires
        v is Array,
    ensures
        v@ is Array,
        v@->Array_0.len() == v->Array_0@.len(),
        forall|k: int| 0 <= k < v->Array_0@.len() ==> #[trigger] v@->Array_0[k] == v->Array_0@[k]@,
{
}

impl JsonValue {
    /// Looks up the member `key` of an object. Of several members with that
    /// key the first is found; anything but an object has no members.
    pub fn get(&self, key: &str) -> (found: Option<&JsonValue>)
        ensures
            match found {
                Some(v) => self@.member(key@) == Some(v@),
                None => self@.member(key@) is None,
            },
    {
        match self {
            JsonValue::Object(members) => {
                let ghost all = self@->Object_0;
                proof {
                    lemma_object_view(*self);
                    assert(all.skip(0) =~= all);
                }
                let mut i: usize = 0;
                while i < members.len()
                    invariant
                        i <= members.len(),
                        self@ == JsonView::Object(all),
                        all.len() == members@.len(),
                        forall|k: int|
                            0 <= k < members@.len() ==> all[k] == (
                                members@[k].0@,
                                members@[k].1@,
                            ),
                        first_member(all, key@) == first_member(all.skip(i as int), key@),
                    decreases members.len() - i,
                {
                    proof {
                        let rest = all.skip(i as int);
                        assert(rest[0] == all[i as int]);
                        assert(rest.drop_first() =~= all.skip(i as int + 1));
                    }
                    if text_eq(members[i].0.as_str(), key) {
                        proof {
                            let rest = all.skip(i as int);
                            assert(rest.len() > 0);
                            assert(all[i as int] == (members@[i as int].0@, members@[i as int].1@));
                            assert(first_member(rest, key@) == Some(members@[i as int].1@));
                        }
                        return Some(&members[i].1);
                    }
                    i = i + 1;
                }
                assert(all.skip(i as int).len() == 0);
                None
            },
            _ => None,
        }
    }

    /// The characters of a string document.
    pub fn as_text(&self) -> (found: Option<&str>)
        ensures
            match found {
                Some(t) => self@.text() == Some(t@),
                None => self@.text() is None,
            },
    {
        match self {
            JsonValue::Text(t) => Some(t.as_str()),
            _ => None,
        }
    }

    /// The elements of an array document.
    pub fn as_array(&self) -> (found: Option<&Vec<JsonValue>>)
        ensures
            match found {
                Some(items) => self@.items() == Some(Seq::new(items@.len(), |i: int| items@[i]@)),
                None => self@.items() is None,
            },
    {
        match self {
            JsonValue::Array(items) => {
                proof {
                    lemma_array_view(*self);
                }
                assert(self@->Array_0 =~= Seq::new(items@.len(), |i: int| items@[i]@));
                Some(items)
            },
            _ => None,
        }
    }
}

/// The outcome of parsing, with its texts as character sequences.
pub open spec fn parsed_view(parsed: Result<JsonValue, String>) -> Result<JsonView, Seq<char>> {
    match parsed {
        Ok(doc) => Ok(doc@),
        Err(complaint) => Err(complaint@),
    }
}

/// `serde_json::Value`, the parser's own document type.
#[verifier::external_type_specification]
#[verifier::external_body]
pub struct ExParsedValue(serde_json::Value);

/// What `serde_json::from_str` makes of a text when asked for a
/// `serde_json::Value`: on success the parsed value, carried over into a
/// document of this library, on failure the text that the parser's error
/// displays. Nothing is assumed of it but that it depends on the text alone.
pub uninterp spec fn json_document(text: Seq<char>) -> Result<JsonView, Seq<char>>;

/// Carries a `serde_json::Value` over into a `JsonValue`, variant by variant:
/// a number by the text that `serde_json::Number` displays, the members of an
/// object in the order in which `serde_json::Map::iter` hands them out.
/// Nothing is claimed of the result.
#[verifier::external_body]
fn from_parsed(value: &serde_json::Value) -> JsonValue {
    match value {
        serde_json::Value::Null => JsonValue::Null,
        serde_json::Value::Bool(b) => JsonValue::Bool(*b),
        serde_json::Value::Number(n) => JsonValue::Number(n.to_string()),
        serde_json::Value::String(t) => JsonValue::Text(t.clone()),
        serde_json::Value::Array(items) => JsonValue::Array(items.iter().map(from_parsed).collect()),
        serde_json::Value::Object(members) => JsonValue::Object(
            members.iter().map(|(k, v)| (k.clone(), from_parsed(v))).collect(),
        ),
    }
}

/// Parses a text with `serde_json::from_str`, asked for a
/// `serde_json::Value`; a parsed value is carried over by `from_parsed`, an
/// error by its display text. The contract claims that the outcome is the
/// one that `json_document` names for that text.
#[verifier::external_body]
pub(crate) fn parse_document(text: &str) -> (parsed: Result<JsonValue, String>)
    ensures
        parsed_view(parsed) == json_document(text@),
{
    match serde_json::from_str::<serde_json::Value>(text) {
        Ok(value) => Ok(from_parsed(&value)),
        Err(e) => Err(e.to_string()),
    }
}

} // verus!
