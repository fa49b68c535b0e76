//! JSON documents, read and changed through `serde_json`.
//!
//! A document is modelled by what stands at each of its places: a place is a
//! JSON pointer, such as `/channels/0/clips`.
use vstd::prelude::*;

use serde_json::Value;

verus! {

/// A document of `serde_json`.
#[verifier::external_type_specification]
#[verifier::external_body]
pub struct JsonDocument(serde_json::Value);

/// What stands at a place of a document. Of a list or a record it says how many
/// items or fields it has: they have places of their own.
#[derive(Debug, PartialEq, Eq)]
pub enum FieldValue {
    Null,
    Bool(bool),
    /// A number as it is written.
    Number(String),
    Text(String),
    List(usize),
    Record(usize),
}

/// What stands at a place, by its text.
pub enum FieldView {
    Null,
    Bool(bool),
    Number(Seq<char>),
    Text(Seq<char>),
    List(nat),
    Record(nat),
}

impl View for FieldValue {
    type V = FieldView;

    open spec fn view(&self) -> FieldView {
        match *self {
            FieldValue::Null => FieldView::Null,
            FieldValue::Bool(value) => FieldView::Bool(value),
            FieldValue::Number(text) => FieldView::Number(text@),
            FieldValue::Text(text) => FieldView::Text(text@),
            FieldValue::List(count) => FieldView::List(count as nat),
            FieldValue::Record(count) => FieldView::Record(count as nat),
        }
    }
}

/// What stands at each place of a document.
pub type Content = Map<Seq<char>, FieldView>;

/// What stands where a pointer leads, if it leads anywhere.
pub open spec fn field_at(content: Content, pointer: Seq<char>) -> Option<FieldView> {
    if content.dom().contains(pointer) {
        Some(content[pointer])
    } else {
        None
    }
}

/// Whether two documents say the same, but perhaps for how a number is written.
pub open spec fn same_but_numbers(a: Content, b: Content) -> bool {
    &&& a.dom() == b.dom()
    &&& forall|pointer: Seq<char>| #[trigger]
        a.dom().contains(pointer) ==> a[pointer] == b[pointer] || (a[pointer] is Number
            && b[pointer] is Number)
}

/// What stands at each place of a document: `Value::pointer` leads there.
pub uninterp spec fn content_of(document: serde_json::Value) -> Map<Seq<char>, FieldView>;

/// The content of the document that some bytes write down, or what is wrong
/// with them: the result of `serde_json::from_slice`.
pub uninterp spec fn parsed_json(bytes: Seq<u8>) -> Result<Map<Seq<char>, FieldView>, Seq<char>>;

/// The bytes that `serde_json::to_vec` writes for a document of this content.
pub uninterp spec fn written_json(content: Map<Seq<char>, FieldView>) -> Seq<u8>;

/// `serde_json::from_slice`: the document that the bytes write down, or the
/// error as it describes itself. Both depend on the bytes alone.
#[verifier::external_body]
pub(crate) fn parse_document(bytes: &[u8]) -> (r: Result<Value, String>)
    ensures
        match r {
            Ok(document) => parsed_json(bytes@) == Ok::<Content, Seq<char>>(content_of(document)),
            Err(error) => parsed_json(bytes@) == Err::<Content, Seq<char>>(error@),
        },
{
    match serde_json::from_slice(bytes) {
        Ok(document) => Ok(document),
        Err(error) => Err(error.to_string()),
    }
}

/// `Value::pointer`: what stands where a pointer leads, if it leads anywhere.
/// The empty pointer leads to the whole document.
#[verifier::external_body]
pub(crate) fn read_field(document: &Value, pointer: &str) -> (r: Option<FieldValue>)
    ensures
        match r {
            Some(value) => field_at(content_of(*document), pointer@) == Some(value@),
            None => field_at(content_of(*document), pointer@) is None,
        },
        pointer@.len() == 0 ==> r is Some,
{
    match document.pointer(pointer) {
        None => None,
        Some(Value::Null) => Some(FieldValue::Null),
        Some(Value::Bool(value)) => Some(FieldValue::Bool(*value)),
        Some(Value::Number(number)) => Some(FieldValue::Number(number.to_string())),
        Some(Value::String(text)) => Some(FieldValue::Text(text.clone())),
        Some(Value::Array(items)) => Some(FieldValue::List(items.len())),
        Some(Value::Object(fields)) => Some(FieldValue::Record(fields.len())),
    }
}

/// `Value::pointer_mut`: put a text in the place of another. The pointer has no
/// `~`, which escapes characters: without one, no other pointer leads to the
/// same place, so nothing else changes.
#[verifier::external_body]
pub(crate) fn write_text(document: &mut Value, pointer: &str, text: String)
    requires
        !pointer@.contains('~'),
        field_at(content_of(*old(document)), pointer@) matches Some(FieldView::Text(_)),
    ensures
        content_of(*final(document)) == content_of(*old(document)).insert(
            pointer@,
            FieldView::Text(text@),
        ),
{
    if let Some(place) = document.pointer_mut(pointer) {
        *place = Value::String(text);
    }
}

/// `serde_json::to_vec` on a document, which cannot fail: no key of a document
/// is anything but a text, and writing to memory does not fail. The bytes depend
/// on the content alone. Read again they give the same document, where they can
/// be read (a document may be nested too deeply for that); a number with a
/// fraction may come back rounded.
#[verifier::external_body]
pub(crate) fn write_document(document: &Value) -> (r: Result<Vec<u8>, String>)
    ensures
        r is Ok,
        r->Ok_0@ == written_json(content_of(*document)),
        parsed_json(r->Ok_0@) matches Ok(read) ==> same_but_numbers(content_of(*document), read),
{
    match serde_json::to_vec(document) {
        Ok(bytes) => Ok(bytes),
        Err(error) => Err(error.to_string()),
    }
}

/// What a whole document is.
pub fn whole_value(document: &Value) -> (r: FieldValue)
    ensures
        field_at(content_of(*document), ""@) == Some(r@),
{
    proof {
        reveal_strlit("");
    }
    match read_field(document, "") {
        Some(value) => value,
        None => FieldValue::Null,
    }
}

} // verus!
