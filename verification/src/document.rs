//! The store's documents, as far as this library looks into them.
//!
//! A `bson::Document` is an insertion-ordered map from field names to BSON
//! values. The records of this library only ever hold text, so two things are
//! said of a document: the names of its fields, in document order, and the text
//! of those fields whose value is a BSON string. A field that is named but has
//! no text carries a value of some other BSON type.
//!
//! Everything in this file is believed, not proved: it states what the `bson`
//! crate does.

use bson::Document;
use vstd::prelude::*;

verus! {

/// `bson::Document`, taken as it is; the two functions below say what this
/// library reads in it.
#[verifier::external_type_specification]
#[verifier::external_body]
pub struct ExDocument(bson::ordered::OrderedDocument);

/// `bson::Bson`, a single BSON value. The library carries such a value from
/// the store to the caller and never looks into it.
#[verifier::external_type_specification]
#[verifier::external_body]
pub struct ExBson(bson::Bson);

/// The names of the document's fields, in document order.
pub uninterp spec fn field_names(document: Document) -> Seq<Seq<char>>;

/// The text of each field whose value is a BSON string, by field name.
pub uninterp spec fn text_fields(document: Document) -> Map<Seq<char>, Seq<char>>;

/// `Document::new`: a document without fields.
#[verifier::external_body]
pub(crate) fn empty_document() -> (fresh: Document)
    ensures
        field_names(fresh) == Seq::<Seq<char>>::empty(),
        text_fields(fresh).dom() == Set::<Seq<char>>::empty(),
{
    Document::new()
}

/// `Document::insert` with a string value: afterwards the field `name` holds
/// the text `value`, and the text of every other field is as before. A name
/// that the document did not have yet is appended after the existing ones.
#[verifier::external_body]
pub(crate) fn insert_text(document: &mut Document, name: &str, value: &str)
    ensures
        text_fields(*final(document)) == text_fields(*old(document)).insert(name@, value@),
        !field_names(*old(document)).contains(name@) ==> field_names(*final(document))
            == field_names(*old(document)).push(name@),
{
    document.insert(name, value);
}

/// `Document::get_str`: the string stored under `name`. There is none when
/// the field is missing and none when it holds a value of another BSON type;
/// the two are not told apart here.
#[verifier::external_body]
pub(crate) fn get_text(document: &Document, name: &str) -> (text: Option<String>)
    ensures
        text is Some <==> text_fields(*document).contains_key(name@),
        text is Some ==> text->0@ == text_fields(*document)[name@],
{
    match document.get_str(name) {
        Ok(value) => Some(value.to_string()),
        Err(_) => None,
    }
}

} // verus!
