//! TOML documents, as the `toml` crate reads them.

use crate::fdahm_result::{decoded_view, DocumentFault, DocumentFaultView};
use vstd::prelude::*;

verus! {

/// `toml::map::Map`, the map behind `toml::Table`. Nothing is known of one
/// but what [`table_fields`] says.
#[verifier::external_type_specification]
#[verifier::external_body]
#[verifier::reject_recursive_types(K)]
#[verifier::reject_recursive_types(V)]
pub struct ExTomlMap<K, V>(toml::map::Map<K, V>);

/// `toml::Value`, what a key of a `toml::Table` holds. It is only carried
/// along: [`Field`] stands for it.
#[verifier::external_type_specification]
#[verifier::external_body]
pub struct ExTomlValue(toml::Value);

/// What a key of a document holds. Of a text, a whole number or a truth value
/// the value itself is kept; of anything else, only its kind. A whole number
/// of a document lies between -2^63 and 2^63 - 1: `toml` takes a text with a
/// larger one for no document at all.
#[derive(Debug, PartialEq, Eq)]
pub enum Field {
    Text(String),
    Integer(i64),
    Float,
    Boolean(bool),
    Datetime,
    Array,
    Table,
}

/// A [`Field`] as contracts speak of it.
pub ghost enum FieldView {
    Text(Seq<char>),
    Integer(i64),
    Float,
    Boolean(bool),
    Datetime,
    Array,
    Table,
}

impl View for Field {
    type V = FieldView;

    open spec fn view(&self) -> FieldView {
        match self {
            Field::Text(text) => FieldView::Text(text@),
            Field::Integer(number) => FieldView::Integer(*number),
            Field::Float => FieldView::Float,
            Field::Boolean(flag) => FieldView::Boolean(*flag),
            Field::Datetime => FieldView::Datetime,
            Field::Array => FieldView::Array,
            Field::Table => FieldView::Table,
        }
    }
}

/// The top level of a document: what each of its keys holds.
pub type Fields = Map<Seq<char>, FieldView>;

/// What `toml` makes of a text: the top level of the document that it reads,
/// or its complaint where the text is no TOML document. Which texts are
/// documents, and what they hold, is `toml`'s to say and is stated nowhere
/// here.
pub uninterp spec fn toml_parse(text: Seq<char>) -> Result<Map<Seq<char>, FieldView>, Seq<char>>;

/// What a table of `toml` holds: for each of its keys, the [`Field`] that
/// stands for the value under it.
pub uninterp spec fn table_fields(table: toml::Table) -> Map<Seq<char>, FieldView>;

/// What `fields` holds under `key`, if anything.
pub open spec fn field_at(fields: Fields, key: Seq<char>) -> Option<FieldView> {
    if fields.dom().contains(key) {
        Some(fields[key])
    } else {
        None
    }
}

/// The view of a field that may be missing.
pub open spec fn field_view(field: Option<Field>) -> Option<FieldView> {
    match field {
        Some(f) => Some(f@),
        None => None,
    }
}

/// `toml::from_str` for a `toml::Table`: the parser of the `toml` crate, on a
/// whole document. Nothing is proved of it. It is taken to be a function of
/// the text alone, which [`toml_parse`] names; where it refuses the text, the
/// complaint is the `message` of its error.
#[verifier::external_body]
pub(crate) fn parse_table(text: &str) -> (r: Result<toml::Table, String>)
    ensures
        match r {
            Ok(table) => toml_parse(text@) == Ok::<Fields, Seq<char>>(table_fields(table)),
            Err(message) => toml_parse(text@) == Err::<Fields, Seq<char>>(message@),
        },
{
    match toml::from_str::<toml::Table>(text) {
        Ok(table) => Ok(table),
        Err(error) => Err(error.message().to_owned()),
    }
}

/// `toml::map::Map::get`: the value under `key`, or `None` where the table has
/// no such key. Nothing is proved of it. The value is handed on as the
/// [`Field`] of its variant.
#[verifier::external_body]
pub(crate) fn table_get(table: &toml::Table, key: &str) -> (r: Option<Field>)
    ensures
        field_view(r) == field_at(table_fields(*table), key@),
{
    match table.get(key) {
        None => None,
        Some(toml::Value::String(text)) => Some(Field::Text(text.clone())),
        Some(toml::Value::Integer(number)) => Some(Field::Integer(*number)),
        Some(toml::Value::Float(_)) => Some(Field::Float),
        Some(toml::Value::Boolean(flag)) => Some(Field::Boolean(*flag)),
        Some(toml::Value::Datetime(_)) => Some(Field::Datetime),
        Some(toml::Value::Array(_)) => Some(Field::Array),
        Some(toml::Value::Table(_)) => Some(Field::Table),
    }
}

/// The text under `key`, which must be there.
pub open spec fn text_of(key: Seq<char>, field: Option<FieldView>) -> Result<
    Seq<char>,
    DocumentFaultView,
> {
    match field {
        None => Err(DocumentFaultView::MissingKey { key }),
        Some(FieldView::Text(text)) => Ok(text),
        Some(_) => Err(DocumentFaultView::WrongType { key }),
    }
}

/// The count under `key`, which must be there: a whole number, not below zero.
pub open spec fn count_of(key: Seq<char>, field: Option<FieldView>) -> Result<
    u64,
    DocumentFaultView,
> {
    match field {
        None => Err(DocumentFaultView::MissingKey { key }),
        Some(FieldView::Integer(number)) => if number >= 0 {
            Ok(number as u64)
        } else {
            Err(DocumentFaultView::Negative { key })
        },
        Some(_) => Err(DocumentFaultView::WrongType { key }),
    }
}

/// The flag under `key`. A flag that is not there is down.
pub open spec fn flag_of(key: Seq<char>, field: Option<FieldView>) -> Result<
    bool,
    DocumentFaultView,
> {
    match field {
        None => Ok(false),
        Some(FieldView::Boolean(flag)) => Ok(flag),
        Some(_) => Err(DocumentFaultView::WrongType { key }),
    }
}

/// Takes `field`, found under `key`, for a text.
pub fn text_field(key: &str, field: Option<Field>) -> (r: Result<String, DocumentFault>)
    ensures
        decoded_view(r) == text_of(key@, field_view(field)),
{
    match field {
        None => Err(DocumentFault::MissingKey { key: key.to_owned() }),
        Some(Field::Text(text)) => Ok(text),
        Some(_) => Err(DocumentFault::WrongType { key: key.to_owned() }),
    }
}

/// Takes `field`, found under `key`, for a count.
pub fn count_field(key: &str, field: Option<Field>) -> (r: Result<u64, DocumentFault>)
    ensures
        decoded_view(r) == count_of(key@, field_view(field)),
{
    match field {
        None => Err(DocumentFault::MissingKey { key: key.to_owned() }),
        Some(Field::Integer(number)) => if number >= 0 {
            Ok(number as u64)
        } else {
            Err(DocumentFault::Negative { key: key.to_owned() })
        },
        Some(_) => Err(DocumentFault::WrongType { key: key.to_owned() }),
    }
}

/// Takes `field`, found under `key`, for a flag.
pub fn flag_field(key: &str, field: Option<Field>) -> (r: Result<bool, DocumentFault>)
    ensures
        decoded_view(r) == flag_of(key@, field_view(field)),
{
    match field {
        None => Ok(false),
        Some(Field::Boolean(flag)) => Ok(flag),
        Some(_) => Err(DocumentFault::WrongType { key: key.to_owned() }),
    }
}

/// A kind of document: what its top level must hold, and the value that it
/// then stands for.
pub trait Schema: Sized + View {
    /// What a document with this top level stands for.
    spec fn of_fields(fields: Fields) -> Result<Self::V, DocumentFaultView>;

    /// Reads a document of this kind: its top level where `toml` reads the
    /// text, the parser's complaint where it does not.
    fn parse(text: &str) -> (r: Result<Self, DocumentFault>)
        ensures
            decoded_view(r) == match toml_parse(text@) {
                Ok(fields) => Self::of_fields(fields),
                Err(message) => Err(DocumentFaultView::Syntax { message }),
            },
    ;
}

/// What the text of a document of kind `T` stands for.
pub open spec fn parsed<T: Schema>(text: Seq<char>) -> Result<T::V, DocumentFaultView> {
    match toml_parse(text) {
        Ok(fields) => T::of_fields(fields),
        Err(message) => Err(DocumentFaultView::Syntax { message }),
    }
}

} // verus!
