use serde_yaml_ng::Value;
use vstd::prelude::*;

verus! {

/// What a document holds under one top-level key, reduced to the shape the
/// configuration schemas read: the key's value is kept only when it is null
/// or a sequence, and sequence elements only when they are strings.
pub enum FieldLookup {
    /// The text is not a well-formed YAML document; carries the parser's
    /// diagnostic text.
    BadSyntax(String),
    /// The document is well-formed but its top level is not a mapping.
    NotAMapping,
    /// The top-level mapping has no entry under the key.
    Missing,
    /// The entry under the key is explicitly null.
    NullValue,
    /// The entry under the key is a sequence; each element is `Some` of its
    /// text when it is a string, `None` otherwise.
    Items(Vec<Option<String>>),
    /// The entry under the key is present but neither null nor a sequence.
    WrongShape,
}

/// The mathematical shadow of `FieldLookup`.
pub enum FieldLookupView {
    BadSyntax(Seq<char>),
    NotAMapping,
    Missing,
    NullValue,
    Items(Seq<Option<Seq<char>>>),
    WrongShape,
}

impl View for FieldLookup {
    type V = FieldLookupView;

    open spec fn view(&self) -> FieldLookupView {
        match self {
            FieldLookup::BadSyntax(s) => FieldLookupView::BadSyntax(s@),
            FieldLookup::NotAMapping => FieldLookupView::NotAMapping,
            FieldLookup::Missing => FieldLookupView::Missing,
            FieldLookup::NullValue => FieldLookupView::NullValue,
            FieldLookup::Items(v) => FieldLookupView::Items(v.deep_view()),
            FieldLookup::WrongShape => FieldLookupView::WrongShape,
        }
    }
}

/// What looking up `key` in the YAML document `text` yields. The outcome is
/// a function of the two texts alone.
pub uninterp spec fn string_list_field(text: Seq<char>, key: Seq<char>) -> FieldLookupView;

/// Relies on `serde_yaml_ng::from_str::<Value>` and on the declared shape of
/// `serde_yaml_ng::Value` (`Null` / `Sequence` / `String` / `Mapping` / ...)
/// and `Mapping::get`: parses the document and fetches the one top-level
/// entry the caller names, reducing it to plain values. The result depends
/// on the document text and the key alone.
#[verifier::external_body]
pub fn lookup_string_list(text: &str, key: &str) -> (r: FieldLookup)
    ensures
        r@ == string_list_field(text@, key@),
{
    let doc = match serde_yaml_ng::from_str::<Value>(text) {
        Ok(v) => v,
        Err(e) => return FieldLookup::BadSyntax(e.to_string()),
    };
    let map = match doc { Value::Mapping(m) => m, _ => return FieldLookup::NotAMapping };
    match map.get(key) {
        None => FieldLookup::Missing,
        Some(Value::Null) => FieldLookup::NullValue,
        Some(Value::Sequence(items)) => FieldLookup::Items(
            items.iter().map(|x| if let Value::String(s) = x { Some(s.clone()) } else { None }).collect(),
        ),
        Some(_) => FieldLookup::WrongShape,
    }
}

} // verus!
