//! The trusted boundary to `toml_edit`.
//!
//! Manifests are TOML documents, and the whole point of this tool is to
//! change one scalar in them while leaving every other byte alone; that
//! in-place editing is `toml_edit`'s job.  This module declares the
//! `toml_edit` types the library touches and wraps each call it makes.
//!
//! A document and the items inside it are opaque here, but every call the
//! library makes is a pure function of its arguments, so each gets a name:
//! an uninterpreted spec function standing for what the call returns.  The
//! wrappers' contracts equate their results with those names, which lets
//! the verified readers state exactly which located field of a document
//! they hand back, and lets the one mutation per located scalar be named
//! as a function of the document it started from.

use vstd::prelude::*;

verus! {

#[verifier::external_type_specification]
#[verifier::external_body]
pub struct ExDocumentMut(toml_edit::DocumentMut);

#[verifier::external_type_specification]
#[verifier::external_body]
pub struct ExItem(toml_edit::Item);

#[verifier::external_type_specification]
#[verifier::external_body]
pub struct ExTable(toml_edit::Table);

#[verifier::external_type_specification]
#[verifier::external_body]
pub struct ExArray(toml_edit::Array);

#[verifier::external_type_specification]
#[verifier::external_body]
pub struct ExValue(toml_edit::Value);

#[verifier::external_type_specification]
#[verifier::external_body]
pub struct ExInlineTable(toml_edit::InlineTable);

#[verifier::external_type_specification]
#[verifier::external_body]
pub struct ExTomlError(toml_edit::TomlError);

/// What parsing a text as TOML yields: the document, or `None` when the
/// text is not TOML.  Parsing is a function of the text alone.
pub uninterp spec fn doc_of_text(s: Seq<char>) -> Option<toml_edit::DocumentMut>;

/// The TOML text a document serializes to; a function of the document alone.
pub uninterp spec fn text_of_doc(d: toml_edit::DocumentMut) -> Seq<char>;

/// The top-level item a document holds under a key, skipping empty
/// placeholder entries (what `Table::get` on the root table returns).
pub uninterp spec fn doc_entry_of(d: toml_edit::DocumentMut, key: Seq<char>) -> Option<toml_edit::Item>;

/// The child item of a table-like item under a key (what `Item::get` returns).
pub uninterp spec fn item_entry_of(i: toml_edit::Item, key: Seq<char>) -> Option<toml_edit::Item>;

/// The item as a TOML value, when it is one (what `Item::as_value` returns).
pub uninterp spec fn value_of_item(i: toml_edit::Item) -> Option<toml_edit::Value>;

/// The item as a table, when it is one (what `Item::as_table` returns).
pub uninterp spec fn table_of_item(i: toml_edit::Item) -> Option<toml_edit::Table>;

/// The item as an array, when it is one (what `Item::as_array` returns).
pub uninterp spec fn array_of_item(i: toml_edit::Item) -> Option<toml_edit::Array>;

/// The item as an inline table, when it is one (what
/// `Item::as_inline_table` returns).
pub uninterp spec fn inline_of_item(i: toml_edit::Item) -> Option<toml_edit::InlineTable>;

/// The item's boolean, when it is one (what `Item::as_bool` returns).
pub uninterp spec fn bool_of_item(i: toml_edit::Item) -> Option<bool>;

/// The characters of a TOML value when it is a string, and `None` when it
/// is any other kind of value (what `Value::as_str` returns).
pub uninterp spec fn str_of_value(v: toml_edit::Value) -> Option<Seq<char>>;

/// The value's boolean, when it is one (what `Value::as_bool` returns).
pub uninterp spec fn bool_of_value(v: toml_edit::Value) -> Option<bool>;

/// The value as an inline table, when it is one (what
/// `Value::as_inline_table` returns).
pub uninterp spec fn inline_of_value(v: toml_edit::Value) -> Option<toml_edit::InlineTable>;

/// The keys a TOML table holds, in document order, skipping empty
/// placeholder entries (what `Table::iter` yields).
pub uninterp spec fn table_keys_of(t: toml_edit::Table) -> Seq<Seq<char>>;

/// The item a table holds under a key (what `Table::get` returns).
pub uninterp spec fn table_entry_of(t: toml_edit::Table, key: Seq<char>) -> Option<toml_edit::Item>;

/// How many values a TOML array holds (what `Array::len` returns).
pub uninterp spec fn array_len_of(a: toml_edit::Array) -> nat;

/// The value an array holds at an index, `None` out of bounds (what
/// `Array::get` returns).
pub uninterp spec fn array_value_of(a: toml_edit::Array, i: int) -> Option<toml_edit::Value>;

/// The document after the one scalar at `workspace.package.version` is
/// overwritten with `ver`; only applied to documents that have that scalar.
pub uninterp spec fn root_version_set(d: toml_edit::DocumentMut, ver: Seq<char>) -> toml_edit::DocumentMut;

/// The document after the one scalar at `package.version` is overwritten
/// with `ver`; only applied to documents that have that scalar.
pub uninterp spec fn member_version_set(d: toml_edit::DocumentMut, ver: Seq<char>) -> toml_edit::DocumentMut;

/// The document after the one scalar at `dependencies.<name>.version` is
/// overwritten with `ver`; the document unchanged when it has no such
/// scalar.
pub uninterp spec fn dep_version_set(d: toml_edit::DocumentMut, name: Seq<char>, ver: Seq<char>) -> toml_edit::DocumentMut;

/// Whether the document has a scalar at `workspace.package.version` for
/// `set_root_version` to overwrite.
pub open spec fn root_version_slot(d: toml_edit::DocumentMut) -> bool {
    match doc_entry_of(d, "workspace"@) {
        Some(ws) => match item_entry_of(ws, "package"@) {
            Some(p) => match item_entry_of(p, "version"@) {
                Some(vi) => value_of_item(vi) is Some,
                None => false,
            },
            None => false,
        },
        None => false,
    }
}

/// Whether the document has a scalar at `package.version` for
/// `set_member_version` to overwrite.
pub open spec fn member_version_slot(d: toml_edit::DocumentMut) -> bool {
    match doc_entry_of(d, "package"@) {
        Some(p) => match item_entry_of(p, "version"@) {
            Some(vi) => value_of_item(vi) is Some,
            None => false,
        },
        None => false,
    }
}

/// Whether the document has a scalar at `dependencies.<name>.version` for
/// `set_dep_version` to overwrite.
pub open spec fn dep_version_slot(d: toml_edit::DocumentMut, name: Seq<char>) -> bool {
    match doc_entry_of(d, "dependencies"@) {
        Some(di) => match table_of_item(di) {
            Some(t) => match table_entry_of(t, name) {
                Some(i) => match inline_of_item(i) {
                    Some(it) => inline_entry_of(it, "version"@) is Some,
                    None => false,
                },
                None => false,
            },
            None => false,
        },
        None => false,
    }
}

/// The value an inline table holds under a key (what `InlineTable::get`
/// returns).
pub uninterp spec fn inline_entry_of(t: toml_edit::InlineTable, key: Seq<char>) -> Option<toml_edit::Value>;

/// Relies on `str::parse` with `toml_edit::DocumentMut`'s `FromStr`:
/// parses TOML text into an editable document that keeps the text's
/// formatting, or reports why the text is not TOML.
#[verifier::external_body]
pub(crate) fn parse_document(text: &str) -> (r: Result<toml_edit::DocumentMut, toml_edit::TomlError>)
    ensures
        r is Ok <==> doc_of_text(text@) is Some,
        (r matches Ok(d) ==> Some(d) == doc_of_text(text@)),
{
    text.parse::<toml_edit::DocumentMut>()
}

/// Relies on `toml_edit::TomlError`'s `Display`: the parse error as text.
#[verifier::external_body]
pub(crate) fn toml_error_message(e: &toml_edit::TomlError) -> (r: String) {
    e.to_string()
}

/// Relies on `toml_edit::DocumentMut`'s `Display`: serializes the document
/// back to TOML text, reproducing the formatting it was parsed with.
#[verifier::external_body]
pub(crate) fn doc_to_string(doc: &toml_edit::DocumentMut) -> (r: String)
    ensures
        r@ == text_of_doc(*doc),
{
    doc.to_string()
}

/// Relies on `toml_edit::Table::get`, reached through `DocumentMut`'s
/// deref to its root table: the top-level item under the key, if present.
#[verifier::external_body]
pub(crate) fn doc_get<'a>(doc: &'a toml_edit::DocumentMut, key: &str) -> (r: Option<&'a toml_edit::Item>)
    ensures
        (match r {
            Some(i) => Some(*i),
            None => None,
        }) == doc_entry_of(*doc, key@),
{
    doc.get(key)
}

/// Relies on `toml_edit::Item::get`: the child item under the key, if the
/// item is table-like and has one.
#[verifier::external_body]
pub(crate) fn item_get<'a>(item: &'a toml_edit::Item, key: &str) -> (r: Option<&'a toml_edit::Item>)
    ensures
        (match r {
            Some(i) => Some(*i),
            None => None,
        }) == item_entry_of(*item, key@),
{
    item.get(key)
}

/// Relies on `toml_edit::Item::as_value`: the item as a TOML value, when
/// it is one (and not a table or an array of tables).
#[verifier::external_body]
pub(crate) fn item_as_value<'a>(item: &'a toml_edit::Item) -> (r: Option<&'a toml_edit::Value>)
    ensures
        (match r {
            Some(v) => Some(*v),
            None => None,
        }) == value_of_item(*item),
{
    item.as_value()
}

/// Relies on `toml_edit::Item::as_table`: the item as a table, when it is one.
#[verifier::external_body]
pub(crate) fn item_as_table<'a>(item: &'a toml_edit::Item) -> (r: Option<&'a toml_edit::Table>)
    ensures
        (match r {
            Some(t) => Some(*t),
            None => None,
        }) == table_of_item(*item),
{
    item.as_table()
}

/// Relies on `toml_edit::Item::as_array`: the item as an array, when it is one.
#[verifier::external_body]
pub(crate) fn item_as_array<'a>(item: &'a toml_edit::Item) -> (r: Option<&'a toml_edit::Array>)
    ensures
        (match r {
            Some(a) => Some(*a),
            None => None,
        }) == array_of_item(*item),
{
    item.as_array()
}

/// Relies on `toml_edit::Item::as_inline_table`: the item as an inline
/// table, when it is one.
#[verifier::external_body]
pub(crate) fn item_as_inline_table<'a>(item: &'a toml_edit::Item) -> (r: Option<&'a toml_edit::InlineTable>)
    ensures
        (match r {
            Some(t) => Some(*t),
            None => None,
        }) == inline_of_item(*item),
{
    item.as_inline_table()
}

/// Relies on `toml_edit::Item::as_bool`: the item's boolean value, when it
/// is a boolean.
#[verifier::external_body]
pub(crate) fn item_as_bool(item: &toml_edit::Item) -> (r: Option<bool>)
    ensures
        r == bool_of_item(*item),
{
    item.as_bool()
}

/// Relies on `toml_edit::Table::get`: the item under the key; `Some`
/// exactly for the keys the table holds (both `get` and `iter` skip empty
/// placeholder items).
#[verifier::external_body]
pub(crate) fn table_get<'a>(t: &'a toml_edit::Table, key: &str) -> (r: Option<&'a toml_edit::Item>)
    ensures
        r is Some <==> table_keys_of(*t).contains(key@),
        (match r {
            Some(i) => Some(*i),
            None => None,
        }) == table_entry_of(*t, key@),
{
    t.get(key)
}

/// Relies on `toml_edit::Table::iter`: the table's keys, in document
/// order, one for each entry `Table::get` would find.
#[verifier::external_body]
pub(crate) fn table_keys(t: &toml_edit::Table) -> (r: Vec<String>)
    ensures
        r@.map_values(|s: String| s@) == table_keys_of(*t),
{
    t.iter().map(|(key, _)| key.to_owned()).collect()
}

/// Relies on `toml_edit::Array::len`: how many values the array holds.
#[verifier::external_body]
pub(crate) fn array_len(a: &toml_edit::Array) -> (r: usize)
    ensures
        r == array_len_of(*a),
{
    a.len()
}

/// Relies on `toml_edit::Array::get`: the value at the index, `None`
/// exactly when the index is out of bounds.  (Every publicly
/// constructible array holds only value items in this version, so an
/// in-bounds index always yields a value.)
#[verifier::external_body]
pub(crate) fn array_get<'a>(a: &'a toml_edit::Array, index: usize) -> (r: Option<&'a toml_edit::Value>)
    ensures
        r is Some <==> index < array_len_of(*a),
        (match r {
            Some(v) => Some(*v),
            None => None,
        }) == array_value_of(*a, index as int),
{
    a.get(index)
}

/// Relies on `toml_edit::Value::as_str`: `Some` exactly when the value is
/// a TOML string, carrying that string's characters.
#[verifier::external_body]
pub(crate) fn value_as_str(v: &toml_edit::Value) -> (r: Option<String>)
    ensures
        (match r {
            Some(s) => Some(s@),
            None => None,
        }) == str_of_value(*v),
{
    match v.as_str() {
        Some(s) => Some(s.to_owned()),
        None => None,
    }
}

/// Relies on `toml_edit::Value::as_bool`: the value as a boolean, when it
/// is one.
#[verifier::external_body]
pub(crate) fn value_as_bool(v: &toml_edit::Value) -> (r: Option<bool>)
    ensures
        r == bool_of_value(*v),
{
    v.as_bool()
}

/// Relies on `toml_edit::Value::as_inline_table`: the value as an inline
/// table, when it is one.
#[verifier::external_body]
pub(crate) fn value_as_inline_table<'a>(v: &'a toml_edit::Value) -> (r: Option<&'a toml_edit::InlineTable>)
    ensures
        (match r {
            Some(t) => Some(*t),
            None => None,
        }) == inline_of_value(*v),
{
    v.as_inline_table()
}

/// Relies on `toml_edit::InlineTable::get`: the value under the key, if any.
#[verifier::external_body]
pub(crate) fn inline_get<'a>(t: &'a toml_edit::InlineTable, key: &str) -> (r: Option<&'a toml_edit::Value>)
    ensures
        (match r {
            Some(v) => Some(*v),
            None => None,
        }) == inline_entry_of(*t, key@),
{
    t.get(key)
}

/// Relies on `toml_edit::Item::get_mut`, `Item::as_value_mut` and
/// `toml_edit::Formatted::new`: overwrites the one scalar at
/// `workspace.package.version` with the given string, leaving the rest of
/// the document as it was.  The caller establishes that the scalar exists:
/// `Item::get_mut` inserts a placeholder for a missing key, so on a
/// document without the scalar this edit would not leave it untouched.
#[verifier::external_body]
pub(crate) fn set_root_version(doc: &mut toml_edit::DocumentMut, ver: &str) -> (r: bool)
    requires
        root_version_slot(*old(doc)),
    ensures
        r,
        *final(doc) == root_version_set(*old(doc), ver@),
{
    let slot = doc
        .get_mut("workspace")
        .and_then(|w| w.get_mut("package"))
        .and_then(|p| p.get_mut("version"))
        .and_then(|i| i.as_value_mut());
    match slot {
        Some(v) => {
            *v = toml_edit::Value::String(toml_edit::Formatted::new(ver.to_owned()));
            true
        },
        None => false,
    }
}

/// Relies on `toml_edit::Item::get_mut`, `Item::as_value_mut` and
/// `toml_edit::Formatted::new`: overwrites the one scalar at
/// `package.version` with the given string, leaving the rest of the
/// document as it was; no dependency scalar is disturbed.  The caller
/// establishes that the scalar exists, so that `Item::get_mut`'s
/// insert-on-missing behaviour is never reached.
#[verifier::external_body]
pub(crate) fn set_member_version(doc: &mut toml_edit::DocumentMut, ver: &str) -> (r: bool)
    requires
        member_version_slot(*old(doc)),
    ensures
        r,
        *final(doc) == member_version_set(*old(doc), ver@),
        forall|nm: Seq<char>| #[trigger] dep_version_slot(member_version_set(*old(doc), ver@), nm)
            == dep_version_slot(*old(doc), nm),
{
    let slot = doc
        .get_mut("package")
        .and_then(|p| p.get_mut("version"))
        .and_then(|i| i.as_value_mut());
    match slot {
        Some(v) => {
            *v = toml_edit::Value::String(toml_edit::Formatted::new(ver.to_owned()));
            true
        },
        None => false,
    }
}

/// Relies on `toml_edit::Item::get_mut`, `Item::as_table_mut`,
/// `Table::get_mut`, `Item::as_inline_table_mut`, `InlineTable::get_mut`
/// and `toml_edit::Formatted::new`: overwrites the one scalar at
/// `dependencies.<name>.version` with the given string, leaving the rest
/// of the document as it was.  Returns whether the scalar was found; a
/// document without it is left untouched, and replacing one dependency's
/// scalar leaves every dependency slot in place.
#[verifier::external_body]
pub(crate) fn set_dep_version(doc: &mut toml_edit::DocumentMut, name: &str, ver: &str) -> (r: bool)
    ensures
        r == dep_version_slot(*old(doc), name@),
        *final(doc) == dep_version_set(*old(doc), name@, ver@),
        !dep_version_slot(*old(doc), name@) ==> dep_version_set(*old(doc), name@, ver@) == *old(doc),
        forall|nm: Seq<char>| #[trigger] dep_version_slot(dep_version_set(*old(doc), name@, ver@), nm)
            == dep_version_slot(*old(doc), nm),
{
    let slot = doc
        .get_mut("dependencies")
        .and_then(|d| d.as_table_mut())
        .and_then(|t| t.get_mut(name))
        .and_then(|i| i.as_inline_table_mut())
        .and_then(|t| t.get_mut("version"));
    match slot {
        Some(v) => {
            *v = toml_edit::Value::String(toml_edit::Formatted::new(ver.to_owned()));
            true
        },
        None => false,
    }
}

} // verus!
