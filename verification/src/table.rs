//! The settings file as a TOML document: the calls into the `toml` crate.
//!
//! Nothing in this module is proved. Each function states what the crate's
//! source shows of the call it makes.

use vstd::prelude::*;

verus! {

/// `toml::map::Map`, the table of a TOML document, carried as an opaque
/// value.
#[verifier::external_type_specification]
#[verifier::external_body]
#[verifier::reject_recursive_types(K)]
#[verifier::reject_recursive_types(V)]
pub struct ExMap<K, V>(toml::map::Map<K, V>);

/// `toml::Value`, a value of a TOML document, carried as an opaque value.
#[verifier::external_type_specification]
#[verifier::external_body]
pub struct ExValue(toml::Value);

/// `toml::de::Error`, what parsing fails with.
#[verifier::external_type_specification]
#[verifier::external_body]
pub struct ExDeError(toml::de::Error);

/// `toml::ser::Error`, what serializing fails with.
#[verifier::external_type_specification]
#[verifier::external_body]
pub struct ExSerError(toml::ser::Error);

/// A value that the settings file holds under a key.
#[derive(Clone, Debug, PartialEq, Eq)]
pub enum Setting {
    /// A TOML string.
    Text(String),
    /// A TOML boolean.
    Flag(bool),
}

/// Mathematical model of a [`Setting`].
pub ghost enum SettingView {
    Text(Seq<char>),
    Flag(bool),
}

impl View for Setting {
    type V = SettingView;

    open spec fn view(&self) -> SettingView {
        match self {
            Setting::Text(s) => SettingView::Text(s@),
            Setting::Flag(b) => SettingView::Flag(*b),
        }
    }
}

/// What a table holds under each of its keys: the string or boolean, or
/// `None` under a key whose value is of another TOML type.
pub type Items = Map<Seq<char>, Option<SettingView>>;

/// The model of what a lookup found under a key.
pub open spec fn found_view(found: Option<Setting>) -> Option<SettingView> {
    match found {
        Some(s) => Some(s@),
        None => None,
    }
}

/// The top-level entries of a table.
pub uninterp spec fn table_items(table: toml::map::Map<String, toml::Value>) -> Items;

/// The top-level entries of the TOML document that `text` is, or `None` where
/// `text` is no TOML document.
pub uninterp spec fn parsed_items(text: Seq<char>) -> Option<Items>;

/// The TOML text of a table of strings and booleans, or `None` where the
/// serializer refuses it.
pub uninterp spec fn pretty_text(items: Items) -> Option<Seq<char>>;

/// `toml::from_str` at the type `toml::Table`: parses `text` as a TOML
/// document. It succeeds exactly on the texts that are TOML documents, and the
/// table then holds the document's top-level entries.
#[verifier::external_body]
pub(crate) fn parse_table(text: &str) -> (r: Result<
    toml::map::Map<String, toml::Value>,
    toml::de::Error,
>)
    ensures
        r is Ok <==> parsed_items(text@) is Some,
        r is Ok ==> Some(table_items(r->Ok_0)) == parsed_items(text@),
{
    toml::from_str::<toml::Table>(text)
}

/// `toml::map::Map::get`: the value under `key`, where the table has the key.
/// A string or a boolean is handed out as a [`Setting`], a value of any other
/// type as `None`.
#[verifier::external_body]
pub(crate) fn table_get(table: &toml::map::Map<String, toml::Value>, key: &str) -> (r: Option<
    Option<Setting>,
>)
    ensures
        r is Some <==> table_items(*table).contains_key(key@),
        r is Some ==> found_view(r->Some_0) == table_items(*table)[key@],
{
    match table.get(key) {
        None => None,
        Some(toml::Value::String(s)) => Some(Some(Setting::Text(s.clone()))),
        Some(toml::Value::Boolean(b)) => Some(Some(Setting::Flag(*b))),
        Some(_) => Some(None),
    }
}

/// `toml::map::Map::new`: a table without entries.
#[verifier::external_body]
pub(crate) fn table_new() -> (r: toml::map::Map<String, toml::Value>)
    ensures
        table_items(r) == Items::empty(),
{
    toml::map::Map::new()
}

/// `toml::map::Map::insert`: puts `value` under `key`, in place of what the
/// key held before.
#[verifier::external_body]
pub(crate) fn table_insert(
    table: &mut toml::map::Map<String, toml::Value>,
    key: String,
    value: Setting,
)
    ensures
        table_items(*final(table)) == table_items(*old(table)).insert(key@, Some(value@)),
{
    let value = match value {
        Setting::Text(s) => toml::Value::String(s),
        Setting::Flag(b) => toml::Value::Boolean(b),
    };
    table.insert(key, value);
}

/// `toml::to_string_pretty` on a table: the table as TOML text. Where every
/// entry is a string or a boolean, the text, and whether there is one, depends
/// on the entries alone.
#[verifier::external_body]
pub(crate) fn render_table(table: &toml::map::Map<String, toml::Value>) -> (r: Result<
    String,
    toml::ser::Error,
>)
    ensures
        (forall|key: Seq<char>| #[trigger]
            table_items(*table).contains_key(key) ==> table_items(*table)[key] is Some) ==> (match r {
            Ok(text) => pretty_text(table_items(*table)) == Some(text@),
            Err(_) => pretty_text(table_items(*table)) is None,
        }),
{
    toml::to_string_pretty(table)
}

/// The `Display` text of a `toml::de::Error`. Nothing is claimed of it.
#[verifier::external_body]
pub(crate) fn parse_error_text(error: &toml::de::Error) -> (text: String) {
    error.to_string()
}

/// The `Display` text of a `toml::ser::Error`. Nothing is claimed of it.
#[verifier::external_body]
pub(crate) fn render_error_text(error: &toml::ser::Error) -> (text: String) {
    error.to_string()
}

} // verus!
