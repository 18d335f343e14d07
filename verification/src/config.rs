//! The on-disk configuration: a TOML file holding the API key, at
//! `<home>/.config/waka-tray.toml`.
//!
//! The file handling itself (create, read, write) is the caller's: the
//! functions here decide, from the file's content, what the configuration
//! is and whether the file must be rewritten.

use vstd::prelude::*;

verus! {

/// The configuration record: the user-supplied API key, possibly empty on
/// first launch.
pub struct Config {
    pub api_key: String,
}

impl Default for Config {
    /// A fresh configuration with an empty API key.
    fn default() -> (r: Config)
        ensures
            r.api_key@ == Seq::<char>::empty(),
    {
        Config { api_key: String::new() }
    }
}

/// The string value of field `key` in TOML document `doc`: `Some` exactly
/// when `doc` is a valid TOML document whose top level has `key` bound to a
/// string.
pub uninterp spec fn toml_str_field(doc: Seq<char>, key: Seq<char>) -> Option<Seq<char>>;

/// The TOML document that serialising a one-entry table `key = value` (a
/// string value) produces.
pub uninterp spec fn toml_doc_of(key: Seq<char>, value: Seq<char>) -> Seq<char>;

/// Relies on toml::from_str (a document into a `toml::Table`),
/// `toml::map::Map::get` and `toml::Value::as_str`: parsing is
/// deterministic in the input text, and yields the string bound to `key`,
/// if any.
#[verifier::external_body]
fn toml_get_str_field(doc: &str, key: &str) -> (r: Option<String>)
    ensures
        match r {
            Some(v) => toml_str_field(doc@, key@) == Some(v@),
            None => toml_str_field(doc@, key@) is None,
        },
{
    let table: toml::Table = toml::from_str(doc).ok()?;
    let value = table.get(key)?;
    Some(value.as_str()?.to_owned())
}

/// Relies on toml::to_string over a one-entry table with a string value:
/// the output is deterministic in `key` and `value`, serialising such a
/// table cannot fail, and the document it produces parses back to the same
/// entry.
#[verifier::external_body]
fn toml_encode_str_field(key: &str, value: &str) -> (r: String)
    ensures
        r@ == toml_doc_of(key@, value@),
        toml_str_field(r@, key@) == Some(value@),
{
    let mut table = toml::Table::new();
    table.insert(key.to_owned(), toml::Value::String(value.to_owned()));
    toml::to_string(&table).expect("a string-valued table always serialises")
}

/// Relies on dirs::home_dir: yields the user's home directory when one can
/// be determined. The value depends on the environment, so nothing further
/// is promised of it.
#[verifier::external_body]
fn home_dir_string() -> (r: Option<String>) {
    dirs::home_dir().and_then(|p| p.to_str().map(|s| s.to_owned()))
}

/// The path of the configuration file under home directory `home`.
pub open spec fn config_path_spec(home: Seq<char>) -> Seq<char> {
    home + "/.config/waka-tray.toml"@
}

/// The configuration file's path under `home`.
pub fn config_path_in(home: &str) -> (r: String)
    ensures
        r@ == config_path_spec(home@),
{
    String::from_str(home).concat("/.config/waka-tray.toml")
}

/// The configuration file's path under the current user's home directory,
/// or `None` when no home directory can be determined.
pub fn config_path() -> (r: Option<String>)
    ensures
        r matches Some(p) ==> exists|home: Seq<char>| p@ == config_path_spec(home),
{
    match home_dir_string() {
        Some(home) => Some(config_path_in(home.as_str())),
        None => None,
    }
}

/// Whether `doc` decodes as a configuration: a valid TOML document whose
/// top level binds `api_key` to a string.
pub open spec fn decodes(doc: Seq<char>) -> bool {
    toml_str_field(doc, "api_key"@) is Some
}

/// Decode a configuration document. Returns `Some` exactly when the
/// document is valid TOML with a string field `api_key`, and then carries
/// that field's value.
pub fn parse_config(doc: &str) -> (r: Option<Config>)
    ensures
        match r {
            Some(c) => toml_str_field(doc@, "api_key"@) == Some(c.api_key@),
            None => !decodes(doc@),
        },
{
    match toml_get_str_field(doc, "api_key") {
        Some(v) => Some(Config { api_key: v }),
        None => None,
    }
}

/// Encode a configuration as the TOML document `api_key = "..."`. The
/// document decodes back to the same key.
pub fn encode_config(c: &Config) -> (r: String)
    ensures
        r@ == toml_doc_of("api_key"@, c.api_key@),
        toml_str_field(r@, "api_key"@) == Some(c.api_key@),
{
    toml_encode_str_field("api_key", c.api_key.as_str())
}

/// What loading the configuration decided: the record to run with, and the
/// document to write back, if the file must be rewritten.
pub struct InitOutcome {
    pub config: Config,
    /// `None`: leave the file as it stands. `Some(doc)`: overwrite the file
    /// with `doc`.
    pub rewrite: Option<String>,
}

/// Decide the configuration from the file's content (`None` when the file
/// is missing or unreadable).
///
/// A content that decodes is taken as it stands and the file is left
/// untouched. Anything else is replaced: the file is to be rewritten with
/// the encoding of the default record (empty API key), which decodes to
/// the returned record.
pub fn init_config(content: Option<String>) -> (r: InitOutcome)
    ensures
        (match content {
            Some(doc) => decodes(doc@),
            None => false,
        }) ==> r.rewrite is None && Some(r.config.api_key@) == toml_str_field(
            content->Some_0@,
            "api_key"@,
        ),
        !(match content {
            Some(doc) => decodes(doc@),
            None => false,
        }) ==> {
            &&& r.rewrite matches Some(doc)
            &&& doc@ == toml_doc_of("api_key"@, Seq::<char>::empty())
            &&& decodes(doc@)
            &&& r.config.api_key@ == Seq::<char>::empty()
        },
{
    let decoded = match &content {
        Some(doc) => parse_config(doc.as_str()),
        None => None,
    };
    match decoded {
        Some(c) => InitOutcome { config: c, rewrite: None },
        None => {
            let empty = Config::default();
            let doc = encode_config(&empty);
            InitOutcome { config: empty, rewrite: Some(doc) }
        },
    }
}

} // verus!
