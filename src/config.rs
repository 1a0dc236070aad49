use vstd::prelude::*;

verus! {

#[verifier::external_type_specification]
#[verifier::external_body]
pub struct ExJsonValue(serde_json::Value);

#[verifier::external_type_specification]
#[verifier::external_body]
pub struct ExJsonError(serde_json::Error);

/// The JSON document that a text holds, or `None` where the text is not one JSON document.
pub uninterp spec fn json_document(text: Seq<char>) -> Option<serde_json::Value>;

/// The member under `key` of a JSON object; `None` where the key is absent or the value is no
/// object.
pub uninterp spec fn json_member(v: serde_json::Value, key: Seq<char>) -> Option<serde_json::Value>;

/// The text of a JSON string; `None` for a value of any other kind.
pub uninterp spec fn json_text(v: serde_json::Value) -> Option<Seq<char>>;

/// Relies on serde_json::from_str into a `Value`: reads one JSON document from a text.
#[verifier::external_body]
fn parse_document(text: &str) -> (r: Result<serde_json::Value, serde_json::Error>)
    ensures
        r is Ok <==> json_document(text@) is Some,
        r matches Ok(v) ==> json_document(text@) == Some(v),
{
    serde_json::from_str(text)
}

/// Relies on serde_json::Value::get with a string key: the member of an object.
#[verifier::external_body]
fn member<'a>(v: &'a serde_json::Value, key: &str) -> (r: Option<&'a serde_json::Value>)
    ensures
        r is None <==> json_member(*v, key@) is None,
        r matches Some(m) ==> json_member(*v, key@) == Some(*m),
{
    v.get(key)
}

/// Relies on serde_json::Value::as_str: the text of a string value.
#[verifier::external_body]
fn text_of<'a>(v: &'a serde_json::Value) -> (r: Option<&'a str>)
    ensures
        r is None <==> json_text(*v) is None,
        r matches Some(s) ==> json_text(*v) == Some(s@),
{
    v.as_str()
}

/// A field of the `main.settings.debug` section of the configuration.
#[derive(Clone, Copy, Debug, PartialEq, Eq, Structural)]
pub enum ConfigField {
    Version,
    Owner,
    Link,
}

/// Why the configuration could not be had.
#[derive(Clone, Copy, Debug, PartialEq, Eq, Structural)]
pub enum ConfigError {
    /// The configuration file could not be read.
    Missing,
    /// The configuration file is not a JSON document.
    Malformed,
    /// A field is absent from `main.settings.debug`, or is no string.
    FieldMissing(ConfigField),
}

/// The settings of a run: the URL that each proxy must reach, and two strings shown to the
/// user.
pub struct Config {
    pub version: String,
    pub owner: String,
    pub link: String,
}

/// The key under which a field is stored.
pub open spec fn field_key(f: ConfigField) -> Seq<char> {
    match f {
        ConfigField::Version => "Version"@,
        ConfigField::Owner => "Owner"@,
        ConfigField::Link => "Link"@,
    }
}

/// The text at `main.settings.debug.<key>` of a document, where there is one.
pub open spec fn debug_text(doc: serde_json::Value, key: Seq<char>) -> Option<Seq<char>> {
    match json_member(doc, "main"@) {
        None => None,
        Some(m) => match json_member(m, "settings"@) {
            None => None,
            Some(s) => match json_member(s, "debug"@) {
                None => None,
                Some(d) => match json_member(d, key) {
                    None => None,
                    Some(v) => json_text(v),
                },
            },
        },
    }
}

/// What a document yields: the version, owner and link, or the first of them, in that order,
/// that is missing.
pub open spec fn document_config(doc: serde_json::Value) -> Result<
    (Seq<char>, Seq<char>, Seq<char>),
    ConfigError,
> {
    match debug_text(doc, field_key(ConfigField::Version)) {
        None => Err(ConfigError::FieldMissing(ConfigField::Version)),
        Some(version) => match debug_text(doc, field_key(ConfigField::Owner)) {
            None => Err(ConfigError::FieldMissing(ConfigField::Owner)),
            Some(owner) => match debug_text(doc, field_key(ConfigField::Link)) {
                None => Err(ConfigError::FieldMissing(ConfigField::Link)),
                Some(link) => Ok((version, owner, link)),
            },
        },
    }
}

/// What a configuration text yields.
pub open spec fn text_config(text: Seq<char>) -> Result<(Seq<char>, Seq<char>, Seq<char>), ConfigError> {
    match json_document(text) {
        None => Err(ConfigError::Malformed),
        Some(doc) => document_config(doc),
    }
}

impl Config {
    /// The three strings of the configuration.
    pub open spec fn fields(&self) -> (Seq<char>, Seq<char>, Seq<char>) {
        (self.version@, self.owner@, self.link@)
    }
}

/// Whether a result carries the configuration that `expected` describes.
pub open spec fn config_matches(
    r: Result<Config, ConfigError>,
    expected: Result<(Seq<char>, Seq<char>, Seq<char>), ConfigError>,
) -> bool {
    match expected {
        Ok(f) => r matches Ok(c) && c.fields() == f,
        Err(e) => r == Err::<Config, ConfigError>(e),
    }
}

/// The string at `main.settings.debug.<key>` of a document.
pub fn debug_setting(doc: &serde_json::Value, key: &str) -> (r: Option<String>)
    ensures
        r is None <==> debug_text(*doc, key@) is None,
        r matches Some(s) ==> debug_text(*doc, key@) == Some(s@),
{
    let main = member(doc, "main")?;
    let settings = member(main, "settings")?;
    let debug = member(settings, "debug")?;
    let v = member(debug, key)?;
    let s = text_of(v)?;
    Some(s.to_string())
}

/// Reads the configuration out of a parsed document: `Version`, `Owner` and `Link` under
/// `main.settings.debug`, each a string.
pub fn config_from_document(doc: &serde_json::Value) -> (r: Result<Config, ConfigError>)
    ensures
        config_matches(r, document_config(*doc)),
{
    let version = match debug_setting(doc, "Version") {
        Some(v) => v,
        None => return Err(ConfigError::FieldMissing(ConfigField::Version)),
    };
    let owner = match debug_setting(doc, "Owner") {
        Some(v) => v,
        None => return Err(ConfigError::FieldMissing(ConfigField::Owner)),
    };
    let link = match debug_setting(doc, "Link") {
        Some(v) => v,
        None => return Err(ConfigError::FieldMissing(ConfigField::Link)),
    };
    Ok(Config { version, owner, link })
}

/// Reads the configuration out of the text of the configuration file: `Malformed` where it
/// is not JSON, else as `config_from_document`.
pub fn load_config(text: &str) -> (r: Result<Config, ConfigError>)
    ensures
        config_matches(r, text_config(text@)),
{
    match parse_document(text) {
        Ok(doc) => config_from_document(&doc),
        Err(_) => Err(ConfigError::Malformed),
    }
}

} // verus!
