//! The configuration record and its TOML form.

use crate::level::{same_text, LogLevel};
use vstd::prelude::*;

verus! {

/// The map type that holds a TOML table.
#[verifier::external_type_specification]
#[verifier::external_body]
#[verifier::reject_recursive_types(K)]
#[verifier::reject_recursive_types(V)]
pub struct ExTomlMap<K, V>(toml::map::Map<K, V>);

/// A TOML value of any kind.
#[verifier::external_type_specification]
#[verifier::external_body]
pub struct ExTomlValue(toml::Value);

/// The error with which `toml` rejects a document.
#[verifier::external_type_specification]
#[verifier::external_body]
pub struct ExTomlError(toml::de::Error);

/// What a settings document holds under one key.
#[derive(Debug)]
pub enum Field {
    /// The key is absent.
    Absent,
    /// The key holds a string.
    Text(String),
    /// The key holds a value that is not a string.
    Other,
}

/// The mathematical content of a [`Field`].
pub ghost enum FieldView {
    Absent,
    Text(Seq<char>),
    Other,
}

impl View for Field {
    type V = FieldView;

    open spec fn view(&self) -> FieldView {
        match self {
            Field::Absent => FieldView::Absent,
            Field::Text(text) => FieldView::Text(text@),
            Field::Other => FieldView::Other,
        }
    }
}

/// The entries of a settings document: under each key that is present, the
/// text of a string value, or `None` for a value of another kind.
pub type Entries = Map<Seq<char>, Option<Seq<char>>>;

/// What `entries` hold under `key`.
pub open spec fn field_at(entries: Entries, key: Seq<char>) -> FieldView {
    if !entries.dom().contains(key) {
        FieldView::Absent
    } else {
        match entries[key] {
            Some(text) => FieldView::Text(text),
            None => FieldView::Other,
        }
    }
}

/// What a parsed table holds, as far as the settings read it: under each key
/// that is present, the text of a string value, or `None` for a value of any
/// other kind.
pub uninterp spec fn table_entries(table: toml::Table) -> Map<Seq<char>, Option<Seq<char>>>;

/// The entries of the table that `toml::from_str` reads from `text`, or
/// `None` where it rejects the text.
pub uninterp spec fn toml_document(text: Seq<char>) -> Option<Map<Seq<char>, Option<Seq<char>>>>;

/// Parses `text` as a TOML document with `toml::from_str`. The outcome is
/// the one that [`toml_document`] names for the text.
#[verifier::external_body]
fn parse_document(text: &str) -> (r: Result<toml::Table, toml::de::Error>)
    ensures
        match r {
            Ok(table) => toml_document(text@) == Some(table_entries(table)),
            Err(_) => toml_document(text@) is None,
        },
{
    toml::from_str::<toml::Table>(text)
}

/// Looks `key` up with `toml::map::Map::get` and reads the value found with
/// `toml::Value::as_str`: absent, the text of a string, or a value of
/// another kind.
#[verifier::external_body]
fn lookup(table: &toml::Table, key: &str) -> (r: Field)
    ensures
        r@ == field_at(table_entries(*table), key@),
{
    match table.get(key) {
        None => Field::Absent,
        Some(value) => match value.as_str() {
            Some(text) => Field::Text(text.to_owned()),
            None => Field::Other,
        },
    }
}

/// Which calendar fields open each line.
#[derive(Clone, Copy, Debug, PartialEq, Eq, Hash, Structural)]
pub enum Timestamp {
    /// The date alone.
    DATE,
    /// The time of day alone.
    TIME,
    /// The date, a space, the time of day.
    FULL,
}

impl Timestamp {
    /// The name of the selector in a settings document.
    pub open spec fn name(self) -> Seq<char> {
        match self {
            Timestamp::DATE => "DATE"@,
            Timestamp::TIME => "TIME"@,
            Timestamp::FULL => "FULL"@,
        }
    }

    /// Every selector reads back from its own name, so the three names
    /// differ.
    pub proof fn law_name_names_its_selector(self)
        ensures
            Timestamp::named(self.name()) == Some(self),
    {
        reveal_strlit("DATE");
        reveal_strlit("TIME");
        reveal_strlit("FULL");
        assert("DATE"@[0] == 'D' && "TIME"@[0] == 'T' && "FULL"@[0] == 'F');
    }

    /// The selector that `name` spells, if any.
    pub open spec fn named(name: Seq<char>) -> Option<Timestamp> {
        if name == "DATE"@ {
            Some(Timestamp::DATE)
        } else if name == "TIME"@ {
            Some(Timestamp::TIME)
        } else if name == "FULL"@ {
            Some(Timestamp::FULL)
        } else {
            None
        }
    }

    /// Reads a selector from its name: `DATE`, `TIME` or `FULL`.
    pub fn from_name(name: &str) -> (r: Option<Timestamp>)
        ensures
            r == Timestamp::named(name@),
    {
        if same_text(name, "DATE") {
            Some(Timestamp::DATE)
        } else if same_text(name, "TIME") {
            Some(Timestamp::TIME)
        } else if same_text(name, "FULL") {
            Some(Timestamp::FULL)
        } else {
            None
        }
    }
}

/// Why a settings document was not accepted.
#[derive(Clone, Copy, Debug, PartialEq, Eq, Hash, Structural)]
pub enum ConfigError {
    /// The text is not a TOML document.
    Malformed,
    /// The document has no `min_level`.
    MissingLevel,
    /// `min_level` is not one of `INFO`, `WARN`, `ERROR`.
    InvalidLevel,
    /// `file_path` is present and is not a string.
    InvalidPath,
    /// `timestamp` is present and is not one of `DATE`, `TIME`, `FULL`.
    InvalidTimestamp,
}

/// The configuration of one logger.
#[derive(Debug)]
pub struct Settings {
    /// Entries below this level are dropped.
    pub min_level: LogLevel,
    /// Where accepted entries are appended, besides the console.
    pub file_path: Option<String>,
    /// The timestamp that opens each line; none where absent.
    pub timestamp: Option<Timestamp>,
}

/// The mathematical content of [`Settings`].
pub ghost struct SettingsView {
    pub min_level: LogLevel,
    pub file_path: Option<Seq<char>>,
    pub timestamp: Option<Timestamp>,
}

impl View for Settings {
    type V = SettingsView;

    open spec fn view(&self) -> SettingsView {
        SettingsView {
            min_level: self.min_level,
            file_path: match self.file_path {
                Some(path) => Some(path@),
                None => None,
            },
            timestamp: self.timestamp,
        }
    }
}

/// The minimum level that a `min_level` field gives; the field is required.
pub open spec fn level_from(field: FieldView) -> Result<LogLevel, ConfigError> {
    match field {
        FieldView::Absent => Err(ConfigError::MissingLevel),
        FieldView::Other => Err(ConfigError::InvalidLevel),
        FieldView::Text(name) => match LogLevel::named(name) {
            Some(level) => Ok(level),
            None => Err(ConfigError::InvalidLevel),
        },
    }
}

/// The destination that a `file_path` field gives; the field is optional.
pub open spec fn path_from(field: FieldView) -> Result<Option<Seq<char>>, ConfigError> {
    match field {
        FieldView::Absent => Ok(None),
        FieldView::Other => Err(ConfigError::InvalidPath),
        FieldView::Text(path) => Ok(Some(path)),
    }
}

/// The selector that a `timestamp` field gives; the field is optional.
pub open spec fn timestamp_from(field: FieldView) -> Result<Option<Timestamp>, ConfigError> {
    match field {
        FieldView::Absent => Ok(None),
        FieldView::Other => Err(ConfigError::InvalidTimestamp),
        FieldView::Text(name) => match Timestamp::named(name) {
            Some(selector) => Ok(Some(selector)),
            None => Err(ConfigError::InvalidTimestamp),
        },
    }
}

/// The settings that three fields describe. They are judged in the order
/// `min_level`, `file_path`, `timestamp`, and the first one at fault decides
/// the error.
pub open spec fn settings_from(min_level: FieldView, file_path: FieldView, timestamp: FieldView) -> Result<
    SettingsView,
    ConfigError,
> {
    match level_from(min_level) {
        Err(e) => Err(e),
        Ok(min_level) => match path_from(file_path) {
            Err(e) => Err(e),
            Ok(file_path) => match timestamp_from(timestamp) {
                Err(e) => Err(e),
                Ok(timestamp) => Ok(SettingsView { min_level, file_path, timestamp }),
            },
        },
    }
}

/// The settings that `entries` describe; keys other than the three fields
/// are not looked at.
pub open spec fn settings_in(entries: Entries) -> Result<SettingsView, ConfigError> {
    settings_from(
        field_at(entries, "min_level"@),
        field_at(entries, "file_path"@),
        field_at(entries, "timestamp"@),
    )
}

/// The settings that the TOML text `source` describes.
pub open spec fn settings_of(source: Seq<char>) -> Result<SettingsView, ConfigError> {
    match toml_document(source) {
        Some(entries) => settings_in(entries),
        None => Err(ConfigError::Malformed),
    }
}

/// The outcome of reading settings, with the settings taken by their view.
pub open spec fn outcome_view(r: Result<Settings, ConfigError>) -> Result<
    SettingsView,
    ConfigError,
> {
    match r {
        Ok(settings) => Ok(settings@),
        Err(e) => Err(e),
    }
}

impl Settings {
    /// Judges the three fields of a settings document.
    pub fn from_fields(min_level: Field, file_path: Field, timestamp: Field) -> (r: Result<
        Settings,
        ConfigError,
    >)
        ensures
            outcome_view(r) == settings_from(min_level@, file_path@, timestamp@),
    {
        let min_level = match min_level {
            Field::Absent => {
                return Err(ConfigError::MissingLevel);
            },
            Field::Other => {
                return Err(ConfigError::InvalidLevel);
            },
            Field::Text(name) => match LogLevel::from_name(name.as_str()) {
                Some(level) => level,
                None => {
                    return Err(ConfigError::InvalidLevel);
                },
            },
        };
        let file_path = match file_path {
            Field::Absent => None,
            Field::Other => {
                return Err(ConfigError::InvalidPath);
            },
            Field::Text(path) => Some(path),
        };
        let timestamp = match timestamp {
            Field::Absent => None,
            Field::Other => {
                return Err(ConfigError::InvalidTimestamp);
            },
            Field::Text(name) => match Timestamp::from_name(name.as_str()) {
                Some(selector) => Some(selector),
                None => {
                    return Err(ConfigError::InvalidTimestamp);
                },
            },
        };
        Ok(Settings { min_level, file_path, timestamp })
    }

    /// Reads the settings from a parsed TOML table.
    pub fn from_table(table: &toml::Table) -> (r: Result<Settings, ConfigError>)
        ensures
            outcome_view(r) == settings_in(table_entries(*table)),
    {
        let min_level = lookup(table, "min_level");
        let file_path = lookup(table, "file_path");
        let timestamp = lookup(table, "timestamp");
        Settings::from_fields(min_level, file_path, timestamp)
    }

    /// Loads the settings from the text of a TOML document.
    pub fn load(source: &str) -> (r: Result<Settings, ConfigError>)
        ensures
            outcome_view(r) == settings_of(source@),
    {
        match parse_document(source) {
            Ok(table) => Settings::from_table(&table),
            Err(_) => Err(ConfigError::Malformed),
        }
    }
}

} // verus!
