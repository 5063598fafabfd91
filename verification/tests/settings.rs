use pinelog::level::LogLevel;
use pinelog::settings::{ConfigError, Field, Settings, Timestamp};

fn text(s: &str) -> Field {
    Field::Text(s.to_string())
}

#[test]
fn load_reads_all_three_fields() {
    let settings =
        Settings::load("min_level = \"WARN\"\nfile_path = \"out.log\"\ntimestamp = \"TIME\"\n")
            .unwrap();
    assert_eq!(settings.min_level, LogLevel::WARN);
    assert_eq!(settings.file_path.as_deref(), Some("out.log"));
    assert_eq!(settings.timestamp, Some(Timestamp::TIME));
}

#[test]
fn load_leaves_optional_fields_empty() {
    let settings = Settings::load("min_level = \"ERROR\"").unwrap();
    assert_eq!(settings.min_level, LogLevel::ERROR);
    assert_eq!(settings.file_path, None);
    assert_eq!(settings.timestamp, None);
}

#[test]
fn load_reads_each_level_and_selector() {
    for (name, level) in
        [("INFO", LogLevel::INFO), ("WARN", LogLevel::WARN), ("ERROR", LogLevel::ERROR)]
    {
        let settings = Settings::load(&format!("min_level = \"{}\"", name)).unwrap();
        assert_eq!(settings.min_level, level);
    }
    for (name, selector) in
        [("DATE", Timestamp::DATE), ("TIME", Timestamp::TIME), ("FULL", Timestamp::FULL)]
    {
        let settings =
            Settings::load(&format!("min_level = \"INFO\"\ntimestamp = \"{}\"", name)).unwrap();
        assert_eq!(settings.timestamp, Some(selector));
    }
}

#[test]
fn load_ignores_other_keys() {
    let settings =
        Settings::load("colour = true\nmin_level = \"INFO\"\n\n[extra]\nfile_path = \"x\"\n")
            .unwrap();
    assert_eq!(settings.min_level, LogLevel::INFO);
    assert_eq!(settings.file_path, None);
    assert_eq!(settings.timestamp, None);
}

#[test]
fn load_keeps_the_path_verbatim() {
    let settings =
        Settings::load("min_level = \"INFO\"\nfile_path = \"logs/my app/été.log\"").unwrap();
    assert_eq!(settings.file_path.as_deref(), Some("logs/my app/été.log"));
    let settings = Settings::load("min_level = \"INFO\"\nfile_path = \"\"").unwrap();
    assert_eq!(settings.file_path.as_deref(), Some(""));
}

#[test]
fn load_rejects_text_that_is_not_toml() {
    assert_eq!(Settings::load("min_level = ").unwrap_err(), ConfigError::Malformed);
    assert_eq!(Settings::load("min_level \"INFO\"").unwrap_err(), ConfigError::Malformed);
    assert_eq!(
        Settings::load("min_level = \"INFO\"\nmin_level = \"WARN\"").unwrap_err(),
        ConfigError::Malformed
    );
}

#[test]
fn load_requires_a_level() {
    assert_eq!(Settings::load("").unwrap_err(), ConfigError::MissingLevel);
    assert_eq!(
        Settings::load("file_path = \"out.log\"\ntimestamp = \"FULL\"").unwrap_err(),
        ConfigError::MissingLevel
    );
}

#[test]
fn load_rejects_an_unknown_level() {
    assert_eq!(Settings::load("min_level = \"DEBUG\"").unwrap_err(), ConfigError::InvalidLevel);
    assert_eq!(Settings::load("min_level = \"warn\"").unwrap_err(), ConfigError::InvalidLevel);
    assert_eq!(Settings::load("min_level = 2").unwrap_err(), ConfigError::InvalidLevel);
}

#[test]
fn load_rejects_a_path_that_is_not_a_string() {
    assert_eq!(
        Settings::load("min_level = \"INFO\"\nfile_path = 7").unwrap_err(),
        ConfigError::InvalidPath
    );
    assert_eq!(
        Settings::load("min_level = \"INFO\"\nfile_path = [\"a\", \"b\"]").unwrap_err(),
        ConfigError::InvalidPath
    );
}

#[test]
fn load_rejects_an_unknown_selector() {
    assert_eq!(
        Settings::load("min_level = \"INFO\"\ntimestamp = \"HOUR\"").unwrap_err(),
        ConfigError::InvalidTimestamp
    );
    assert_eq!(
        Settings::load("min_level = \"INFO\"\ntimestamp = true").unwrap_err(),
        ConfigError::InvalidTimestamp
    );
}

#[test]
fn the_first_field_at_fault_decides_the_error() {
    assert_eq!(
        Settings::load("file_path = 1\ntimestamp = \"HOUR\"").unwrap_err(),
        ConfigError::MissingLevel
    );
    assert_eq!(
        Settings::load("min_level = \"LOUD\"\nfile_path = 1\ntimestamp = \"HOUR\"").unwrap_err(),
        ConfigError::InvalidLevel
    );
    assert_eq!(
        Settings::load("min_level = \"INFO\"\nfile_path = 1\ntimestamp = \"HOUR\"").unwrap_err(),
        ConfigError::InvalidPath
    );
}

#[test]
fn from_table_reads_a_table_built_by_hand() {
    let mut table = toml::Table::new();
    table.insert("min_level".to_string(), toml::Value::String("WARN".to_string()));
    table.insert("file_path".to_string(), toml::Value::String("out.log".to_string()));
    table.insert("timestamp".to_string(), toml::Value::String("DATE".to_string()));
    let settings = Settings::from_table(&table).unwrap();
    assert_eq!(settings.min_level, LogLevel::WARN);
    assert_eq!(settings.file_path.as_deref(), Some("out.log"));
    assert_eq!(settings.timestamp, Some(Timestamp::DATE));

    table.insert("timestamp".to_string(), toml::Value::Integer(3));
    assert_eq!(Settings::from_table(&table).unwrap_err(), ConfigError::InvalidTimestamp);
    table.remove("timestamp");
    table.remove("min_level");
    assert_eq!(Settings::from_table(&table).unwrap_err(), ConfigError::MissingLevel);
    assert_eq!(Settings::from_table(&toml::Table::new()).unwrap_err(), ConfigError::MissingLevel);
}

#[test]
fn from_fields_judges_each_field() {
    let settings = Settings::from_fields(text("INFO"), text("a.log"), text("FULL")).unwrap();
    assert_eq!(settings.min_level, LogLevel::INFO);
    assert_eq!(settings.file_path.as_deref(), Some("a.log"));
    assert_eq!(settings.timestamp, Some(Timestamp::FULL));

    let settings = Settings::from_fields(text("ERROR"), Field::Absent, Field::Absent).unwrap();
    assert_eq!(settings.min_level, LogLevel::ERROR);
    assert_eq!(settings.file_path, None);
    assert_eq!(settings.timestamp, None);

    assert_eq!(
        Settings::from_fields(Field::Absent, Field::Absent, Field::Absent).unwrap_err(),
        ConfigError::MissingLevel
    );
    assert_eq!(
        Settings::from_fields(Field::Other, Field::Absent, Field::Absent).unwrap_err(),
        ConfigError::InvalidLevel
    );
    assert_eq!(
        Settings::from_fields(text("Info"), Field::Absent, Field::Absent).unwrap_err(),
        ConfigError::InvalidLevel
    );
    assert_eq!(
        Settings::from_fields(text("INFO"), Field::Other, Field::Absent).unwrap_err(),
        ConfigError::InvalidPath
    );
    assert_eq!(
        Settings::from_fields(text("INFO"), Field::Absent, Field::Other).unwrap_err(),
        ConfigError::InvalidTimestamp
    );
    assert_eq!(
        Settings::from_fields(text("INFO"), Field::Absent, text("date")).unwrap_err(),
        ConfigError::InvalidTimestamp
    );
}

#[test]
fn selector_names_are_read_exactly() {
    assert_eq!(Timestamp::from_name("DATE"), Some(Timestamp::DATE));
    assert_eq!(Timestamp::from_name("TIME"), Some(Timestamp::TIME));
    assert_eq!(Timestamp::from_name("FULL"), Some(Timestamp::FULL));
    assert_eq!(Timestamp::from_name("full"), None);
    assert_eq!(Timestamp::from_name("DATETIME"), None);
    assert_eq!(Timestamp::from_name(""), None);
}
