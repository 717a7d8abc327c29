use datagen::config::{ConfigCause, ConfigFile, CounterConfig, IdEventConfig};
use datagen::counter::CounterGen;
use datagen::format::Format;
use datagen::id_event::IdEventGen;

fn field(name: &str) -> ConfigCause {
    ConfigCause::Field(name.to_string())
}

fn strings(items: &[&str]) -> Vec<String> {
    items.iter().map(|s| s.to_string()).collect()
}

fn read(content: &str) -> ConfigFile {
    ConfigFile::Read { path: "gen.toml".to_string(), content: content.to_string() }
}

#[test]
fn counter_document_with_both_fields() {
    assert_eq!(
        CounterConfig::from_document("initial_count = 5\nformat = \"JSON\"\n"),
        Ok(CounterConfig { initial_count: Some(5), format: Some(Format::JSON) })
    );
    assert_eq!(
        CounterConfig::from_document("format = \"CSV\"\ninitial_count = 0\n"),
        Ok(CounterConfig { initial_count: Some(0), format: Some(Format::CSV) })
    );
}

#[test]
fn counter_document_fields_are_optional() {
    assert_eq!(
        CounterConfig::from_document(""),
        Ok(CounterConfig { initial_count: None, format: None })
    );
    assert_eq!(
        CounterConfig::from_document("initial_count = 12\n"),
        Ok(CounterConfig { initial_count: Some(12), format: None })
    );
    assert_eq!(
        CounterConfig::from_document("other = true\n[table]\nkey = 1\n"),
        Ok(CounterConfig { initial_count: None, format: None })
    );
}

#[test]
fn counter_document_largest_count() {
    assert_eq!(
        CounterConfig::from_document("initial_count = 9223372036854775807\n"),
        Ok(CounterConfig { initial_count: Some(9223372036854775807), format: None })
    );
}

#[test]
fn counter_document_bad_initial_count() {
    assert_eq!(CounterConfig::from_document("initial_count = -1\n"), Err(field("initial_count")));
    assert_eq!(CounterConfig::from_document("initial_count = \"5\"\n"), Err(field("initial_count")));
    assert_eq!(CounterConfig::from_document("initial_count = 1.5\n"), Err(field("initial_count")));
    assert_eq!(CounterConfig::from_document("initial_count = [1]\n"), Err(field("initial_count")));
}

#[test]
fn counter_document_bad_format() {
    assert_eq!(CounterConfig::from_document("format = \"csv\"\n"), Err(field("format")));
    assert_eq!(CounterConfig::from_document("format = \"XML\"\n"), Err(field("format")));
    assert_eq!(CounterConfig::from_document("format = 3\n"), Err(field("format")));
}

#[test]
fn counter_document_reports_the_first_bad_field() {
    assert_eq!(
        CounterConfig::from_document("format = \"csv\"\ninitial_count = -4\n"),
        Err(field("initial_count"))
    );
}

#[test]
fn document_that_is_not_well_formed() {
    assert!(matches!(
        CounterConfig::from_document("initial_count = \n"),
        Err(ConfigCause::Syntax(_))
    ));
    assert!(matches!(
        IdEventConfig::from_document("ids = [\"a\"\nevents = [\"x\"]\n"),
        Err(ConfigCause::Syntax(_))
    ));
    assert!(matches!(CounterConfig::from_document("just words"), Err(ConfigCause::Syntax(_))));
}

#[test]
fn id_event_document_with_all_fields() {
    assert_eq!(
        IdEventConfig::from_document(
            "ids = [\"a\", \"b\"]\nevents = [\"x\", \"y\", \"z\"]\nformat = \"JSON\"\n"
        ),
        Ok(IdEventConfig {
            ids: strings(&["a", "b"]),
            events: strings(&["x", "y", "z"]),
            format: Some(Format::JSON),
        })
    );
}

#[test]
fn id_event_document_without_format_and_with_empty_lists() {
    assert_eq!(
        IdEventConfig::from_document("ids = []\nevents = [\"x\"]\n"),
        Ok(IdEventConfig { ids: vec![], events: strings(&["x"]), format: None })
    );
}

#[test]
fn id_event_document_needs_both_vocabularies() {
    assert_eq!(IdEventConfig::from_document("events = [\"x\"]\n"), Err(field("ids")));
    assert_eq!(IdEventConfig::from_document("ids = [\"a\"]\n"), Err(field("events")));
    assert_eq!(IdEventConfig::from_document(""), Err(field("ids")));
}

#[test]
fn id_event_document_bad_vocabulary() {
    assert_eq!(
        IdEventConfig::from_document("ids = [1, 2]\nevents = [\"x\"]\n"),
        Err(field("ids"))
    );
    assert_eq!(
        IdEventConfig::from_document("ids = \"a\"\nevents = [\"x\"]\n"),
        Err(field("ids"))
    );
    assert_eq!(
        IdEventConfig::from_document("ids = [\"a\"]\nevents = [[\"x\"]]\n"),
        Err(field("events"))
    );
    assert_eq!(
        IdEventConfig::from_document("ids = [\"a\"]\nevents = [\"x\"]\nformat = \"json\"\n"),
        Err(field("format"))
    );
}

#[test]
fn settings_from_a_parsed_table() {
    let mut table = toml::value::Table::new();
    table.insert("initial_count".to_string(), toml::Value::Integer(3));
    table.insert("format".to_string(), toml::Value::String("JSON".to_string()));
    table.insert(
        "ids".to_string(),
        toml::Value::Array(vec![toml::Value::String("a".to_string())]),
    );
    table.insert("events".to_string(), toml::Value::Array(vec![]));
    let document = toml::Value::Table(table);
    assert_eq!(
        CounterConfig::from_table(&document),
        Ok(CounterConfig { initial_count: Some(3), format: Some(Format::JSON) })
    );
    assert_eq!(
        IdEventConfig::from_table(&document),
        Ok(IdEventConfig { ids: strings(&["a"]), events: vec![], format: Some(Format::JSON) })
    );
}

#[test]
fn settings_from_something_that_is_no_table() {
    let document = toml::Value::Integer(3);
    assert_eq!(
        CounterConfig::from_table(&document),
        Ok(CounterConfig { initial_count: None, format: None })
    );
    assert_eq!(IdEventConfig::from_table(&document), Err(field("ids")));
}

#[test]
fn counter_from_file_without_a_path() {
    assert_eq!(CounterGen::from_file(&ConfigFile::Absent), Ok(CounterGen::new()));
}

#[test]
fn counter_from_file_with_a_document() {
    let counter = CounterGen::from_file(&read("initial_count = 40\nformat = \"JSON\"\n")).unwrap();
    assert_eq!(counter.count(), 40);
    assert_eq!(counter.format(), Format::JSON);
    let counter = CounterGen::from_file(&read("")).unwrap();
    assert_eq!(counter, CounterGen::new());
}

#[test]
fn counter_from_file_that_cannot_be_used() {
    let file = ConfigFile::Unreadable {
        path: "missing.toml".to_string(),
        cause: "No such file or directory (os error 2)".to_string(),
    };
    assert_eq!(
        CounterGen::from_file(&file),
        Err(ConfigCause::Unreadable("No such file or directory (os error 2)".to_string()))
    );
    assert_eq!(CounterGen::from_file(&read("initial_count = -1\n")), Err(field("initial_count")));
    assert!(matches!(CounterGen::from_file(&read("= 1")), Err(ConfigCause::Syntax(_))));
}

#[test]
fn id_event_from_file_without_a_path() {
    assert_eq!(IdEventGen::from_file(&ConfigFile::Absent), Ok(IdEventGen::new()));
}

#[test]
fn id_event_from_file_with_a_document() {
    let generator = IdEventGen::from_file(&read("ids = [\"a\"]\nevents = [\"x\"]\n")).unwrap();
    assert_eq!(
        generator,
        IdEventGen::from_config(IdEventConfig {
            ids: strings(&["a"]),
            events: strings(&["x"]),
            format: None,
        })
    );
    assert_eq!(generator.format(), Format::CSV);
}

#[test]
fn id_event_from_file_that_cannot_be_used() {
    let file =
        ConfigFile::Unreadable { path: "missing.toml".to_string(), cause: "denied".to_string() };
    assert_eq!(IdEventGen::from_file(&file), Err(ConfigCause::Unreadable("denied".to_string())));
    assert_eq!(IdEventGen::from_file(&read("ids = [\"a\"]\n")), Err(field("events")));
}

#[test]
fn config_file_path_or_placeholder() {
    assert_eq!(ConfigFile::Absent.path(), "?");
    assert_eq!(read("").path(), "gen.toml");
    let file = ConfigFile::Unreadable { path: "p".to_string(), cause: "c".to_string() };
    assert_eq!(file.path(), "p");
}
