use rusty_utils::commands::error::FormatError;
use rusty_utils::commands::format::{FormatCommand, Formatted, Sink};
use rusty_utils::commands::kind::Format;

fn inline(text: &str) -> FormatCommand {
    FormatCommand { input: text.to_string(), is_file: Some(false) }
}

fn file(path: &str) -> FormatCommand {
    FormatCommand { input: path.to_string(), is_file: Some(true) }
}

#[test]
fn json_round_trip_keeps_the_value() {
    let source = "{\"name\":\"x\",\"list\":[1,2,{\"deep\":null}],\"flag\":true,\"n\":-12,\"s\":\"a\\nb\"}";
    let done = inline(source).format("").unwrap();
    let before: serde_json::Value = serde_json::from_str(source).unwrap();
    let after: serde_json::Value = serde_json::from_str(&done.text).unwrap();
    assert_eq!(before, after);
    assert_ne!(done.text, source);
}

#[test]
fn toml_round_trip_keeps_the_value() {
    let source = "title = \"x\"\nports = [1, 2, 3]\n[owner]\nname = \"y\"\nactive = true\n";
    let done = inline(source).format("").unwrap();
    let before: toml::Value = toml::from_str(source).unwrap();
    let after: toml::Value = toml::from_str(&done.text).unwrap();
    assert_eq!(before, after);
}

#[test]
fn yaml_round_trip_keeps_the_value() {
    let source = "name:   x\nlist:\n    - 1\n    - two\n    - {k: v}\nflag: true\n";
    let done = inline(source).format("").unwrap();
    let before: serde_yaml::Value = serde_yaml::from_str(source).unwrap();
    let after: serde_yaml::Value = serde_yaml::from_str(&done.text).unwrap();
    assert_eq!(before, after);
}

#[test]
fn formatting_twice_changes_nothing_more() {
    let once = inline("{\"a\":[1,2],\"b\":{}}").format("").unwrap();
    let twice = inline(&once.text).format("").unwrap();
    assert_eq!(once.text, twice.text);
}

#[test]
fn a_number_is_json_before_anything_else() {
    let command = inline("123");
    assert_eq!(command.get_file_type(), Ok("json".to_string()));
    assert_eq!(
        command.format(""),
        Ok(Formatted { text: "123".to_string(), sink: Sink::Stdout })
    );
}

#[test]
fn toml_comes_before_yaml() {
    let command = inline("a = 1");
    assert_eq!(command.get_file_type(), Ok("toml".to_string()));
    assert_eq!(
        command.format(""),
        Ok(Formatted { text: "a = 1\n".to_string(), sink: Sink::Stdout })
    );
}

#[test]
fn yaml_is_tried_last() {
    let command = inline("a: 1");
    assert_eq!(command.get_file_type(), Ok("yaml".to_string()));
    assert_eq!(
        command.format(""),
        Ok(Formatted { text: "a: 1\n".to_string(), sink: Sink::Stdout })
    );
}

#[test]
fn empty_inline_text_is_an_empty_toml_document() {
    let command = inline("");
    assert_eq!(command.get_file_type(), Ok("toml".to_string()));
    assert_eq!(command.format("ignored").unwrap().text, "");
}

#[test]
fn text_of_no_grammar_is_unsupported_input() {
    let command = inline("[1, 2");
    assert_eq!(command.get_file_type(), Err(FormatError::UnsupportedInput));
    assert_eq!(command.format(""), Err(FormatError::UnsupportedInput));
    assert_eq!(FormatError::UnsupportedInput.message(), "Unsupported input type");
    assert_eq!(FormatError::UnsupportedInput.diagnostic(), None);
}

#[test]
fn a_json_file_holding_yaml_is_invalid_json() {
    let command = file("data.json");
    assert_eq!(command.get_file_type(), Ok("json".to_string()));
    let error = command.format("a: 1\n").unwrap_err();
    assert_eq!(error.message(), "Invalid JSON file");
    assert_eq!(
        error,
        FormatError::Invalid {
            format: Format::Json,
            detail: "expected value at line 1 column 1".to_string(),
        }
    );
    assert_eq!(
        error.diagnostic(),
        Some("Error parsing JSON: expected value at line 1 column 1".to_string())
    );
}

#[test]
fn a_toml_file_is_written_back_pretty() {
    let command = file("config.toml");
    assert_eq!(
        command.format("a = 1"),
        Ok(Formatted { text: "a = 1\n".to_string(), sink: Sink::File })
    );
}

#[test]
fn a_yaml_file_is_written_back_in_block_form() {
    let command = file("some.dir/notes.yaml");
    assert_eq!(
        command.format("{a: 1, b: [x, y]}"),
        Ok(Formatted { text: "a: 1\nb:\n- x\n- y\n".to_string(), sink: Sink::File })
    );
}

#[test]
fn inline_json_keeps_the_order_of_its_keys() {
    let command = inline("{\"b\":1,\"a\":2}");
    assert_eq!(
        command.format(""),
        Ok(Formatted { text: "{\n  \"b\": 1,\n  \"a\": 2\n}".to_string(), sink: Sink::Stdout })
    );
}

#[test]
fn a_file_is_judged_by_its_extension_alone() {
    assert_eq!(file("data.txt").format("{}"), Err(FormatError::UnsupportedInput));
    assert_eq!(file("data").format("{}"), Err(FormatError::UnsupportedInput));
    assert_eq!(file("data.JSON").format("{}"), Err(FormatError::UnsupportedInput));
    assert_eq!(file("data.yml").format("a: 1"), Err(FormatError::UnsupportedInput));
    assert_eq!(file("json").format("{}"), Err(FormatError::UnsupportedInput));
    assert_eq!(file("data.json.bak").get_file_type(), Err(FormatError::UnsupportedInput));
    assert_eq!(file("a.toml/data.json").get_file_type(), Ok("json".to_string()));
}

#[test]
fn a_file_of_inline_looking_name_is_not_sniffed() {
    let command = file("123.toml");
    let error = command.format("123").unwrap_err();
    assert_eq!(error.message(), "Invalid TOML file");
    assert!(matches!(error, FormatError::Invalid { format: Format::Toml, .. }));
    assert!(error.diagnostic().unwrap().starts_with("Error parsing TOML: "));
}

#[test]
fn format_json_prints_pretty() {
    let command = inline("unused");
    assert_eq!(
        command.format_json("{\"a\":[1,true,null],\"b\":{}}"),
        Ok("{\n  \"a\": [\n    1,\n    true,\n    null\n  ],\n  \"b\": {}\n}".to_string())
    );
}

#[test]
fn format_json_rejects_what_is_not_json() {
    let error = inline("unused").format_json("{\"a\":}").unwrap_err();
    assert_eq!(error.message(), "Invalid JSON file");
    assert_eq!(
        error.diagnostic(),
        Some("Error parsing JSON: expected value at line 1 column 6".to_string())
    );
}

#[test]
fn format_json_rejects_trailing_text() {
    let error = inline("unused").format_json("1 2").unwrap_err();
    assert!(matches!(error, FormatError::Invalid { format: Format::Json, .. }));
}

#[test]
fn format_toml_prints_pretty() {
    let command = inline("unused");
    assert_eq!(command.format_toml("a=1"), Ok("a = 1\n".to_string()));
    assert_eq!(command.format_toml("name   =   'x'"), Ok("name = \"x\"\n".to_string()));
}

#[test]
fn format_toml_rejects_what_is_not_toml() {
    let error = inline("unused").format_toml("a = ").unwrap_err();
    assert_eq!(error.message(), "Invalid TOML file");
    assert!(matches!(error, FormatError::Invalid { format: Format::Toml, .. }));
    let line = error.diagnostic().unwrap();
    assert!(line.starts_with("Error parsing TOML: "));
    assert!(line.len() > "Error parsing TOML: ".len());
}

#[test]
fn format_yaml_prints_block_form() {
    let command = inline("unused");
    assert_eq!(command.format_yaml("{a: 1}"), Ok("a: 1\n".to_string()));
    assert_eq!(command.format_yaml("[1, 2]"), Ok("- 1\n- 2\n".to_string()));
}

#[test]
fn format_yaml_rejects_what_is_not_yaml() {
    let error = inline("unused").format_yaml("[1, 2").unwrap_err();
    assert_eq!(error.message(), "Invalid YAML file");
    assert!(matches!(error, FormatError::Invalid { format: Format::Yaml, .. }));
    assert!(error.diagnostic().unwrap().starts_with("Error parsing YAML: "));
}

#[test]
fn format_contents_goes_by_the_tag() {
    let command = inline("unused");
    assert_eq!(command.format_contents("json", "[ ]"), Ok("[]".to_string()));
    assert_eq!(command.format_contents("toml", "a=1"), Ok("a = 1\n".to_string()));
    assert_eq!(command.format_contents("yaml", "{a: 1}"), Ok("a: 1\n".to_string()));
}

#[test]
fn format_contents_refuses_an_unknown_tag() {
    let command = inline("unused");
    let error = command.format_contents("xml", "<a/>").unwrap_err();
    assert_eq!(error, FormatError::UnsupportedFileType);
    assert_eq!(error.message(), "Unsupported file type");
    assert_eq!(error.diagnostic(), None);
    assert_eq!(command.format_contents("", "{}"), Err(FormatError::UnsupportedFileType));
    assert_eq!(command.format_contents("Json", "{}"), Err(FormatError::UnsupportedFileType));
}

#[test]
fn an_unprintable_document_reports_what_the_printer_said() {
    let error = FormatError::Unprintable { format: Format::Toml, detail: "no".to_string() };
    assert_eq!(error.message(), "no");
    assert_eq!(error.diagnostic(), None);
}

#[test]
fn an_unclassified_input_is_inline() {
    let command = FormatCommand { input: "data.json".to_string(), is_file: None };
    assert!(!command.is_file_input());
    assert_eq!(command.get_file_type(), Ok("yaml".to_string()));
    assert_eq!(command.format("{}").unwrap().sink, Sink::Stdout);
}

#[test]
fn new_classifies_inline_text() {
    let command = FormatCommand::new("{\"b\":1,\"a\":2}".to_string());
    assert_eq!(command.input, "{\"b\":1,\"a\":2}");
    assert_eq!(command.is_file, Some(false));
    assert!(!command.is_file_input());
}

#[test]
fn new_does_not_take_a_directory_for_a_file() {
    assert_eq!(FormatCommand::new("/".to_string()).is_file, Some(false));
}

#[test]
fn new_finds_a_regular_file() {
    let command = FormatCommand::new("/bin/sh".to_string());
    assert_eq!(command.is_file, Some(true));
    assert!(command.is_file_input());
    assert_eq!(command.format(""), Err(FormatError::UnsupportedInput));
}

#[test]
fn set_is_file_asks_again() {
    let mut command = FormatCommand { input: "not a file".to_string(), is_file: Some(true) };
    command.set_is_file();
    assert_eq!(command.input, "not a file");
    assert_eq!(command.is_file, Some(false));
}

#[test]
fn classify_keeps_the_answer() {
    let mut command = FormatCommand { input: "x.json".to_string(), is_file: None };
    command.classify(true);
    assert_eq!(command.is_file, Some(true));
    assert_eq!(command.input, "x.json");
    command.classify(false);
    assert_eq!(command.is_file, Some(false));
}

#[test]
fn tags_and_names_of_the_formats() {
    assert_eq!(Format::Json.tag(), "json");
    assert_eq!(Format::Toml.tag(), "toml");
    assert_eq!(Format::Yaml.tag(), "yaml");
    assert_eq!(Format::Json.name(), "JSON");
    assert_eq!(Format::Toml.name(), "TOML");
    assert_eq!(Format::Yaml.name(), "YAML");
    assert_eq!(Format::from_tag("json"), Some(Format::Json));
    assert_eq!(Format::from_tag("toml"), Some(Format::Toml));
    assert_eq!(Format::from_tag("yaml"), Some(Format::Yaml));
    assert_eq!(Format::from_tag("yml"), None);
    assert_eq!(Format::from_tag("JSON"), None);
    assert_eq!(Format::from_tag(""), None);
}
