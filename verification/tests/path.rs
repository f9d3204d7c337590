use rusty_utils::path::extension;
use rusty_utils::text::equal;

#[test]
fn extension_is_what_follows_the_last_dot() {
    assert_eq!(extension("data.json"), "json");
    assert_eq!(extension("archive.tar.gz"), "gz");
    assert_eq!(extension("/etc/app/config.toml"), "toml");
    assert_eq!(extension("notes.YAML"), "YAML");
}

#[test]
fn extension_is_empty_without_a_dot_in_the_name() {
    assert_eq!(extension("data"), "");
    assert_eq!(extension(""), "");
    assert_eq!(extension("dir.d/data"), "");
    assert_eq!(extension("/"), "");
    assert_eq!(extension("a.b/"), "");
}

#[test]
fn extension_may_be_empty_after_a_final_dot() {
    assert_eq!(extension("data."), "");
    assert_eq!(extension("dir/data.json."), "");
}

#[test]
fn extension_counts_characters_not_bytes() {
    assert_eq!(extension("données/é.à.json"), "json");
    assert_eq!(extension("日本語.設定"), "設定");
}

#[test]
fn equal_compares_every_character() {
    assert!(equal("", ""));
    assert!(equal("json", "json"));
    assert!(equal("é.à", "é.à"));
    assert!(!equal("json", "jsom"));
    assert!(!equal("json", "jso"));
    assert!(!equal("json", "xson"));
    assert!(!equal("", "a"));
    assert!(!equal("ab", "ba"));
}

#[test]
fn extension_of_a_name_that_starts_with_its_only_dot() {
    assert_eq!(extension(".json"), "json");
    assert_eq!(extension("dir/.toml"), "toml");
}
