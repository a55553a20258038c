use dqx_text::error::{LoadError, SaveError};
use dqx_text::file::{FileRead, FileWrite};
use dqx_text::json::JsonNode;
use dqx_text::text_model::DqxTranslationsModel;
use dqx_text::variants::LanguageVariants;

fn s(text: &str) -> String {
    text.to_string()
}

fn variants(pairs: &[(&str, &str)]) -> LanguageVariants {
    let mut v = LanguageVariants::new();
    for (tag, text) in pairs {
        v.set(s(tag), s(text));
    }
    v
}

fn rows(table: &[(&str, &[(&str, &str)])]) -> Vec<(String, Vec<(String, String)>)> {
    table
        .iter()
        .map(|(id, pairs)| (s(id), pairs.iter().map(|(tag, text)| (s(tag), s(text))).collect()))
        .collect()
}

#[test]
fn new_table_is_empty() {
    let table = DqxTranslationsModel::new();
    assert_eq!(table.len(), 0);
    assert!(table.get_index(0).is_none());
    assert!(table.rows().is_empty());
    assert_eq!(DqxTranslationsModel::default().len(), 0);
}

#[test]
fn insert_keeps_the_order_of_first_insertion() {
    let mut table = DqxTranslationsModel::new();
    assert!(table.insert(s("0002"), variants(&[("jp", "b")])).is_none());
    assert!(table.insert(s("0001"), variants(&[("jp", "a")])).is_none());
    assert!(table.insert(s("0003"), variants(&[])).is_none());
    assert_eq!(table.len(), 3);
    assert_eq!(table.position(&s("0002")), Some(0));
    assert_eq!(table.position(&s("0001")), Some(1));
    assert_eq!(table.position(&s("0003")), Some(2));
    assert_eq!(table.position(&s("0004")), None);
    assert_eq!(table.rows(), rows(&[("0002", &[("jp", "b")]), ("0001", &[("jp", "a")]), ("0003", &[])]));
}

#[test]
fn insert_replaces_in_place_and_returns_old_texts() {
    let mut table = DqxTranslationsModel::new();
    table.insert(s("a"), variants(&[("jp", "1")]));
    table.insert(s("b"), variants(&[("jp", "2")]));
    let old = table.insert(s("a"), variants(&[("en", "3")])).unwrap();
    assert_eq!(old.pairs(), vec![(s("jp"), s("1"))]);
    assert_eq!(table.rows(), rows(&[("a", &[("en", "3")]), ("b", &[("jp", "2")])]));
}

#[test]
fn get_and_get_index_find_entries() {
    let mut table = DqxTranslationsModel::new();
    table.insert(s("a"), variants(&[("jp", "1")]));
    table.insert(s("b"), variants(&[("jp", "2"), ("en", "two")]));
    let (id, v) = table.get_index(1).unwrap();
    assert_eq!(id, "b");
    assert_eq!(v.pairs(), vec![(s("jp"), s("2")), (s("en"), s("two"))]);
    assert!(table.get_index(2).is_none());
    assert_eq!(table.get(&s("a")).unwrap().pairs(), vec![(s("jp"), s("1"))]);
    assert!(table.get(&s("c")).is_none());
}

#[test]
fn set_text_edits_a_text_that_is_there() {
    let mut table = DqxTranslationsModel::new();
    table.insert(s("a"), variants(&[("jp", "1"), ("en", "one")]));
    table.insert(s("b"), variants(&[("jp", "2")]));
    assert!(table.set_text(&s("a"), &s("en"), s("uno")));
    assert_eq!(table.rows(), rows(&[("a", &[("jp", "1"), ("en", "uno")]), ("b", &[("jp", "2")])]));
}

#[test]
fn set_text_adds_neither_entry_nor_language() {
    let mut table = DqxTranslationsModel::new();
    table.insert(s("a"), variants(&[("jp", "1")]));
    assert!(!table.set_text(&s("a"), &s("en"), s("one")));
    assert!(!table.set_text(&s("b"), &s("jp"), s("2")));
    assert_eq!(table.rows(), rows(&[("a", &[("jp", "1")])]));
}

#[test]
fn from_json_node_reads_a_table() {
    let node = JsonNode::Object(vec![
        (s("0001"), JsonNode::Object(vec![(s("jp"), JsonNode::Text(s("こんにちは"))), (s("en"), JsonNode::Text(s("")))])),
        (s("0002"), JsonNode::Object(vec![(s("jp"), JsonNode::Text(s("さようなら")))])),
    ]);
    let table = DqxTranslationsModel::from_json_node(&node).unwrap();
    assert_eq!(table.rows(), rows(&[("0001", &[("jp", "こんにちは"), ("en", "")]), ("0002", &[("jp", "さようなら")])]));
}

#[test]
fn to_json_node_spells_the_table() {
    let mut table = DqxTranslationsModel::new();
    table.insert(s("b"), variants(&[("jp", "x"), ("en", "y")]));
    table.insert(s("a"), variants(&[]));
    let node = table.to_json_node();
    assert_eq!(
        node,
        JsonNode::Object(vec![
            (s("b"), JsonNode::Object(vec![(s("jp"), JsonNode::Text(s("x"))), (s("en"), JsonNode::Text(s("y")))])),
            (s("a"), JsonNode::Object(vec![])),
        ])
    );
    assert_eq!(DqxTranslationsModel::from_json_node(&node).unwrap().rows(), table.rows());
    assert_eq!(DqxTranslationsModel::new().to_json_node(), JsonNode::Object(vec![]));
}

#[test]
fn from_json_node_refuses_other_shapes() {
    let wrong = vec![
        JsonNode::Null,
        JsonNode::Bool(true),
        JsonNode::Number(serde_json::Number::from(1)),
        JsonNode::Text(s("x")),
        JsonNode::Array(vec![]),
        JsonNode::Object(vec![(s("a"), JsonNode::Text(s("x")))]),
        JsonNode::Object(vec![(s("a"), JsonNode::Array(vec![]))]),
        JsonNode::Object(vec![(s("a"), JsonNode::Object(vec![(s("jp"), JsonNode::Null)]))]),
        JsonNode::Object(vec![
            (s("a"), JsonNode::Object(vec![])),
            (s("b"), JsonNode::Object(vec![(s("jp"), JsonNode::Object(vec![]))])),
        ]),
    ];
    for node in &wrong {
        assert_eq!(DqxTranslationsModel::from_json_node(node).err(), Some(LoadError::Parse));
    }
}

#[test]
fn from_json_node_with_a_repeated_identifier_keeps_first_place_and_last_texts() {
    let node = JsonNode::Object(vec![
        (s("a"), JsonNode::Object(vec![(s("jp"), JsonNode::Text(s("1")))])),
        (s("b"), JsonNode::Object(vec![])),
        (s("a"), JsonNode::Object(vec![(s("en"), JsonNode::Text(s("2")))])),
    ]);
    let table = DqxTranslationsModel::from_json_node(&node).unwrap();
    assert_eq!(table.rows(), rows(&[("a", &[("en", "2")]), ("b", &[])]));
}

#[test]
fn from_json_loads_the_example_file() {
    let text = "{ \"0001\": { \"jp\": \"こんにちは\", \"en\": \"\" }, \"0002\": { \"jp\": \"さようなら\" } }";
    let table = DqxTranslationsModel::from_json(text).unwrap();
    assert_eq!(table.rows(), rows(&[("0001", &[("jp", "こんにちは"), ("en", "")]), ("0002", &[("jp", "さようなら")])]));
}

#[test]
fn from_json_keeps_key_order_not_sorted_order() {
    let table = DqxTranslationsModel::from_json("{\"z\": {}, \"a\": {\"en\": \"1\", \"de\": \"2\"}, \"m\": {}}").unwrap();
    assert_eq!(table.rows(), rows(&[("z", &[]), ("a", &[("en", "1"), ("de", "2")]), ("m", &[])]));
}

#[test]
fn from_json_refuses_invalid_json() {
    assert_eq!(DqxTranslationsModel::from_json("{not json").err(), Some(LoadError::Parse));
    assert_eq!(DqxTranslationsModel::from_json("").err(), Some(LoadError::Parse));
}

#[test]
fn from_json_refuses_json_of_the_wrong_shape() {
    assert_eq!(DqxTranslationsModel::from_json("[]").err(), Some(LoadError::Parse));
    assert_eq!(DqxTranslationsModel::from_json("[{\"a\": {}}]").err(), Some(LoadError::Parse));
    assert_eq!(DqxTranslationsModel::from_json("{\"A\": \"x\"}").err(), Some(LoadError::Parse));
    assert_eq!(DqxTranslationsModel::from_json("{\"A\": {\"jp\": 1}}").err(), Some(LoadError::Parse));
    assert_eq!(DqxTranslationsModel::from_json("{\"A\": {\"jp\": {\"x\": \"y\"}}}").err(), Some(LoadError::Parse));
    assert_eq!(DqxTranslationsModel::from_json("null").err(), Some(LoadError::Parse));
}

#[test]
fn from_json_loads_an_entry_with_a_missing_language() {
    let table = DqxTranslationsModel::from_json("{\"B\": {\"jp\": \"x\"}}").unwrap();
    assert_eq!(table.len(), 1);
    let entry = table.get(&s("B")).unwrap();
    assert_eq!(entry.len(), 1);
    assert_eq!(entry.get(&s("jp")), Some(&s("x")));
    assert_eq!(entry.get(&s("en")), None);
    assert_eq!(table.rows(), rows(&[("B", &[("jp", "x")])]));
}

#[test]
fn from_json_loads_the_empty_table() {
    let table = DqxTranslationsModel::from_json("{}").unwrap();
    assert_eq!(table.len(), 0);
}

#[test]
fn from_read_gives_the_error_of_each_stage() {
    assert_eq!(DqxTranslationsModel::from_read(&FileRead::OpenFailed).err(), Some(LoadError::Open));
    assert_eq!(DqxTranslationsModel::from_read(&FileRead::ReadFailed).err(), Some(LoadError::Read));
    assert_eq!(DqxTranslationsModel::from_read(&FileRead::Text(s("{not json"))).err(), Some(LoadError::Parse));
    assert_eq!(DqxTranslationsModel::from_read(&FileRead::Text(s("[1]"))).err(), Some(LoadError::Parse));
    let table = DqxTranslationsModel::from_read(&FileRead::Text(s("{\"A\": {\"jp\": \"x\"}}"))).unwrap();
    assert_eq!(table.rows(), rows(&[("A", &[("jp", "x")])]));
}

#[test]
fn to_json_text_writes_entries_in_order() {
    let mut table = DqxTranslationsModel::new();
    table.insert(s("b"), variants(&[("jp", "x"), ("en", "y")]));
    table.insert(s("a"), variants(&[]));
    assert_eq!(table.to_json_text(), Ok(s("{\"b\":{\"jp\":\"x\",\"en\":\"y\"},\"a\":{}}")));
    assert_eq!(DqxTranslationsModel::new().to_json_text(), Ok(s("{}")));
}

#[test]
fn to_json_text_escapes_what_json_must_escape() {
    let mut table = DqxTranslationsModel::new();
    table.insert(s("q\"id"), variants(&[("jp", "line\nbreak \\ \"quoted\" こんにちは")]));
    let text = table.to_json_text().unwrap();
    assert_eq!(text, "{\"q\\\"id\":{\"jp\":\"line\\nbreak \\\\ \\\"quoted\\\" こんにちは\"}}");
    let back = DqxTranslationsModel::from_json(&text).unwrap();
    assert_eq!(back.rows(), table.rows());
}

#[test]
fn load_edit_save_scenario() {
    let mut table = DqxTranslationsModel::from_json("{\"A\": {\"jp\": \"x\", \"en\": \"y\"}}").unwrap();
    assert_eq!(table.len(), 1);
    assert_eq!(table.get(&s("A")).unwrap().len(), 2);
    assert!(table.set_text(&s("A"), &s("en"), s("z")));
    let saved = table.to_json_text().unwrap();
    assert_eq!(saved, "{\"A\":{\"jp\":\"x\",\"en\":\"z\"}}");
    let expected = DqxTranslationsModel::from_json("{\"A\": {\"jp\": \"x\", \"en\": \"z\"}}").unwrap();
    assert_eq!(DqxTranslationsModel::from_json(&saved).unwrap().rows(), expected.rows());
}

#[test]
fn load_save_load_round_trip() {
    let texts = [
        "{}",
        "{\"A\": {}}",
        "{ \"0001\": { \"jp\": \"こんにちは\", \"en\": \"\" }, \"0002\": { \"jp\": \"さようなら\" } }",
        "{\"z\": {\"b\": \"1\", \"a\": \"2\"}, \"y\": {\"a\": \"tab\\there\", \"c\": \"\\u00e9\"}, \"x\": {}}",
    ];
    for text in texts {
        let first = DqxTranslationsModel::from_json(text).unwrap();
        let saved = first.to_json_text().unwrap();
        let second = DqxTranslationsModel::from_json(&saved).unwrap();
        assert_eq!(second.rows(), first.rows());
        assert_eq!(second.to_json_text().unwrap(), saved);
    }
}

#[test]
fn file_write_result_gives_the_error_of_each_stage() {
    assert_eq!(FileWrite::OpenFailed.result(), Err(SaveError::Open));
    assert_eq!(FileWrite::WriteFailed.result(), Err(SaveError::Write));
    assert_eq!(FileWrite::Written.result(), Ok(()));
}

#[test]
fn error_messages() {
    assert_eq!(LoadError::Open.message(), "Error opening file");
    assert_eq!(LoadError::Read.message(), "Error reading JSON from file");
    assert_eq!(LoadError::Parse.message(), "Error reading translation data from JSON");
    assert_eq!(SaveError::Encode.message(), "Error writing translation data as JSON");
    assert_eq!(SaveError::Open.message(), "Error opening file for writing");
    assert_eq!(SaveError::Write.message(), "Error writing JSON to file");
}
