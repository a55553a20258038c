use dqx_text::json::JsonNode;
use dqx_text::variants::LanguageVariants;

fn s(text: &str) -> String {
    text.to_string()
}

fn number(n: i64) -> JsonNode {
    JsonNode::Number(serde_json::Number::from(n))
}

#[test]
fn parse_reads_every_kind_of_value() {
    assert_eq!(JsonNode::parse("null"), Some(JsonNode::Null));
    assert_eq!(JsonNode::parse("true"), Some(JsonNode::Bool(true)));
    assert_eq!(JsonNode::parse("12"), Some(number(12)));
    assert_eq!(JsonNode::parse("-3"), Some(number(-3)));
    assert_eq!(
        JsonNode::parse("1.5"),
        Some(JsonNode::Number(serde_json::Number::from_f64(1.5).unwrap()))
    );
    assert_eq!(JsonNode::parse("\"a\\nb\""), Some(JsonNode::Text(s("a\nb"))));
    assert_eq!(
        JsonNode::parse("[1, \"x\"]"),
        Some(JsonNode::Array(vec![number(1), JsonNode::Text(s("x"))]))
    );
}

#[test]
fn parse_keeps_the_order_of_members() {
    let node = JsonNode::parse("{\"zz\": 1, \"aa\": {\"k\": null}, \"mm\": []}");
    assert_eq!(
        node,
        Some(JsonNode::Object(vec![
            (s("zz"), number(1)),
            (s("aa"), JsonNode::Object(vec![(s("k"), JsonNode::Null)])),
            (s("mm"), JsonNode::Array(vec![])),
        ]))
    );
}

#[test]
fn parse_refuses_what_is_no_json() {
    assert_eq!(JsonNode::parse("{not json"), None);
    assert_eq!(JsonNode::parse(""), None);
    assert_eq!(JsonNode::parse("{\"a\": 1} trailing"), None);
    assert_eq!(JsonNode::parse("{\"a\": }"), None);
}

#[test]
fn parse_takes_the_last_value_of_a_repeated_name() {
    assert_eq!(
        JsonNode::parse("{\"a\": 1, \"b\": 2, \"a\": 3}"),
        Some(JsonNode::Object(vec![
            (s("a"), number(3)),
            (s("b"), number(2)),
        ]))
    );
}

#[test]
fn variants_from_an_object_of_strings() {
    let node = JsonNode::Object(vec![
        (s("jp"), JsonNode::Text(s("x"))),
        (s("en"), JsonNode::Text(s("y"))),
    ]);
    let variants = LanguageVariants::from_json_node(&node).unwrap();
    assert_eq!(variants.pairs(), vec![(s("jp"), s("x")), (s("en"), s("y"))]);
}

#[test]
fn variants_from_an_empty_object() {
    let variants = LanguageVariants::from_json_node(&JsonNode::Object(vec![])).unwrap();
    assert_eq!(variants.len(), 0);
}

#[test]
fn variants_refuse_other_shapes() {
    assert!(LanguageVariants::from_json_node(&JsonNode::Text(s("x"))).is_none());
    assert!(LanguageVariants::from_json_node(&JsonNode::Null).is_none());
    assert!(LanguageVariants::from_json_node(&JsonNode::Array(vec![])).is_none());
    let mixed = JsonNode::Object(vec![
        (s("jp"), JsonNode::Text(s("x"))),
        (s("en"), number(1)),
    ]);
    assert!(LanguageVariants::from_json_node(&mixed).is_none());
}

#[test]
fn variants_from_a_repeated_tag_keep_first_place_and_last_text() {
    let node = JsonNode::Object(vec![
        (s("jp"), JsonNode::Text(s("first"))),
        (s("en"), JsonNode::Text(s("y"))),
        (s("jp"), JsonNode::Text(s("last"))),
    ]);
    let variants = LanguageVariants::from_json_node(&node).unwrap();
    assert_eq!(variants.pairs(), vec![(s("jp"), s("last")), (s("en"), s("y"))]);
}
