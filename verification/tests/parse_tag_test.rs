use pigin::model::{GameResult, Tags};
use pigin::parse::result;
use pigin::parse::tag::{parse, parse_tag, parse_value};

fn chars(text: &str) -> Vec<char> {
    text.chars().collect()
}

fn rest(input: &[char], at: usize) -> String {
    input[at..].iter().collect()
}

fn pair(name: &str, value: &str) -> (String, String) {
    (name.to_string(), value.to_string())
}

#[test]
fn parses_tags() {
    let input = chars("[Tag1 \"Value 1\"]\n[Tag2 \"Value 2\"]\n\r\n1. e4");
    let (tags, next) = parse(&input, 0).unwrap();
    let expected = vec![pair("Tag1", "Value 1"), pair("Tag2", "Value 2")];

    assert_eq!((rest(&input, next).as_str(), tags), ("1. e4", Tags::new(expected)))
}

#[test]
fn parses_tag() {
    let input = chars("[Tag \"Value\"]\n1.e4");
    let (found, next) = parse_tag(&input, 0).unwrap();
    assert_eq!((rest(&input, next).as_str(), found), ("1.e4", pair("Tag", "Value")))
}

#[test]
fn parses_value() {
    let input = chars(r#""Value""#);
    let (value, next) = parse_value(&input, 0).unwrap();
    assert_eq!((rest(&input, next).as_str(), value.as_str()), ("", "Value"))
}

#[test]
fn parse_tag_test() {
    let input = chars("[Tag \"Value\"]\n1.e4");
    let (found, next) = parse_tag(&input, 0).unwrap();
    assert_eq!((rest(&input, next).as_str(), found), ("1.e4", pair("Tag", "Value")))
}

#[test]
fn parse_value_test() {
    let input = chars(r#""Value""#);
    let (value, next) = parse_value(&input, 0).unwrap();
    assert_eq!((rest(&input, next).as_str(), value.as_str()), ("", "Value"))
}

#[test]
fn returns_err_if_not_game_result() {
    let result = result::parse_result(&chars("something"));
    assert!(result.is_none())
}

#[test]
fn returns_err_if_any_input_remains() {
    let result = result::parse_result(&chars("1-0 something"));
    assert!(result.is_none())
}

#[test]
fn parses_result() {
    let result = result::parse_result(&chars("0-1")).unwrap();
    assert_eq!(result, GameResult::BlackWin)
}

#[test]
fn reads_each_result_token() {
    assert_eq!(result::parse(&chars("1-0"), 0), Some((GameResult::WhiteWin, 3)));
    assert_eq!(result::parse(&chars("0-1"), 0), Some((GameResult::BlackWin, 3)));
    assert_eq!(result::parse(&chars("1/2-1/2"), 0), Some((GameResult::Draw, 7)));
    assert_eq!(result::parse(&chars("*"), 0), Some((GameResult::Ongoing, 1)));
    assert_eq!(result::parse(&chars("1/2-1/"), 0), None);
    assert_eq!(result::parse(&chars("x1-0"), 1), Some((GameResult::WhiteWin, 4)));
    assert_eq!(GameResult::WhiteWin.text(), "1-0");
    assert_eq!(GameResult::BlackWin.text(), "0-1");
    assert_eq!(GameResult::Draw.text(), "1/2-1/2");
    assert_eq!(GameResult::Ongoing.text(), "*");
}

#[test]
fn tag_section_needs_its_empty_line() {
    assert!(parse(&chars("[Tag1 \"Value 1\"]\n"), 0).is_none());
    assert!(parse(&chars("[Tag1 \"Value 1\"]\n1. e4"), 0).is_none());
    assert!(parse(&chars("[Tag1 \"Value 1\"\n\n"), 0).is_none());
    assert!(parse(&chars("[Tag1\"Value1\"]\n\n"), 0).is_none());
    let input = chars("\n1. e4");
    let (tags, next) = parse(&input, 0).unwrap();
    assert_eq!(next, 1);
    assert_eq!(tags, Tags::new(vec![]));
}

#[test]
fn tags_count_the_last_value_of_a_name() {
    let mut tags = Tags::new(vec![
        pair("A", "1"),
        pair("B", "2"),
        pair("A", "3"),
        pair("C", "4"),
    ]);
    assert_eq!(tags.get("A"), Some(&"3".to_string()));
    assert_eq!(tags.get("B"), Some(&"2".to_string()));
    assert_eq!(tags.get("D"), None);
    assert_eq!(tags.get_or_default("D", "none"), "none".to_string());
    assert_eq!(tags.get_or_default("C", "none"), "4".to_string());
    assert_eq!(tags.remove("A"), Some("3".to_string()));
    assert_eq!(tags.inner(), &vec![pair("B", "2"), pair("C", "4")]);
    assert_eq!(tags.remove("A"), None);
    assert_eq!(tags.inner(), &vec![pair("B", "2"), pair("C", "4")]);
}
