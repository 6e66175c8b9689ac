use gecko::error::{append_errors, ErrorKind, ParseError, ParseErrorKind, ParseFault, TypeError};
use gecko::expression::Identifier;
use gecko::grammar::{ParseNode, Rule};
use gecko::literal::{character_value, digit, parse_decimal};
use gecko::span::{LineColumn, Span};
use gecko::symbol::framed;
use gecko::token::Token;
use gecko::tree_type::{text_is, FundamentalType};

fn origin() -> Span {
    Span::new(LineColumn::new(1, 1), LineColumn::new(1, 1))
}

#[test]
fn digits_have_their_values() {
    for (value, c) in "0123456789".chars().enumerate() {
        assert_eq!(digit(c), Some(value as u8));
    }
    for c in ['a', ' ', '/', ':', '-', '+', '٣'] {
        assert_eq!(digit(c), None);
    }
}

#[test]
fn decimal_texts_are_read_digit_by_digit() {
    assert_eq!(parse_decimal("0"), Some(0));
    assert_eq!(parse_decimal("9"), Some(9));
    assert_eq!(parse_decimal("10"), Some(10));
    assert_eq!(parse_decimal("4096"), Some(4096));
    assert_eq!(parse_decimal("000"), Some(0));
    assert_eq!(parse_decimal("170141183460469231731687303715884105727"), Some(i128::MAX));
    assert_eq!(parse_decimal("170141183460469231731687303715884105728"), None);
    assert_eq!(parse_decimal("1701411834604692317316873037158841057270"), None);
    assert_eq!(parse_decimal(""), None);
    assert_eq!(parse_decimal("1_000"), None);
    assert_eq!(parse_decimal("0x10"), None);
    assert_eq!(parse_decimal("-1"), None);
}

#[test]
fn the_value_of_a_character_is_its_low_byte() {
    assert_eq!(character_value('\0'), 0);
    assert_eq!(character_value('A'), 65);
    assert_eq!(character_value('\u{ff}'), 255);
    assert_eq!(character_value('\u{100}'), 0);
    assert_eq!(character_value('\u{1f600}'), 0);
    assert_eq!(character_value('\u{10ffff}'), 255);
}

#[test]
fn texts_are_compared_character_by_character() {
    assert!(text_is(&String::from("as"), "as"));
    assert!(!text_is(&String::from("as"), "a"));
    assert!(!text_is(&String::from("a"), "as"));
    assert!(!text_is(&String::from("As"), "as"));
    assert!(text_is(&String::new(), ""));
}

#[test]
fn a_framed_text_puts_the_name_between_two_words() {
    assert_eq!(framed("the variable '", &String::from("x"), "' does not exist"), "the variable 'x' does not exist");
    assert_eq!(framed("", &String::from("x"), ""), "x");
    assert_eq!(framed("<", &String::new(), ">"), "<>");
}

#[test]
fn diagnostics_are_appended_in_order() {
    let make = |subject: &str| TypeError::new(ErrorKind::Type, String::from(subject), String::from("m"), origin());
    let mut errors = vec![make("a")];
    append_errors(&mut errors, vec![make("b"), make("c")]);
    append_errors(&mut errors, vec![]);
    let subjects: Vec<&str> = errors.iter().map(|e| e.subject.as_str()).collect();
    assert_eq!(subjects, vec!["a", "b", "c"]);
    assert_eq!(errors[1].clone(), make("b"));
}

#[test]
fn a_diagnostic_is_described_by_its_kind_and_its_message() {
    let make = |kind: ErrorKind| TypeError::new(kind, String::new(), String::from("message"), origin());
    assert_eq!(make(ErrorKind::Type).describe(), "TypeError: message");
    assert_eq!(make(ErrorKind::Name).describe(), "NameError: message");
    assert_eq!(make(ErrorKind::Uninitialized).describe(), "UninitializedError: message");
}

#[test]
fn parse_failures_are_of_two_kinds() {
    let structural = [ParseFault::MissingDelimiter, ParseFault::MisplacedComma];
    let malformed = [
        ParseFault::UnexpectedRule,
        ParseFault::UnexpectedChildren,
        ParseFault::NotAnOperator,
        ParseFault::MissingOperand,
        ParseFault::IntegerOutOfRange,
        ParseFault::NotOneCharacter,
        ParseFault::NotSingle,
    ];
    for fault in structural {
        assert_eq!(ParseError::new(fault, Rule::Block, Rule::Block, origin()).kind(), ParseErrorKind::StructuralAssertion);
    }
    for fault in malformed {
        assert_eq!(ParseError::new(fault, Rule::Block, Rule::Block, origin()).kind(), ParseErrorKind::Parse);
    }
}

#[test]
fn copies_hold_the_same_text() {
    let token = Token::new(String::from("let"), origin());
    assert_eq!(token.clone(), token);
    let identifier = Identifier { name: String::from("x"), span: origin() };
    assert_eq!(identifier.clone(), identifier);
    assert_eq!(FundamentalType::DefinedType(String::from("T")).clone(), FundamentalType::DefinedType(String::from("T")));
    assert_eq!(FundamentalType::DefinedType(String::from("T")).name(), "T");
    assert_ne!(FundamentalType::DefinedType(String::from("int")), FundamentalType::Integer);
}

#[test]
fn parse_nodes_hold_what_they_are_given() {
    let leaf = ParseNode::leaf(Rule::Comma, String::from(","), origin());
    assert_eq!(leaf.rule, Rule::Comma);
    assert_eq!(leaf.text, ",");
    assert!(leaf.children.is_empty());
    let node = ParseNode::new(Rule::Block, String::from("{,}"), origin(), vec![leaf]);
    assert_eq!(node.children.len(), 1);
    assert_eq!(node.children[0].text, ",");
}
