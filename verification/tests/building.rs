use gecko::ast::{parse_gecko, token_from_node, GeckoParser};
use gecko::error::{ParseError, ParseErrorKind, ParseFault};
use gecko::expression::{BinaryOperator, Identifier};
use gecko::grammar::{ParseNode, Rule};
use gecko::node::{NodeType, Term};
use gecko::precedence::{operator_precedence, Assoc};
use gecko::span::{LineColumn, Span};

fn span(line: usize, from: usize, to: usize) -> Span {
    Span::new(LineColumn::new(line, from), LineColumn::new(line, to))
}

fn leaf(rule: Rule, text: &str, at: Span) -> ParseNode {
    ParseNode::leaf(rule, String::from(text), at)
}

fn node(rule: Rule, text: &str, at: Span, children: Vec<ParseNode>) -> ParseNode {
    ParseNode::new(rule, String::from(text), at, children)
}

/// A term that holds a decimal integer literal, one column wide per digit.
fn integer_term(text: &str, column: usize) -> ParseNode {
    let at = span(1, column, column + text.len());
    let decimal = leaf(Rule::IntegerDecimal, text, at);
    let integer = node(Rule::Integer, text, at, vec![decimal]);
    node(Rule::Term, text, at, vec![integer])
}

fn identifier_term(name: &str, column: usize) -> ParseNode {
    let at = span(1, column, column + name.len());
    node(Rule::Term, name, at, vec![leaf(Rule::Identifier, name, at)])
}

fn operator(rule: Rule, text: &str, column: usize) -> ParseNode {
    leaf(rule, text, span(1, column, column + text.len()))
}

fn expression(children: Vec<ParseNode>) -> ParseNode {
    let start = children.first().map(|c| c.span.start).unwrap_or(LineColumn::new(1, 1));
    let end = children.last().map(|c| c.span.end).unwrap_or(LineColumn::new(1, 1));
    node(Rule::Expression, "", Span::new(start, end), children)
}

fn binary(term: &Term) -> &BinaryOperator {
    match &*term.node {
        NodeType::BinaryOperator(b) => b,
        other => panic!("not a binary operator: {:?}", other),
    }
}

fn inner_binary(node: &NodeType) -> &BinaryOperator {
    match node {
        NodeType::BinaryOperator(b) => b,
        other => panic!("not a binary operator: {:?}", other),
    }
}

fn integer_value(node: &NodeType) -> i128 {
    match node {
        NodeType::Integer(i) => i.value,
        other => panic!("not an integer: {:?}", other),
    }
}

/// `1 + 2 * 3` with one blank around each operator.
fn one_plus_two_times_three() -> ParseNode {
    expression(vec![
        integer_term("1", 1),
        operator(Rule::Plus, "+", 3),
        integer_term("2", 5),
        operator(Rule::Multiply, "*", 7),
        integer_term("3", 9),
    ])
}

#[test]
fn multiplication_binds_tighter_than_addition() {
    let tree = GeckoParser::expression(&one_plus_two_times_three()).unwrap();
    let plus = binary(&tree);
    assert_eq!(plus.op.value, "+");
    assert_eq!(integer_value(&plus.left), 1);
    let times = inner_binary(&plus.right);
    assert_eq!(times.op.value, "*");
    assert_eq!(integer_value(&times.left), 2);
    assert_eq!(integer_value(&times.right), 3);
}

#[test]
fn multiplication_on_the_left_is_folded_first() {
    let input = expression(vec![
        integer_term("1", 1),
        operator(Rule::Multiply, "*", 3),
        integer_term("2", 5),
        operator(Rule::Plus, "+", 7),
        integer_term("3", 9),
    ]);
    let tree = GeckoParser::expression(&input).unwrap();
    let plus = binary(&tree);
    assert_eq!(plus.op.value, "+");
    let times = inner_binary(&plus.left);
    assert_eq!(times.op.value, "*");
    assert_eq!(integer_value(&times.left), 1);
    assert_eq!(integer_value(&times.right), 2);
    assert_eq!(integer_value(&plus.right), 3);
}

#[test]
fn subtraction_groups_to_the_left() {
    let input = expression(vec![
        integer_term("1", 1),
        operator(Rule::Minus, "-", 3),
        integer_term("2", 5),
        operator(Rule::Minus, "-", 7),
        integer_term("3", 9),
    ]);
    let tree = GeckoParser::expression(&input).unwrap();
    let outer = binary(&tree);
    assert_eq!(outer.op.value, "-");
    assert_eq!(outer.op.span, span(1, 7, 8));
    assert_eq!(integer_value(&outer.right), 3);
    let inner = inner_binary(&outer.left);
    assert_eq!(inner.op.span, span(1, 3, 4));
    assert_eq!(integer_value(&inner.left), 1);
    assert_eq!(integer_value(&inner.right), 2);
}

#[test]
fn exponent_groups_to_the_right() {
    let input = expression(vec![
        integer_term("2", 1),
        operator(Rule::Exponent, "^", 3),
        integer_term("3", 5),
        operator(Rule::Exponent, "^", 7),
        integer_term("4", 9),
    ]);
    let tree = GeckoParser::expression(&input).unwrap();
    let outer = binary(&tree);
    assert_eq!(outer.op.span, span(1, 3, 4));
    assert_eq!(integer_value(&outer.left), 2);
    let inner = inner_binary(&outer.right);
    assert_eq!(inner.op.span, span(1, 7, 8));
    assert_eq!(integer_value(&inner.left), 3);
    assert_eq!(integer_value(&inner.right), 4);
}

#[test]
fn assignment_groups_to_the_right_and_binds_weakest() {
    // a = b = 1 + 2
    let input = expression(vec![
        identifier_term("a", 1),
        operator(Rule::Assignment, "=", 3),
        identifier_term("b", 5),
        operator(Rule::Assignment, "=", 7),
        integer_term("1", 9),
        operator(Rule::Plus, "+", 11),
        integer_term("2", 13),
    ]);
    let tree = GeckoParser::expression(&input).unwrap();
    let outer = binary(&tree);
    assert_eq!(outer.op.span, span(1, 3, 4));
    let inner = inner_binary(&outer.right);
    assert_eq!(inner.op.span, span(1, 7, 8));
    let sum = inner_binary(&inner.right);
    assert_eq!(sum.op.value, "+");
    assert_eq!(integer_value(&sum.left), 1);
    assert_eq!(integer_value(&sum.right), 2);
}

#[test]
fn a_longer_chain_splits_at_its_weakest_operators() {
    // 1 + 2 * 3 - 4 / 5  is  (1 + (2 * 3)) - (4 / 5)
    let input = expression(vec![
        integer_term("1", 1),
        operator(Rule::Plus, "+", 3),
        integer_term("2", 5),
        operator(Rule::Multiply, "*", 7),
        integer_term("3", 9),
        operator(Rule::Minus, "-", 11),
        integer_term("4", 13),
        operator(Rule::Divide, "/", 15),
        integer_term("5", 17),
    ]);
    let tree = GeckoParser::expression(&input).unwrap();
    let minus = binary(&tree);
    assert_eq!(minus.op.value, "-");
    let plus = inner_binary(&minus.left);
    assert_eq!(plus.op.value, "+");
    assert_eq!(integer_value(&plus.left), 1);
    let times = inner_binary(&plus.right);
    assert_eq!(times.op.value, "*");
    assert_eq!(integer_value(&times.left), 2);
    assert_eq!(integer_value(&times.right), 3);
    let divide = inner_binary(&minus.right);
    assert_eq!(divide.op.value, "/");
    assert_eq!(integer_value(&divide.left), 4);
    assert_eq!(integer_value(&divide.right), 5);
}

#[test]
fn a_strong_operator_between_weaker_ones_takes_both_neighbours() {
    // 1 || 2 && 3 ^ 4 && 5  is  1 || ((2 && (3 ^ 4)) && 5)
    let input = expression(vec![
        integer_term("1", 1),
        operator(Rule::LogicalOr, "||", 3),
        integer_term("2", 6),
        operator(Rule::LogicalAnd, "&&", 8),
        integer_term("3", 11),
        operator(Rule::Exponent, "^", 13),
        integer_term("4", 15),
        operator(Rule::LogicalAnd, "&&", 17),
        integer_term("5", 20),
    ]);
    let tree = GeckoParser::expression(&input).unwrap();
    let or = binary(&tree);
    assert_eq!(or.op.value, "||");
    assert_eq!(integer_value(&or.left), 1);
    let second_and = inner_binary(&or.right);
    assert_eq!(second_and.op.span, span(1, 17, 19));
    assert_eq!(integer_value(&second_and.right), 5);
    let first_and = inner_binary(&second_and.left);
    assert_eq!(first_and.op.span, span(1, 8, 10));
    assert_eq!(integer_value(&first_and.left), 2);
    let power = inner_binary(&first_and.right);
    assert_eq!(power.op.value, "^");
    assert_eq!(integer_value(&power.left), 3);
    assert_eq!(integer_value(&power.right), 4);
}

#[test]
fn the_cast_binds_strongest() {
    // x as int + 1  is  (x as int) + 1
    let input = expression(vec![
        identifier_term("x", 1),
        operator(Rule::Cast, "as", 3),
        identifier_term("int", 6),
        operator(Rule::Plus, "+", 10),
        integer_term("1", 12),
    ]);
    let tree = GeckoParser::expression(&input).unwrap();
    let plus = binary(&tree);
    assert_eq!(plus.op.value, "+");
    let cast = inner_binary(&plus.left);
    assert_eq!(cast.op.value, "as");
    assert_eq!(
        *cast.right,
        NodeType::Identifier(Identifier { name: String::from("int"), span: span(1, 6, 9) })
    );
}

#[test]
fn a_fold_reaches_from_its_left_operand_to_its_right_operand() {
    let tree = GeckoParser::expression(&one_plus_two_times_three()).unwrap();
    assert_eq!(tree.span, span(1, 1, 10));
    let plus = binary(&tree);
    assert_eq!(plus.span, span(1, 1, 10));
    let times = inner_binary(&plus.right);
    assert_eq!(times.span, span(1, 5, 10));
    assert_eq!(times.op.span, span(1, 7, 8));
}

#[test]
fn a_single_operand_is_its_own_tree() {
    let tree = GeckoParser::expression(&expression(vec![integer_term("7", 1)])).unwrap();
    assert_eq!(integer_value(&tree.node), 7);
    assert_eq!(tree.span, span(1, 1, 2));
}

#[test]
fn a_term_may_hold_an_expression_of_its_own() {
    // (1 + 2) * 3
    let inner = expression(vec![
        integer_term("1", 2),
        operator(Rule::Plus, "+", 4),
        integer_term("2", 6),
    ]);
    let wrapped = node(Rule::Term, "(1 + 2)", span(1, 1, 8), vec![inner]);
    let input = expression(vec![wrapped, operator(Rule::Multiply, "*", 9), integer_term("3", 11)]);
    let tree = GeckoParser::expression(&input).unwrap();
    let times = binary(&tree);
    assert_eq!(times.op.value, "*");
    let plus = inner_binary(&times.left);
    assert_eq!(plus.op.value, "+");
    assert_eq!(plus.span, span(1, 2, 7));
    assert_eq!(integer_value(&times.right), 3);
}

#[test]
fn building_twice_gives_the_same_tree() {
    let first = GeckoParser::expression(&one_plus_two_times_three());
    let second = GeckoParser::expression(&one_plus_two_times_three());
    assert!(first.is_ok());
    assert_eq!(first, second);
}

#[test]
fn the_table_orders_the_levels_from_assignment_to_cast() {
    let ascending = vec![
        vec![Rule::Assignment],
        vec![Rule::LogicalOr],
        vec![Rule::LogicalAnd],
        vec![Rule::Equal, Rule::NotEqual],
        vec![Rule::GreaterThanOrEqual, Rule::LessThanOrEqual, Rule::GreaterThan, Rule::LessThan],
        vec![Rule::BitwiseXor, Rule::BitwiseOr, Rule::BitwiseAnd],
        vec![Rule::ShiftRight, Rule::ShiftLeft],
        vec![Rule::Plus, Rule::Minus],
        vec![Rule::Multiply, Rule::Divide],
        vec![Rule::Exponent],
        vec![Rule::Cast],
    ];
    for (index, level) in ascending.iter().enumerate() {
        for rule in level {
            let (found, side) = operator_precedence(*rule).unwrap();
            assert_eq!(found as usize, index + 1);
            let right = *rule == Rule::Assignment || *rule == Rule::Exponent;
            assert_eq!(side, if right { Assoc::Right } else { Assoc::Left });
        }
    }
    assert_eq!(operator_precedence(Rule::Comma), None);
    assert_eq!(operator_precedence(Rule::Term), None);
}

#[test]
fn an_operator_outside_the_table_is_a_parse_error_that_names_the_rule() {
    let input = expression(vec![
        integer_term("1", 1),
        operator(Rule::Colon, ":", 3),
        integer_term("2", 5),
    ]);
    let error = GeckoParser::expression(&input).unwrap_err();
    assert_eq!(
        error,
        ParseError::new(ParseFault::NotAnOperator, Rule::Expression, Rule::Colon, span(1, 3, 4))
    );
    assert_eq!(error.kind(), ParseErrorKind::Parse);
    assert_eq!(error.message(), "the rule is not an operator");
}

#[test]
fn an_operator_without_a_right_operand_is_a_parse_error() {
    let input = expression(vec![integer_term("1", 1), operator(Rule::Plus, "+", 3)]);
    let error = GeckoParser::expression(&input).unwrap_err();
    assert_eq!(
        error,
        ParseError::new(ParseFault::MissingOperand, Rule::Expression, Rule::Plus, span(1, 3, 4))
    );
    assert_eq!(error.message(), "an operand is missing");
}

#[test]
fn an_expression_without_operands_is_a_parse_error() {
    let input = node(Rule::Expression, "", span(1, 1, 1), vec![]);
    let error = GeckoParser::expression(&input).unwrap_err();
    assert_eq!(error.fault, ParseFault::MissingOperand);
    assert_eq!(error.rule, Rule::Expression);
}

#[test]
fn the_first_fault_of_a_chain_in_source_order_is_reported() {
    // The operand at the end does not build, but the unknown operator stands before it.
    let bad_operand = leaf(Rule::Comma, ",", span(1, 5, 6));
    let input = expression(vec![integer_term("1", 1), operator(Rule::Colon, ":", 3), bad_operand]);
    let error = GeckoParser::expression(&input).unwrap_err();
    assert_eq!(error.fault, ParseFault::NotAnOperator);
    // With a known operator the operand is the first fault.
    let bad_operand = leaf(Rule::Comma, ",", span(1, 5, 6));
    let input = expression(vec![integer_term("1", 1), operator(Rule::Plus, "+", 3), bad_operand]);
    let error = GeckoParser::expression(&input).unwrap_err();
    assert_eq!(
        error,
        ParseError::new(ParseFault::UnexpectedRule, Rule::Term, Rule::Comma, span(1, 5, 6))
    );
}

#[test]
fn a_routine_refuses_a_node_of_another_rule() {
    let input = leaf(Rule::Identifier, "x", span(1, 1, 2));
    let error = GeckoParser::expression(&input).unwrap_err();
    assert_eq!(
        error,
        ParseError::new(ParseFault::UnexpectedRule, Rule::Expression, Rule::Identifier, span(1, 1, 2))
    );
    assert_eq!(error.message(), "unexpected rule");
    assert!(GeckoParser::identifier(&input).is_ok());
    assert_eq!(GeckoParser::boolean(&input).unwrap_err().within, Rule::Boolean);
    assert_eq!(GeckoParser::integer(&input).unwrap_err().within, Rule::Integer);
    assert_eq!(GeckoParser::float(&input).unwrap_err().within, Rule::Float);
    assert_eq!(GeckoParser::character(&input).unwrap_err().within, Rule::Character);
    assert_eq!(GeckoParser::string(&input).unwrap_err().within, Rule::String);
    assert_eq!(GeckoParser::term(&input).unwrap_err().within, Rule::Term);
    assert_eq!(GeckoParser::block(&input).unwrap_err().within, Rule::Block);
    assert_eq!(GeckoParser::file(&input).unwrap_err().within, Rule::File);
    assert_eq!(GeckoParser::output(&input).unwrap_err().within, Rule::Output);
    assert_eq!(GeckoParser::parameter(&input).unwrap_err().within, Rule::Parameter);
    assert_eq!(GeckoParser::parameter_list(&input).unwrap_err().within, Rule::ParameterList);
}

#[test]
fn a_token_keeps_the_text_and_the_span_of_its_node() {
    let token = token_from_node(&leaf(Rule::LetToken, "let", span(3, 1, 4)));
    assert_eq!(token.value, "let");
    assert_eq!(token.span, span(3, 1, 4));
}

#[test]
fn booleans_are_read_from_the_rule_of_their_child() {
    let yes = node(Rule::Boolean, "true", span(1, 1, 5), vec![leaf(Rule::BooleanTrue, "true", span(1, 1, 5))]);
    let no = node(Rule::Boolean, "false", span(1, 1, 6), vec![leaf(Rule::BooleanFalse, "false", span(1, 1, 6))]);
    assert!(GeckoParser::boolean(&yes).unwrap().value);
    assert!(!GeckoParser::boolean(&no).unwrap().value);
    let neither = node(Rule::Boolean, "maybe", span(1, 1, 6), vec![leaf(Rule::Identifier, "maybe", span(1, 1, 6))]);
    let error = GeckoParser::boolean(&neither).unwrap_err();
    assert_eq!(error.fault, ParseFault::UnexpectedChildren);
    assert_eq!(error.message(), "the node does not hold what its rule holds");
}

fn integer_node(text: &str, rule: Rule) -> ParseNode {
    let at = span(1, 1, 1 + text.len());
    node(Rule::Integer, text, at, vec![leaf(rule, text, at)])
}

#[test]
fn integer_literals_have_the_value_that_their_digits_write() {
    assert_eq!(GeckoParser::integer(&integer_node("0", Rule::IntegerZero)).unwrap().value, 0);
    assert_eq!(GeckoParser::integer(&integer_node("42", Rule::IntegerDecimal)).unwrap().value, 42);
    assert_eq!(GeckoParser::integer(&integer_node("007", Rule::IntegerDecimal)).unwrap().value, 7);
    assert_eq!(
        GeckoParser::integer(&integer_node("1234567890123456789", Rule::IntegerDecimal)).unwrap().value,
        1234567890123456789
    );
    let largest = "170141183460469231731687303715884105727";
    assert_eq!(GeckoParser::integer(&integer_node(largest, Rule::IntegerDecimal)).unwrap().value, i128::MAX);
}

#[test]
fn an_integer_literal_that_does_not_fit_is_a_parse_error() {
    let too_large = "170141183460469231731687303715884105728";
    let error = GeckoParser::integer(&integer_node(too_large, Rule::IntegerDecimal)).unwrap_err();
    assert_eq!(error.fault, ParseFault::IntegerOutOfRange);
    assert_eq!(error.rule, Rule::IntegerDecimal);
    assert_eq!(error.message(), "the integer literal is out of range");
    let far_too_large = "99999999999999999999999999999999999999999999999999";
    assert!(GeckoParser::integer(&integer_node(far_too_large, Rule::IntegerDecimal)).is_err());
    for text in ["", "12a", "-5", "+5", " 1", "१२"] {
        let error = GeckoParser::integer(&integer_node(text, Rule::IntegerDecimal)).unwrap_err();
        assert_eq!(error.fault, ParseFault::IntegerOutOfRange);
    }
}

fn character_node(content: &str) -> ParseNode {
    node(
        Rule::Character,
        "",
        span(1, 1, 4),
        vec![
            leaf(Rule::SingleQuote, "'", span(1, 1, 2)),
            leaf(Rule::CharacterValue, content, span(1, 2, 3)),
            leaf(Rule::SingleQuote, "'", span(1, 3, 4)),
        ],
    )
}

#[test]
fn a_character_literal_has_the_low_byte_of_its_code_point() {
    assert_eq!(GeckoParser::character(&character_node("a")).unwrap().value, 97);
    assert_eq!(GeckoParser::character(&character_node("\u{e9}")).unwrap().value, 0xe9);
    assert_eq!(GeckoParser::character(&character_node("\u{20ac}")).unwrap().value, 0xac);
    let built = GeckoParser::character(&character_node("z")).unwrap();
    assert_eq!(built.lquote.span, span(1, 1, 2));
    assert_eq!(built.rquote.span, span(1, 3, 4));
    assert_eq!(built.span, span(1, 1, 4));
}

#[test]
fn a_character_literal_must_hold_one_character() {
    for content in ["", "ab"] {
        let error = GeckoParser::character(&character_node(content)).unwrap_err();
        assert_eq!(error.fault, ParseFault::NotOneCharacter);
        assert_eq!(error.rule, Rule::CharacterValue);
        assert_eq!(error.message(), "the character literal does not hold one character");
    }
    let unquoted = node(Rule::Character, "a", span(1, 1, 2), vec![leaf(Rule::CharacterValue, "a", span(1, 1, 2))]);
    assert_eq!(GeckoParser::character(&unquoted).unwrap_err().fault, ParseFault::UnexpectedChildren);
}

#[test]
fn floats_and_strings_keep_their_text() {
    let float = GeckoParser::float(&leaf(Rule::Float, "2.50", span(1, 1, 5))).unwrap();
    assert_eq!(float.text, "2.50");
    assert_eq!(float.span, span(1, 1, 5));
    let string = GeckoParser::string(&leaf(Rule::String, "\"hi\"", span(1, 1, 5))).unwrap();
    assert_eq!(string.string, "\"hi\"");
}

#[test]
fn a_term_wraps_each_kind_of_operand_under_the_span_of_the_operand() {
    let float = node(Rule::Term, "1.5", span(2, 1, 4), vec![leaf(Rule::Float, "1.5", span(2, 1, 4))]);
    assert!(matches!(*GeckoParser::term(&float).unwrap().node, NodeType::Float(_)));
    let string = node(Rule::Term, "\"s\"", span(2, 1, 4), vec![leaf(Rule::String, "\"s\"", span(2, 1, 4))]);
    assert!(matches!(*GeckoParser::term(&string).unwrap().node, NodeType::Str(_)));
    let name = GeckoParser::term(&identifier_term("abc", 4)).unwrap();
    assert!(matches!(*name.node, NodeType::Identifier(_)));
    assert_eq!(name.span, span(1, 4, 7));
    let character = node(Rule::Term, "'c'", span(1, 1, 4), vec![character_node("c")]);
    assert!(matches!(*GeckoParser::term(&character).unwrap().node, NodeType::Character(_)));
    let boolean = node(
        Rule::Term,
        "true",
        span(1, 1, 5),
        vec![node(Rule::Boolean, "true", span(1, 1, 5), vec![leaf(Rule::BooleanTrue, "true", span(1, 1, 5))])],
    );
    assert!(matches!(*GeckoParser::term(&boolean).unwrap().node, NodeType::Boolean(_)));
    let empty = node(Rule::Term, "", span(1, 1, 1), vec![]);
    assert_eq!(GeckoParser::term(&empty).unwrap_err().fault, ParseFault::UnexpectedChildren);
    let odd = node(Rule::Term, ",", span(1, 1, 2), vec![leaf(Rule::Comma, ",", span(1, 1, 2))]);
    assert_eq!(GeckoParser::term(&odd).unwrap_err().fault, ParseFault::UnexpectedChildren);
}

#[test]
fn exactly_one_tree_must_be_handed_over() {
    let none: Vec<ParseNode> = vec![];
    let error = parse_gecko(&none).unwrap_err();
    assert_eq!(error.fault, ParseFault::NotSingle);
    assert_eq!(error.rule, Rule::EOI);
    assert_eq!(error.message(), "expected a single node");
    let two = vec![
        node(Rule::File, "", span(1, 1, 1), vec![]),
        node(Rule::File, "", span(2, 1, 1), vec![]),
    ];
    let error = parse_gecko(&two).unwrap_err();
    assert_eq!(error, ParseError::new(ParseFault::NotSingle, Rule::File, Rule::File, span(2, 1, 1)));
    let one = vec![node(Rule::File, "", span(1, 1, 1), vec![leaf(Rule::EOI, "", span(1, 1, 1))])];
    let file = parse_gecko(&one).unwrap();
    assert!(file.stmts.is_empty());
    assert_eq!(file.span, Some(span(1, 1, 1)));
}
