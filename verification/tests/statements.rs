use gecko::ast::{parse_gecko, GeckoParser};
use gecko::error::{ParseErrorKind, ParseFault};
use gecko::grammar::{ParseNode, Rule};
use gecko::node::NodeType;
use gecko::span::{LineColumn, Span};

fn at(line: usize, from: usize, to: usize) -> Span {
    Span::new(LineColumn::new(line, from), LineColumn::new(line, to))
}

fn lines(from: usize, to: usize) -> Span {
    Span::new(LineColumn::new(from, 1), LineColumn::new(to, 2))
}

fn token(rule: Rule, text: &str, span: Span) -> ParseNode {
    ParseNode::leaf(rule, String::from(text), span)
}

fn tree(rule: Rule, span: Span, children: Vec<ParseNode>) -> ParseNode {
    ParseNode::new(rule, String::new(), span, children)
}

fn name(text: &str, line: usize, column: usize) -> ParseNode {
    token(Rule::Identifier, text, at(line, column, column + text.len()))
}

/// An expression that is one integer literal.
fn literal(text: &str, line: usize, column: usize) -> ParseNode {
    let span = at(line, column, column + text.len());
    let decimal = token(Rule::IntegerDecimal, text, span);
    let integer = ParseNode::new(Rule::Integer, String::from(text), span, vec![decimal]);
    let term = ParseNode::new(Rule::Term, String::from(text), span, vec![integer]);
    tree(Rule::Expression, span, vec![term])
}

/// `let <id>: <ty> = <value>` on one line.
fn annotated_let(id: &str, ty: &str, value: &str, line: usize) -> ParseNode {
    tree(
        Rule::VariableInitialisation,
        at(line, 1, 30),
        vec![
            token(Rule::LetToken, "let", at(line, 1, 4)),
            name(id, line, 5),
            token(Rule::Colon, ":", at(line, 10, 11)),
            name(ty, line, 12),
            token(Rule::Equals, "=", at(line, 20, 21)),
            literal(value, line, 22),
        ],
    )
}

fn parameter(id: &str, ty: &str, column: usize) -> ParseNode {
    tree(
        Rule::Parameter,
        at(1, column, column + 10),
        vec![name(id, 1, column), token(Rule::Colon, ":", at(1, column + 3, column + 4)), name(ty, 1, column + 5)],
    )
}

fn parameter_list(inner: Vec<ParseNode>) -> ParseNode {
    let mut children = vec![token(Rule::LParen, "(", at(1, 10, 11))];
    children.extend(inner);
    children.push(token(Rule::RParen, ")", at(1, 60, 61)));
    tree(Rule::ParameterList, at(1, 10, 61), children)
}

fn comma(column: usize) -> ParseNode {
    token(Rule::Comma, ",", at(1, column, column + 1))
}

fn block(statements: Vec<ParseNode>, from: usize, to: usize) -> ParseNode {
    let mut children = vec![token(Rule::LBrace, "{", at(from, 70, 71))];
    children.extend(statements);
    children.push(token(Rule::RBrace, "}", at(to, 1, 2)));
    tree(Rule::Block, Span::new(LineColumn::new(from, 70), LineColumn::new(to, 2)), children)
}

fn output(ty: &str) -> ParseNode {
    tree(Rule::Output, at(1, 62, 69), vec![token(Rule::RArrow, "->", at(1, 62, 64)), name(ty, 1, 65)])
}

fn function(id: &str, parameters: ParseNode, ty: &str, body: ParseNode) -> ParseNode {
    tree(
        Rule::FunctionDefinition,
        lines(1, 9),
        vec![token(Rule::ProcToken, "proc", at(1, 1, 5)), name(id, 1, 6), parameters, output(ty), body],
    )
}

#[test]
fn a_declaration_holds_its_tokens_its_name_and_its_type() {
    let input = tree(
        Rule::VariableDeclaration,
        at(2, 1, 11),
        vec![
            token(Rule::LetToken, "let", at(2, 1, 4)),
            name("x", 2, 5),
            token(Rule::Colon, ":", at(2, 6, 7)),
            name("int", 2, 8),
        ],
    );
    let built = GeckoParser::variable_declaration(&input).unwrap();
    assert_eq!(built.let_token.value, "let");
    assert_eq!(built.id.name, "x");
    assert_eq!(built.colon.value, ":");
    assert_eq!(built.ty.id.name, "int");
    assert_eq!(built.ty.span, at(2, 8, 11));
    assert_eq!(built.span, at(2, 1, 11));
}

#[test]
fn a_declaration_of_another_shape_is_refused() {
    let input = tree(
        Rule::VariableDeclaration,
        at(2, 1, 11),
        vec![token(Rule::LetToken, "let", at(2, 1, 4)), name("x", 2, 5), name("int", 2, 8)],
    );
    let error = GeckoParser::variable_declaration(&input).unwrap_err();
    assert_eq!(error.fault, ParseFault::UnexpectedChildren);
    assert_eq!(error.rule, Rule::VariableDeclaration);
    assert_eq!(error.span, at(2, 1, 11));
    assert_eq!(error.kind(), ParseErrorKind::Parse);
}

#[test]
fn an_initialisation_may_or_may_not_write_its_type() {
    let with = GeckoParser::variable_initialisation(&annotated_let("x", "int", "5", 1)).unwrap();
    assert_eq!(with.id.name, "x");
    assert_eq!(with.ty.as_ref().unwrap().id.name, "int");
    assert_eq!(with.equals.value, "=");
    assert!(matches!(*with.expr, NodeType::Integer(_)));
    let without = tree(
        Rule::VariableInitialisation,
        at(1, 1, 30),
        vec![
            token(Rule::LetToken, "let", at(1, 1, 4)),
            name("y", 1, 5),
            token(Rule::Colon, ":", at(1, 10, 11)),
            token(Rule::Equals, "=", at(1, 20, 21)),
            literal("6", 1, 22),
        ],
    );
    let without = GeckoParser::variable_initialisation(&without).unwrap();
    assert_eq!(without.id.name, "y");
    assert!(without.ty.is_none());
    assert!(matches!(*without.expr, NodeType::Integer(_)));
}

#[test]
fn a_fault_in_the_initial_value_fails_the_initialisation() {
    let input = tree(
        Rule::VariableInitialisation,
        at(1, 1, 30),
        vec![
            token(Rule::LetToken, "let", at(1, 1, 4)),
            name("y", 1, 5),
            token(Rule::Colon, ":", at(1, 10, 11)),
            token(Rule::Equals, "=", at(1, 20, 21)),
            tree(Rule::Expression, at(1, 22, 22), vec![]),
        ],
    );
    let error = GeckoParser::variable_initialisation(&input).unwrap_err();
    assert_eq!(error.fault, ParseFault::MissingOperand);
}

#[test]
fn return_and_expression_statements_hold_their_expression() {
    let ret = tree(
        Rule::ReturnStatement,
        at(4, 1, 10),
        vec![token(Rule::ReturnToken, "return", at(4, 1, 7)), literal("1", 4, 8)],
    );
    let built = GeckoParser::return_statement(&ret).unwrap();
    assert_eq!(built.return_token.value, "return");
    assert!(matches!(*built.expr, NodeType::Integer(_)));
    assert_eq!(built.span, at(4, 1, 10));
    let statement = tree(Rule::ExpressionStatement, at(5, 1, 3), vec![literal("12", 5, 1)]);
    let built = GeckoParser::expression_statement(&statement).unwrap();
    assert!(matches!(*built.expr, NodeType::Integer(_)));
    let bare = tree(Rule::ReturnStatement, at(4, 1, 7), vec![token(Rule::ReturnToken, "return", at(4, 1, 7))]);
    assert_eq!(GeckoParser::return_statement(&bare).unwrap_err().fault, ParseFault::UnexpectedChildren);
    let empty = tree(Rule::ExpressionStatement, at(5, 1, 1), vec![]);
    assert_eq!(GeckoParser::expression_statement(&empty).unwrap_err().fault, ParseFault::UnexpectedChildren);
}

#[test]
fn a_parameter_list_may_be_empty() {
    let built = GeckoParser::parameter_list(&parameter_list(vec![])).unwrap();
    assert!(built.parameters.is_empty());
    assert_eq!(built.lparen.value, "(");
    assert_eq!(built.rparen.value, ")");
    assert_eq!(built.span, at(1, 10, 61));
}

#[test]
fn a_single_parameter_is_kept() {
    let built = GeckoParser::parameter_list(&parameter_list(vec![parameter("a", "int", 11)])).unwrap();
    assert_eq!(built.parameters.len(), 1);
    assert_eq!(built.parameters[0].0.id.name, "a");
    assert_eq!(built.parameters[0].0.ty.id.name, "int");
    assert!(built.parameters[0].1.is_none());
}

#[test]
fn each_parameter_keeps_the_comma_behind_it() {
    let input = parameter_list(vec![
        parameter("a", "int", 11),
        comma(21),
        parameter("b", "str", 23),
        comma(33),
        parameter("c", "bool", 35),
    ]);
    let built = GeckoParser::parameter_list(&input).unwrap();
    let names: Vec<&str> = built.parameters.iter().map(|p| p.0.id.name.as_str()).collect();
    assert_eq!(names, vec!["a", "b", "c"]);
    assert_eq!(built.parameters[0].1.as_ref().unwrap().span, at(1, 21, 22));
    assert_eq!(built.parameters[1].1.as_ref().unwrap().span, at(1, 33, 34));
    assert!(built.parameters[2].1.is_none());
}

#[test]
fn misplaced_commas_are_structural_failures() {
    let leading = parameter_list(vec![comma(11), parameter("a", "int", 13)]);
    let error = GeckoParser::parameter_list(&leading).unwrap_err();
    assert_eq!(error.fault, ParseFault::MisplacedComma);
    assert_eq!(error.rule, Rule::Comma);
    assert_eq!(error.kind(), ParseErrorKind::StructuralAssertion);
    assert_eq!(error.message(), "a comma stands where no parameter is");
    let trailing = parameter_list(vec![parameter("a", "int", 11), comma(21)]);
    let error = GeckoParser::parameter_list(&trailing).unwrap_err();
    assert_eq!(error.fault, ParseFault::MisplacedComma);
    assert_eq!(error.rule, Rule::RParen);
    let doubled = parameter_list(vec![parameter("a", "int", 11), comma(21), comma(22), parameter("b", "int", 24)]);
    assert_eq!(GeckoParser::parameter_list(&doubled).unwrap_err().span, at(1, 22, 23));
}

#[test]
fn missing_delimiters_of_a_parameter_list_are_structural_failures() {
    let no_comma = parameter_list(vec![parameter("a", "int", 11), parameter("b", "int", 23)]);
    let error = GeckoParser::parameter_list(&no_comma).unwrap_err();
    assert_eq!(error.fault, ParseFault::MissingDelimiter);
    assert_eq!(error.rule, Rule::Parameter);
    assert_eq!(error.span, at(1, 23, 33));
    assert_eq!(error.kind(), ParseErrorKind::StructuralAssertion);
    let unclosed = tree(Rule::ParameterList, at(1, 10, 11), vec![token(Rule::LParen, "(", at(1, 10, 11))]);
    let error = GeckoParser::parameter_list(&unclosed).unwrap_err();
    assert_eq!(error.fault, ParseFault::MissingDelimiter);
    assert_eq!(error.rule, Rule::ParameterList);
    assert_eq!(error.message(), "a required delimiter is missing");
    let unopened = tree(Rule::ParameterList, at(1, 10, 11), vec![token(Rule::RParen, ")", at(1, 10, 11))]);
    assert_eq!(GeckoParser::parameter_list(&unopened).unwrap_err().fault, ParseFault::MissingDelimiter);
}

#[test]
fn a_parameter_of_another_shape_fails_the_list() {
    let broken = tree(Rule::Parameter, at(1, 11, 12), vec![name("a", 1, 11)]);
    let error = GeckoParser::parameter_list(&parameter_list(vec![broken])).unwrap_err();
    assert_eq!(error.fault, ParseFault::UnexpectedChildren);
    assert_eq!(error.within, Rule::Parameter);
}

#[test]
fn a_block_holds_its_statements_in_order_between_its_braces() {
    let input = block(vec![annotated_let("x", "int", "1", 2), annotated_let("y", "int", "2", 3)], 1, 4);
    let built = GeckoParser::block(&input).unwrap();
    assert_eq!(built.lbrace.span, at(1, 70, 71));
    assert_eq!(built.rbrace.span, at(4, 1, 2));
    assert_eq!(built.stmts.len(), 2);
    match (&*built.stmts[0], &*built.stmts[1]) {
        (NodeType::VariableInitialisation(first), NodeType::VariableInitialisation(second)) => {
            assert_eq!(first.id.name, "x");
            assert_eq!(second.id.name, "y");
        }
        other => panic!("unexpected statements: {:?}", other),
    }
}

#[test]
fn a_block_without_a_brace_is_a_structural_failure() {
    let unclosed = tree(
        Rule::Block,
        lines(1, 3),
        vec![token(Rule::LBrace, "{", at(1, 1, 2)), annotated_let("x", "int", "1", 2)],
    );
    let error = GeckoParser::block(&unclosed).unwrap_err();
    assert_eq!(error.fault, ParseFault::MissingDelimiter);
    assert_eq!(error.rule, Rule::Block);
    assert_eq!(error.span, lines(1, 3));
    assert_eq!(error.kind(), ParseErrorKind::StructuralAssertion);
    let unopened = tree(Rule::Block, lines(1, 3), vec![token(Rule::RBrace, "}", at(3, 1, 2))]);
    assert_eq!(GeckoParser::block(&unopened).unwrap_err().fault, ParseFault::MissingDelimiter);
}

#[test]
fn a_failing_statement_is_reported_before_a_missing_brace() {
    let broken = tree(Rule::ExpressionStatement, at(2, 1, 1), vec![]);
    let unclosed = tree(Rule::Block, lines(1, 3), vec![token(Rule::LBrace, "{", at(1, 1, 2)), broken]);
    let error = GeckoParser::block(&unclosed).unwrap_err();
    assert_eq!(error.fault, ParseFault::UnexpectedChildren);
    assert_eq!(error.rule, Rule::ExpressionStatement);
}

#[test]
fn children_that_are_no_statements_are_passed_over() {
    let input = tree(
        Rule::File,
        lines(1, 5),
        vec![
            token(Rule::ImportStatement, "import \"a\"", at(1, 1, 11)),
            annotated_let("x", "int", "1", 2),
            token(Rule::UseStatement, "use a", at(3, 1, 6)),
            token(Rule::Comma, ",", at(3, 7, 8)),
            annotated_let("y", "int", "2", 4),
            token(Rule::EOI, "", at(5, 1, 1)),
        ],
    );
    let file = parse_gecko(&vec![input]).unwrap();
    assert_eq!(file.stmts.len(), 2);
    assert_eq!(file.span, Some(lines(1, 5)));
}

#[test]
fn a_file_holds_every_kind_of_statement() {
    let declaration = tree(
        Rule::VariableDeclaration,
        at(1, 1, 11),
        vec![
            token(Rule::LetToken, "let", at(1, 1, 4)),
            name("x", 1, 5),
            token(Rule::Colon, ":", at(1, 6, 7)),
            name("int", 1, 8),
        ],
    );
    let ret = tree(
        Rule::ReturnStatement,
        at(4, 1, 10),
        vec![token(Rule::ReturnToken, "return", at(4, 1, 7)), literal("1", 4, 8)],
    );
    let statement = tree(Rule::ExpressionStatement, at(5, 1, 3), vec![literal("12", 5, 1)]);
    let input = tree(
        Rule::File,
        lines(1, 20),
        vec![
            declaration,
            annotated_let("y", "int", "2", 2),
            ret,
            statement,
            function("f", parameter_list(vec![]), "int", block(vec![], 1, 9)),
        ],
    );
    let file = GeckoParser::file(&input).unwrap();
    assert_eq!(file.stmts.len(), 5);
    assert!(matches!(*file.stmts[0], NodeType::VariableDeclaration(_)));
    assert!(matches!(*file.stmts[1], NodeType::VariableInitialisation(_)));
    assert!(matches!(*file.stmts[2], NodeType::Return(_)));
    assert!(matches!(*file.stmts[3], NodeType::Expression(_)));
    assert!(matches!(*file.stmts[4], NodeType::FunctionDefinition(_)));
}

#[test]
fn the_first_failing_statement_fails_the_file() {
    let first = tree(Rule::ExpressionStatement, at(1, 1, 1), vec![]);
    let second = tree(Rule::ReturnStatement, at(2, 1, 1), vec![]);
    let input = tree(Rule::File, lines(1, 2), vec![first, second]);
    let error = GeckoParser::file(&input).unwrap_err();
    assert_eq!(error.rule, Rule::ExpressionStatement);
    assert_eq!(error.span, at(1, 1, 1));
}

#[test]
fn a_function_definition_holds_its_signature_and_its_body() {
    let input = function(
        "add",
        parameter_list(vec![parameter("a", "int", 11), comma(21), parameter("b", "int", 23)]),
        "int",
        block(vec![annotated_let("x", "int", "1", 2)], 1, 9),
    );
    let built = GeckoParser::function_definition(&input).unwrap();
    assert_eq!(built.sig.func_token.value, "proc");
    assert_eq!(built.sig.id.name, "add");
    assert_eq!(built.sig.params.parameters.len(), 2);
    assert_eq!(built.sig.output.rarrow.value, "->");
    assert_eq!(built.sig.output.ty.id.name, "int");
    assert_eq!(built.block.stmts.len(), 1);
    assert_eq!(built.span, lines(1, 9));
}

#[test]
fn a_signature_reaches_from_its_keyword_to_the_end_of_its_output() {
    let input = function("f", parameter_list(vec![]), "int", block(vec![], 1, 9));
    let built = GeckoParser::function_definition(&input).unwrap();
    assert_eq!(built.sig.span, at(1, 1, 69));
}

#[test]
fn faults_inside_a_function_definition_are_passed_on_in_source_order() {
    let bad_list = tree(Rule::ParameterList, at(1, 10, 11), vec![]);
    let bad_block = tree(Rule::Block, lines(1, 3), vec![]);
    let input = function("f", bad_list, "int", bad_block);
    let error = GeckoParser::function_definition(&input).unwrap_err();
    assert_eq!(error.within, Rule::ParameterList);
    let bad_block = tree(Rule::Block, lines(1, 3), vec![]);
    let input = function("f", parameter_list(vec![]), "int", bad_block);
    let error = GeckoParser::function_definition(&input).unwrap_err();
    assert_eq!(error.within, Rule::Block);
    let bad_output = tree(Rule::Output, at(1, 62, 64), vec![token(Rule::RArrow, "->", at(1, 62, 64))]);
    let input = tree(
        Rule::FunctionDefinition,
        lines(1, 9),
        vec![
            token(Rule::ProcToken, "proc", at(1, 1, 5)),
            name("f", 1, 6),
            parameter_list(vec![]),
            bad_output,
            block(vec![], 1, 9),
        ],
    );
    let error = GeckoParser::function_definition(&input).unwrap_err();
    assert_eq!(error.within, Rule::Output);
    assert_eq!(error.fault, ParseFault::UnexpectedChildren);
    let short = tree(Rule::FunctionDefinition, lines(1, 9), vec![token(Rule::ProcToken, "proc", at(1, 1, 5))]);
    assert_eq!(GeckoParser::function_definition(&short).unwrap_err().fault, ParseFault::UnexpectedChildren);
}

#[test]
fn functions_may_be_defined_inside_a_block() {
    let inner = function("g", parameter_list(vec![]), "int", block(vec![], 2, 3));
    let outer = function("f", parameter_list(vec![]), "int", block(vec![inner], 1, 9));
    let built = GeckoParser::function_definition(&outer).unwrap();
    match &*built.block.stmts[0] {
        NodeType::FunctionDefinition(g) => assert_eq!(g.sig.id.name, "g"),
        other => panic!("unexpected statement: {:?}", other),
    }
}
