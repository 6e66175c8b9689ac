use gecko::ast::parse_gecko;
use gecko::error::ErrorKind;
use gecko::grammar::{ParseNode, Rule};
use gecko::node::NodeType;
use gecko::placement::is_well_placed;
use gecko::span::{LineColumn, Span};
use gecko::tree_type::{FundamentalType, Type};
use gecko::typecheck::annotate_file;

/// The node that `rule` recognised at the given occurrence of `text` in
/// `source`.
fn find(rule: Rule, source: &str, text: &str, occurrence: usize, children: Vec<ParseNode>) -> ParseNode {
    let (start, _) = source.match_indices(text).nth(occurrence).unwrap();
    ParseNode::located(rule, source, start, start + text.len(), children).unwrap()
}

fn integer(source: &str, text: &str, occurrence: usize) -> ParseNode {
    let decimal = find(Rule::IntegerDecimal, source, text, occurrence, vec![]);
    let literal = find(Rule::Integer, source, text, occurrence, vec![decimal]);
    find(Rule::Term, source, text, occurrence, vec![literal])
}

fn variable(source: &str, text: &str, occurrence: usize) -> ParseNode {
    let name = find(Rule::Identifier, source, text, occurrence, vec![]);
    find(Rule::Term, source, text, occurrence, vec![name])
}

fn quoted(source: &str, text: &str) -> ParseNode {
    let literal = find(Rule::String, source, text, 0, vec![]);
    find(Rule::Term, source, text, 0, vec![literal])
}

const SOURCE: &str = "proc f(a: int) -> int {\n  let x: int = a + 2 * 3\n  return x\n}\nlet y: int = \"hi\"\n";

/// The parse tree of `SOURCE`, as the grammar engine would hand it over.
fn parse_tree() -> Vec<ParseNode> {
    let s = SOURCE;
    let parameter = find(
        Rule::Parameter,
        s,
        "a: int",
        0,
        vec![
            find(Rule::Identifier, s, "a", 0, vec![]),
            find(Rule::Colon, s, ":", 0, vec![]),
            find(Rule::Identifier, s, "int", 0, vec![]),
        ],
    );
    let parameters = find(
        Rule::ParameterList,
        s,
        "(a: int)",
        0,
        vec![find(Rule::LParen, s, "(", 0, vec![]), parameter, find(Rule::RParen, s, ")", 0, vec![])],
    );
    let output = find(
        Rule::Output,
        s,
        "-> int",
        0,
        vec![find(Rule::RArrow, s, "->", 0, vec![]), find(Rule::Identifier, s, "int", 1, vec![])],
    );
    let value = find(
        Rule::Expression,
        s,
        "a + 2 * 3",
        0,
        vec![
            variable(s, "a", 1),
            find(Rule::Plus, s, "+", 0, vec![]),
            integer(s, "2", 0),
            find(Rule::Multiply, s, "*", 0, vec![]),
            integer(s, "3", 0),
        ],
    );
    let first = find(
        Rule::VariableInitialisation,
        s,
        "let x: int = a + 2 * 3",
        0,
        vec![
            find(Rule::LetToken, s, "let", 0, vec![]),
            find(Rule::Identifier, s, "x", 0, vec![]),
            find(Rule::Colon, s, ":", 1, vec![]),
            find(Rule::Identifier, s, "int", 2, vec![]),
            find(Rule::Equals, s, "=", 0, vec![]),
            value,
        ],
    );
    let returned = find(Rule::Expression, s, "x", 1, vec![variable(s, "x", 1)]);
    let second = find(
        Rule::ReturnStatement,
        s,
        "return x",
        0,
        vec![find(Rule::ReturnToken, s, "return", 0, vec![]), returned],
    );
    let body = find(
        Rule::Block,
        s,
        "{\n  let x: int = a + 2 * 3\n  return x\n}",
        0,
        vec![find(Rule::LBrace, s, "{", 0, vec![]), first, second, find(Rule::RBrace, s, "}", 0, vec![])],
    );
    let function = find(
        Rule::FunctionDefinition,
        s,
        "proc f(a: int) -> int {\n  let x: int = a + 2 * 3\n  return x\n}",
        0,
        vec![
            find(Rule::ProcToken, s, "proc", 0, vec![]),
            find(Rule::Identifier, s, "f", 0, vec![]),
            parameters,
            output,
            body,
        ],
    );
    let text = find(Rule::Expression, s, "\"hi\"", 0, vec![quoted(s, "\"hi\"")]);
    let mismatch = find(
        Rule::VariableInitialisation,
        s,
        "let y: int = \"hi\"",
        0,
        vec![
            find(Rule::LetToken, s, "let", 1, vec![]),
            find(Rule::Identifier, s, "y", 0, vec![]),
            find(Rule::Colon, s, ":", 2, vec![]),
            find(Rule::Identifier, s, "int", 3, vec![]),
            find(Rule::Equals, s, "=", 1, vec![]),
            text,
        ],
    );
    let end = ParseNode::located(Rule::EOI, s, s.len(), s.len(), vec![]).unwrap();
    vec![ParseNode::located(Rule::File, s, 0, s.len(), vec![function, mismatch, end]).unwrap()]
}

fn place(line: usize, column: usize) -> LineColumn {
    LineColumn::new(line, column)
}

#[test]
fn a_source_text_becomes_a_tree_with_lines_and_columns() {
    let file = parse_gecko(&parse_tree()).unwrap();
    assert_eq!(file.span, Some(Span::new(place(1, 1), place(6, 1))));
    assert_eq!(file.stmts.len(), 2);
    let function = match &*file.stmts[0] {
        NodeType::FunctionDefinition(f) => f,
        other => panic!("unexpected statement: {:?}", other),
    };
    assert_eq!(function.sig.id.name, "f");
    assert_eq!(function.sig.span, Span::new(place(1, 1), place(1, 22)));
    assert_eq!(function.sig.params.parameters.len(), 1);
    assert_eq!(function.span, Span::new(place(1, 1), place(4, 2)));
    let initialisation = match &*function.block.stmts[0] {
        NodeType::VariableInitialisation(v) => v,
        other => panic!("unexpected statement: {:?}", other),
    };
    assert_eq!(initialisation.span, Span::new(place(2, 3), place(2, 25)));
    let sum = match &*initialisation.expr {
        NodeType::BinaryOperator(b) => b,
        other => panic!("unexpected expression: {:?}", other),
    };
    assert_eq!(sum.op.value, "+");
    assert_eq!(sum.span, Span::new(place(2, 16), place(2, 25)));
    let product = match &*sum.right {
        NodeType::BinaryOperator(b) => b,
        other => panic!("unexpected expression: {:?}", other),
    };
    assert_eq!(product.op.value, "*");
    assert_eq!(product.span, Span::new(place(2, 20), place(2, 25)));
}

#[test]
fn the_diagnostics_of_a_source_text_carry_their_place() {
    let file = parse_gecko(&parse_tree()).unwrap();
    let errors = annotate_file(&file).unwrap_err();
    assert_eq!(errors.len(), 1);
    assert_eq!(errors[0].kind, ErrorKind::Type);
    assert_eq!(errors[0].subject, "y");
    assert_eq!(errors[0].text, "type mismatch: expected 'int', got 'str'");
    assert_eq!(errors[0].span, Span::new(place(5, 1), place(5, 18)));
}

#[test]
fn a_sound_source_text_is_annotated() {
    let mut trees = parse_tree();
    let mut root = trees.pop().unwrap();
    root.children.remove(1);
    let file = parse_gecko(&vec![root]).unwrap();
    let done = annotate_file(&file).unwrap();
    let types: Vec<&Type> = done.types.iter().map(|r| &r.ty).collect();
    let integer = Type::new(FundamentalType::Integer);
    assert_eq!(types, vec![&integer; 6]);
    assert_eq!(done.types[0].span, Span::new(place(2, 16), place(2, 17)));
    assert_eq!(done.types[4].span, Span::new(place(2, 16), place(2, 25)));
    assert_eq!(done.types[5].span, Span::new(place(3, 10), place(3, 11)));
    assert!(!done.symbols.contains(&String::from("x")));
}

#[test]
fn a_located_parse_tree_is_laid_out_in_source_order() {
    for tree in parse_tree() {
        assert!(is_well_placed(&tree));
    }
}
