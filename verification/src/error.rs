//! Failures of the builder and diagnostics of the semantic pass.

use vstd::prelude::*;
use vstd::string::*;
use crate::grammar::Rule;
use crate::span::Span;

verus! {

/// The two kinds of failure while a tree is built.
#[derive(Copy, Clone, Debug, PartialEq, Eq, Structural)]
pub enum ParseErrorKind {
    /// The source is malformed.
    Parse,
    /// The parse tree does not have the form that the grammar promises.
    StructuralAssertion,
}

/// What exactly was found wrong while a tree was built.
#[derive(Copy, Clone, Debug, PartialEq, Eq, Structural)]
pub enum ParseFault {
    /// The node is not of the rule that was to be built from it.
    UnexpectedRule,
    /// The children of the node do not have the shape of its rule.
    UnexpectedChildren,
    /// An operator that the precedence table does not hold.
    NotAnOperator,
    /// An expression without operands, or an operator with nothing behind it.
    MissingOperand,
    /// An integer literal that is no decimal number, or one too large.
    IntegerOutOfRange,
    /// A character literal that does not hold exactly one character.
    NotOneCharacter,
    /// Not exactly one tree was handed over.
    NotSingle,
    /// A block without its braces, a parameter list without its
    /// parentheses, or two parameters without a comma between them.
    MissingDelimiter,
    /// A comma that follows no parameter, or one that no parameter follows.
    MisplacedComma,
}

/// A failure while a tree is built: what was wrong, the rule that was
/// being built, and the rule and span of the offending node.
#[derive(Copy, Clone, Debug, PartialEq, Eq, Structural)]
pub struct ParseError {
    pub fault: ParseFault,
    pub within: Rule,
    pub rule: Rule,
    pub span: Span,
}

/// The kind that a fault belongs to.
pub open spec fn kind_of(fault: ParseFault) -> ParseErrorKind {
    match fault {
        ParseFault::MissingDelimiter | ParseFault::MisplacedComma => ParseErrorKind::StructuralAssertion,
        _ => ParseErrorKind::Parse,
    }
}

/// The message of a fault.
pub open spec fn fault_text(fault: ParseFault) -> Seq<char> {
    match fault {
        ParseFault::UnexpectedRule => "unexpected rule"@,
        ParseFault::UnexpectedChildren => "the node does not hold what its rule holds"@,
        ParseFault::NotAnOperator => "the rule is not an operator"@,
        ParseFault::MissingOperand => "an operand is missing"@,
        ParseFault::IntegerOutOfRange => "the integer literal is out of range"@,
        ParseFault::NotOneCharacter => "the character literal does not hold one character"@,
        ParseFault::NotSingle => "expected a single node"@,
        ParseFault::MissingDelimiter => "a required delimiter is missing"@,
        ParseFault::MisplacedComma => "a comma stands where no parameter is"@,
    }
}

impl ParseError {
    pub fn new(fault: ParseFault, within: Rule, rule: Rule, span: Span) -> (r: ParseError)
        ensures
            r == (ParseError { fault, within, rule, span }),
    {
        ParseError { fault, within, rule, span }
    }

    /// The kind of the failure.
    pub fn kind(&self) -> (r: ParseErrorKind)
        ensures
            r == kind_of(self.fault),
    {
        match self.fault {
            ParseFault::MissingDelimiter | ParseFault::MisplacedComma => ParseErrorKind::StructuralAssertion,
            _ => ParseErrorKind::Parse,
        }
    }

    /// The message of the failure.
    pub fn message(&self) -> (r: String)
        ensures
            r@ == fault_text(self.fault),
    {
        match self.fault {
            ParseFault::UnexpectedRule => String::from_str("unexpected rule"),
            ParseFault::UnexpectedChildren => String::from_str(
                "the node does not hold what its rule holds",
            ),
            ParseFault::NotAnOperator => String::from_str("the rule is not an operator"),
            ParseFault::MissingOperand => String::from_str("an operand is missing"),
            ParseFault::IntegerOutOfRange => String::from_str("the integer literal is out of range"),
            ParseFault::NotOneCharacter => String::from_str(
                "the character literal does not hold one character",
            ),
            ParseFault::NotSingle => String::from_str("expected a single node"),
            ParseFault::MissingDelimiter => String::from_str("a required delimiter is missing"),
            ParseFault::MisplacedComma => String::from_str("a comma stands where no parameter is"),
        }
    }
}

/// What went wrong in a semantic check.
#[derive(Copy, Clone, Debug, PartialEq, Eq, Structural)]
pub enum ErrorKind {
    /// Types that do not fit together, or a name that is not a variable.
    Type,
    /// A name that was never declared.
    Name,
    /// A variable that is read before it has a value.
    Uninitialized,
}

/// One diagnostic of the semantic pass: its kind, the identifier or
/// operator it is about (empty where there is none), a message, and the
/// span of the node that was being checked.
#[derive(Debug, PartialEq, Eq)]
pub struct TypeError {
    pub kind: ErrorKind,
    pub subject: String,
    pub text: String,
    pub span: Span,
}

/// What a [`TypeError`] is, with its texts as sequences of characters.
pub ghost struct TypeErrorView {
    pub kind: ErrorKind,
    pub subject: Seq<char>,
    pub text: Seq<char>,
    pub span: Span,
}

impl View for TypeError {
    type V = TypeErrorView;

    open spec fn view(&self) -> TypeErrorView {
        TypeErrorView { kind: self.kind, subject: self.subject@, text: self.text@, span: self.span }
    }
}

/// The views of a list of diagnostics, in order.
pub open spec fn errors_view(errors: Seq<TypeError>) -> Seq<TypeErrorView> {
    errors.map_values(|e: TypeError| e@)
}

/// The word that names a kind of diagnostic.
pub open spec fn kind_name(kind: ErrorKind) -> Seq<char> {
    match kind {
        ErrorKind::Type => "TypeError"@,
        ErrorKind::Name => "NameError"@,
        ErrorKind::Uninitialized => "UninitializedError"@,
    }
}

impl Clone for TypeError {
    fn clone(&self) -> (r: TypeError)
        ensures
            r@ == self@,
    {
        TypeError {
            kind: self.kind,
            subject: self.subject.clone(),
            text: self.text.clone(),
            span: self.span,
        }
    }
}

impl TypeError {
    pub fn new(kind: ErrorKind, subject: String, text: String, span: Span) -> (r: TypeError)
        ensures
            r@ == (TypeErrorView { kind, subject: subject@, text: text@, span }),
    {
        TypeError { kind, subject, text, span }
    }

    /// The diagnostic as one line: the name of its kind, a colon and a
    /// space, then the message.
    pub fn describe(&self) -> (r: String)
        ensures
            r@ == kind_name(self.kind) + ": "@ + self.text@,
    {
        let mut line = match self.kind {
            ErrorKind::Type => String::from_str("TypeError"),
            ErrorKind::Name => String::from_str("NameError"),
            ErrorKind::Uninitialized => String::from_str("UninitializedError"),
        };
        line.append(": ");
        line.append(self.text.as_str());
        line
    }
}

/// Moves the diagnostics of `more` behind those of `errors`.
pub fn append_errors(errors: &mut Vec<TypeError>, more: Vec<TypeError>)
    ensures
        errors_view(final(errors)@) == errors_view(old(errors)@) + errors_view(more@),
{
    let mut more = more;
    let ghost before = errors@;
    let ghost added = more@;
    errors.append(&mut more);
    assert(errors_view(errors@) =~= errors_view(before) + errors_view(added));
}

} // verus!
