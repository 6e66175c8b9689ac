//! Front end of the Gecko language: a position-tracked syntax tree, the
//! builder that assembles it from a recognised parse tree, and the semantic
//! pass that checks names, initialisation and types.
//!
//! The way of a source text through the crate:
//!
//! 1. A grammar engine recognises the text and hands over a parse tree
//!    ([`grammar::ParseNode`]). [`grammar::ParseNode::located`] makes a node
//!    from the rule and the byte offsets that the engine reports; lines and
//!    columns are counted in [`span`].
//! 2. [`ast::parse_gecko`] builds the syntax tree ([`node::File`]), with one
//!    routine of [`ast::GeckoParser`] for each rule. Chains of operands and
//!    operators are resolved by precedence climbing over the table in
//!    [`precedence`].
//! 3. [`typecheck::annotate_file`] checks the tree and gives the symbol table
//!    and the type of every expression, or all diagnostics.
//!
//! Every executable function states what it computes over views: the same
//! data with texts as sequences of characters and lists as sequences. What
//! the builder makes is defined in [`syntax`], what the semantic pass finds
//! in [`typing`]. What holds of these definitions in general is proved in
//! [`climbing`], [`placement`], [`layout`] and [`rules`].

pub mod span;
pub mod token;
pub mod expression;
pub mod node;
pub mod statement;
pub mod grammar;
pub mod error;

pub mod literal;
pub mod precedence;
pub mod syntax;
pub mod climbing;
pub mod ast;
pub mod placement;
pub mod layout;

pub mod tree_type;
pub mod symbol;
pub mod typing;
pub mod typecheck;
pub mod rules;
