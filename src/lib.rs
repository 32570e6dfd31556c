//! A checker for a System F-omega style calculus: lexing, parsing, alpha-renaming,
//! kind and type elaboration, type-level normalization and bidirectional type checking.

/// Source positions and spans.
pub mod location;
/// Identifiers: a name plus a disambiguation counter.
pub mod symbol;
/// Lexical tokens.
pub mod tokens;
/// The lexer.
pub mod lexer;
/// Parse errors.
pub mod error;
/// The parser's token buffer.
pub mod state;
/// The recursive-descent grammar of expressions, types and kinds.
pub mod grammar;
/// Surface syntax trees.
pub mod parsetree;
/// The checker's kind-annotated types.
pub mod typedtree;
/// Type errors.
pub mod errors;
/// The checking environment.
pub mod context;
/// Substitution of a type for a variable.
pub mod substitution;
/// Kind and type equivalence.
pub mod equivalence;
/// Type-level normalization.
pub mod normalize;
/// Kind and type elaboration and bidirectional expression checking.
pub mod checker;
/// Alpha-renaming to globally unique identifiers.
pub mod conversion;
/// Laws that relate normalization and equivalence.
pub mod laws;
