use vstd::prelude::*;

use crate::token::Token;
use crate::token::TokenTag;

verus! {

/// What a grammar position was waiting for when it met the wrong token.
///
/// Each variant stands for the fixed set of token kinds accepted at one
/// position of the declaration grammar; `kinds` lists that set.
#[derive(Debug, Clone, Copy, PartialEq, Eq, Structural)]
pub enum Expected {
    /// One of the three declaration keywords.
    DeclarationKeyword,
    /// The assignment operator introducing a required initializer.
    Assign,
    /// The name being declared.
    VariableName,
    /// A type name after a colon.
    TypeName,
    /// The start of an initializer expression.
    ExpressionStart,
}

/// The token kinds accepted at the grammar position `e` stands for.
pub open spec fn spec_expected_kinds(e: Expected) -> Seq<TokenTag> {
    match e {
        Expected::DeclarationKeyword => seq![TokenTag::Const, TokenTag::Let, TokenTag::Var],
        Expected::Assign => seq![TokenTag::Assign],
        Expected::VariableName => seq![TokenTag::Ident],
        Expected::TypeName => seq![TokenTag::Ident],
        Expected::ExpressionStart => seq![TokenTag::Ident, TokenTag::Literal],
    }
}

impl Expected {
    /// The token kinds this grammar position accepts.
    pub fn kinds(&self) -> (r: Vec<TokenTag>)
        ensures
            r@ == spec_expected_kinds(*self),
    {
        match self {
            Expected::DeclarationKeyword => vec![TokenTag::Const, TokenTag::Let, TokenTag::Var],
            Expected::Assign => vec![TokenTag::Assign],
            Expected::VariableName => vec![TokenTag::Ident],
            Expected::TypeName => vec![TokenTag::Ident],
            Expected::ExpressionStart => vec![TokenTag::Ident, TokenTag::Literal],
        }
    }
}

/// Why a parse stopped.
///
/// The first failure aborts the whole statement parse: no partial node is
/// built and no recovery is attempted.
#[derive(Debug, PartialEq, Eq)]
pub enum ParseError {
    /// A token was required but the stream was exhausted; `expected` names
    /// what the position was waiting for.
    UnexpectedEnd { expected: Expected },
    /// The head token does not match what the grammar position requires; the
    /// offending token and its span are carried in `found`.
    UnexpectedToken { expected: Expected, found: Token },
}

/// The result of a parsing step: the parsed node, or the first error met.
pub type ParseResult<T> = Result<T, ParseError>;

} // verus!
