use vstd::prelude::*;

use crate::error::ParseError;
use crate::token::Token;
use crate::variable::spec_keyword_of;
use crate::variable::spec_parse_declaration;
use crate::variable::spec_parse_declaration_list;
use crate::variable::spec_parse_statement;

verus! {

proof fn lemma_declaration_error_locality(toks: Seq<Token>, pos: int, required: bool)
    requires
        0 <= pos <= toks.len(),
    ensures
        match spec_parse_declaration(toks, pos, required) {
            Ok((d, p)) => pos < p <= toks.len(),
            Err((e, p)) => pos <= p <= toks.len() && match e {
                ParseError::UnexpectedEnd { .. } => p == toks.len(),
                ParseError::UnexpectedToken { found, .. } => p < toks.len() && found == toks[p],
            },
        },
{
}

proof fn lemma_declaration_list_error_locality(toks: Seq<Token>, pos: int, required: bool)
    requires
        0 <= pos <= toks.len(),
    ensures
        match spec_parse_declaration_list(toks, pos, required) {
            Ok((ds, p)) => pos < p <= toks.len() && ds.len() >= 1,
            Err((e, p)) => pos <= p <= toks.len() && match e {
                ParseError::UnexpectedEnd { .. } => p == toks.len(),
                ParseError::UnexpectedToken { found, .. } => p < toks.len() && found == toks[p],
            },
        },
    decreases toks.len() - pos,
{
    lemma_declaration_error_locality(toks, pos, required);
    match spec_parse_declaration(toks, pos, required) {
        Err(_) => {},
        Ok((d, p)) => {
            if pos < p && p < toks.len() && toks[p].kind is Comma {
                lemma_declaration_list_error_locality(toks, p + 1, required);
            }
        },
    }
}

/// Error locality: when a statement parse fails, the cursor it leaves behind
/// stands exactly where the failing expectation was checked — on the
/// offending token carried in the error, or at the end of the stream when a
/// token was missing altogether. No token beyond the failure is consumed. A
/// successful parse, for its part, consumes at least the keyword token and
/// never runs past the end.
pub proof fn lemma_error_locality(toks: Seq<Token>, pos: int)
    requires
        0 <= pos <= toks.len(),
    ensures
        match spec_parse_statement(toks, pos) {
            Ok((st, p)) => pos < p <= toks.len(),
            Err((e, p)) => pos <= p <= toks.len() && match e {
                ParseError::UnexpectedEnd { .. } => p == toks.len(),
                ParseError::UnexpectedToken { found, .. } => p < toks.len() && found == toks[p],
            },
        },
{
    if pos < toks.len() {
        match spec_keyword_of(toks[pos]) {
            Ok(kw) => {
                lemma_declaration_list_error_locality(toks, pos + 1, kw is Const);
            },
            Err(_) => {},
        }
    }
}

/// A successfully parsed statement is the `const` form exactly when the token
/// it started from is the `const` keyword, whatever else the input holds.
/// Together with the contract of `is_constant`, this pins `is_constant()` to
/// the keyword the statement was parsed from.
pub proof fn lemma_is_constant_iff_const_keyword(toks: Seq<Token>, pos: int)
    requires
        0 <= pos <= toks.len(),
    ensures
        match spec_parse_statement(toks, pos) {
            Ok((st, p)) => (st is ConstDeclaration) <==> (pos < toks.len()
                && toks[pos].kind is Const),
            Err(_) => true,
        },
{
}

proof fn lemma_required_list_initializers_present(toks: Seq<Token>, pos: int)
    requires
        0 <= pos <= toks.len(),
    ensures
        match spec_parse_declaration_list(toks, pos, true) {
            Ok((ds, p)) => forall|i: int|
                0 <= i < ds.len() ==> (#[trigger] ds[i]).expression is Some,
            Err(_) => true,
        },
    decreases toks.len() - pos,
{
    match spec_parse_declaration(toks, pos, true) {
        Err(_) => {},
        Ok((d, p)) => {
            if pos < p && p < toks.len() && toks[p].kind is Comma {
                lemma_required_list_initializers_present(toks, p + 1);
            }
        },
    }
}

/// After a successful parse of a `const` statement every declaration holds an
/// initializer. The strategy types make this true of the data by
/// construction; this shows it of the grammar itself.
pub proof fn lemma_const_initializers_present(toks: Seq<Token>, pos: int)
    requires
        0 <= pos <= toks.len(),
    ensures
        match spec_parse_statement(toks, pos) {
            Ok((st, p)) => st is ConstDeclaration ==> forall|i: int|
                0 <= i < st.declarations().len() ==> (#[trigger] st.declarations()[i]).expression
                    is Some,
            Err(_) => true,
        },
{
    if pos < toks.len() {
        match spec_keyword_of(toks[pos]) {
            Ok(kw) => {
                if kw is Const {
                    lemma_required_list_initializers_present(toks, pos + 1);
                }
            },
            Err(_) => {},
        }
    }
}

} // verus!
