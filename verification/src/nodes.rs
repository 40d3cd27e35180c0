use vstd::prelude::*;
use vstd::string::StringExecFns;

use crate::error::Expected;
use crate::error::ParseError;
use crate::error::ParseResult;
use crate::settings::ToStringSettings;
use crate::span::Span;
use crate::token::Token;
use crate::token::TokenKind;
use crate::token::TokenStream;

verus! {

/// The name being declared: a single identifier with its span.
#[derive(Debug, PartialEq, Eq)]
pub struct VariableField {
    pub name: String,
    pub span: Span,
}

/// A type annotation after `name:`: a single type name with its span.
#[derive(Debug, PartialEq, Eq)]
pub struct TypeReference {
    pub name: String,
    pub span: Span,
}

/// An initializer expression: a single identifier or literal with its span.
#[derive(Debug, PartialEq, Eq)]
pub struct Expression {
    pub text: String,
    pub span: Span,
}

/// Parsing a name at `pos`: an identifier token yields a `VariableField` and
/// moves the cursor one past it; anything else fails without moving it.
pub open spec fn spec_parse_variable_field(toks: Seq<Token>, pos: int) -> Result<
    (VariableField, int),
    (ParseError, int),
> {
    if pos >= toks.len() {
        Err((ParseError::UnexpectedEnd { expected: Expected::VariableName }, pos))
    } else {
        match toks[pos].kind {
            TokenKind::Ident(s) => Ok((VariableField { name: s, span: toks[pos].span }, pos + 1)),
            _ => Err(
                (
                    ParseError::UnexpectedToken {
                        expected: Expected::VariableName,
                        found: toks[pos],
                    },
                    pos,
                ),
            ),
        }
    }
}

/// Parsing a type name at `pos`, in the same way as a variable name.
pub open spec fn spec_parse_type_reference(toks: Seq<Token>, pos: int) -> Result<
    (TypeReference, int),
    (ParseError, int),
> {
    if pos >= toks.len() {
        Err((ParseError::UnexpectedEnd { expected: Expected::TypeName }, pos))
    } else {
        match toks[pos].kind {
            TokenKind::Ident(s) => Ok((TypeReference { name: s, span: toks[pos].span }, pos + 1)),
            _ => Err(
                (
                    ParseError::UnexpectedToken { expected: Expected::TypeName, found: toks[pos] },
                    pos,
                ),
            ),
        }
    }
}

/// Parsing an expression at `pos`: an identifier or literal token yields an
/// `Expression` and moves the cursor one past it; anything else fails without
/// moving it.
pub open spec fn spec_parse_expression(toks: Seq<Token>, pos: int) -> Result<
    (Expression, int),
    (ParseError, int),
> {
    if pos >= toks.len() {
        Err((ParseError::UnexpectedEnd { expected: Expected::ExpressionStart }, pos))
    } else {
        match toks[pos].kind {
            TokenKind::Ident(s) => Ok((Expression { text: s, span: toks[pos].span }, pos + 1)),
            TokenKind::Literal(s) => Ok((Expression { text: s, span: toks[pos].span }, pos + 1)),
            _ => Err(
                (
                    ParseError::UnexpectedToken {
                        expected: Expected::ExpressionStart,
                        found: toks[pos],
                    },
                    pos,
                ),
            ),
        }
    }
}

impl VariableField {
    /// Reads the declared name from the head of the stream.
    pub fn from_reader(reader: &mut TokenStream) -> (r: ParseResult<VariableField>)
        requires
            old(reader).wf(),
        ensures
            final(reader).wf(),
            final(reader).toks() == old(reader).toks(),
            match r {
                Ok(v) => spec_parse_variable_field(old(reader).toks(), old(reader).cursor())
                    == Ok::<_, (ParseError, int)>((v, final(reader).cursor())),
                Err(e) => spec_parse_variable_field(old(reader).toks(), old(reader).cursor())
                    == Err::<(VariableField, int), _>((e, final(reader).cursor())),
            },
    {
        match reader.peek() {
            None => Err(ParseError::UnexpectedEnd { expected: Expected::VariableName }),
            Some(t) => match t.kind {
                TokenKind::Ident(s) => {
                    reader.skip();
                    Ok(VariableField { name: s, span: t.span })
                },
                _ => Err(ParseError::UnexpectedToken { expected: Expected::VariableName, found: t }),
            },
        }
    }

    /// Appends the name to the buffer.
    pub fn to_string_from_buffer(&self, buf: &mut String, _settings: &ToStringSettings, _depth: u8)
        ensures
            final(buf)@ == old(buf)@ + self.name@,
    {
        buf.append(self.name.as_str());
    }

    pub fn get_position(&self) -> (r: Span)
        ensures
            r == self.span,
    {
        self.span
    }
}

impl TypeReference {
    /// Reads a type name from the head of the stream.
    pub fn from_reader(reader: &mut TokenStream) -> (r: ParseResult<TypeReference>)
        requires
            old(reader).wf(),
        ensures
            final(reader).wf(),
            final(reader).toks() == old(reader).toks(),
            match r {
                Ok(v) => spec_parse_type_reference(old(reader).toks(), old(reader).cursor())
                    == Ok::<_, (ParseError, int)>((v, final(reader).cursor())),
                Err(e) => spec_parse_type_reference(old(reader).toks(), old(reader).cursor())
                    == Err::<(TypeReference, int), _>((e, final(reader).cursor())),
            },
    {
        match reader.peek() {
            None => Err(ParseError::UnexpectedEnd { expected: Expected::TypeName }),
            Some(t) => match t.kind {
                TokenKind::Ident(s) => {
                    reader.skip();
                    Ok(TypeReference { name: s, span: t.span })
                },
                _ => Err(ParseError::UnexpectedToken { expected: Expected::TypeName, found: t }),
            },
        }
    }

    /// Appends the type name to the buffer.
    pub fn to_string_from_buffer(&self, buf: &mut String, _settings: &ToStringSettings, _depth: u8)
        ensures
            final(buf)@ == old(buf)@ + self.name@,
    {
        buf.append(self.name.as_str());
    }

    pub fn get_position(&self) -> (r: Span)
        ensures
            r == self.span,
    {
        self.span
    }
}

impl Expression {
    /// Reads one expression from the head of the stream.
    pub fn from_reader(reader: &mut TokenStream) -> (r: ParseResult<Expression>)
        requires
            old(reader).wf(),
        ensures
            final(reader).wf(),
            final(reader).toks() == old(reader).toks(),
            match r {
                Ok(v) => spec_parse_expression(old(reader).toks(), old(reader).cursor())
                    == Ok::<_, (ParseError, int)>((v, final(reader).cursor())),
                Err(e) => spec_parse_expression(old(reader).toks(), old(reader).cursor())
                    == Err::<(Expression, int), _>((e, final(reader).cursor())),
            },
    {
        match reader.peek() {
            None => Err(ParseError::UnexpectedEnd { expected: Expected::ExpressionStart }),
            Some(t) => match t.kind {
                TokenKind::Ident(s) => {
                    reader.skip();
                    Ok(Expression { text: s, span: t.span })
                },
                TokenKind::Literal(s) => {
                    reader.skip();
                    Ok(Expression { text: s, span: t.span })
                },
                _ => Err(
                    ParseError::UnexpectedToken { expected: Expected::ExpressionStart, found: t },
                ),
            },
        }
    }

    /// Appends the expression's source text to the buffer.
    pub fn to_string_from_buffer(&self, buf: &mut String, _settings: &ToStringSettings, _depth: u8)
        ensures
            final(buf)@ == old(buf)@ + self.text@,
    {
        buf.append(self.text.as_str());
    }

    pub fn get_position(&self) -> (r: Span)
        ensures
            r == self.span,
    {
        self.span
    }
}

} // verus!
