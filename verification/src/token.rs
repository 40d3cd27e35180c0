use vstd::prelude::*;

use crate::span::Span;

verus! {

/// The lexical kind of a token.
///
/// The declaration grammar looks at the three keywords and the three
/// punctuators; identifier and literal tokens are consumed by the name, type
/// and expression sub-parsers, which carry their text through to the AST.
#[derive(Debug, PartialEq, Eq)]
pub enum TokenKind {
    Const,
    Let,
    Var,
    Colon,
    Assign,
    Comma,
    Ident(String),
    Literal(String),
}

/// The kind of a token without its text, used to report which kinds a grammar
/// position accepts.
#[derive(Debug, Clone, Copy, PartialEq, Eq, Structural)]
pub enum TokenTag {
    Const,
    Let,
    Var,
    Colon,
    Assign,
    Comma,
    Ident,
    Literal,
}

/// One lexical unit: a kind plus the span it was read from.
#[derive(Debug, PartialEq, Eq)]
pub struct Token {
    pub kind: TokenKind,
    pub span: Span,
}

impl Clone for TokenKind {
    fn clone(&self) -> (r: Self)
        ensures
            r == *self,
    {
        match self {
            TokenKind::Const => TokenKind::Const,
            TokenKind::Let => TokenKind::Let,
            TokenKind::Var => TokenKind::Var,
            TokenKind::Colon => TokenKind::Colon,
            TokenKind::Assign => TokenKind::Assign,
            TokenKind::Comma => TokenKind::Comma,
            TokenKind::Ident(s) => TokenKind::Ident(s.clone()),
            TokenKind::Literal(s) => TokenKind::Literal(s.clone()),
        }
    }
}

impl Clone for Token {
    fn clone(&self) -> (r: Self)
        ensures
            r == *self,
    {
        Token { kind: self.kind.clone(), span: self.span }
    }
}

/// A pull-based cursor over a fixed sequence of tokens.
///
/// `peek` looks at the head token without consuming it; `next` consumes it.
/// The cursor never moves backwards and never runs past the end.
pub struct TokenStream {
    tokens: Vec<Token>,
    pos: usize,
}

impl TokenStream {
    /// The tokens the stream was created over.
    pub closed spec fn toks(&self) -> Seq<Token> {
        self.tokens@
    }

    /// How many tokens have been consumed so far.
    pub closed spec fn cursor(&self) -> int {
        self.pos as int
    }

    /// The cursor stands between the start and the end of the token sequence.
    pub open spec fn wf(&self) -> bool {
        0 <= self.cursor() <= self.toks().len()
    }

    pub fn new(tokens: Vec<Token>) -> (r: Self)
        ensures
            r.toks() == tokens@,
            r.cursor() == 0,
            r.wf(),
    {
        TokenStream { tokens, pos: 0 }
    }

    /// The number of tokens consumed so far; after a failed parse this is
    /// where the failing expectation was checked.
    pub fn position(&self) -> (r: usize)
        ensures
            r as int == self.cursor(),
    {
        self.pos
    }

    /// Looks at the head token without consuming it.
    pub fn peek(&self) -> (r: Option<Token>)
        requires
            self.wf(),
        ensures
            match r {
                Some(t) => self.cursor() < self.toks().len() && t == self.toks()[self.cursor()],
                None => self.cursor() == self.toks().len(),
            },
    {
        if self.pos < self.tokens.len() {
            Some(self.tokens[self.pos].clone())
        } else {
            None
        }
    }

    /// Consumes the head token after a `peek` has already looked at it.
    pub fn skip(&mut self)
        requires
            old(self).wf(),
            old(self).cursor() < old(self).toks().len(),
        ensures
            final(self).wf(),
            final(self).toks() == old(self).toks(),
            final(self).cursor() == old(self).cursor() + 1,
    {
        let len: usize = self.tokens.len();
        assert(self.pos < len);
        self.pos = self.pos + 1;
    }

    /// Consumes and returns the head token.
    pub fn next(&mut self) -> (r: Option<Token>)
        requires
            old(self).wf(),
        ensures
            final(self).wf(),
            final(self).toks() == old(self).toks(),
            match r {
                Some(t) => {
                    &&& old(self).cursor() < old(self).toks().len()
                    &&& t == old(self).toks()[old(self).cursor()]
                    &&& final(self).cursor() == old(self).cursor() + 1
                },
                None => final(self).cursor() == old(self).cursor() && old(self).cursor() == old(
                    self,
                ).toks().len(),
            },
    {
        if self.pos < self.tokens.len() {
            let t = self.tokens[self.pos].clone();
            self.pos = self.pos + 1;
            Some(t)
        } else {
            None
        }
    }
}

} // verus!
