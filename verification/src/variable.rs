use vstd::prelude::*;
use vstd::string::StringExecFns;

use crate::error::Expected;
use crate::error::ParseError;
use crate::error::ParseResult;
use crate::nodes::spec_parse_expression;
use crate::nodes::spec_parse_type_reference;
use crate::nodes::spec_parse_variable_field;
use crate::nodes::Expression;
use crate::nodes::TypeReference;
use crate::nodes::VariableField;
use crate::settings::ToStringSettings;
use crate::span::Span;
use crate::token::Token;
use crate::token::TokenKind;
use crate::token::TokenStream;

verus! {

/// Parsing the initializer part of one declaration at `pos`.
///
/// An assignment operator at the head is consumed and one expression follows.
/// Without one, an optional strategy stops, consuming nothing; a required
/// strategy fails at the head token (or at the end of the stream), consuming
/// nothing.
pub open spec fn spec_parse_initializer(toks: Seq<Token>, pos: int, required: bool) -> Result<
    (Option<Expression>, int),
    (ParseError, int),
> {
    if 0 <= pos < toks.len() && toks[pos].kind is Assign {
        match spec_parse_expression(toks, pos + 1) {
            Ok((e, p)) => Ok((Some(e), p)),
            Err(ep) => Err(ep),
        }
    } else if !required {
        Ok((None, pos))
    } else if pos >= toks.len() {
        Err((ParseError::UnexpectedEnd { expected: Expected::Assign }, pos))
    } else {
        Err((ParseError::UnexpectedToken { expected: Expected::Assign, found: toks[pos] }, pos))
    }
}

/// The text of the assignment operator: spaced in pretty mode, bare otherwise.
pub open spec fn spec_assign_text(pretty: bool) -> Seq<char> {
    if pretty {
        " = "@
    } else {
        "="@
    }
}

/// The text of the initializer part: the assignment operator and the
/// expression, or nothing when no initializer is held.
pub open spec fn spec_ser_initializer(init: Option<Expression>, pretty: bool) -> Seq<char> {
    match init {
        Some(e) => spec_assign_text(pretty) + e.text@,
        None => Seq::empty(),
    }
}

/// The strategy telling a `const` declaration (initializer required) from a
/// `let`/`var` declaration (initializer optional), fixed at compile time.
///
/// `Expression` is the required strategy and always holds an initializer;
/// `Option<Expression>` is the optional one. Selecting the strategy by type
/// lets the statement variants guarantee, with no runtime check, that a
/// `const` declaration list never holds an absent initializer.
pub trait DeclarationExpression: Sized {
    /// The initializer this value holds, if any.
    spec fn decl_init(&self) -> Option<Expression>;

    /// Whether the strategy demands an initializer.
    spec fn init_required() -> bool;

    /// Parses the initializer part of one declaration.
    fn decl_from_reader(reader: &mut TokenStream) -> (r: ParseResult<Self>)
        requires
            old(reader).wf(),
        ensures
            final(reader).wf(),
            final(reader).toks() == old(reader).toks(),
            match r {
                Ok(v) => spec_parse_initializer(
                    old(reader).toks(),
                    old(reader).cursor(),
                    Self::init_required(),
                ) == Ok::<_, (ParseError, int)>((v.decl_init(), final(reader).cursor())),
                Err(e) => spec_parse_initializer(
                    old(reader).toks(),
                    old(reader).cursor(),
                    Self::init_required(),
                ) == Err::<(Option<Expression>, int), _>((e, final(reader).cursor())),
            },
    ;

    /// Appends the initializer part to the buffer.
    fn decl_to_string_from_buffer(&self, buf: &mut String, settings: &ToStringSettings, depth: u8)
        ensures
            final(buf)@ == old(buf)@ + spec_ser_initializer(self.decl_init(), settings.pretty),
    ;

    /// The initializer's span, if one is held.
    fn get_decl_position(&self) -> (r: Option<Span>)
        ensures
            r == match self.decl_init() {
                Some(e) => Some(e.span),
                None => None::<Span>,
            },
    ;

    /// Mutable access to the initializer expression, if one is held, for
    /// later compiler phases to rewrite it in place.
    fn as_option_mut_expr(&mut self) -> (r: Option<&mut Expression>)
        ensures
            match r {
                Some(e) => old(self).decl_init() == Some(*e) && final(self).decl_init() == Some(
                    *final(e),
                ),
                None => old(self).decl_init() is None && *final(self) == *old(self),
            },
    ;
}

/// The optional-initializer strategy used by `let` and `var` declarations.
impl DeclarationExpression for Option<Expression> {
    open spec fn decl_init(&self) -> Option<Expression> {
        *self
    }

    open spec fn init_required() -> bool {
        false
    }

    fn decl_from_reader(reader: &mut TokenStream) -> (r: ParseResult<Self>) {
        match reader.peek() {
            Some(t) => match t.kind {
                TokenKind::Assign => {
                    reader.skip();
                    match Expression::from_reader(reader) {
                        Ok(e) => Ok(Some(e)),
                        Err(er) => Err(er),
                    }
                },
                _ => Ok(None),
            },
            None => Ok(None),
        }
    }

    fn decl_to_string_from_buffer(&self, buf: &mut String, settings: &ToStringSettings, depth: u8) {
        match self {
            Some(expr) => {
                if settings.pretty {
                    buf.append(" = ");
                } else {
                    buf.append("=");
                }
                expr.to_string_from_buffer(buf, settings, depth);
            },
            None => {},
        }
    }

    fn get_decl_position(&self) -> (r: Option<Span>) {
        match self {
            Some(expr) => Some(expr.get_position()),
            None => None,
        }
    }

    fn as_option_mut_expr(&mut self) -> (r: Option<&mut Expression>) {
        match self {
            Some(expr) => Some(expr),
            None => None,
        }
    }
}

/// The required-initializer strategy used by `const` declarations.
impl DeclarationExpression for Expression {
    open spec fn decl_init(&self) -> Option<Expression> {
        Some(*self)
    }

    open spec fn init_required() -> bool {
        true
    }

    fn decl_from_reader(reader: &mut TokenStream) -> (r: ParseResult<Self>) {
        match reader.peek() {
            None => Err(ParseError::UnexpectedEnd { expected: Expected::Assign }),
            Some(t) => match t.kind {
                TokenKind::Assign => {
                    reader.skip();
                    Expression::from_reader(reader)
                },
                _ => Err(ParseError::UnexpectedToken { expected: Expected::Assign, found: t }),
            },
        }
    }

    fn decl_to_string_from_buffer(&self, buf: &mut String, settings: &ToStringSettings, depth: u8) {
        if settings.pretty {
            buf.append(" = ");
        } else {
            buf.append("=");
        }
        self.to_string_from_buffer(buf, settings, depth);
    }

    fn get_decl_position(&self) -> (r: Option<Span>) {
        Some(self.get_position())
    }

    fn as_option_mut_expr(&mut self) -> (r: Option<&mut Expression>) {
        Some(self)
    }
}

/// One `name[: type][= initializer]` entry of a declaration statement,
/// generic over the initializer strategy.
#[derive(Debug, PartialEq, Eq)]
pub struct VariableDeclaration<TExpr: DeclarationExpression> {
    pub name: VariableField,
    pub type_reference: Option<TypeReference>,
    pub expression: TExpr,
}

impl<TExpr: DeclarationExpression> VariableDeclaration<TExpr> {
    /// The strategy-neutral shape of this declaration, with the initializer
    /// held as an option.
    pub open spec fn as_optional(self) -> VariableDeclaration<Option<Expression>> {
        VariableDeclaration {
            name: self.name,
            type_reference: self.type_reference,
            expression: self.expression.decl_init(),
        }
    }
}

/// Parsing one declaration at `pos`: a name, then a type annotation if a
/// colon follows, then the initializer part under the given strategy. The
/// first failure is returned unchanged, with the cursor of the failing check.
pub open spec fn spec_parse_declaration(toks: Seq<Token>, pos: int, required: bool) -> Result<
    (VariableDeclaration<Option<Expression>>, int),
    (ParseError, int),
> {
    match spec_parse_variable_field(toks, pos) {
        Err(ep) => Err(ep),
        Ok((name, p1)) => if p1 < toks.len() && toks[p1].kind is Colon {
            match spec_parse_type_reference(toks, p1 + 1) {
                Err(ep) => Err(ep),
                Ok((ty, p2)) => match spec_parse_initializer(toks, p2, required) {
                    Err(ep) => Err(ep),
                    Ok((init, p3)) => Ok(
                        (
                            VariableDeclaration {
                                name,
                                type_reference: Some(ty),
                                expression: init,
                            },
                            p3,
                        ),
                    ),
                },
            }
        } else {
            match spec_parse_initializer(toks, p1, required) {
                Err(ep) => Err(ep),
                Ok((init, p3)) => Ok(
                    (VariableDeclaration { name, type_reference: None, expression: init }, p3),
                ),
            }
        },
    }
}

/// The text of one declaration: the name, the type annotation when present
/// and enabled, then the initializer part.
pub open spec fn spec_ser_declaration(
    d: VariableDeclaration<Option<Expression>>,
    settings: ToStringSettings,
) -> Seq<char> {
    d.name.name@ + (match d.type_reference {
        Some(ty) => if settings.include_types {
            ": "@ + ty.name@
        } else {
            Seq::<char>::empty()
        },
        None => Seq::<char>::empty(),
    }) + spec_ser_initializer(d.expression, settings.pretty)
}

/// The span of one declaration: the name's span joined with the
/// initializer's if one is held, else with the type annotation's if one is
/// present, else the name's span alone.
pub open spec fn spec_declaration_position(d: VariableDeclaration<Option<Expression>>) -> Span {
    match d.expression {
        Some(e) => d.name.span.spec_union(e.span),
        None => match d.type_reference {
            Some(ty) => d.name.span.spec_union(ty.span),
            None => d.name.span,
        },
    }
}

impl<TExpr: DeclarationExpression> VariableDeclaration<TExpr> {
    /// Reads one declaration. Any sub-parser failure aborts and is returned
    /// as-is; no partial declaration is built.
    pub fn from_reader(reader: &mut TokenStream) -> (r: ParseResult<Self>)
        requires
            old(reader).wf(),
        ensures
            final(reader).wf(),
            final(reader).toks() == old(reader).toks(),
            r is Ok ==> old(reader).cursor() < final(reader).cursor(),
            match r {
                Ok(d) => spec_parse_declaration(
                    old(reader).toks(),
                    old(reader).cursor(),
                    TExpr::init_required(),
                ) == Ok::<_, (ParseError, int)>((d.as_optional(), final(reader).cursor())),
                Err(e) => spec_parse_declaration(
                    old(reader).toks(),
                    old(reader).cursor(),
                    TExpr::init_required(),
                ) == Err::<(VariableDeclaration<Option<Expression>>, int), _>(
                    (e, final(reader).cursor()),
                ),
            },
    {
        let name = match VariableField::from_reader(reader) {
            Ok(name) => name,
            Err(e) => {
                return Err(e);
            },
        };
        let type_reference = match reader.peek() {
            Some(t) => match t.kind {
                TokenKind::Colon => {
                    reader.skip();
                    match TypeReference::from_reader(reader) {
                        Ok(ty) => Some(ty),
                        Err(e) => {
                            return Err(e);
                        },
                    }
                },
                _ => None,
            },
            None => None,
        };
        let expression = match TExpr::decl_from_reader(reader) {
            Ok(expression) => expression,
            Err(e) => {
                return Err(e);
            },
        };
        Ok(VariableDeclaration { name, type_reference, expression })
    }

    /// Appends this declaration's text to the buffer.
    pub fn to_string_from_buffer(&self, buf: &mut String, settings: &ToStringSettings, depth: u8)
        ensures
            final(buf)@ == old(buf)@ + spec_ser_declaration(self.as_optional(), *settings),
    {
        self.name.to_string_from_buffer(buf, settings, depth);
        if settings.include_types {
            match &self.type_reference {
                Some(type_reference) => {
                    buf.append(": ");
                    type_reference.to_string_from_buffer(buf, settings, depth);
                },
                None => {},
            }
        }
        self.expression.decl_to_string_from_buffer(buf, settings, depth);
        proof {
            assert(buf@ =~= old(buf)@ + spec_ser_declaration(self.as_optional(), *settings));
        }
    }

    /// The span this declaration covers.
    pub fn get_position(&self) -> (r: Span)
        ensures
            r == spec_declaration_position(self.as_optional()),
    {
        let name_position = self.name.get_position();
        match self.expression.get_decl_position() {
            Some(expr_pos) => name_position.union(&expr_pos),
            None => match &self.type_reference {
                Some(type_reference) => name_position.union(&type_reference.get_position()),
                None => name_position,
            },
        }
    }
}

/// The statement's keyword tag, carrying the span of the keyword token it was
/// parsed from.
#[derive(Debug, Clone, Copy, PartialEq, Eq, Structural)]
pub enum VariableKeyword {
    Const(Span),
    Let(Span),
    Var(Span),
}

/// Whether a token kind is one of the three declaration keywords.
pub open spec fn spec_is_variable_keyword(kind: TokenKind) -> bool {
    kind is Const || kind is Let || kind is Var
}

/// Decoding a keyword token: a `const`, `let` or `var` token yields the
/// matching tag carrying the token's span; any other token is refused, with
/// the three keyword kinds named as expected.
pub open spec fn spec_keyword_of(token: Token) -> Result<VariableKeyword, ParseError> {
    match token.kind {
        TokenKind::Const => Ok(VariableKeyword::Const(token.span)),
        TokenKind::Let => Ok(VariableKeyword::Let(token.span)),
        TokenKind::Var => Ok(VariableKeyword::Var(token.span)),
        _ => Err(
            ParseError::UnexpectedToken { expected: Expected::DeclarationKeyword, found: token },
        ),
    }
}

/// The canonical lowercase keyword followed by a single trailing space.
pub open spec fn spec_keyword_text(kw: VariableKeyword) -> Seq<char> {
    match kw {
        VariableKeyword::Const(_) => "const "@,
        VariableKeyword::Let(_) => "let "@,
        VariableKeyword::Var(_) => "var "@,
    }
}

impl VariableKeyword {
    /// The span of the keyword token.
    pub open spec fn spec_get_position(self) -> Span {
        match self {
            VariableKeyword::Const(span) => span,
            VariableKeyword::Let(span) => span,
            VariableKeyword::Var(span) => span,
        }
    }

    /// Whether the statement dispatcher should hand the stream to this
    /// parser: true exactly for the three declaration keywords.
    pub fn is_token_variable_keyword(token: &TokenKind) -> (r: bool)
        ensures
            r == spec_is_variable_keyword(*token),
    {
        matches!(token, TokenKind::Const | TokenKind::Let | TokenKind::Var)
    }

    /// Decodes one token as a declaration keyword.
    pub fn from_reader(token: Token) -> (r: ParseResult<VariableKeyword>)
        ensures
            r == spec_keyword_of(token),
    {
        match token.kind {
            TokenKind::Const => Ok(VariableKeyword::Const(token.span)),
            TokenKind::Let => Ok(VariableKeyword::Let(token.span)),
            TokenKind::Var => Ok(VariableKeyword::Var(token.span)),
            _ => Err(
                ParseError::UnexpectedToken { expected: Expected::DeclarationKeyword, found: token },
            ),
        }
    }

    /// The canonical keyword text with its trailing space, for serialization.
    pub fn as_str(&self) -> (r: &str)
        ensures
            r@ == spec_keyword_text(*self),
    {
        match self {
            VariableKeyword::Const(_) => "const ",
            VariableKeyword::Let(_) => "let ",
            VariableKeyword::Var(_) => "var ",
        }
    }

    pub fn get_position(&self) -> (r: &Span)
        ensures
            *r == self.spec_get_position(),
    {
        match self {
            VariableKeyword::Const(span) => span,
            VariableKeyword::Let(span) => span,
            VariableKeyword::Var(span) => span,
        }
    }
}

/// The strategy-neutral mathematical shape of a statement: its keyword tag
/// and span, and its declarations as a sequence.
pub enum VariableStatementView {
    ConstDeclaration {
        keyword: Span,
        declarations: Seq<VariableDeclaration<Option<Expression>>>,
    },
    LetDeclaration {
        keyword: Span,
        declarations: Seq<VariableDeclaration<Option<Expression>>>,
    },
    VarDeclaration {
        keyword: Span,
        declarations: Seq<VariableDeclaration<Option<Expression>>>,
    },
}

impl VariableStatementView {
    pub open spec fn keyword_span(self) -> Span {
        match self {
            VariableStatementView::ConstDeclaration { keyword, .. } => keyword,
            VariableStatementView::LetDeclaration { keyword, .. } => keyword,
            VariableStatementView::VarDeclaration { keyword, .. } => keyword,
        }
    }

    pub open spec fn declarations(self) -> Seq<VariableDeclaration<Option<Expression>>> {
        match self {
            VariableStatementView::ConstDeclaration { declarations, .. } => declarations,
            VariableStatementView::LetDeclaration { declarations, .. } => declarations,
            VariableStatementView::VarDeclaration { declarations, .. } => declarations,
        }
    }

    /// A statement's declaration list is never empty.
    pub open spec fn wf(self) -> bool {
        self.declarations().len() >= 1
    }
}

/// The strategy-neutral shapes of a sequence of declarations.
pub open spec fn spec_declarations_view<TExpr: DeclarationExpression>(
    ds: Seq<VariableDeclaration<TExpr>>,
) -> Seq<VariableDeclaration<Option<Expression>>> {
    ds.map_values(|d: VariableDeclaration<TExpr>| d.as_optional())
}

/// Prepending already-parsed declarations to the outcome of parsing the rest
/// of a declaration list.
pub open spec fn spec_list_continue(
    prefix: Seq<VariableDeclaration<Option<Expression>>>,
    rest: Result<(Seq<VariableDeclaration<Option<Expression>>>, int), (ParseError, int)>,
) -> Result<(Seq<VariableDeclaration<Option<Expression>>>, int), (ParseError, int)> {
    match rest {
        Ok((ds, p)) => Ok((prefix + ds, p)),
        Err(ep) => Err(ep),
    }
}

/// Parsing a comma-separated declaration list at `pos`: one declaration, then
/// another after each comma. The end of the stream after a declaration is a
/// normal stop, never a failure.
pub open spec fn spec_parse_declaration_list(toks: Seq<Token>, pos: int, required: bool) -> Result<
    (Seq<VariableDeclaration<Option<Expression>>>, int),
    (ParseError, int),
>
    decreases toks.len() - pos,
{
    match spec_parse_declaration(toks, pos, required) {
        Err(ep) => Err(ep),
        Ok((d, p)) => {
            // a declaration consumes at least its name token, so `pos < p`;
            // the test keeps the recursion visibly bounded
            if pos < p && p < toks.len() && toks[p].kind is Comma {
                spec_list_continue(seq![d], spec_parse_declaration_list(toks, p + 1, required))
            } else {
                Ok((seq![d], p))
            }
        },
    }
}

/// Parsing a whole statement at `pos`: a declaration keyword, then a
/// declaration list whose strategy matches it (`const` requires initializers,
/// `let`/`var` leave them optional).
pub open spec fn spec_parse_statement(toks: Seq<Token>, pos: int) -> Result<
    (VariableStatementView, int),
    (ParseError, int),
> {
    if pos >= toks.len() {
        Err((ParseError::UnexpectedEnd { expected: Expected::DeclarationKeyword }, pos))
    } else {
        match spec_keyword_of(toks[pos]) {
            Err(e) => Err((e, pos)),
            Ok(kw) => match spec_parse_declaration_list(toks, pos + 1, kw is Const) {
                Err(ep) => Err(ep),
                Ok((ds, p)) => Ok(
                    (
                        match kw {
                            VariableKeyword::Const(s) => VariableStatementView::ConstDeclaration {
                                keyword: s,
                                declarations: ds,
                            },
                            VariableKeyword::Let(s) => VariableStatementView::LetDeclaration {
                                keyword: s,
                                declarations: ds,
                            },
                            VariableKeyword::Var(s) => VariableStatementView::VarDeclaration {
                                keyword: s,
                                declarations: ds,
                            },
                        },
                        p,
                    ),
                ),
            },
        }
    }
}

/// The separator between declarations: a comma, followed by one space in
/// pretty mode.
pub open spec fn spec_separator(pretty: bool) -> Seq<char> {
    if pretty {
        ", "@
    } else {
        ","@
    }
}

/// The text of a declaration list: the declarations in order, separated and
/// with no trailing separator.
pub open spec fn spec_ser_declaration_list(
    ds: Seq<VariableDeclaration<Option<Expression>>>,
    settings: ToStringSettings,
) -> Seq<char>
    decreases ds.len(),
{
    if ds.len() == 0 {
        Seq::empty()
    } else {
        spec_ser_declaration_list(ds.drop_last(), settings) + (if ds.len() > 1 {
            spec_separator(settings.pretty)
        } else {
            Seq::<char>::empty()
        }) + spec_ser_declaration(ds.last(), settings)
    }
}

/// The text of a whole statement: the keyword with its trailing space, then
/// the declaration list.
pub open spec fn spec_ser_statement(
    st: VariableStatementView,
    settings: ToStringSettings,
) -> Seq<char> {
    (match st {
        VariableStatementView::ConstDeclaration { .. } => "const "@,
        VariableStatementView::LetDeclaration { .. } => "let "@,
        VariableStatementView::VarDeclaration { .. } => "var "@,
    }) + spec_ser_declaration_list(st.declarations(), settings)
}

/// The span of a whole statement: the keyword's span joined with the last
/// declaration's.
pub open spec fn spec_statement_position(st: VariableStatementView) -> Span {
    st.keyword_span().spec_union(spec_declaration_position(st.declarations().last()))
}

proof fn lemma_list_continue_nil(
    rest: Result<(Seq<VariableDeclaration<Option<Expression>>>, int), (ParseError, int)>,
)
    ensures
        spec_list_continue(Seq::empty(), rest) == rest,
{
    match rest {
        Ok((ds, p)) => {
            assert(Seq::empty() + ds =~= ds);
        },
        Err(_) => {},
    }
}

proof fn lemma_list_continue_assoc(
    a: Seq<VariableDeclaration<Option<Expression>>>,
    b: Seq<VariableDeclaration<Option<Expression>>>,
    rest: Result<(Seq<VariableDeclaration<Option<Expression>>>, int), (ParseError, int)>,
)
    ensures
        spec_list_continue(a, spec_list_continue(b, rest)) == spec_list_continue(a + b, rest),
{
    match rest {
        Ok((ds, p)) => {
            assert(a + (b + ds) =~= (a + b) + ds);
        },
        Err(_) => {},
    }
}

/// Reads one or more comma-separated declarations of one strategy.
fn declarations_from_reader<TExpr: DeclarationExpression>(reader: &mut TokenStream) -> (r:
    ParseResult<Vec<VariableDeclaration<TExpr>>>)
    requires
        old(reader).wf(),
    ensures
        final(reader).wf(),
        final(reader).toks() == old(reader).toks(),
        match r {
            Ok(ds) => spec_parse_declaration_list(
                old(reader).toks(),
                old(reader).cursor(),
                TExpr::init_required(),
            ) == Ok::<_, (ParseError, int)>(
                (spec_declarations_view(ds@), final(reader).cursor()),
            ) && ds@.len() >= 1,
            Err(e) => spec_parse_declaration_list(
                old(reader).toks(),
                old(reader).cursor(),
                TExpr::init_required(),
            ) == Err::<(Seq<VariableDeclaration<Option<Expression>>>, int), _>(
                (e, final(reader).cursor()),
            ),
        },
{
    let ghost toks = old(reader).toks();
    let ghost start = old(reader).cursor();
    let ghost full = spec_parse_declaration_list(toks, start, TExpr::init_required());
    let mut declarations: Vec<VariableDeclaration<TExpr>> = Vec::new();
    proof {
        assert(spec_declarations_view(declarations@) =~= Seq::<
            VariableDeclaration<Option<Expression>>,
        >::empty());
        lemma_list_continue_nil(spec_parse_declaration_list(toks, start, TExpr::init_required()));
    }
    loop
        invariant_except_break
            full == spec_list_continue(
                spec_declarations_view(declarations@),
                spec_parse_declaration_list(toks, reader.cursor(), TExpr::init_required()),
            ),
        invariant
            reader.wf(),
            reader.toks() == toks,
            toks == old(reader).toks(),
            start == old(reader).cursor(),
            full == spec_parse_declaration_list(toks, start, TExpr::init_required()),
        ensures
            reader.wf(),
            reader.toks() == toks,
            declarations@.len() >= 1,
            full == Ok::<_, (ParseError, int)>(
                (spec_declarations_view(declarations@), reader.cursor()),
            ),
        decreases toks.len() - reader.cursor(),
    {
        let ghost cur = reader.cursor();
        let ghost prefix = spec_declarations_view(declarations@);
        let value = match VariableDeclaration::<TExpr>::from_reader(reader) {
            Ok(value) => value,
            Err(e) => {
                return Err(e);
            },
        };
        declarations.push(value);
        proof {
            assert(spec_declarations_view(declarations@) =~= prefix + seq![value.as_optional()]);
        }
        match reader.peek() {
            Some(t) => match t.kind {
                TokenKind::Comma => {
                    reader.skip();
                    proof {
                        lemma_list_continue_assoc(
                            prefix,
                            seq![value.as_optional()],
                            spec_parse_declaration_list(
                                toks,
                                reader.cursor(),
                                TExpr::init_required(),
                            ),
                        );
                    }
                },
                _ => {
                    proof {
                        assert(full == Ok::<_, (ParseError, int)>(
                            (spec_declarations_view(declarations@), reader.cursor()),
                        ));
                    }
                    break ;
                },
            },
            None => {
                proof {
                    assert(full == Ok::<_, (ParseError, int)>(
                        (spec_declarations_view(declarations@), reader.cursor()),
                    ));
                }
                break ;
            },
        }
    }
    Ok(declarations)
}

/// Appends one or more declarations with their separators.
fn declarations_to_string<TExpr: DeclarationExpression>(
    declarations: &Vec<VariableDeclaration<TExpr>>,
    buf: &mut String,
    settings: &ToStringSettings,
    depth: u8,
)
    ensures
        final(buf)@ == old(buf)@ + spec_ser_declaration_list(
            spec_declarations_view(declarations@),
            *settings,
        ),
{
    let ghost dsv = spec_declarations_view(declarations@);
    let mut i: usize = 0;
    proof {
        assert(dsv.take(0) =~= Seq::<VariableDeclaration<Option<Expression>>>::empty());
    }
    while i < declarations.len()
        invariant
            i <= declarations.len(),
            dsv == spec_declarations_view(declarations@),
            buf@ == old(buf)@ + spec_ser_declaration_list(dsv.take(i as int), *settings),
        decreases declarations.len() - i,
    {
        if i > 0 {
            if settings.pretty {
                buf.append(", ");
            } else {
                buf.append(",");
            }
        }
        declarations[i].to_string_from_buffer(buf, settings, depth);
        proof {
            assert(dsv.take(i + 1).drop_last() =~= dsv.take(i as int));
            assert(dsv.take(i + 1).last() == declarations@[i as int].as_optional());
            assert(buf@ =~= old(buf)@ + spec_ser_declaration_list(dsv.take(i + 1), *settings));
        }
        i = i + 1;
    }
    proof {
        assert(dsv.take(declarations@.len() as int) =~= dsv);
    }
}

/// A whole `const`, `let` or `var` statement: a keyword tag and a non-empty
/// list of declarations whose initializer strategy matches the keyword.
#[derive(Debug, PartialEq, Eq)]
pub enum VariableStatement {
    ConstDeclaration { keyword: Span, declarations: Vec<VariableDeclaration<Expression>> },
    LetDeclaration { keyword: Span, declarations: Vec<VariableDeclaration<Option<Expression>>> },
    VarDeclaration { keyword: Span, declarations: Vec<VariableDeclaration<Option<Expression>>> },
}

impl View for VariableStatement {
    type V = VariableStatementView;

    open spec fn view(&self) -> VariableStatementView {
        match self {
            VariableStatement::ConstDeclaration { keyword, declarations } => {
                VariableStatementView::ConstDeclaration {
                    keyword: *keyword,
                    declarations: spec_declarations_view(declarations@),
                }
            },
            VariableStatement::LetDeclaration { keyword, declarations } => {
                VariableStatementView::LetDeclaration {
                    keyword: *keyword,
                    declarations: spec_declarations_view(declarations@),
                }
            },
            VariableStatement::VarDeclaration { keyword, declarations } => {
                VariableStatementView::VarDeclaration {
                    keyword: *keyword,
                    declarations: spec_declarations_view(declarations@),
                }
            },
        }
    }
}

impl VariableStatement {
    /// Reads one whole statement from the stream. Any failure is terminal:
    /// no partial statement is built, and the cursor stands where the failing
    /// expectation was checked.
    pub fn from_reader(reader: &mut TokenStream) -> (r: ParseResult<VariableStatement>)
        requires
            old(reader).wf(),
        ensures
            final(reader).wf(),
            final(reader).toks() == old(reader).toks(),
            match r {
                Ok(st) => spec_parse_statement(old(reader).toks(), old(reader).cursor())
                    == Ok::<_, (ParseError, int)>((st@, final(reader).cursor())) && st@.wf(),
                Err(e) => spec_parse_statement(old(reader).toks(), old(reader).cursor())
                    == Err::<(VariableStatementView, int), _>((e, final(reader).cursor())),
            },
    {
        let head = match reader.peek() {
            Some(head) => head,
            None => {
                return Err(ParseError::UnexpectedEnd { expected: Expected::DeclarationKeyword });
            },
        };
        let kind = match VariableKeyword::from_reader(head) {
            Ok(kind) => kind,
            Err(e) => {
                return Err(e);
            },
        };
        reader.skip();
        match kind {
            VariableKeyword::Const(keyword) => {
                match declarations_from_reader::<Expression>(reader) {
                    Ok(declarations) => Ok(
                        VariableStatement::ConstDeclaration { keyword, declarations },
                    ),
                    Err(e) => Err(e),
                }
            },
            VariableKeyword::Let(keyword) => {
                match declarations_from_reader::<Option<Expression>>(reader) {
                    Ok(declarations) => Ok(
                        VariableStatement::LetDeclaration { keyword, declarations },
                    ),
                    Err(e) => Err(e),
                }
            },
            VariableKeyword::Var(keyword) => {
                match declarations_from_reader::<Option<Expression>>(reader) {
                    Ok(declarations) => Ok(
                        VariableStatement::VarDeclaration { keyword, declarations },
                    ),
                    Err(e) => Err(e),
                }
            },
        }
    }

    /// Appends this statement's text to the buffer: the keyword, then the
    /// declarations in list order with a separator between consecutive
    /// entries and none after the last.
    pub fn to_string_from_buffer(&self, buf: &mut String, settings: &ToStringSettings, depth: u8)
        ensures
            final(buf)@ == old(buf)@ + spec_ser_statement(self@, *settings),
    {
        match self {
            VariableStatement::ConstDeclaration { declarations, .. } => {
                buf.append("const ");
                declarations_to_string(declarations, buf, settings, depth);
            },
            VariableStatement::LetDeclaration { declarations, .. } => {
                buf.append("let ");
                declarations_to_string(declarations, buf, settings, depth);
            },
            VariableStatement::VarDeclaration { declarations, .. } => {
                buf.append("var ");
                declarations_to_string(declarations, buf, settings, depth);
            },
        }
        proof {
            assert(buf@ =~= old(buf)@ + spec_ser_statement(self@, *settings));
        }
    }

    /// The span from the keyword to the last declaration.
    pub fn get_position(&self) -> (r: Span)
        requires
            self@.wf(),
        ensures
            r == spec_statement_position(self@),
    {
        match self {
            VariableStatement::ConstDeclaration { keyword, declarations } => {
                keyword.union(&declarations[declarations.len() - 1].get_position())
            },
            VariableStatement::LetDeclaration { keyword, declarations } => {
                keyword.union(&declarations[declarations.len() - 1].get_position())
            },
            VariableStatement::VarDeclaration { keyword, declarations } => {
                keyword.union(&declarations[declarations.len() - 1].get_position())
            },
        }
    }

    /// True exactly for the `const` form.
    pub fn is_constant(&self) -> (r: bool)
        ensures
            r == (self@ is ConstDeclaration),
    {
        matches!(self, VariableStatement::ConstDeclaration { .. })
    }
}

} // verus!
