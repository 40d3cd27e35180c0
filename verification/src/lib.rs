//! Parser and serializer for `const` / `let` / `var` declaration statements.
//!
//! A statement is parsed from a stream of tokens and holds a keyword tag plus a
//! non-empty list of declarations, each `name[: type][= initializer]`. The
//! required-versus-optional initializer distinction between `const` and
//! `let`/`var` is a compile-time strategy, so a `const` statement can never
//! hold a declaration without an initializer. Every parse and serialization
//! routine is proved against a functional model of the grammar.

pub mod error;
pub mod laws;
pub mod nodes;
pub mod settings;
pub mod span;
pub mod token;
pub mod variable;

pub use error::Expected;
pub use error::ParseError;
pub use error::ParseResult;
pub use nodes::Expression;
pub use nodes::TypeReference;
pub use nodes::VariableField;
pub use settings::ToStringSettings;
pub use span::Span;
pub use token::Token;
pub use token::TokenKind;
pub use token::TokenStream;
pub use token::TokenTag;
pub use variable::DeclarationExpression;
pub use variable::VariableDeclaration;
pub use variable::VariableKeyword;
pub use variable::VariableStatement;
