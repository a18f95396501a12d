//! Error modeling and diagnostic reporting for a source-language front end.
//!
//! Every failure that can occur while turning source text into an abstract
//! syntax tree is represented by one closed taxonomy, [`error::AstError`].
//! Each error optionally carries a [`expr::Span`] pointing at the offending
//! source range; span-attachment combinators let construction code produce
//! unpositioned errors locally and have an enclosing scope attach the right
//! span exactly once. A renderer turns an error into a presentation-ready
//! diagnostic.

pub mod error;
pub mod expr;
pub mod parse;
pub mod render;

pub use error::AstError;
pub use error::AstResult;
pub use error::AstResultExt;
pub use error::OptionAstErrorExt;
pub use error::spanned;
pub use error::spanned_block;
pub use expr::ExprType;
pub use expr::Span;
pub use parse::ParseFailure;
