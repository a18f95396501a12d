//! The closed taxonomy of AST-construction failures and the span-attachment
//! combinators.
//!
//! Every failure carries an optional [`Span`]. A freshly constructed simple
//! error starts unpositioned; it becomes positioned the first time it passes
//! through an attachment combinator with a concrete span in scope, and never
//! again after that (attach-once). A `ParseError` derives its span lazily
//! from its embedded parse failure instead of storing one.

use vstd::prelude::*;
use vstd::string::StringExecFns;

use crate::expr::{ExprType, Span};
use crate::parse::{
    format_parse_failure, get_parse_error_span, parse_failure_display, spec_parse_error_span,
    ParseFailure,
};

verus! {

/// The result of a fallible AST-construction step.
pub type AstResult<T> = Result<T, AstError>;

/// A failure that occurred while turning source text into an AST.
#[derive(Debug, PartialEq, Eq)]
pub enum AstError {
    /// A syntactically valid but semantically invalid top-level definition.
    InvalidDefinition(Option<Span>),
    /// A required AST node of the given kind was absent.
    MissingNode(Option<Span>, ExprType),
    /// A node of the wrong kind was supplied: expected the first kind, got
    /// the second.
    WrongExprType(Option<Span>, ExprType, ExprType),
    /// A lower-layer parse failure, retained verbatim for message
    /// formatting. The file identity is attached separately because the
    /// failure payload itself does not know which file it came from.
    ParseError { file_id: Option<usize>, source: ParseFailure },
}

impl AstError {
    /// The span this error points at: the carried span for the three simple
    /// variants; for a parse failure, the span derived from its shape, which
    /// needs both the file identity and a derivable location.
    pub open spec fn spec_get_span(&self) -> Option<Span> {
        match *self {
            AstError::InvalidDefinition(span) => span,
            AstError::MissingNode(span, _) => span,
            AstError::WrongExprType(span, _, _) => span,
            AstError::ParseError { file_id, source } => match file_id {
                Some(id) => spec_parse_error_span(id, source),
                None => None,
            },
        }
    }

    /// Returns the span this error points at, if one is carried or
    /// derivable.
    pub fn get_span(&self) -> (r: Option<Span>)
        ensures
            r == self.spec_get_span(),
    {
        match self {
            AstError::InvalidDefinition(span) => *span,
            AstError::MissingNode(span, _) => *span,
            AstError::WrongExprType(span, _, _) => *span,
            AstError::ParseError { file_id, source } => match file_id {
                Some(id) => get_parse_error_span(*id, source),
                None => None,
            },
        }
    }

    /// Wrap a parse failure from the grammar engine, remembering which file
    /// it came from.
    pub fn from_parse_error(file_id: usize, err: ParseFailure) -> (r: AstError)
        ensures
            r == (AstError::ParseError { file_id: Some(file_id), source: err }),
    {
        AstError::ParseError { file_id: Some(file_id), source: err }
    }

    /// The message this error formats to, independent of position.
    pub open spec fn spec_message(&self) -> Seq<char> {
        match *self {
            AstError::InvalidDefinition(_) => "Definition invalid"@,
            AstError::MissingNode(_, kind) => "Expected a "@ + kind.spec_name()
                + ", but got nothing"@,
            AstError::WrongExprType(_, expected, actual) => "Wrong type of expression: Expected "@
                + expected.spec_name() + " but got "@ + actual.spec_name(),
            AstError::ParseError { file_id: _, source } => "Parse error: "@
                + parse_failure_display(source),
        }
    }

    /// Returns the error's human-readable message.
    pub fn message(&self) -> (r: String)
        ensures
            r@ == self.spec_message(),
    {
        match self {
            AstError::InvalidDefinition(_) => "Definition invalid".to_owned(),
            AstError::MissingNode(_, kind) => {
                let mut m = "Expected a ".to_owned();
                m.append(kind.name());
                m.append(", but got nothing");
                m
            },
            AstError::WrongExprType(_, expected, actual) => {
                let mut m = "Wrong type of expression: Expected ".to_owned();
                m.append(expected.name());
                m.append(" but got ");
                m.append(actual.name());
                m
            },
            AstError::ParseError { file_id: _, source } => {
                let mut m = "Parse error: ".to_owned();
                let rendered = format_parse_failure(source);
                m.append(rendered.as_str());
                m
            },
        }
    }
}

/// Whether an attachment combinator would position this error: true exactly
/// for the three simple variants while their span field is still `None`.
pub open spec fn attachable(err: AstError) -> bool {
    ||| err matches AstError::InvalidDefinition(None)
    ||| err matches AstError::MissingNode(None, _)
    ||| err matches AstError::WrongExprType(None, _, _)
}

/// What attaching `span` to `err` yields: the same variant, positioned, if
/// the error was a simple variant still unpositioned; the error unchanged
/// otherwise. Attachment never overwrites an existing span and never applies
/// to a parse failure, whose span is derived lazily instead.
pub open spec fn spec_spanned(span: Span, err: AstError) -> AstError {
    match err {
        AstError::InvalidDefinition(None) => AstError::InvalidDefinition(Some(span)),
        AstError::MissingNode(None, kind) => AstError::MissingNode(Some(span), kind),
        AstError::WrongExprType(None, expected, actual) => AstError::WrongExprType(
            Some(span),
            expected,
            actual,
        ),
        _ => err,
    }
}

/// Attach `span` to an error that is not yet positioned; leave a positioned
/// error, or a parse failure, unchanged.
pub fn spanned(span: Span, err: AstError) -> (r: AstError)
    ensures
        r == spec_spanned(span, err),
{
    match err {
        AstError::InvalidDefinition(None) => AstError::InvalidDefinition(Some(span)),
        AstError::MissingNode(None, kind) => AstError::MissingNode(Some(span), kind),
        AstError::WrongExprType(None, expected, actual) => AstError::WrongExprType(
            Some(span),
            expected,
            actual,
        ),
        other => other,
    }
}

/// Attach-once: a later attachment never replaces an earlier one, so
/// attaching twice is the same as the first attachment alone, whatever the
/// error and whatever the two spans.
pub proof fn lemma_attach_once(s1: Span, s2: Span, err: AstError)
    ensures
        spec_spanned(s1, spec_spanned(s2, err)) == spec_spanned(s2, err),
{
}

/// Attach-identity: an error that an attachment cannot position — one that
/// already carries `Some(span)`, or a parse failure — is returned unchanged
/// by `spanned`, whatever the span.
pub proof fn lemma_attach_identity(s: Span, err: AstError)
    requires
        !attachable(err),
    ensures
        spec_spanned(s, err) == err,
{
}

/// Nested scopes compose under attach-once: for a failure produced inside
/// two nested spans, the inner span wins and the outer attachment is a
/// no-op.
pub proof fn lemma_nested_attach(outer: Span, inner: Span, kind: ExprType)
    ensures
        spec_spanned(outer, spec_spanned(inner, AstError::MissingNode(None, kind)))
            == AstError::MissingNode(Some(inner), kind),
{
}

/// Run a block of AST-construction logic under a span: any failure the
/// block produces leaves the scope positioned at `span`, unless it was
/// already positioned closer to the failure site.
pub fn spanned_block<T, F: FnOnce() -> Result<T, AstError>>(span: Span, body: F) -> (r: Result<
    T,
    AstError,
>)
    requires
        call_requires(body, ()),
    ensures
        exists|r0: Result<T, AstError>|
            call_ensures(body, (), r0) && r == (match r0 {
                Ok(v) => Ok::<T, AstError>(v),
                Err(e) => Err(spec_spanned(span, e)),
            }),
{
    let r0 = body();
    match r0 {
        Ok(v) => Ok(v),
        Err(e) => Err(spanned(span, e)),
    }
}

/// Report an absent required value as an unpositioned `MissingNode`.
pub trait OptionAstErrorExt<T> {
    /// Convert an absent value into `MissingNode(None, t)`; a present value
    /// passes through unchanged.
    fn or_missing(self, t: ExprType) -> Result<T, AstError>;
}

impl<T> OptionAstErrorExt<T> for Option<T> {
    fn or_missing(self, t: ExprType) -> (r: Result<T, AstError>)
        ensures
            r == (match self {
                Some(v) => Ok::<T, AstError>(v),
                None => Err::<T, AstError>(AstError::MissingNode(None, t)),
            }),
    {
        match self {
            Some(v) => Ok(v),
            None => Err(AstError::MissingNode(None, t)),
        }
    }
}

/// Attach a span to the failure of a fallible computation.
pub trait AstResultExt<T> {
    /// Apply `spanned` to the error case; success passes through unchanged.
    fn at(self, span: Span) -> Result<T, AstError>;
}

impl<T> AstResultExt<T> for Result<T, AstError> {
    fn at(self, span: Span) -> (r: Result<T, AstError>)
        ensures
            r == (match self {
                Ok(v) => Ok::<T, AstError>(v),
                Err(e) => Err::<T, AstError>(spec_spanned(span, e)),
            }),
    {
        match self {
            Ok(v) => Ok(v),
            Err(e) => Err(spanned(span, e)),
        }
    }
}

} // verus!
