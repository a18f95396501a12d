//! The bridge from the grammar engine's structured parse failures to spans.
//!
//! The grammar engine reports failures as `lalrpop_util::ParseError` values.
//! Tokens and lexer-originated failures are opaque to this subsystem beyond
//! being formattable, so they are represented here by their text.

use vstd::prelude::*;

use crate::expr::Span;

verus! {

#[verifier::external_type_specification]
#[verifier::reject_recursive_types(L)]
#[verifier::reject_recursive_types(T)]
#[verifier::reject_recursive_types(E)]
pub struct ExParseError<L, T, E>(lalrpop_util::ParseError<L, T, E>);

/// A structured parse failure as the grammar engine produces it: byte
/// offsets for locations, and the formatted text of tokens and of
/// lexer-originated failures.
pub type ParseFailure = lalrpop_util::ParseError<usize, String, String>;

/// The text that the grammar engine's own formatting gives a parse failure.
pub uninterp spec fn parse_failure_display(e: ParseFailure) -> Seq<char>;

/// Relies on lalrpop_util's `Display` for `ParseError`: the rendered text is
/// a function of the failure value alone, and a lexer-originated (`User`)
/// failure renders as exactly its own message.
#[verifier::external_body]
pub(crate) fn format_parse_failure(e: &ParseFailure) -> (r: String)
    ensures
        r@ == parse_failure_display(*e),
        (e matches lalrpop_util::ParseError::User { error } ==> r@ == error@),
{
    format!("{}", e)
}

/// The span a parse failure points at, within the file `file_id`: a
/// zero-width span at the reported location for an invalid token or an
/// unexpected end of input, the reported token's range for an unrecognized
/// or extra token, and no span at all for a lexer-originated failure, which
/// carries its positional detail inside its own message instead.
pub open spec fn spec_parse_error_span(file_id: usize, err: ParseFailure) -> Option<Span> {
    match err {
        lalrpop_util::ParseError::InvalidToken { location } => Some(
            Span(location, location, file_id),
        ),
        lalrpop_util::ParseError::UnrecognizedEof { location, expected: _ } => Some(
            Span(location, location, file_id),
        ),
        lalrpop_util::ParseError::UnrecognizedToken { token, expected: _ } => Some(
            Span(token.0, token.2, file_id),
        ),
        lalrpop_util::ParseError::ExtraToken { token } => Some(Span(token.0, token.2, file_id)),
        lalrpop_util::ParseError::User { error: _ } => None,
    }
}

/// Every span the derivation yields is well formed: the location-only
/// shapes give a zero-width span, and the token shapes give the token's own
/// range, which is ordered whenever the grammar engine's token is.
pub proof fn lemma_derived_span_wf(file_id: usize, err: ParseFailure)
    requires
        (err matches lalrpop_util::ParseError::UnrecognizedToken { token, expected: _ }
            ==> token.0 <= token.2),
        (err matches lalrpop_util::ParseError::ExtraToken { token } ==> token.0 <= token.2),
    ensures
        (match spec_parse_error_span(file_id, err) {
            Some(span) => span.wf(),
            None => true,
        }),
{
}

/// Derive a span from a parse failure. Total over every shape the grammar
/// engine can produce; returns `None` exactly for lexer-originated failures.
pub fn get_parse_error_span(file_id: usize, err: &ParseFailure) -> (r: Option<Span>)
    ensures
        r == spec_parse_error_span(file_id, *err),
{
    match err {
        lalrpop_util::ParseError::InvalidToken { location } => Some(
            Span(*location, *location, file_id),
        ),
        lalrpop_util::ParseError::UnrecognizedEof { location, expected: _ } => Some(
            Span(*location, *location, file_id),
        ),
        lalrpop_util::ParseError::UnrecognizedToken { token, expected: _ } => Some(
            Span(token.0, token.2, file_id),
        ),
        lalrpop_util::ParseError::ExtraToken { token } => Some(Span(token.0, token.2, file_id)),
        lalrpop_util::ParseError::User { error: _ } => None,
    }
}

} // verus!
