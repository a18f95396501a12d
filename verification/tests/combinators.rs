use ast_diagnostics::error::AstError;
use ast_diagnostics::error::AstResultExt;
use ast_diagnostics::error::OptionAstErrorExt;
use ast_diagnostics::error::spanned;
use ast_diagnostics::error::spanned_block;
use ast_diagnostics::expr::ExprType;
use ast_diagnostics::expr::Span;

fn unrecognized_token(start: usize, end: usize) -> lalrpop_util::ParseError<usize, String, String> {
    lalrpop_util::ParseError::UnrecognizedToken {
        token: (start, "tok".to_owned(), end),
        expected: vec!["identifier".to_owned()],
    }
}

#[test]
fn attach_positions_an_unpositioned_error() {
    let s = Span(3, 7, 1);
    assert_eq!(
        spanned(s, AstError::InvalidDefinition(None)),
        AstError::InvalidDefinition(Some(s))
    );
    assert_eq!(
        spanned(s, AstError::MissingNode(None, ExprType::Number)),
        AstError::MissingNode(Some(s), ExprType::Number)
    );
    assert_eq!(
        spanned(s, AstError::WrongExprType(None, ExprType::List, ExprType::Text)),
        AstError::WrongExprType(Some(s), ExprType::List, ExprType::Text)
    );
}

#[test]
fn attach_once_first_attachment_wins() {
    let s1 = Span(0, 1, 0);
    let s2 = Span(5, 9, 2);
    let fresh = || AstError::MissingNode(None, ExprType::Identifier);
    assert_eq!(spanned(s1, spanned(s2, fresh())), spanned(s2, fresh()));
    assert_eq!(
        spanned(s1, spanned(s2, fresh())),
        AstError::MissingNode(Some(s2), ExprType::Identifier)
    );
}

#[test]
fn attach_is_identity_on_positioned_errors() {
    let carried = Span(2, 4, 0);
    let e = || AstError::WrongExprType(Some(carried), ExprType::Function, ExprType::Number);
    assert_eq!(spanned(Span(8, 8, 3), e()), e());
    let d = || AstError::InvalidDefinition(Some(carried));
    assert_eq!(spanned(Span(8, 8, 3), d()), d());
}

#[test]
fn attach_never_applies_to_parse_errors() {
    let e = || AstError::ParseError { file_id: Some(0), source: unrecognized_token(1, 2) };
    assert_eq!(spanned(Span(9, 9, 9), e()), e());
    let no_file = || AstError::ParseError { file_id: None, source: unrecognized_token(1, 2) };
    assert_eq!(spanned(Span(9, 9, 9), no_file()), no_file());
}

#[test]
fn or_missing_on_none_yields_missing_node() {
    let absent: Option<u32> = None;
    assert_eq!(
        absent.or_missing(ExprType::Number),
        Err(AstError::MissingNode(None, ExprType::Number))
    );
    let absent_str: Option<String> = None;
    assert_eq!(
        absent_str.or_missing(ExprType::Definition),
        Err(AstError::MissingNode(None, ExprType::Definition))
    );
}

#[test]
fn or_missing_on_some_passes_the_value_through() {
    assert_eq!(Some(5u32).or_missing(ExprType::Number), Ok(5u32));
    assert_eq!(Some("x".to_owned()).or_missing(ExprType::List), Ok("x".to_owned()));
}

#[test]
fn at_attaches_to_the_error_case_only() {
    let s = Span(4, 6, 1);
    let failed: Result<u32, AstError> = Err(AstError::MissingNode(None, ExprType::Text));
    assert_eq!(failed.at(s), Err(AstError::MissingNode(Some(s), ExprType::Text)));
    let ok: Result<u32, AstError> = Ok(11);
    assert_eq!(ok.at(s), Ok(11));
}

#[test]
fn spanned_block_positions_a_failure_from_inside() {
    let s = Span(10, 20, 0);
    let r: Result<u32, AstError> =
        spanned_block(s, || Err(AstError::InvalidDefinition(None)));
    assert_eq!(r, Err(AstError::InvalidDefinition(Some(s))));
    let ok: Result<u32, AstError> = spanned_block(s, || Ok(7));
    assert_eq!(ok, Ok(7));
}

#[test]
fn nested_spanned_blocks_inner_span_wins() {
    let outer = Span(0, 100, 0);
    let inner = Span(40, 44, 0);
    let r: Result<u32, AstError> = spanned_block(outer, || {
        spanned_block(inner, || Err(AstError::MissingNode(None, ExprType::Function)))
    });
    let e = r.unwrap_err();
    assert_eq!(e.get_span(), Some(inner));
    assert_eq!(e, AstError::MissingNode(Some(inner), ExprType::Function));
}
