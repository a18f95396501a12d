//! The diagnostic renderer: turns an [`AstError`] into a presentation-ready
//! `codespan_reporting` diagnostic.

use vstd::prelude::*;

use crate::error::AstError;
use crate::expr::Span;

use codespan_reporting::diagnostic::Diagnostic;
use codespan_reporting::diagnostic::Label;
use codespan_reporting::diagnostic::LabelStyle;
use codespan_reporting::diagnostic::Severity;
use codespan_reporting::files::SimpleFiles;

verus! {

#[verifier::external_type_specification]
pub struct ExSeverity(Severity);

#[verifier::external_type_specification]
pub struct ExLabelStyle(LabelStyle);

#[verifier::external_type_specification]
#[verifier::reject_recursive_types(FileId)]
pub struct ExLabel<FileId>(Label<FileId>);

#[verifier::external_type_specification]
#[verifier::reject_recursive_types(FileId)]
pub struct ExDiagnostic<FileId>(Diagnostic<FileId>);

#[verifier::external_type_specification]
#[verifier::external_body]
#[verifier::reject_recursive_types(Name)]
#[verifier::reject_recursive_types(Source)]
pub struct ExSimpleFiles<Name, Source>(SimpleFiles<Name, Source>);

/// Relies on codespan_reporting's `Diagnostic::error`: a fresh diagnostic of
/// error severity, with an empty message and no code, labels or notes.
#[verifier::external_body]
fn new_error_diagnostic() -> (r: Diagnostic<usize>)
    ensures
        r.severity == Severity::Error,
        r.code == Option::<String>::None,
        r.message@ == Seq::<char>::empty(),
        r.labels@ == Seq::<Label<usize>>::empty(),
        r.notes@ == Seq::<String>::empty(),
{
    Diagnostic::error()
}

/// Relies on codespan_reporting's `Diagnostic::with_message`: replaces the
/// message with the given text and keeps every other part of the diagnostic.
#[verifier::external_body]
fn diagnostic_with_message(diag: Diagnostic<usize>, message: String) -> (r: Diagnostic<usize>)
    ensures
        r.severity == diag.severity,
        r.code == diag.code,
        r.message@ == message@,
        r.labels@ == diag.labels@,
        r.notes@ == diag.notes@,
{
    diag.with_message(message)
}

/// Relies on codespan_reporting's `Label::primary`: a primary label over the
/// byte range `[start, end)` of the file `file_id`, with an empty message.
#[verifier::external_body]
fn primary_label(file_id: usize, start: usize, end: usize) -> (r: Label<usize>)
    ensures
        r.style == LabelStyle::Primary,
        r.file_id == file_id,
        r.range.start == start,
        r.range.end == end,
        r.message@ == Seq::<char>::empty(),
{
    Label::primary(file_id, start..end)
}

/// Relies on codespan_reporting's `Diagnostic::with_label`: appends the one
/// label and keeps every other part of the diagnostic.
#[verifier::external_body]
fn diagnostic_with_label(diag: Diagnostic<usize>, label: Label<usize>) -> (r: Diagnostic<usize>)
    ensures
        r.severity == diag.severity,
        r.code == diag.code,
        r.message@ == diag.message@,
        r.labels@ == diag.labels@.push(label),
        r.notes@ == diag.notes@,
{
    diag.with_label(label)
}

impl AstError {
    /// Build the diagnostic for this error: its message is the error's fixed
    /// template, and if a span is carried or derivable, exactly one primary
    /// label covers that span's byte range in its file. With no span the
    /// diagnostic degrades gracefully to message-only; this never fails.
    /// The file registry is what the diagnostic's label is later rendered
    /// against; building the diagnostic itself does not read it.
    pub fn pretty_diagnostic(&self, _files: &SimpleFiles<&str, &str>) -> (r: Diagnostic<usize>)
        ensures
            r.severity == Severity::Error,
            r.message@ == self.spec_message(),
            (match self.spec_get_span() {
                Some(span) => r.labels@.len() == 1 && r.labels@[0].style == LabelStyle::Primary
                    && r.labels@[0].file_id == span.2 && r.labels@[0].range.start == span.0
                    && r.labels@[0].range.end == span.1,
                None => r.labels@.len() == 0,
            }),
    {
        let diag = new_error_diagnostic();
        let diag = diagnostic_with_message(diag, self.message());
        match self.get_span() {
            Some(span) => diagnostic_with_label(diag, primary_label(span.2, span.0, span.1)),
            None => diag,
        }
    }
}

} // verus!
