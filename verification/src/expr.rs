//! Source positions and expression kinds.

use vstd::prelude::*;

verus! {

/// A contiguous byte range `[start, end)` inside one source file:
/// `Span(start, end, file_id)`, where `file_id` indexes an external
/// file registry. Spans are plain values, copied freely.
#[derive(Debug, Clone, Copy, PartialEq, Eq, Structural)]
pub struct Span(pub usize, pub usize, pub usize);

impl Span {
    /// A span is well formed when it does not end before it starts.
    pub open spec fn wf(self) -> bool {
        self.0 <= self.1
    }
}

/// The syntactic category of an AST node, used to describe which kind
/// of node was required or supplied.
#[derive(Debug, Clone, Copy, PartialEq, Eq, Structural)]
pub enum ExprType {
    Definition,
    Identifier,
    Number,
    Text,
    List,
    Function,
}

impl ExprType {
    /// The lower-case word naming this kind inside error messages.
    pub open spec fn spec_name(self) -> Seq<char> {
        match self {
            ExprType::Definition => "definition"@,
            ExprType::Identifier => "identifier"@,
            ExprType::Number => "number"@,
            ExprType::Text => "text"@,
            ExprType::List => "list"@,
            ExprType::Function => "function"@,
        }
    }

    /// Returns the kind's name as a string.
    pub fn name(&self) -> (r: &'static str)
        ensures
            r@ == self.spec_name(),
    {
        match self {
            ExprType::Definition => "definition",
            ExprType::Identifier => "identifier",
            ExprType::Number => "number",
            ExprType::Text => "text",
            ExprType::List => "list",
            ExprType::Function => "function",
        }
    }
}

} // verus!
