//! The expression-tree model the rule analyses.
//!
//! The host front end parses and type-checks the program; the rule only reads
//! the resulting typed tree.  Each node records, besides its shape and source
//! span, what the host's type-resolution oracle answered at that node: for a
//! call position, the fully-qualified path of the definition the call
//! dispatches to (`target`), and for a path expression, the path of the
//! definition the path names (`res`).  `None` means the oracle could not
//! produce a definition.  The oracle's answers are data of the tree, so the
//! same node always carries the same answer: resolution is deterministic.

use vstd::prelude::*;

use crate::path::QualifiedPath;

verus! {

/// A source location, carried through to the diagnostic for each finding.
#[derive(Clone, Copy, PartialEq, Eq, Structural, Debug)]
pub struct Span {
    pub lo: u64,
    pub hi: u64,
}

/// Whether a reported call was written as a free-function call or as a
/// method call.
#[derive(Clone, Copy, PartialEq, Eq, Structural, Debug)]
pub enum CallKind {
    Function,
    Method,
}

impl CallKind {
    /// The kind's name, with which the diagnostic message is parameterized.
    pub fn name(&self) -> (r: &'static str)
        ensures
            *self is Function ==> r@ == "function"@,
            *self is Method ==> r@ == "method"@,
    {
        match self {
            CallKind::Function => "function",
            CallKind::Method => "method",
        }
    }
}

/// One reported forbidden call: its syntactic kind and its source span.
#[derive(Clone, Copy, PartialEq, Eq, Structural, Debug)]
pub struct Finding {
    pub kind: CallKind,
    pub span: Span,
}

impl Finding {
    /// The source span at which the diagnostic is emitted.
    pub fn span(&self) -> (r: Span)
        ensures
            r == self.span,
    {
        self.span
    }
}

/// One field of a struct literal: the field's name and its value expression.
pub struct FieldBinding {
    pub name: String,
    pub expr: Expr,
}

/// An expression of the typed tree.
pub struct Expr {
    pub span: Span,
    pub kind: ExprKind,
}

/// The shapes of expression the rule distinguishes.  Shapes the rule only
/// descends through are kept schematic: `Block` stands for any compound
/// expression evaluating a sequence of sub-expressions (blocks, parentheses,
/// statement lists), and `Lit` for any leaf without sub-expressions.
pub enum ExprKind {
    /// A free-function call: `callee(args...)`.  `target` is the oracle's
    /// type-dependent resolution recorded at the call position, if any.
    Call { target: Option<QualifiedPath>, callee: Box<Expr>, args: Vec<Expr> },
    /// A method call: `receiver.name(args...)`, with the explicit arguments
    /// only.  `target` is the definition the call dispatches to, as the
    /// oracle resolved it (inherent or trait method, through any automatic
    /// dereferencing), if any.
    MethodCall { target: Option<QualifiedPath>, receiver: Box<Expr>, args: Vec<Expr> },
    /// A path expression, such as the callee of a qualified call written
    /// `<T as Trait>::method`.  `res` is the definition the path names,
    /// as the oracle resolved it, if any.
    PathExpr { res: Option<QualifiedPath> },
    /// A struct literal with its fields in declaration order and an optional
    /// base (functional-update) expression.
    StructLit { fields: Vec<FieldBinding>, base: Option<Box<Expr>> },
    /// An inline closure; its body is evaluated if and when the closure is
    /// invoked.
    Closure { body: Box<Expr> },
    /// A block, parenthesised expression or statement sequence.
    Block { exprs: Vec<Expr> },
    /// A conditional.
    If { cond: Box<Expr>, then_branch: Box<Expr>, else_branch: Option<Box<Expr>> },
    /// A binary operator application.
    Binary { lhs: Box<Expr>, rhs: Box<Expr> },
    /// A unary operator application.
    Unary { operand: Box<Expr> },
    /// A field access: `base.field`.
    FieldAccess { base: Box<Expr> },
    /// An indexing expression: `base[index]`.
    Index { base: Box<Expr>, index: Box<Expr> },
    /// A literal or any other leaf expression without sub-expressions.
    Lit,
}

} // verus!
