//! Read-only views of the syntax-tree fragments that the host traversal
//! hands to the detector.
//!
//! The host owns the tree; every node here is a fully parsed, name-resolved
//! expression. The tree is a closed sum type so that a new expression shape
//! forces a review of the rule instead of silently falling through.

use vstd::prelude::*;

verus! {

/// A source location, together with the flag saying whether the node was
/// produced by macro expansion or compiler desugaring rather than written
/// literally by the author.
#[derive(Clone, Copy, Debug, PartialEq, Eq, Structural)]
pub struct Span {
    /// Byte offset of the start of the node in its source file.
    pub lo: u64,
    /// Byte offset one past the end of the node.
    pub hi: u64,
    /// True when the node comes from macro expansion or desugaring.
    pub from_expansion: bool,
}

/// How a closure captures the variables of its environment.
#[derive(Clone, Copy, Debug, PartialEq, Eq, Structural)]
pub enum CaptureMode {
    /// A `move` closure: captures by value.
    ByValue,
    /// An ordinary closure: captures by reference.
    ByRef,
}

/// The pattern of one closure parameter.
#[derive(Clone, Copy, Debug, PartialEq, Eq, Structural)]
pub enum ParamPattern {
    /// The wildcard pattern `_`: matches anything, binds nothing.
    Wildcard,
    /// An identifier pattern that binds the argument to a name.
    Binding,
    /// Any other pattern shape (tuple, struct, literal, ...).
    OtherPattern,
}

/// What the host's name resolution found a path expression to denote.
///
/// The classification of the resolved definition is the one piece of
/// semantic (not purely structural) information the rule consumes: source
/// text alone cannot tell a zero-field variant constructor from the other
/// path forms that share its syntax.
#[derive(Clone, Copy, Debug, PartialEq, Eq, Structural)]
pub enum DefClass {
    /// Constructor of an enum variant that carries zero fields: a constant
    /// variant tag such as `Error::Indivisible`.
    UnitVariantCtor,
    /// Constructor of an enum variant that carries one or more fields.
    FieldVariantCtor,
    /// Constructor of a struct.
    StructCtor,
    /// A function or method.
    FnDef,
    /// A local variable.
    Local,
    /// Any other resolution (module, type, constant, unresolved, ...).
    OtherDef,
}

/// One expression node of the host's syntax tree, restricted to the shapes
/// this rule distinguishes; everything else is `Other`.
pub enum Expr {
    /// A method call `receiver.method(args...)`.
    MethodCall(MethodCallNode),
    /// A closure literal.
    Closure(ClosureNode),
    /// A path expression, together with its resolved classification.
    Path(PathNode),
    /// A plain call `callee(args...)`.
    Call(CallNode),
    /// Every other expression shape, kept only for its span.
    Other(Span),
}

/// A method call: the receiver is separate, so `args` holds exactly the
/// explicit arguments written between the parentheses.
pub struct MethodCallNode {
    /// The method's name.
    pub method: String,
    /// The receiver the method is called on.
    pub receiver: Box<Expr>,
    /// The explicit arguments, in source order.
    pub args: Vec<Expr>,
    /// The span of the whole call expression.
    pub span: Span,
}

/// A closure literal.
pub struct ClosureNode {
    /// Whether the closure captures by value (`move`) or by reference.
    pub capture: CaptureMode,
    /// The parameter patterns, in source order.
    pub params: Vec<ParamPattern>,
    /// The closure's body expression.
    pub body: Box<Expr>,
    /// The span of the body expression.
    pub body_span: Span,
    /// The span of the whole closure.
    pub span: Span,
}

/// A path expression, as resolved by the host.
pub struct PathNode {
    /// The classification of the definition the path resolves to.
    pub res: DefClass,
    /// The span of the path.
    pub span: Span,
}

/// A plain (non-method) call expression.
pub struct CallNode {
    /// The expression in call position.
    pub callee: Box<Expr>,
    /// The arguments, in source order.
    pub args: Vec<Expr>,
    /// The span of the whole call.
    pub span: Span,
}

impl Expr {
    /// The span every expression node carries.
    pub open spec fn spec_span(&self) -> Span {
        match *self {
            Expr::MethodCall(m) => m.span,
            Expr::Closure(c) => c.span,
            Expr::Path(p) => p.span,
            Expr::Call(c) => c.span,
            Expr::Other(s) => s,
        }
    }

    /// Returns the node's span.
    #[verifier::when_used_as_spec(spec_span)]
    pub fn span(&self) -> (s: Span)
        ensures
            s == self.spec_span(),
    {
        match self {
            Expr::MethodCall(m) => m.span,
            Expr::Closure(c) => c.span,
            Expr::Path(p) => p.span,
            Expr::Call(c) => c.span,
            Expr::Other(s) => *s,
        }
    }
}

/// One diagnostic, as handed to the host's reporting channel: the span the
/// report points at, the primary message, and a remediation note.
#[derive(Clone, Copy, Debug)]
pub struct Diagnostic {
    /// Where the report points: the offending closure body.
    pub span: Span,
    /// The primary message.
    pub message: &'static str,
    /// The remediation note.
    pub help: &'static str,
}

} // verus!
