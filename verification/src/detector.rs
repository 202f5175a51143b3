//! The anti-pattern detector.
//!
//! The host traversal visits every expression node of the resolved tree
//! exactly once and hands each node to [`MapErrIgnore::check_expr`]. The
//! detector recognizes an error-mapping call whose sole argument is a
//! by-reference closure that discards its input through a wildcard parameter
//! and always produces the same constant, argument-less variant of an error
//! enum. On a full match it returns one diagnostic addressed at the closure
//! body; on any partial match it returns nothing.

use vstd::prelude::*;

use crate::ast::CaptureMode;
use crate::ast::DefClass;
use crate::ast::Diagnostic;
use crate::ast::Expr;
use crate::ast::ParamPattern;
use crate::ast::Span;

verus! {

/// The name of the error-mapping combinator this rule is about.
pub open spec fn map_err_ident() -> Seq<char> {
    "map_err"@
}

/// The diagnostic's primary message.
pub open spec fn lint_message() -> Seq<char> {
    "`map_err(|_|...` ignores the original error"@
}

/// The diagnostic's remediation note.
pub open spec fn lint_help() -> Seq<char> {
    "Consider wrapping the error in an enum variant"@
}

/// True iff `e` denotes a reference to a constant, argument-less variant
/// constructor of a sum type: a path whose resolved definition is the
/// constructor of an enum variant with zero fields. Every other expression
/// shape or classification is false.
pub open spec fn is_constant_unit_variant(e: Expr) -> bool {
    e matches Expr::Path(p) && p.res is UnitVariantCtor
}

/// The full anti-pattern: a method call, written by the author (not produced
/// by macro expansion or desugaring), of the error-mapping combinator with
/// exactly one explicit argument, that argument a by-reference closure with
/// exactly one parameter, that parameter the wildcard `_`, and the closure
/// body a constant unit-variant reference.
pub open spec fn ignores_error(e: Expr) -> bool {
    &&& !e.spec_span().from_expansion
    &&& e matches Expr::MethodCall(m)
    &&& m.method@ == map_err_ident()
    &&& m.args@.len() == 1
    &&& m.args@[0] matches Expr::Closure(c)
    &&& c.capture is ByRef
    &&& c.params@.len() == 1
    &&& c.params@[0] is Wildcard
    &&& is_constant_unit_variant(*c.body)
}

/// The span a match is reported at: the closure body's span.
pub open spec fn report_span(e: Expr) -> Span
    recommends
        ignores_error(e),
{
    match e {
        Expr::MethodCall(m) => match m.args@[0] {
            Expr::Closure(c) => c.body_span,
            _ => e.spec_span(),
        },
        _ => e.spec_span(),
    }
}

/// The diagnostic emitted for a matching node `e`.
pub open spec fn spec_diagnostic(e: Expr) -> Diagnostic
    recommends
        ignores_error(e),
{
    Diagnostic {
        span: report_span(e),
        message: "`map_err(|_|...` ignores the original error",
        help: "Consider wrapping the error in an enum variant",
    }
}

/// The diagnostics of one traversal: the host visits the tree's expression
/// nodes in `nodes` order, each exactly once, and the detector contributes
/// one diagnostic per matching node, in visit order.
pub open spec fn diagnostics_of(nodes: Seq<Expr>) -> Seq<Diagnostic>
    decreases nodes.len(),
{
    if nodes.len() == 0 {
        Seq::empty()
    } else if ignores_error(nodes.last()) {
        diagnostics_of(nodes.drop_last()).push(spec_diagnostic(nodes.last()))
    } else {
        diagnostics_of(nodes.drop_last())
    }
}

/// Shape predicate: decides whether `input` is a reference to a no-argument
/// (unit-like) variant constructor, going by the resolved definition's
/// classification alone, never by lexical shape.
pub fn is_unit_enum_variant(input: &Expr) -> (r: bool)
    ensures
        r == is_constant_unit_variant(*input),
{
    match input {
        Expr::Path(p) => match p.res {
            DefClass::UnitVariantCtor => true,
            _ => false,
        },
        _ => false,
    }
}

/// The rule: stateless between invocations; every check is a pure read of
/// the node handed in.
pub struct MapErrIgnore {}

impl MapErrIgnore {
    /// The per-node entry point the host traversal calls on every expression
    /// it visits. Returns the diagnostic to emit for this node, if any: some
    /// diagnostic exactly when the node is the full anti-pattern, addressed
    /// at the closure body's span, with the fixed message and note.
    pub fn check_expr(&self, e: &Expr) -> (r: Option<Diagnostic>)
        ensures
            r is Some <==> ignores_error(*e),
            r matches Some(d) ==> d == spec_diagnostic(*e),
    {
        if e.span().from_expansion {
            return None;
        }
        if let Expr::MethodCall(m) = e {
            let map_err_name: String = "map_err".to_owned();
            if m.method == map_err_name && m.args.len() == 1 {
                if let Expr::Closure(c) = &m.args[0] {
                    if matches!(c.capture, CaptureMode::ByRef) && c.params.len() == 1 {
                        if matches!(c.params[0], ParamPattern::Wildcard) {
                            if is_unit_enum_variant(&c.body) {
                                return Some(
                                    Diagnostic {
                                        span: c.body_span,
                                        message: "`map_err(|_|...` ignores the original error",
                                        help: "Consider wrapping the error in an enum variant",
                                    },
                                );
                            }
                        }
                    }
                }
            }
        }
        None
    }

    /// One full run of the detector: the host hands the expression nodes it
    /// visits, in visit order, and gets back every diagnostic of the
    /// traversal, in that same order.
    pub fn check_all(&self, nodes: &Vec<Expr>) -> (r: Vec<Diagnostic>)
        ensures
            r@ == diagnostics_of(nodes@),
    {
        let mut out: Vec<Diagnostic> = Vec::new();
        let mut i: usize = 0;
        while i < nodes.len()
            invariant
                i <= nodes.len(),
                out@ == diagnostics_of(nodes@.take(i as int)),
            decreases nodes.len() - i,
        {
            if let Some(d) = self.check_expr(&nodes[i]) {
                out.push(d);
            }
            i = i + 1;
            proof {
                assert(nodes@.take(i as int).drop_last() =~= nodes@.take(i - 1));
                assert(nodes@.take(i as int).last() == nodes@[i - 1]);
            }
        }
        proof {
            assert(nodes@.take(nodes@.len() as int) =~= nodes@);
        }
        out
    }
}

/// The rule's registration data, declared once at host startup: the lint's
/// identifier, its category, and a one-line description.
pub struct LintDeclaration {
    /// The lint's identifier.
    pub name: &'static str,
    /// The category the lint is registered under.
    pub category: &'static str,
    /// A one-line description of what the lint checks.
    pub description: &'static str,
}

/// The identifier this rule is registered under.
pub open spec fn lint_name() -> Seq<char> {
    "MAP_ERR_IGNORE"@
}

/// The category this rule is registered under.
pub open spec fn lint_category() -> Seq<char> {
    "pedantic"@
}

/// The one-line description this rule is registered with.
pub open spec fn lint_description() -> Seq<char> {
    "`map_err` should not ignore the original error"@
}

/// Returns the rule's registration data.
pub fn lint_declaration() -> (r: LintDeclaration)
    ensures
        r.name@ == lint_name(),
        r.category@ == lint_category(),
        r.description@ == lint_description(),
{
    LintDeclaration {
        name: "MAP_ERR_IGNORE",
        category: "pedantic",
        description: "`map_err` should not ignore the original error",
    }
}

} // verus!
