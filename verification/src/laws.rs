//! Laws of the detector, each proved from the definitions in [`crate::detector`].

use vstd::prelude::*;

use crate::ast::Diagnostic;
use crate::ast::Expr;
use crate::detector::diagnostics_of;
use crate::detector::ignores_error;
use crate::detector::is_constant_unit_variant;
use crate::detector::lint_help;
use crate::detector::lint_message;
use crate::detector::map_err_ident;
use crate::detector::spec_diagnostic;

verus! {

/// A method call whose name is not the error-mapping combinator, or that does
/// not carry exactly one explicit argument beyond the receiver, is never
/// flagged.
pub proof fn lemma_wrong_name_or_arity_never_flagged(e: Expr)
    requires
        ({
            &&& e matches Expr::MethodCall(m)
            &&& m.method@ != map_err_ident() || m.args@.len() != 1
        }),
    ensures
        !ignores_error(e),
{
}

/// An error-mapping call whose sole argument is a `move` closure (by-value
/// capture) is never flagged: the rule is scoped to by-reference closures.
pub proof fn lemma_move_closure_never_flagged(e: Expr)
    requires
        ({
            &&& e matches Expr::MethodCall(m)
            &&& m.args@.len() == 1
            &&& m.args@[0] matches Expr::Closure(c)
            &&& c.capture is ByValue
        }),
    ensures
        !ignores_error(e),
{
}

/// An error-mapping call with a by-reference closure taking one wildcard
/// parameter whose body is a constant unit-variant reference is flagged, and
/// its diagnostic points at the closure body's span and carries the fixed
/// message and note.
pub proof fn lemma_full_shape_flagged(e: Expr)
    requires
        ({
            &&& !e.spec_span().from_expansion
            &&& e matches Expr::MethodCall(m)
            &&& m.method@ == map_err_ident()
            &&& m.args@.len() == 1
            &&& m.args@[0] matches Expr::Closure(c)
            &&& c.capture is ByRef
            &&& c.params@.len() == 1
            &&& c.params@[0] is Wildcard
            &&& is_constant_unit_variant(*c.body)
        }),
    ensures
        ignores_error(e),
        spec_diagnostic(e).span == e->MethodCall_0.args@[0]->Closure_0.body_span,
        spec_diagnostic(e).message@ == lint_message(),
        spec_diagnostic(e).help@ == lint_help(),
{
}

/// A closure body that does not denote a zero-field variant constructor —
/// in particular a call to a variant constructor that itself takes an
/// argument, or a path to a constructor carrying fields — is never flagged.
pub proof fn lemma_wrapping_body_never_flagged(e: Expr)
    requires
        ({
            &&& e matches Expr::MethodCall(m)
            &&& m.args@.len() == 1
            &&& m.args@[0] matches Expr::Closure(c)
            &&& ((*c.body matches Expr::Call(_)) || !is_constant_unit_variant(*c.body))
        }),
    ensures
        !ignores_error(e),
{
}

/// A node whose span marks it as coming from macro expansion or compiler
/// desugaring is never flagged, whatever its shape.
pub proof fn lemma_expansion_never_flagged(e: Expr)
    requires
        e.spec_span().from_expansion,
    ensures
        !ignores_error(e),
{
}

/// Determinism: two runs of the detector over one unchanged visit sequence
/// produce the same diagnostics — same spans, same messages, same order.
pub proof fn lemma_runs_agree(nodes: Seq<Expr>, r1: Seq<Diagnostic>, r2: Seq<Diagnostic>)
    requires
        r1 == diagnostics_of(nodes),
        r2 == diagnostics_of(nodes),
    ensures
        r1 == r2,
{
}

} // verus!
