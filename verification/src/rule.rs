//! The match evaluator and the rule descriptor.
//!
//! The host traversal invokes [`NoWindowPrefixHandler::member_expr`] once
//! per member-access expression, in document order. The callback decides,
//! from the node and the scope table's answers alone, whether the node is a
//! reportable violation, and records at most one diagnostic for it. Failing
//! any check is "not a violation", never an error.

use vstd::prelude::*;
use std::sync::Arc;
use crate::ast::{MemberExpr, ObjectExpr, Program, extract_symbol, spec_extract_symbol};
use crate::deny_list::{denied, is_denied};
use crate::diagnostic::{Context, DiagnosticView};
use crate::scope::ScopeQuery;
use crate::text::str_eq;

verus! {

/// The rule's stable code, used for diagnostic identification and for
/// suppression directives.
pub open spec fn spec_code() -> Seq<char> {
    "no-window-prefix"@
}

/// The fixed message explaining the incompatibility.
pub open spec fn spec_message() -> Seq<char> {
    "For compatibility between the Window context and the Web Workers, calling Web APIs via `window` is disallowed"@
}

/// The fixed hint naming the three alternative access forms.
pub open spec fn spec_hint() -> Seq<char> {
    "Instead, call this API via `self`, `globalThis`, or no extra prefix"@
}

/// The rule's stable code.
pub fn code_text() -> (r: &'static str)
    ensures
        r@ == spec_code(),
{
    "no-window-prefix"
}

/// The fixed diagnostic message.
pub fn message_text() -> (r: &'static str)
    ensures
        r@ == spec_message(),
{
    "For compatibility between the Window context and the Web Workers, calling Web APIs via `window` is disallowed"
}

/// The fixed remediation hint.
pub fn hint_text() -> (r: &'static str)
    ensures
        r@ == spec_hint(),
{
    "Instead, call this API via `self`, `globalThis`, or no extra prefix"
}

/// Whether `node`, under `scope`, is a reportable violation: it is the
/// outermost link of its chain, its object is a bare identifier `window`
/// that resolves to the global scope, and its property name is statically
/// determined and denied.
pub open spec fn is_violation(node: MemberExpr, scope: ScopeQuery) -> bool {
    &&& !node.parent_is_member
    &&& (node.obj matches ObjectExpr::Ident(obj) && obj.sym@ == "window"@
        && scope.spec_is_global(obj.binding))
    &&& (spec_extract_symbol(node.prop) matches Some(name) && denied(name))
}

/// The one diagnostic due for a violating node: anchored at the full
/// member-access expression's range, carrying the fixed code, message and
/// hint.
pub open spec fn spec_diagnostic_for(node: MemberExpr) -> DiagnosticView {
    DiagnosticView {
        range: node.range,
        code: spec_code(),
        message: spec_message(),
        hint: spec_hint(),
    }
}

/// The diagnostics due for `members` visited in order under `scope`: one
/// per violating node, in document order.
pub open spec fn expected_diags(members: Seq<MemberExpr>, scope: ScopeQuery) -> Seq<DiagnosticView>
    decreases members.len(),
{
    if members.len() == 0 {
        Seq::empty()
    } else {
        expected_diags(members.drop_last(), scope) + if is_violation(members.last(), scope) {
            seq![spec_diagnostic_for(members.last())]
        } else {
            Seq::empty()
        }
    }
}

/// The traversal callback of the rule.
pub struct NoWindowPrefixHandler;

impl NoWindowPrefixHandler {
    /// Evaluates one member-access expression: records exactly one
    /// diagnostic if it is a violation, and leaves the context unchanged
    /// otherwise.
    pub fn member_expr(&mut self, member_expr: &MemberExpr, ctx: &mut Context)
        ensures
            final(ctx).scope == old(ctx).scope,
            final(ctx).diags() == if is_violation(*member_expr, old(ctx).scope) {
                old(ctx).diags().push(spec_diagnostic_for(*member_expr))
            } else {
                old(ctx).diags()
            },
    {
        // Don't check chained member expressions (e.g. `foo.bar.baz`).
        if member_expr.parent_is_member {
            return;
        }
        if let ObjectExpr::Ident(obj) = &member_expr.obj {
            if str_eq(obj.sym.as_str(), "window") {
                if ctx.scope().is_global(obj.binding) {
                    if let Some(prop_symbol) = extract_symbol(&member_expr.prop) {
                        if is_denied(prop_symbol) {
                            ctx.add_diagnostic_with_hint(
                                member_expr.range,
                                code_text(),
                                message_text(),
                                hint_text(),
                            );
                        }
                    }
                }
            }
        }
    }

    /// Visits every member-access expression of `program` in document
    /// order, as the host traversal would, appending the diagnostic due
    /// for each violating node.
    pub fn traverse(&mut self, program: &Program, ctx: &mut Context)
        ensures
            final(ctx).scope == old(ctx).scope,
            final(ctx).diags() == old(ctx).diags()
                + expected_diags(program.members@, old(ctx).scope),
    {
        let ghost scope0 = old(ctx).scope;
        let ghost diags0 = old(ctx).diags();
        proof {
            assert(diags0 + expected_diags(program.members@.take(0), scope0) =~= diags0);
        }
        let n = program.members.len();
        let mut i: usize = 0;
        while i < n
            invariant
                n == program.members@.len(),
                i <= n,
                ctx.scope == scope0,
                ctx.diags() == diags0 + expected_diags(program.members@.take(i as int), scope0),
            decreases n - i,
        {
            let ghost prev = ctx.diags();
            self.member_expr(&program.members[i], ctx);
            proof {
                let taken = program.members@.take(i as int + 1);
                assert(taken.drop_last() =~= program.members@.take(i as int));
                assert(taken.last() == program.members@[i as int]);
                if is_violation(program.members@[i as int], scope0) {
                    assert(prev.push(spec_diagnostic_for(taken.last()))
                        =~= prev + seq![spec_diagnostic_for(taken.last())]);
                    assert(ctx.diags() =~= diags0 + expected_diags(taken, scope0));
                } else {
                    assert(prev + Seq::<DiagnosticView>::empty() =~= prev);
                    assert(ctx.diags() =~= diags0 + expected_diags(taken, scope0));
                }
            }
            i = i + 1;
        }
        proof {
            assert(program.members@.take(program.members@.len() as int) =~= program.members@);
        }
    }
}

/// The rule itself: a stable code, a classification tag, and the analysis
/// entry point the traversal framework invokes.
#[derive(Debug)]
pub struct NoWindowPrefix;

impl NoWindowPrefix {
    /// A fresh, shareable instance of the rule.
    pub fn new() -> (r: Arc<NoWindowPrefix>) {
        Arc::new(NoWindowPrefix)
    }

    /// The rule's classification tags: it belongs to the recommended set.
    pub fn tags(&self) -> (r: &'static [&'static str])
        ensures
            r@.len() == 1,
            r@[0]@ == "recommended"@,
    {
        &["recommended"]
    }

    /// The rule's stable code.
    pub fn code(&self) -> (r: &'static str)
        ensures
            r@ == spec_code(),
    {
        code_text()
    }

    /// Runs the rule over `program`: one callback invocation per
    /// member-access expression, in document order, one diagnostic per
    /// violating node.
    pub fn lint_program_with_ast_view(&self, context: &mut Context, program: &Program)
        ensures
            final(context).scope == old(context).scope,
            final(context).diags() == old(context).diags()
                + expected_diags(program.members@, old(context).scope),
    {
        let mut handler = NoWindowPrefixHandler;
        handler.traverse(program, context);
    }
}

} // verus!
