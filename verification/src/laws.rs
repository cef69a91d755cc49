//! What the rule guarantees, stated as proved laws over the match
//! evaluator's specification.

use vstd::prelude::*;
use crate::ast::{ComputedKey, MemberExpr, MemberProp, ObjectExpr, spec_extract_symbol};
use crate::deny_list::denied;
use crate::diagnostic::DiagnosticView;
use crate::rule::{expected_diags, is_violation, spec_diagnostic_for};
use crate::scope::ScopeQuery;

verus! {

/// Whether `prop` is one of the three statically resolvable access forms
/// that name `name`: a plain identifier property (`.name`), a
/// string-literal key (`["name"]`), or a single-segment template key with
/// no interpolation (`` [`name`] ``).
pub open spec fn names_prop_statically(prop: MemberProp, name: Seq<char>) -> bool {
    ||| prop matches MemberProp::Ident(p) && p@ == name
    ||| prop matches MemberProp::Computed(ComputedKey::StrLit(p)) && p@ == name
    ||| (prop matches MemberProp::Computed(ComputedKey::Tpl { interpolations, segments })
        && interpolations == 0 && segments@.len() == 1 && segments@[0]@ == name)
}

/// Law: a denied property name reached from the global `window` binding in
/// any of the three static access forms is a violation, and visiting that
/// one node yields exactly one diagnostic, anchored at the full access
/// expression's range.
pub proof fn lemma_denied_access_is_flagged(
    node: MemberExpr,
    scope: ScopeQuery,
    name: Seq<char>,
)
    requires
        !node.parent_is_member,
        node.obj matches ObjectExpr::Ident(obj) && obj.sym@ == "window"@
            && scope.spec_is_global(obj.binding),
        names_prop_statically(node.prop, name),
        denied(name),
    ensures
        is_violation(node, scope),
        expected_diags(seq![node], scope) == seq![spec_diagnostic_for(node)],
        spec_diagnostic_for(node).range == node.range,
{
    assert(spec_extract_symbol(node.prop) == Some(name));
    assert(is_violation(node, scope));
    let single = seq![node];
    assert(single.drop_last() =~= Seq::<MemberExpr>::empty());
    assert(single.last() == node);
    assert(expected_diags(Seq::<MemberExpr>::empty(), scope) == Seq::<DiagnosticView>::empty());
    assert(expected_diags(single, scope)
        == Seq::<DiagnosticView>::empty() + seq![spec_diagnostic_for(node)]);
    assert(Seq::<DiagnosticView>::empty() + seq![spec_diagnostic_for(node)]
        =~= seq![spec_diagnostic_for(node)]);
}

/// Law: an access whose object is any identifier other than `window` —
/// `self.p`, `globalThis.p`, or any other name — or no bare identifier at
/// all is never a violation, whatever its property is.
pub proof fn lemma_non_window_object_not_flagged(node: MemberExpr, scope: ScopeQuery)
    requires
        node.obj matches ObjectExpr::Ident(obj) ==> obj.sym@ != "window"@,
    ensures
        !is_violation(node, scope),
{
}

/// Law: an occurrence of `window` whose binding the scope table does not
/// report as global — a local variable, parameter, or destructured binding
/// that shadows the name — is never flagged.
pub proof fn lemma_shadowed_window_not_flagged(node: MemberExpr, scope: ScopeQuery)
    requires
        node.obj matches ObjectExpr::Ident(obj) ==> !scope.spec_is_global(obj.binding),
    ensures
        !is_violation(node, scope),
{
}

/// Law: a node that is itself the object of an enclosing member access —
/// an inner link of a chain such as `window.fetch` within
/// `window.fetch.bind` — is never flagged, so no chain is reported twice.
pub proof fn lemma_chained_not_flagged(node: MemberExpr, scope: ScopeQuery)
    requires
        node.parent_is_member,
    ensures
        !is_violation(node, scope),
{
}

/// Law: an access whose property name is not statically determined — a
/// computed key read from a variable, a multi-segment or interpolated
/// template, or any other dynamic expression — is never flagged.
pub proof fn lemma_undetermined_name_not_flagged(node: MemberExpr, scope: ScopeQuery)
    requires
        spec_extract_symbol(node.prop) is None,
    ensures
        !is_violation(node, scope),
{
}

/// Law: an access whose statically determined property name lies outside
/// the catalogue is never flagged.
pub proof fn lemma_name_not_denied_not_flagged(
    node: MemberExpr,
    scope: ScopeQuery,
    name: Seq<char>,
)
    requires
        spec_extract_symbol(node.prop) == Some(name),
        !denied(name),
    ensures
        !is_violation(node, scope),
{
}

/// Law: a traversal that meets no violating node reports nothing.
pub proof fn lemma_no_violation_no_diags(members: Seq<MemberExpr>, scope: ScopeQuery)
    requires
        forall|i: int| 0 <= i < members.len() ==> !is_violation(#[trigger] members[i], scope),
    ensures
        expected_diags(members, scope) == Seq::<DiagnosticView>::empty(),
    decreases members.len(),
{
    if members.len() == 0 {
    } else {
        assert(forall|i: int|
            0 <= i < members.drop_last().len()
                ==> !is_violation(#[trigger] members.drop_last()[i], scope));
        lemma_no_violation_no_diags(members.drop_last(), scope);
        assert(members.last() == members[members.len() - 1]);
        assert(expected_diags(members, scope) =~= Seq::<DiagnosticView>::empty());
    }
}

/// Law: the diagnostics due for a traversal are exactly the violating
/// nodes, kept in document order, each mapped to its one diagnostic — no
/// report without a violation, no violation without a report, and no
/// duplicates.
pub proof fn lemma_diags_are_the_violations(members: Seq<MemberExpr>, scope: ScopeQuery)
    ensures
        expected_diags(members, scope) == members.filter(
            |n: MemberExpr| is_violation(n, scope),
        ).map_values(|n: MemberExpr| spec_diagnostic_for(n)),
    decreases members.len(),
{
    reveal(Seq::filter);
    if members.len() == 0 {
        assert(members.filter(|n: MemberExpr| is_violation(n, scope)).map_values(
            |n: MemberExpr| spec_diagnostic_for(n),
        ) =~= Seq::<DiagnosticView>::empty());
    } else {
        let sub = members.drop_last();
        lemma_diags_are_the_violations(sub, scope);
        let filtered_sub = sub.filter(|n: MemberExpr| is_violation(n, scope));
        let mapped_sub = filtered_sub.map_values(|n: MemberExpr| spec_diagnostic_for(n));
        if is_violation(members.last(), scope) {
            assert(members.filter(|n: MemberExpr| is_violation(n, scope))
                == filtered_sub.push(members.last()));
            assert(filtered_sub.push(members.last()).map_values(
                |n: MemberExpr| spec_diagnostic_for(n),
            ) =~= mapped_sub.push(spec_diagnostic_for(members.last())));
            assert(mapped_sub + seq![spec_diagnostic_for(members.last())]
                =~= mapped_sub.push(spec_diagnostic_for(members.last())));
        } else {
            assert(members.filter(|n: MemberExpr| is_violation(n, scope)) == filtered_sub);
            assert(mapped_sub + Seq::<DiagnosticView>::empty() =~= mapped_sub);
        }
    }
}

} // verus!
