//! Diagnostics and the analysis context that collects them.

use vstd::prelude::*;
use crate::ast::SourceRange;
use crate::scope::ScopeQuery;

verus! {

/// What one diagnostic says, at the specification level: where it points
/// and the text it carries.
pub struct DiagnosticView {
    pub range: SourceRange,
    pub code: Seq<char>,
    pub message: Seq<char>,
    pub hint: Seq<char>,
}

/// One reported finding: a source range, the rule's stable code, a fixed
/// message, and a fixed remediation hint. The rule produces diagnostics;
/// the surrounding framework owns their aggregation and output.
#[derive(Debug, Clone)]
pub struct Diagnostic {
    pub range: SourceRange,
    pub code: String,
    pub message: String,
    pub hint: String,
}

impl View for Diagnostic {
    type V = DiagnosticView;

    open spec fn view(&self) -> DiagnosticView {
        DiagnosticView {
            range: self.range,
            code: self.code@,
            message: self.message@,
            hint: self.hint@,
        }
    }
}

/// The analysis context the traversal hands to the rule: the scope table's
/// answers for the program under analysis, and the diagnostics collected
/// so far.
#[derive(Debug)]
pub struct Context {
    pub scope: ScopeQuery,
    pub diagnostics: Vec<Diagnostic>,
}

impl Context {
    /// The diagnostics reported so far, oldest first.
    pub open spec fn diags(&self) -> Seq<DiagnosticView> {
        self.diagnostics@.map_values(|d: Diagnostic| d@)
    }

    /// A fresh context over `scope`, with no diagnostics yet.
    pub fn new(scope: ScopeQuery) -> (r: Context)
        ensures
            r.scope == scope,
            r.diags() == Seq::<DiagnosticView>::empty(),
    {
        let r = Context { scope, diagnostics: Vec::new() };
        proof {
            assert(r.diags() =~= Seq::<DiagnosticView>::empty());
        }
        r
    }

    /// The scope-resolution capability for the program under analysis.
    pub fn scope(&self) -> (r: &ScopeQuery)
        ensures
            r == self.scope,
    {
        &self.scope
    }

    /// Records one diagnostic; reporting never fails observably to the rule.
    pub fn add_diagnostic_with_hint(
        &mut self,
        range: SourceRange,
        code: &str,
        message: &str,
        hint: &str,
    )
        ensures
            final(self).scope == old(self).scope,
            final(self).diags() == old(self).diags().push(
                (DiagnosticView { range, code: code@, message: message@, hint: hint@ }),
            ),
    {
        let d = Diagnostic {
            range,
            code: code.to_owned(),
            message: message.to_owned(),
            hint: hint.to_owned(),
        };
        self.diagnostics.push(d);
        proof {
            assert(self.diags() =~= old(self).diags().push(
                (DiagnosticView { range, code: code@, message: message@, hint: hint@ }),
            ));
        }
    }
}

} // verus!
