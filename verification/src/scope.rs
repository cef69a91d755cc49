//! The scope-resolution capability, as the rule consumes it.
//!
//! The host framework walks binding declarations and builds a scope table;
//! the rule only ever asks one question of it: does this identifier binding
//! resolve to the outermost (global) scope? A `ScopeQuery` carries the
//! table's answers as plain values: the set of bindings that are global.

use vstd::prelude::*;

verus! {

/// Answers whether an identifier binding resolves to the outermost (global)
/// scope. Bindings outside `global_bindings` belong to a local declaration:
/// a variable, parameter, or destructured binding that shadows the name.
#[derive(Debug, Clone)]
pub struct ScopeQuery {
    pub global_bindings: Vec<u64>,
}

impl ScopeQuery {
    /// Whether `binding` resolves to the outermost (global) scope.
    pub open spec fn spec_is_global(self, binding: u64) -> bool {
        self.global_bindings@.contains(binding)
    }

    /// Whether `binding` resolves to the outermost (global) scope.
    pub fn is_global(&self, binding: u64) -> (r: bool)
        ensures
            r == self.spec_is_global(binding),
    {
        let mut i: usize = 0;
        while i < self.global_bindings.len()
            invariant
                i <= self.global_bindings.len(),
                forall|j: int| 0 <= j < i ==> self.global_bindings@[j] != binding,
            decreases self.global_bindings.len() - i,
        {
            if self.global_bindings[i] == binding {
                return true;
            }
            i = i + 1;
        }
        false
    }
}

} // verus!
