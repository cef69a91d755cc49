//! A linter rule that flags Web APIs accessed through the `window` global.
//!
//! In a worker execution context there is no `window` binding, so code that
//! reaches a Web API as `window.fetch` (or `window["fetch"]`, or
//! ``window[`fetch`]``) breaks as soon as it runs outside the main thread.
//! This crate holds the analysis behind that rule: a fixed catalogue of
//! denied property names, a symbol extractor that resolves the accessed
//! property name where it is statically known, and a match evaluator that
//! combines both with lexical-scope information to decide, for each
//! member-access expression, whether a diagnostic is due.
//!
//! Parsing, tree traversal and scope-table construction belong to the host
//! linting framework; the rule consumes them as data: member-access
//! expressions arrive as [`ast::MemberExpr`] values in document order, and
//! scope resolution as a [`scope::ScopeQuery`].

pub mod ast;
pub mod deny_list;
pub mod diagnostic;
pub mod laws;
pub mod rule;
pub mod scope;
pub mod text;
