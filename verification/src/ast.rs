//! The syntactic material the rule reads, reduced to plain values.
//!
//! The host framework owns the full syntax tree; the rule only ever looks at
//! member-access expressions, and of those only at the object expression, the
//! property expression, the source range, and whether the node is itself the
//! object of an enclosing member access. These types hold exactly that.

use vstd::prelude::*;

verus! {

/// A line/column pair locating a point in the linted source text.
/// Lines count from 1 and columns from 0, as diagnostics report them.
#[derive(Clone, Copy, PartialEq, Eq, Structural, Debug)]
pub struct Position {
    pub line: usize,
    pub col: usize,
}

/// The source extent of one syntax node, used to anchor diagnostics.
#[derive(Clone, Copy, PartialEq, Eq, Structural, Debug)]
pub struct SourceRange {
    pub start: Position,
    pub end: Position,
}

/// One identifier occurrence: its text and the binding it resolves to.
///
/// The binding number identifies a declaration site; the host framework's
/// scope table assigns it. Two occurrences of the same name resolve to the
/// same binding exactly when they refer to the same declaration, and an
/// occurrence that no declaration captures resolves to a binding that the
/// scope table reports as global.
#[derive(Debug, Clone)]
pub struct Ident {
    pub sym: String,
    pub binding: u64,
}

/// The object part of a member access: a bare identifier, or anything else
/// (a call, a literal, a nested member access, ...). The rule only ever needs
/// to recognise the bare-identifier case.
#[derive(Debug, Clone)]
pub enum ObjectExpr {
    Ident(Ident),
    Other,
}

/// The key expression of a computed member access `obj[...]`.
#[derive(Debug, Clone)]
pub enum ComputedKey {
    /// A string literal key, as in `obj["prop"]`.
    StrLit(String),
    /// An identifier looked up at run time, as in `obj[key]`.
    IdentKey,
    /// A template literal key: the number of interpolated expressions and
    /// the raw text of each literal segment, as in ``obj[`prop`]`` or
    /// ``obj[`a${x}b`]``.
    Tpl { interpolations: usize, segments: Vec<String> },
    /// Any other key expression.
    OtherExpr,
}

/// The property part of a member access.
#[derive(Debug, Clone)]
pub enum MemberProp {
    /// A plain identifier property, as in `obj.prop`.
    Ident(String),
    /// A private-name property, as in `obj.#prop`.
    PrivateName(String),
    /// A computed property, as in `obj[...]`.
    Computed(ComputedKey),
}

/// One member-access expression, as the traversal hands it to the rule.
#[derive(Debug, Clone)]
pub struct MemberExpr {
    pub obj: ObjectExpr,
    pub prop: MemberProp,
    pub range: SourceRange,
    /// Whether this node is itself the object expression of an enclosing
    /// member access, as `window.fetch` is within `window.fetch.bind`.
    pub parent_is_member: bool,
}

/// A parsed source unit, reduced to its member-access expressions in
/// document order — the order in which the host traversal visits them.
#[derive(Debug, Clone)]
pub struct Program {
    pub members: Vec<MemberExpr>,
}

/// The property name that `prop` accesses, when it is statically determined.
///
/// A plain identifier, a private name, a string-literal key, and a template
/// key of exactly one segment and no interpolation each determine the name;
/// every other computed key leaves it undetermined.
pub open spec fn spec_extract_symbol(prop: MemberProp) -> Option<Seq<char>> {
    match prop {
        MemberProp::Ident(name) => Some(name@),
        MemberProp::PrivateName(name) => Some(name@),
        MemberProp::Computed(key) => match key {
            ComputedKey::StrLit(value) => Some(value@),
            ComputedKey::IdentKey => None,
            ComputedKey::Tpl { interpolations, segments } => {
                if interpolations == 0 && segments@.len() == 1 {
                    Some(segments@[0]@)
                } else {
                    None
                }
            },
            ComputedKey::OtherExpr => None,
        },
    }
}

/// Extracts the accessed property name from `prop` if it is statically
/// determined; otherwise returns `None` rather than guessing.
pub fn extract_symbol<'a>(prop: &'a MemberProp) -> (r: Option<&'a str>)
    ensures
        match r {
            Some(s) => spec_extract_symbol(*prop) == Some(s@),
            None => spec_extract_symbol(*prop) is None,
        },
{
    match prop {
        MemberProp::Ident(name) => Some(name.as_str()),
        MemberProp::PrivateName(name) => Some(name.as_str()),
        MemberProp::Computed(key) => match key {
            ComputedKey::StrLit(value) => Some(value.as_str()),
            ComputedKey::IdentKey => None,
            ComputedKey::Tpl { interpolations, segments } => {
                if *interpolations == 0 && segments.len() == 1 {
                    Some(segments[0].as_str())
                } else {
                    None
                }
            },
            ComputedKey::OtherExpr => None,
        },
    }
}

} // verus!
