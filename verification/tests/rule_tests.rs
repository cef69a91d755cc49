use no_window_prefix::ast::{
    extract_symbol,
    ComputedKey, Ident, MemberExpr, MemberProp, ObjectExpr, Position, Program, SourceRange,
};
use no_window_prefix::deny_list::is_denied;
use no_window_prefix::diagnostic::{Context, Diagnostic};
use no_window_prefix::rule::NoWindowPrefix;
use no_window_prefix::scope::ScopeQuery;

const MESSAGE: &str = "For compatibility between the Window context and the Web Workers, calling Web APIs via `window` is disallowed";
const HINT: &str = "Instead, call this API via `self`, `globalThis`, or no extra prefix";

/// The binding number the scope table hands out for the global scope's
/// `window` (and every other unshadowed global identifier).
const GLOBAL: u64 = 0;
/// A binding number for a local declaration that shadows a global name.
const LOCAL: u64 = 1;

fn at(line: usize, col: usize, end_col: usize) -> SourceRange {
    SourceRange {
        start: Position { line, col },
        end: Position { line, col: end_col },
    }
}

fn ident_obj(sym: &str, binding: u64) -> ObjectExpr {
    ObjectExpr::Ident(Ident {
        sym: sym.to_string(),
        binding,
    })
}

fn node(obj: ObjectExpr, prop: MemberProp, range: SourceRange, parent_is_member: bool) -> MemberExpr {
    MemberExpr {
        obj,
        prop,
        range,
        parent_is_member,
    }
}

/// `window.<name>` at line 1, column 0, with `window` bound globally.
fn w_dot(name: &str) -> MemberExpr {
    node(
        ident_obj("window", GLOBAL),
        MemberProp::Ident(name.to_string()),
        at(1, 0, 7 + name.len()),
        false,
    )
}

/// `window["<name>"]` at line 1, column 0, with `window` bound globally.
fn w_bracket(name: &str) -> MemberExpr {
    node(
        ident_obj("window", GLOBAL),
        MemberProp::Computed(ComputedKey::StrLit(name.to_string())),
        at(1, 0, 9 + name.len()),
        false,
    )
}

/// ``window[`<name>`]`` at line 1, column 0, with `window` bound globally.
fn w_tpl(name: &str) -> MemberExpr {
    node(
        ident_obj("window", GLOBAL),
        MemberProp::Computed(ComputedKey::Tpl {
            interpolations: 0,
            segments: vec![name.to_string()],
        }),
        at(1, 0, 9 + name.len()),
        false,
    )
}

/// `<obj>.<name>` at line 1, column 0, with `<obj>` bound globally.
fn g_dot(obj: &str, name: &str) -> MemberExpr {
    node(
        ident_obj(obj, GLOBAL),
        MemberProp::Ident(name.to_string()),
        at(1, 0, obj.len() + 1 + name.len()),
        false,
    )
}

/// Runs the rule over `members` with a scope table whose only global
/// binding is `GLOBAL`, and returns the diagnostics it reported.
fn lint(members: Vec<MemberExpr>) -> Vec<Diagnostic> {
    let rule = NoWindowPrefix::new();
    let mut ctx = Context::new(ScopeQuery {
        global_bindings: vec![GLOBAL],
    });
    rule.lint_program_with_ast_view(&mut ctx, &Program { members });
    ctx.diagnostics
}

fn assert_lint_ok(members: Vec<MemberExpr>) {
    let diags = lint(members);
    assert!(diags.is_empty());
}

/// The two member expressions of a chain `<obj>.<mid>.<name>`, in document
/// order: the outer link first (its object is the inner member expression),
/// then the inner link (marked as the object of its parent).
fn chain2(obj: &str, mid: &str, name: &str) -> Vec<MemberExpr> {
    let outer = node(
        ObjectExpr::Other,
        MemberProp::Ident(name.to_string()),
        at(1, 0, obj.len() + mid.len() + name.len() + 2),
        false,
    );
    let inner = node(
        ident_obj(obj, GLOBAL),
        MemberProp::Ident(mid.to_string()),
        at(1, 0, obj.len() + 1 + mid.len()),
        true,
    );
    vec![outer, inner]
}

/// The six access forms of the original's valid cases for one property
/// name outside the catalogue: bare, `self.`, `globalThis.`, `window.`,
/// `window["..."]`, and ``window[`...`]``.
fn assert_all_forms_ok(name: &str) {
    // bare `name;` / `name();`: no member expression at all
    assert_lint_ok(vec![]);
    assert_lint_ok(vec![g_dot("self", name)]);
    assert_lint_ok(vec![g_dot("globalThis", name)]);
    assert_lint_ok(vec![w_dot(name)]);
    assert_lint_ok(vec![w_bracket(name)]);
    assert_lint_ok(vec![w_tpl(name)]);
}

#[test]
fn no_deprecated_deno_api_valid() {
    // fetch(); self.fetch(); globalThis.fetch();
    assert_lint_ok(vec![]);
    assert_lint_ok(vec![g_dot("self", "fetch")]);
    assert_lint_ok(vec![g_dot("globalThis", "fetch")]);

    // Deno.metrics(); self.Deno.metrics(); globalThis.Deno.metrics();
    assert_lint_ok(vec![g_dot("Deno", "metrics")]);
    assert_lint_ok(chain2("self", "Deno", "metrics"));
    assert_lint_ok(chain2("globalThis", "Deno", "metrics"));

    // Property names outside the catalogue, in every access form.
    assert_all_forms_ok("onload");
    assert_all_forms_ok("onunload");
    assert_all_forms_ok("closed");
    assert_all_forms_ok("alert");
    assert_all_forms_ok("confirm");
    assert_all_forms_ok("prompt");
    assert_all_forms_ok("localStorage");
    assert_all_forms_ok("sessionStorage");
    assert_all_forms_ok("window");
    assert_all_forms_ok("Navigator");
    assert_all_forms_ok("location");
    assert_all_forms_ok("history");

    // `window` is shadowed:
    // const window = 42; window.fetch(); (and bracket/template forms,
    // and the same with `alert`)
    for name in ["fetch", "alert"] {
        let shadowed = ident_obj("window", LOCAL);
        assert_lint_ok(vec![node(
            shadowed.clone(),
            MemberProp::Ident(name.to_string()),
            at(1, 19, 19 + 7 + name.len()),
            false,
        )]);
        assert_lint_ok(vec![node(
            shadowed.clone(),
            MemberProp::Computed(ComputedKey::StrLit(name.to_string())),
            at(1, 19, 19 + 9 + name.len()),
            false,
        )]);
        assert_lint_ok(vec![node(
            shadowed.clone(),
            MemberProp::Computed(ComputedKey::Tpl {
                interpolations: 0,
                segments: vec![name.to_string()],
            }),
            at(1, 19, 19 + 9 + name.len()),
            false,
        )]);
    }

    // Ignore property access with variables:
    // const f = "fetch"; window[f]();
    assert_lint_ok(vec![node(
        ident_obj("window", GLOBAL),
        MemberProp::Computed(ComputedKey::IdentKey),
        at(1, 19, 28),
        false,
    )]);
    // const f = "fetch"; window[`${f}`]();
    assert_lint_ok(vec![node(
        ident_obj("window", GLOBAL),
        MemberProp::Computed(ComputedKey::Tpl {
            interpolations: 1,
            segments: vec![String::new(), String::new()],
        }),
        at(1, 19, 33),
        false,
    )]);

    // No false positive on chained member expressions: foo.window.fetch();
    assert_lint_ok(chain2("foo", "window", "fetch"));
}

fn assert_one_diag_at(members: Vec<MemberExpr>, line: usize, col: usize) {
    let diags = lint(members);
    assert_eq!(diags.len(), 1);
    assert_eq!(diags[0].code, "no-window-prefix");
    assert_eq!(diags[0].message, MESSAGE);
    assert_eq!(diags[0].hint, HINT);
    assert_eq!(diags[0].range.start.line, line);
    assert_eq!(diags[0].range.start.col, col);
}

#[test]
fn no_deprecated_deno_api_invalid() {
    // window.fetch()
    assert_one_diag_at(vec![w_dot("fetch")], 1, 0);
    // window["fetch"]()
    assert_one_diag_at(vec![w_bracket("fetch")], 1, 0);
    // window[`fetch`]()
    assert_one_diag_at(vec![w_tpl("fetch")], 1, 0);

    // function foo() {
    //   const window = 42;
    //   return window;
    // }
    // window.fetch();
    //
    // The only member expression is the top-level `window.fetch`, whose
    // `window` resolves to the global scope; the shadowed `window` inside
    // `foo` is returned bare, never as the object of a member access.
    let top_level = node(
        ident_obj("window", GLOBAL),
        MemberProp::Ident("fetch".to_string()),
        at(6, 0, 12),
        false,
    );
    assert_one_diag_at(vec![top_level], 6, 0);
}

#[test]
fn each_static_form_of_a_denied_name_is_flagged_once() {
    // window.setTimeout / window["setTimeout"] / window[`setTimeout`]:
    // one diagnostic each, anchored at the full access expression.
    assert_one_diag_at(vec![w_dot("setTimeout")], 1, 0);
    assert_one_diag_at(vec![w_bracket("setTimeout")], 1, 0);
    assert_one_diag_at(vec![w_tpl("setTimeout")], 1, 0);
}

#[test]
fn chain_window_fetch_bind_reports_nothing() {
    // window.fetch.bind: the outer link's object is not a bare identifier,
    // and the inner `window.fetch` link is skipped as the object of its
    // parent, so the chain yields no report at all.
    assert_lint_ok(chain2("window", "fetch", "bind"));
}

#[test]
fn diagnostics_keep_document_order() {
    let first = node(
        ident_obj("window", GLOBAL),
        MemberProp::Ident("fetch".to_string()),
        at(1, 0, 12),
        false,
    );
    let second = node(
        ident_obj("window", GLOBAL),
        MemberProp::Computed(ComputedKey::StrLit("setTimeout".to_string())),
        at(2, 4, 24),
        false,
    );
    let diags = lint(vec![first, second]);
    assert_eq!(diags.len(), 2);
    assert_eq!(diags[0].range.start.line, 1);
    assert_eq!(diags[0].range.start.col, 0);
    assert_eq!(diags[1].range.start.line, 2);
    assert_eq!(diags[1].range.start.col, 4);
}

#[test]
fn deny_list_membership_is_exact_and_case_sensitive() {
    assert!(is_denied("fetch"));
    assert!(is_denied("setTimeout"));
    assert!(is_denied("addEventListener"));
    assert!(is_denied("AbortController"));
    assert!(is_denied("XMLHttpRequestUpload"));
    assert!(is_denied("WebAssembly"));
    assert!(is_denied("navigator"));
    assert!(is_denied("Deno"));
    // Not in the catalogue:
    assert!(!is_denied("alert"));
    assert!(!is_denied("onload"));
    assert!(!is_denied("closed"));
    assert!(!is_denied("localStorage"));
    assert!(!is_denied("location"));
    assert!(!is_denied("Navigator"));
    // Exact-string matching, no normalization:
    assert!(!is_denied("Fetch"));
    assert!(!is_denied("fetch "));
    assert!(!is_denied(""));
}

#[test]
fn extract_symbol_resolves_static_forms_only() {
    let ident = MemberProp::Ident("fetch".to_string());
    assert_eq!(extract_symbol(&ident), Some("fetch"));
    let private = MemberProp::PrivateName("secret".to_string());
    assert_eq!(extract_symbol(&private), Some("secret"));
    let str_lit = MemberProp::Computed(ComputedKey::StrLit("fetch".to_string()));
    assert_eq!(extract_symbol(&str_lit), Some("fetch"));
    let tpl_one = MemberProp::Computed(ComputedKey::Tpl {
        interpolations: 0,
        segments: vec!["fetch".to_string()],
    });
    assert_eq!(extract_symbol(&tpl_one), Some("fetch"));
    // Undetermined forms:
    let var_key = MemberProp::Computed(ComputedKey::IdentKey);
    assert_eq!(extract_symbol(&var_key), None);
    let tpl_interp = MemberProp::Computed(ComputedKey::Tpl {
        interpolations: 1,
        segments: vec![String::new(), String::new()],
    });
    assert_eq!(extract_symbol(&tpl_interp), None);
    let tpl_many = MemberProp::Computed(ComputedKey::Tpl {
        interpolations: 0,
        segments: vec!["a".to_string(), "b".to_string()],
    });
    assert_eq!(extract_symbol(&tpl_many), None);
    let other = MemberProp::Computed(ComputedKey::OtherExpr);
    assert_eq!(extract_symbol(&other), None);
}

#[test]
fn scope_query_answers_membership() {
    let scope = ScopeQuery {
        global_bindings: vec![0, 7],
    };
    assert!(scope.is_global(0));
    assert!(scope.is_global(7));
    assert!(!scope.is_global(1));
    let empty = ScopeQuery {
        global_bindings: vec![],
    };
    assert!(!empty.is_global(0));
}

#[test]
fn rule_descriptor_is_stable() {
    let rule = NoWindowPrefix::new();
    assert_eq!(rule.code(), "no-window-prefix");
    assert_eq!(rule.tags(), &["recommended"][..]);
}

#[test]
fn empty_program_reports_nothing() {
    assert_lint_ok(vec![]);
}

#[test]
fn denied_private_name_on_global_window_is_flagged() {
    // window.#fetch-style accesses cannot occur at the top level of a
    // program, but the extractor resolves private names without ambiguity,
    // so a denied name reached that way is still recognised.
    let private = node(
        ident_obj("window", GLOBAL),
        MemberProp::PrivateName("fetch".to_string()),
        at(1, 0, 13),
        false,
    );
    assert_one_diag_at(vec![private], 1, 0);
}

#[test]
fn non_identifier_object_reports_nothing() {
    // A call result or any other non-identifier object is never flagged,
    // whatever property is read from it.
    let other = node(
        ObjectExpr::Other,
        MemberProp::Ident("fetch".to_string()),
        at(1, 0, 11),
        false,
    );
    assert_lint_ok(vec![other]);
}
