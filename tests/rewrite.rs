use require_rename::ast::{CallExpr, Callee, ExportAll, Expr, ImportDecl, Module, ModuleItem, NamedExport};
use require_rename::rewrite::{has_prefix, prefixed, transform_module, CallAction, Config, TransformVisitor};

const NS: &str = "@ns/";
const SWAN: &str = "@swan-module/";

fn ident(name: &str) -> Expr {
    Expr::Ident(name.to_string())
}

fn lit(value: &str) -> Expr {
    Expr::Str(value.to_string())
}

fn member(obj: Expr, prop: &str) -> Expr {
    Expr::Member(Box::new(obj), prop.to_string())
}

fn call(callee: Expr, args: Vec<Expr>) -> Expr {
    Expr::Call(CallExpr { callee: Callee::Expr(Box::new(callee)), args })
}

fn require(arg: Expr) -> Expr {
    call(ident("require"), vec![arg])
}

fn import(specifiers: &[&str], src: &str) -> ModuleItem {
    ModuleItem::Import(ImportDecl {
        specifiers: specifiers.iter().map(|s| s.to_string()).collect(),
        src: src.to_string(),
    })
}

fn export_named(specifiers: &[&str], src: Option<&str>) -> ModuleItem {
    ModuleItem::ExportNamed(NamedExport {
        specifiers: specifiers.iter().map(|s| s.to_string()).collect(),
        src: src.map(|s| s.to_string()),
    })
}

fn export_all(src: &str) -> ModuleItem {
    ModuleItem::ExportAll(ExportAll { src: src.to_string() })
}

fn visitor(prefix: &str) -> TransformVisitor {
    TransformVisitor::new(Config { module_prefix: prefix.to_string() })
}

fn rewritten_expr(prefix: &str, mut e: Expr) -> Expr {
    visitor(prefix).visit_mut_expr(&mut e);
    e
}

fn rewritten_module(prefix: &str, body: Vec<ModuleItem>) -> Vec<ModuleItem> {
    let mut m = Module { body };
    visitor(prefix).visit_mut_module(&mut m);
    m.body
}

#[test]
fn import_default_is_prefixed() {
    let out = rewritten_module(NS, vec![import(&["fs"], "fs")]);
    assert_eq!(out, vec![import(&["fs"], "@ns/fs")]);
}

#[test]
fn require_literal_is_prefixed() {
    assert_eq!(rewritten_expr(NS, require(lit("bcd"))), require(lit("@ns/bcd")));
}

#[test]
fn require_with_prefix_is_unchanged() {
    assert_eq!(rewritten_expr(NS, require(lit("@ns/m"))), require(lit("@ns/m")));
}

#[test]
fn member_require_is_unchanged() {
    let e = call(member(ident("t"), "require"), vec![lit("no")]);
    let expected = call(member(ident("t"), "require"), vec![lit("no")]);
    assert_eq!(rewritten_expr(NS, e), expected);
}

#[test]
fn export_all_is_prefixed() {
    let out = rewritten_module(NS, vec![export_all("eee")]);
    assert_eq!(out, vec![export_all("@ns/eee")]);
}

#[test]
fn require_inside_call_argument_is_reached() {
    let e = call(ident("a"), vec![call(member(require(lit("_name")), "start"), vec![])]);
    let expected =
        call(ident("a"), vec![call(member(require(lit("@ns/_name")), "start"), vec![])]);
    assert_eq!(rewritten_expr(NS, e), expected);
}

#[test]
fn require_of_identifier_is_unchanged() {
    assert_eq!(rewritten_expr(NS, require(ident("x"))), require(ident("x")));
}

#[test]
fn require_of_non_literal_is_not_descended_into() {
    let arg = Expr::Other(vec![require(lit("inner"))]);
    let expected = require(Expr::Other(vec![require(lit("inner"))]));
    assert_eq!(rewritten_expr(NS, require(arg)), expected);
}

#[test]
fn require_without_arguments_is_unchanged() {
    let e = call(ident("require"), vec![]);
    assert_eq!(rewritten_expr(NS, e), call(ident("require"), vec![]));
}

#[test]
fn require_only_first_argument_is_rewritten() {
    let e = call(ident("require"), vec![lit("a"), lit("b"), require(lit("c"))]);
    let expected = call(ident("require"), vec![lit("@ns/a"), lit("b"), require(lit("c"))]);
    assert_eq!(rewritten_expr(NS, e), expected);
}

#[test]
fn require_twice_is_same_as_once() {
    let once = rewritten_expr(NS, require(lit("bcd")));
    let twice = rewritten_expr(NS, rewritten_expr(NS, require(lit("bcd"))));
    assert_eq!(once, twice);
}

#[test]
fn import_twice_is_prefixed_twice() {
    let once = rewritten_module(NS, vec![import(&["fs"], "fs")]);
    let twice = rewritten_module(NS, once);
    assert_eq!(twice, vec![import(&["fs"], "@ns/@ns/fs")]);
}

#[test]
fn import_with_prefix_is_prefixed_again() {
    let out = rewritten_module(NS, vec![import(&["m"], "@ns/m"), export_all("@ns/e")]);
    assert_eq!(out, vec![import(&["m"], "@ns/@ns/m"), export_all("@ns/@ns/e")]);
}

#[test]
fn export_without_source_is_unchanged() {
    let out = rewritten_module(NS, vec![export_named(&["x"], None)]);
    assert_eq!(out, vec![export_named(&["x"], None)]);
}

#[test]
fn super_and_import_callees_are_descended_into() {
    let e = Expr::Call(CallExpr { callee: Callee::Super, args: vec![require(lit("s"))] });
    let expected =
        Expr::Call(CallExpr { callee: Callee::Super, args: vec![require(lit("@ns/s"))] });
    assert_eq!(rewritten_expr(NS, e), expected);
    let e = Expr::Call(CallExpr { callee: Callee::Import, args: vec![lit("dyn")] });
    let expected = Expr::Call(CallExpr { callee: Callee::Import, args: vec![lit("dyn")] });
    assert_eq!(rewritten_expr(NS, e), expected);
}

#[test]
fn empty_prefix_returns_module_unchanged() {
    let body = vec![import(&["fs"], "fs"), ModuleItem::Stmt(require(lit("a"))), export_all("e")];
    let expected =
        vec![import(&["fs"], "fs"), ModuleItem::Stmt(require(lit("a"))), export_all("e")];
    let out = transform_module(Module { body }, Config { module_prefix: String::new() });
    assert_eq!(out.body, expected);
}

#[test]
fn non_empty_prefix_rewrites_module() {
    let body = vec![import(&["fs"], "fs"), ModuleItem::Stmt(require(lit("a")))];
    let expected = vec![import(&["fs"], "@ns/fs"), ModuleItem::Stmt(require(lit("@ns/a")))];
    let out = transform_module(Module { body }, Config { module_prefix: NS.to_string() });
    assert_eq!(out.body, expected);
}

#[test]
fn call_action_decides() {
    let v = visitor(NS);
    assert_eq!(v.call_action(Some("require"), Some("x")), CallAction::Rename("@ns/x".to_string()));
    assert_eq!(v.call_action(Some("require"), Some("@ns/x")), CallAction::Keep);
    assert_eq!(v.call_action(Some("require"), None), CallAction::Keep);
    assert_eq!(v.call_action(Some("requires"), Some("x")), CallAction::Descend);
    assert_eq!(v.call_action(None, Some("x")), CallAction::Descend);
}

#[test]
fn prefix_helpers() {
    assert!(has_prefix("@ns/a", "@ns/"));
    assert!(has_prefix("abc", ""));
    assert!(!has_prefix("@n", "@ns/"));
    assert!(!has_prefix("@nx/a", "@ns/"));
    assert!(has_prefix("é/ü", "é/"));
    assert_eq!(prefixed("@ns/", "fs"), "@ns/fs");
    assert_eq!(prefixed("", "fs"), "fs");
}

#[test]
fn test_trans_import() {
    // const a = 1 || require('a');
    let const_a = Expr::Other(vec![ident("a"), Expr::Other(vec![Expr::Other(vec![]), require(lit("a"))])]);
    // var t = require("./typeof.js").default;
    let var_t = |name: &str| Expr::Other(vec![ident("t"), member(require(lit(name)), "default")]);
    let input = vec![
        import(&["resolve"], "path"),
        import(&["fs"], "fs"),
        ModuleItem::Stmt(const_a),
        ModuleItem::Stmt(require(lit("bcd"))),
        ModuleItem::Stmt(call(ident("a"), vec![call(member(require(lit("_name")), "start"), vec![])])),
        ModuleItem::Stmt(call(member(ident("t"), "require"), vec![lit("no")])),
        ModuleItem::Stmt(require(lit("@swan-module/m"))),
        ModuleItem::Stmt(var_t("./typeof.js")),
    ];
    let expected = vec![
        import(&["resolve"], "@swan-module/path"),
        import(&["fs"], "@swan-module/fs"),
        ModuleItem::Stmt(Expr::Other(vec![
            ident("a"),
            Expr::Other(vec![Expr::Other(vec![]), require(lit("@swan-module/a"))]),
        ])),
        ModuleItem::Stmt(require(lit("@swan-module/bcd"))),
        ModuleItem::Stmt(call(
            ident("a"),
            vec![call(member(require(lit("@swan-module/_name")), "start"), vec![])],
        )),
        ModuleItem::Stmt(call(member(ident("t"), "require"), vec![lit("no")])),
        ModuleItem::Stmt(require(lit("@swan-module/m"))),
        ModuleItem::Stmt(var_t("@swan-module/./typeof.js")),
    ];
    assert_eq!(rewritten_module(SWAN, input), expected);
}

#[test]
fn test_trans_require() {
    let body = |a: &str, bcd: &str, name: &str, typeof_js: &str| {
        Expr::Other(vec![
            Expr::Other(vec![ident("a"), Expr::Other(vec![Expr::Other(vec![]), require(lit(a))])]),
            require(lit(bcd)),
            call(ident("a"), vec![call(member(require(lit(name)), "start"), vec![])]),
            call(member(ident("t"), "require"), vec![lit("no")]),
            require(lit("@swan-module/m")),
            Expr::Other(vec![ident("t"), member(require(lit(typeof_js)), "default")]),
            Expr::Other(vec![ident("t")]),
        ])
    };
    // (swan.webpackJsonp=swan.webpackJsonp||[]).push({141:function(x,e){ ... }});
    let program = |inner: Expr| {
        let jsonp = member(ident("swan"), "webpackJsonp");
        let target = Expr::Other(vec![
            member(ident("swan"), "webpackJsonp"),
            Expr::Other(vec![jsonp, Expr::Other(vec![])]),
        ]);
        let function = Expr::Other(vec![ident("x"), ident("e"), inner]);
        ModuleItem::Stmt(call(member(target, "push"), vec![Expr::Other(vec![function])]))
    };
    let input = vec![program(body("a", "bcd", "_name", "./typeof.js"))];
    let expected = vec![program(body(
        "@swan-module/a",
        "@swan-module/bcd",
        "@swan-module/_name",
        "@swan-module/./typeof.js",
    ))];
    assert_eq!(rewritten_module(SWAN, input), expected);
}

#[test]
fn test_trans_export() {
    let input = vec![export_all("eee"), export_named(&["abc"], Some("fff")), export_named(&["ggg"], Some("ggg"))];
    let expected = vec![
        export_all("@swan-module/eee"),
        export_named(&["abc"], Some("@swan-module/fff")),
        export_named(&["ggg"], Some("@swan-module/ggg")),
    ];
    assert_eq!(rewritten_module(SWAN, input), expected);
}
