//! Tests of parameter classification, wrapper generation, the module-body
//! transform and the module entry point.

use pyo3_derive_backend::args::check_module_ref;
use pyo3_derive_backend::args::option_type_argument;
use pyo3_derive_backend::args::wrap_fn_argument;
use pyo3_derive_backend::idents::function_wrapper_ident;
use pyo3_derive_backend::idents::raw_wrapper_ident;
use pyo3_derive_backend::model::Attr;
use pyo3_derive_backend::model::ErrKind;
use pyo3_derive_backend::model::FnDecl;
use pyo3_derive_backend::model::FnKind;
use pyo3_derive_backend::model::GenError;
use pyo3_derive_backend::model::IdentPath;
use pyo3_derive_backend::model::MetaEntry;
use pyo3_derive_backend::model::ModuleFn;
use pyo3_derive_backend::model::Param;
use pyo3_derive_backend::model::Pat;
use pyo3_derive_backend::model::PyFunctionAttr;
use pyo3_derive_backend::model::Stmt;
use pyo3_derive_backend::model::Ty;
use pyo3_derive_backend::module::add_fn_to_module;
use pyo3_derive_backend::module::process_functions_in_module;
use pyo3_derive_backend::module::py_init;

fn s(x: &str) -> String {
    x.to_string()
}

fn path(segs: &[&str]) -> IdentPath {
    IdentPath { segments: segs.iter().map(|x| x.to_string()).collect() }
}

fn named(name: &str) -> Ty {
    Ty::Named { segments: vec![s(name)], first_arg: None, node: 0 }
}

fn opt_of(inner: Ty) -> Ty {
    Ty::Named { segments: vec![s("Option")], first_arg: Some(Box::new(inner)), node: 0 }
}

fn module_ref() -> Ty {
    Ty::RefTo { elem: Box::new(named("PyModule")), node: 0 }
}

fn bind(name: &str) -> Pat {
    Pat::Binding { by_ref: false, mutable: false, name: s(name) }
}

fn typed(name: &str, ty: Ty) -> Param {
    Param::Typed { pat: bind(name), ty }
}

fn marker(module: &str, name: &str) -> Attr {
    Attr::Pyfn(vec![MetaEntry::PathArg(path(&[module])), MetaEntry::StrArg(s(name))])
}

fn marker_pass_module(module: &str, name: &str) -> Attr {
    Attr::Pyfn(vec![
        MetaEntry::PathArg(path(&[module])),
        MetaEntry::StrArg(s(name)),
        MetaEntry::PathArg(path(&["pass_module"])),
    ])
}

fn fn_decl(name: &str, attrs: Vec<Attr>, params: Vec<Param>) -> FnDecl {
    FnDecl { attrs, name: s(name), params, output: 0, doc: s("") }
}

fn no_flags() -> PyFunctionAttr {
    PyFunctionAttr { pass_module: false, arguments: Vec::new() }
}

#[test]
fn optional_wrapper_is_classified_with_inner_type() {
    let r = wrap_fn_argument(&bind("level"), &opt_of(named("i64")), 0).expect("plain binding");
    assert!(r.optional.is_some());
    assert_eq!(r.optional, Some(named("i64")));
    assert_eq!(r.name, s("level"));
    assert!(!r.py);
}

#[test]
fn non_optional_type_is_not_optional() {
    let r = wrap_fn_argument(&bind("a"), &named("i64"), 0).expect("plain binding");
    assert_eq!(r.optional, None);
    assert_eq!(r.ty, named("i64"));
}

#[test]
fn optional_without_inner_argument_is_not_optional() {
    let bare = Ty::Named { segments: vec![s("Option")], first_arg: None, node: 0 };
    assert_eq!(option_type_argument(&bare), None);
}

#[test]
fn qualified_optional_wrapper_is_still_optional() {
    let ty = Ty::Named {
        segments: vec![s("std"), s("option"), s("Option")],
        first_arg: Some(Box::new(named("i64"))),
        node: 0,
    };
    assert_eq!(option_type_argument(&ty), Some(named("i64")));
}

#[test]
fn lookalike_module_type_matches_syntactically() {
    // the check is a surface match on the declared type, so a type merely
    // named like the module type is treated as one
    let ty = Ty::RefTo {
        elem: Box::new(Ty::Named {
            segments: vec![s("mycrate"), s("PyModule")],
            first_arg: None,
            node: 0,
        }),
        node: 0,
    };
    assert!(check_module_ref(&ty));
}

#[test]
fn binding_modes_are_recorded() {
    let pat = Pat::Binding { by_ref: true, mutable: true, name: s("buf") };
    let r = wrap_fn_argument(&pat, &named("MyType"), 0).expect("plain binding");
    assert!(r.by_ref);
    assert!(r.mutable);
    assert_eq!(r.name, s("buf"));
}

#[test]
fn context_type_sets_the_context_flag() {
    let r = wrap_fn_argument(&bind("py"), &named("Python"), 0).expect("plain binding");
    assert!(r.py);
}

#[test]
fn destructuring_pattern_is_unsupported() {
    let e = wrap_fn_argument(&Pat::OtherPat { node: 3 }, &named("i64"), 2)
        .expect_err("patterns are unsupported");
    assert_eq!(e, GenError { kind: ErrKind::UnsupportedArgument, at: 2 });
}

#[test]
fn receiver_parameter_fails_classification() {
    let f = fn_decl("method", vec![], vec![Param::Receiver { node: 1 }]);
    let e = add_fn_to_module(&f, s("method"), no_flags()).expect_err("receivers are rejected");
    assert_eq!(e, GenError { kind: ErrKind::UnexpectedReceiver, at: 0 });
}

#[test]
fn receiver_parameter_fails_even_with_pass_module() {
    let f = fn_decl("method", vec![], vec![Param::Receiver { node: 1 }]);
    let flags = PyFunctionAttr { pass_module: true, arguments: Vec::new() };
    let e = add_fn_to_module(&f, s("method"), flags).expect_err("receivers are rejected");
    assert_eq!(e.kind, ErrKind::UnexpectedReceiver);
}

#[test]
fn module_reference_is_consumed_with_pass_module() {
    let f = fn_decl(
        "configure",
        vec![],
        vec![typed("module", module_ref()), typed("level", opt_of(named("i64")))],
    );
    let flags = PyFunctionAttr { pass_module: true, arguments: Vec::new() };
    let g = add_fn_to_module(&f, s("configure"), flags).expect("classification succeeds");
    assert_eq!(g.binding.args.len(), 1);
    assert_eq!(g.binding.args[0].name, s("level"));
    assert!(g.binding.args[0].optional.is_some());
    let required = g.binding.args.iter().filter(|a| a.optional.is_none()).count();
    assert_eq!(required, 0);
    assert!(g.raw.pass_module);
    assert_eq!(g.raw.arg_names, vec![s("level")]);
}

#[test]
fn wrong_first_parameter_with_pass_module_fails() {
    let f = fn_decl("configure", vec![], vec![typed("level", named("i64"))]);
    let flags = PyFunctionAttr { pass_module: true, arguments: Vec::new() };
    let e = add_fn_to_module(&f, s("configure"), flags).expect_err("first must be &PyModule");
    assert_eq!(e, GenError { kind: ErrKind::ExpectedModuleArg, at: 0 });
}

#[test]
fn generated_identifiers_are_deterministic() {
    assert_eq!(function_wrapper_ident("foo"), function_wrapper_ident("foo"));
    assert_eq!(function_wrapper_ident("foo"), s("__pyo3_get_function_foo"));
    assert_eq!(raw_wrapper_ident("foo"), raw_wrapper_ident("foo"));
    assert_eq!(raw_wrapper_ident("foo"), s("__pyo3_raw_foo"));
}

#[test]
fn generation_twice_derives_the_same_names() {
    let f = fn_decl("foo", vec![], vec![typed("a", named("i64"))]);
    let g1 = add_fn_to_module(&f, s("foo"), no_flags()).expect("succeeds");
    let g2 = add_fn_to_module(&f, s("foo"), no_flags()).expect("succeeds");
    assert_eq!(g1.thunk_ident, g2.thunk_ident);
    assert_eq!(g1.raw.ident, g2.raw.ident);
}

#[test]
fn plain_function_in_module_body_is_wired_in() {
    let f = fn_decl(
        "add",
        vec![marker("mymod", "add")],
        vec![typed("a", named("i64")), typed("b", named("i64"))],
    );
    let mut module = ModuleFn { stmts: vec![Stmt::FnDef(f)] };
    process_functions_in_module(&mut module).expect("the body processes cleanly");
    assert_eq!(module.stmts.len(), 3);
    let g = match &module.stmts[0] {
        Stmt::Generated(g) => g,
        other => panic!("expected generated code first, got {:?}", other),
    };
    assert_eq!(g.thunk_ident, s("__pyo3_get_function_add"));
    assert_eq!(g.raw.ident, s("__pyo3_raw_add"));
    assert_eq!(g.raw.callee, s("add"));
    assert_eq!(g.raw.location, s("add()"));
    assert!(!g.raw.pass_module);
    assert_eq!(g.raw.arg_names, vec![s("a"), s("b")]);
    assert_eq!(g.python_name, s("add"));
    assert_eq!(g.binding.kind, FnKind::Static);
    assert_eq!(g.binding.name, s("__pyo3_get_function_add"));
    let required = g.binding.args.iter().filter(|a| a.optional.is_none()).count();
    assert_eq!(required, 2);
    match &module.stmts[1] {
        Stmt::Register { module: m, thunk } => {
            assert_eq!(m.segments, vec![s("mymod")]);
            assert_eq!(thunk, &s("__pyo3_get_function_add"));
        },
        other => panic!("expected the registration call, got {:?}", other),
    }
    match &module.stmts[2] {
        Stmt::FnDef(f2) => {
            assert_eq!(f2.name, s("add"));
            assert!(f2.attrs.is_empty());
        },
        other => panic!("expected the function itself, got {:?}", other),
    }
}

#[test]
fn pass_module_function_in_module_body_consumes_context() {
    let f = fn_decl(
        "configure",
        vec![marker_pass_module("mymod", "configure")],
        vec![typed("module", module_ref()), typed("level", opt_of(named("i64")))],
    );
    let mut module = ModuleFn { stmts: vec![Stmt::FnDef(f)] };
    process_functions_in_module(&mut module).expect("the body processes cleanly");
    assert_eq!(module.stmts.len(), 3);
    match &module.stmts[0] {
        Stmt::Generated(g) => {
            assert!(g.raw.pass_module);
            assert_eq!(g.binding.args.len(), 1);
            assert_eq!(g.binding.args[0].name, s("level"));
        },
        other => panic!("expected generated code first, got {:?}", other),
    }
}

#[test]
fn destructuring_parameter_stops_generation() {
    let f = fn_decl(
        "pair",
        vec![marker("mymod", "pair")],
        vec![Param::Typed { pat: Pat::OtherPat { node: 3 }, ty: named("i64") }],
    );
    let mut module = ModuleFn { stmts: vec![Stmt::FnDef(f)] };
    let e = process_functions_in_module(&mut module).expect_err("patterns are unsupported");
    assert_eq!(e.kind, ErrKind::UnsupportedArgument);
    // no code was emitted: only the function itself remains, without its marker
    assert_eq!(module.stmts.len(), 1);
    match &module.stmts[0] {
        Stmt::FnDef(f2) => assert!(f2.attrs.is_empty()),
        other => panic!("expected the function itself, got {:?}", other),
    }
}

#[test]
fn short_marker_stops_before_classification() {
    let f = fn_decl(
        "broken",
        vec![Attr::Pyfn(vec![MetaEntry::PathArg(path(&["mymod"]))])],
        vec![Param::Receiver { node: 1 }],
    );
    let mut module = ModuleFn { stmts: vec![Stmt::FnDef(f)] };
    let e = process_functions_in_module(&mut module).expect_err("the marker is malformed");
    // extraction fails first: the receiver is never classified
    assert_eq!(e, GenError { kind: ErrKind::MarkerTooShort, at: 1 });
    // the statement, marker included, is left unmodified
    assert_eq!(module.stmts.len(), 1);
    match &module.stmts[0] {
        Stmt::FnDef(f2) => assert_eq!(f2.attrs.len(), 1),
        other => panic!("expected the function itself, got {:?}", other),
    }
}

#[test]
fn one_failure_does_not_stop_the_siblings() {
    let bad = fn_decl(
        "bad",
        vec![Attr::Pyfn(vec![MetaEntry::PathArg(path(&["mymod"]))])],
        vec![],
    );
    let good = fn_decl("good", vec![marker("mymod", "good")], vec![]);
    let mut module = ModuleFn {
        stmts: vec![Stmt::FnDef(bad), Stmt::OtherStmt { node: 42 }, Stmt::FnDef(good)],
    };
    let e = process_functions_in_module(&mut module).expect_err("the first function fails");
    assert_eq!(e.kind, ErrKind::MarkerTooShort);
    // the failed statement is kept; the opaque statement is kept; the good
    // function is still fully wired in
    assert_eq!(module.stmts.len(), 5);
    assert!(matches!(module.stmts[0], Stmt::FnDef(_)));
    assert!(matches!(module.stmts[1], Stmt::OtherStmt { node: 42 }));
    assert!(matches!(module.stmts[2], Stmt::Generated(_)));
    assert!(matches!(module.stmts[3], Stmt::Register { .. }));
    assert!(matches!(module.stmts[4], Stmt::FnDef(_)));
}

#[test]
fn module_entry_point_record_is_derived() {
    let r = py_init("init_mymod", "mymod", "my module docs");
    assert_eq!(r.entry_ident, s("PyInit_mymod"));
    assert_eq!(r.module_name, s("mymod"));
    assert_eq!(r.c_name, s("mymod\0"));
    assert_eq!(r.init_fn, s("init_mymod"));
    assert_eq!(r.doc, s("my module docs"));
}
