//! Tests of marker-attribute extraction and its diagnostics.

use pyo3_derive_backend::attrs::extract_pyfn_attrs;
use pyo3_derive_backend::idents::check_ident;
use pyo3_derive_backend::model::Attr;
use pyo3_derive_backend::model::ErrKind;
use pyo3_derive_backend::model::GenError;
use pyo3_derive_backend::model::IdentPath;
use pyo3_derive_backend::model::MetaEntry;

fn s(x: &str) -> String {
    x.to_string()
}

fn path(segs: &[&str]) -> IdentPath {
    IdentPath { segments: segs.iter().map(|x| x.to_string()).collect() }
}

fn marker(module: &str, name: &str) -> Attr {
    Attr::Pyfn(vec![MetaEntry::PathArg(path(&[module])), MetaEntry::StrArg(s(name))])
}

#[test]
fn extract_succeeds_and_preserves_other_attrs() {
    let mut attrs = vec![Attr::OtherAttr(7), marker("mymod", "add"), Attr::OtherAttr(9)];
    let r = extract_pyfn_attrs(&mut attrs).expect("extraction must succeed");
    let (module, name, flags) = r.expect("a marker is present");
    assert_eq!(module.segments, vec![s("mymod")]);
    assert_eq!(name, s("add"));
    assert!(!flags.pass_module);
    assert!(flags.arguments.is_empty());
    assert_eq!(attrs, vec![Attr::OtherAttr(7), Attr::OtherAttr(9)]);
}

#[test]
fn extract_absent_marker_is_not_an_error() {
    let mut attrs = vec![Attr::OtherAttr(1), Attr::OtherAttr(2)];
    let r = extract_pyfn_attrs(&mut attrs).expect("no marker is no error");
    assert!(r.is_none());
    assert_eq!(attrs, vec![Attr::OtherAttr(1), Attr::OtherAttr(2)]);
}

#[test]
fn extract_short_marker_fails_at_missing_position() {
    let mut attrs = vec![Attr::OtherAttr(3), Attr::Pyfn(vec![MetaEntry::PathArg(path(&["mymod"]))])];
    let e = extract_pyfn_attrs(&mut attrs).expect_err("one entry is too few");
    assert_eq!(e, GenError { kind: ErrKind::MarkerTooShort, at: 1 });
    // the list is left unmodified, marker included
    assert_eq!(attrs.len(), 2);
    assert!(matches!(attrs[1], Attr::Pyfn(_)));
}

#[test]
fn extract_empty_marker_fails_at_first_position() {
    let mut attrs = vec![Attr::Pyfn(vec![])];
    let e = extract_pyfn_attrs(&mut attrs).expect_err("no entry is too few");
    assert_eq!(e, GenError { kind: ErrKind::MarkerTooShort, at: 0 });
}

#[test]
fn extract_bad_module_entry_fails() {
    let mut attrs = vec![Attr::Pyfn(vec![MetaEntry::StrArg(s("mymod")), MetaEntry::StrArg(s("add"))])];
    let e = extract_pyfn_attrs(&mut attrs).expect_err("first entry must be a path");
    assert_eq!(e, GenError { kind: ErrKind::ModuleNotPath, at: 0 });
    assert_eq!(attrs.len(), 1);
}

#[test]
fn extract_bad_name_entry_fails() {
    let mut attrs = vec![Attr::Pyfn(vec![
        MetaEntry::PathArg(path(&["mymod"])),
        MetaEntry::PathArg(path(&["add"])),
    ])];
    let e = extract_pyfn_attrs(&mut attrs).expect_err("second entry must be a literal");
    assert_eq!(e, GenError { kind: ErrKind::NameNotStr, at: 1 });
}

#[test]
fn extract_name_that_is_no_identifier_fails() {
    let mut attrs = vec![Attr::Pyfn(vec![
        MetaEntry::PathArg(path(&["mymod"])),
        MetaEntry::StrArg(s("not an ident")),
    ])];
    let e = extract_pyfn_attrs(&mut attrs).expect_err("exported name must be an identifier");
    assert_eq!(e, GenError { kind: ErrKind::NameNotIdent, at: 1 });
}

#[test]
fn extract_last_marker_wins_and_all_markers_are_removed() {
    let mut attrs = vec![marker("first", "one"), Attr::OtherAttr(5), marker("second", "two")];
    let r = extract_pyfn_attrs(&mut attrs).expect("extraction must succeed");
    let (module, name, _flags) = r.expect("markers are present");
    assert_eq!(module.segments, vec![s("second")]);
    assert_eq!(name, s("two"));
    assert_eq!(attrs, vec![Attr::OtherAttr(5)]);
}

#[test]
fn extract_decodes_pass_module_flag_and_keeps_other_entries() {
    let mut attrs = vec![Attr::Pyfn(vec![
        MetaEntry::PathArg(path(&["mymod"])),
        MetaEntry::StrArg(s("configure")),
        MetaEntry::PathArg(path(&["pass_module"])),
        MetaEntry::OtherArg(5),
    ])];
    let r = extract_pyfn_attrs(&mut attrs).expect("extraction must succeed");
    let (_module, _name, flags) = r.expect("a marker is present");
    assert!(flags.pass_module);
    assert_eq!(flags.arguments, vec![MetaEntry::OtherArg(5)]);
}

#[test]
fn extract_malformed_marker_reports_before_later_markers() {
    let mut attrs = vec![
        Attr::Pyfn(vec![MetaEntry::PathArg(path(&["mymod"]))]),
        marker("mymod", "fine"),
    ];
    let e = extract_pyfn_attrs(&mut attrs).expect_err("the first marker is malformed");
    assert_eq!(e.kind, ErrKind::MarkerTooShort);
    assert_eq!(attrs.len(), 2);
}

#[test]
fn error_messages_match_their_kinds() {
    let e = GenError { kind: ErrKind::MarkerTooShort, at: 1 };
    assert_eq!(e.message(), "can not parse 'pyfn' params");
    let e = GenError { kind: ErrKind::ModuleNotPath, at: 0 };
    assert_eq!(e.message(), "The first parameter of pyfn must be a MetaItem");
    let e = GenError { kind: ErrKind::NameNotStr, at: 1 };
    assert_eq!(e.message(), "The second parameter of pyfn must be a Literal");
    let e = GenError { kind: ErrKind::UnexpectedReceiver, at: 0 };
    assert_eq!(e.message(), "Unexpected receiver for #[pyfn]");
    let e = GenError { kind: ErrKind::UnsupportedArgument, at: 2 };
    assert_eq!(e.message(), "Unsupported argument");
    let e = GenError { kind: ErrKind::ExpectedModuleArg, at: 0 };
    assert_eq!(e.message(), "Expected &PyModule as first argument with `pass_module`.");
}

#[test]
fn identifier_check_accepts_and_rejects() {
    assert!(check_ident("add"));
    assert!(check_ident("_private2"));
    assert!(check_ident("CamelCase"));
    assert!(!check_ident(""));
    assert!(!check_ident("2start"));
    assert!(!check_ident("has space"));
    assert!(!check_ident("dash-ed"));
}
