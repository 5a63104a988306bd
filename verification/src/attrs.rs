//! Extraction of the marker attribute.
//!
//! The mathematical model is a left-to-right scan over the attribute list
//! ([`scan_attrs`]): marker attributes are decoded and consumed, every other
//! attribute is kept in order, the last well-formed marker wins, and the
//! first malformed marker aborts the scan with a diagnostic.  The executable
//! extractor is proved to behave exactly like the scan.

use vstd::prelude::*;
use vstd::string::StringExecFns;
use crate::idents::is_ident;
use crate::model::Attr;
use crate::model::AttrV;
use crate::model::ErrKind;
use crate::model::GenError;
use crate::model::IdentPath;
use crate::model::MetaEntry;
use crate::model::MetaEntryV;
use crate::model::PyFunctionAttr;
use crate::model::PyFunctionAttrV;
use crate::model::attr_view;
use crate::model::attrs_view;
use crate::model::clone_entry;
use crate::model::clone_path;
use crate::model::entries_view;
use crate::model::entry_view;
use crate::model::flags_view;
use crate::model::path_view;

verus! {

/// The decoded content of one well-formed marker attribute.
pub struct FoundPyfn {
    /// Segment names of the target module path.
    pub module: Seq<Seq<char>>,
    /// The exported name.
    pub name: Seq<char>,
    /// The decoded flag set.
    pub flags: PyFunctionAttrV,
}

/// The state of the attribute scan: the attributes kept so far, the last
/// decoded marker if any, and the first diagnostic if any.
pub struct ScanState {
    pub kept: Seq<AttrV>,
    pub found: Option<FoundPyfn>,
    pub err: Option<GenError>,
}

/// An empty flag set.
pub open spec fn empty_flags() -> PyFunctionAttrV {
    PyFunctionAttrV { pass_module: false, arguments: Seq::empty() }
}

/// Whether a marker entry is the pass-module flag.
pub open spec fn is_pass_module_entry(e: MetaEntryV) -> bool {
    match e {
        MetaEntryV::PathArgV(segs) => segs.len() == 1 && segs[0] == "pass_module"@,
        _ => false,
    }
}

/// One step of flag decoding: the pass-module flag is consumed, every other
/// entry is kept verbatim for the binding routine.
pub open spec fn flags_step(st: PyFunctionAttrV, e: MetaEntryV) -> PyFunctionAttrV {
    if is_pass_module_entry(e) {
        PyFunctionAttrV { pass_module: true, arguments: st.arguments }
    } else {
        PyFunctionAttrV { pass_module: st.pass_module, arguments: st.arguments.push(e) }
    }
}

pub open spec fn flags_from(st: PyFunctionAttrV, s: Seq<MetaEntryV>) -> PyFunctionAttrV
    decreases s.len(),
{
    if s.len() == 0 {
        st
    } else {
        flags_from(flags_step(st, s.first()), s.drop_first())
    }
}

/// The flag set decoded from the marker entries beyond the two mandatory
/// positions.
pub open spec fn flags_of(s: Seq<MetaEntryV>) -> PyFunctionAttrV {
    flags_from(empty_flags(), s)
}

/// Decoding one marker's entry list: at least two entries, a bare module
/// path first, then a string literal naming a plain identifier; the rest is
/// the flag group.  The diagnostic names the first malformed position.
pub open spec fn pyfn_entries_result(es: Seq<MetaEntryV>) -> Result<FoundPyfn, GenError> {
    if es.len() < 2 {
        Result::Err(GenError { kind: ErrKind::MarkerTooShort, at: es.len() as usize })
    } else {
        match es[0] {
            MetaEntryV::PathArgV(segs) => if segs.len() == 0 {
                Result::Err(GenError { kind: ErrKind::ModuleNotPath, at: 0 })
            } else {
                match es[1] {
                    MetaEntryV::StrArgV(name) => if !is_ident(name) {
                        Result::Err(GenError { kind: ErrKind::NameNotIdent, at: 1 })
                    } else {
                        Result::Ok(FoundPyfn { module: segs, name, flags: flags_of(es.skip(2)) })
                    },
                    _ => Result::Err(GenError { kind: ErrKind::NameNotStr, at: 1 }),
                }
            },
            _ => Result::Err(GenError { kind: ErrKind::ModuleNotPath, at: 0 }),
        }
    }
}

pub open spec fn scan_init() -> ScanState {
    ScanState { kept: Seq::empty(), found: Option::None, err: Option::None }
}

/// One step of the attribute scan.
pub open spec fn scan_step(st: ScanState, a: AttrV) -> ScanState {
    if st.err matches Option::Some(_) {
        st
    } else {
        match a {
            AttrV::PyfnV(es) => match pyfn_entries_result(es) {
                Result::Ok(f) => ScanState { kept: st.kept, found: Option::Some(f), err: Option::None },
                Result::Err(e) => ScanState { kept: st.kept, found: st.found, err: Option::Some(e) },
            },
            AttrV::OtherAttrV(_) => ScanState { kept: st.kept.push(a), found: st.found, err: st.err },
        }
    }
}

pub open spec fn scan_from(st: ScanState, s: Seq<AttrV>) -> ScanState
    decreases s.len(),
{
    if s.len() == 0 {
        st
    } else {
        scan_from(scan_step(st, s.first()), s.drop_first())
    }
}

/// The scan of a whole attribute list.
pub open spec fn scan_attrs(s: Seq<AttrV>) -> ScanState {
    scan_from(scan_init(), s)
}

/// A diagnostic is sticky: once the scan has failed, the rest of the list
/// changes nothing.
pub proof fn lemma_scan_from_err(st: ScanState, s: Seq<AttrV>)
    requires
        st.err matches Option::Some(_),
    ensures
        scan_from(st, s) == st,
    decreases s.len(),
{
    if s.len() > 0 {
        lemma_scan_from_err(st, s.drop_first());
    }
}

/// The non-marker attributes of a list, in their original order.
pub open spec fn non_pyfn_of(s: Seq<AttrV>) -> Seq<AttrV>
    decreases s.len(),
{
    if s.len() == 0 {
        Seq::empty()
    } else if s.first() matches AttrV::PyfnV(_) {
        non_pyfn_of(s.drop_first())
    } else {
        seq![s.first()] + non_pyfn_of(s.drop_first())
    }
}

proof fn lemma_scan_from_keeps_others(st: ScanState, s: Seq<AttrV>)
    requires
        st.err matches Option::None,
        scan_from(st, s).err matches Option::None,
    ensures
        scan_from(st, s).kept == st.kept + non_pyfn_of(s),
    decreases s.len(),
{
    if s.len() == 0 {
        assert(st.kept + non_pyfn_of(s) =~= st.kept);
    } else {
        let st2 = scan_step(st, s.first());
        if st2.err matches Option::Some(_) {
            lemma_scan_from_err(st2, s.drop_first());
        } else {
            lemma_scan_from_keeps_others(st2, s.drop_first());
            if !(s.first() matches AttrV::PyfnV(_)) {
                assert(st.kept.push(s.first()) + non_pyfn_of(s.drop_first()) =~= st.kept + (seq![
                    s.first(),
                ] + non_pyfn_of(s.drop_first())));
            }
        }
    }
}

/// Law: when extraction does not fail, the attributes that remain are
/// exactly the non-marker attributes, in their original relative order.
pub proof fn lemma_extraction_preserves_other_attrs(s: Seq<AttrV>)
    requires
        scan_attrs(s).err matches Option::None,
    ensures
        scan_attrs(s).kept == non_pyfn_of(s),
{
    lemma_scan_from_keeps_others(scan_init(), s);
    assert(Seq::<AttrV>::empty() + non_pyfn_of(s) =~= non_pyfn_of(s));
}

/// Law: no marker attribute is among the non-marker attributes, so the
/// list an extraction leaves behind never contains the marker.
pub proof fn lemma_non_pyfn_has_no_marker(s: Seq<AttrV>)
    ensures
        forall|i: int|
            0 <= i < non_pyfn_of(s).len() ==> !(#[trigger] non_pyfn_of(s)[i] matches AttrV::PyfnV(
                _,
            )),
    decreases s.len(),
{
    if s.len() > 0 {
        lemma_non_pyfn_has_no_marker(s.drop_first());
    }
}

/// Whether an attribute is a marker whose entry list is malformed.
pub open spec fn is_malformed_pyfn(a: AttrV) -> bool {
    a matches AttrV::PyfnV(es) && pyfn_entries_result(es) matches Result::Err(_)
}

proof fn lemma_scan_from_first_malformed(st: ScanState, s: Seq<AttrV>, i: int)
    requires
        st.err matches Option::None,
        0 <= i < s.len(),
        is_malformed_pyfn(s[i]),
        forall|j: int| 0 <= j < i ==> !is_malformed_pyfn(#[trigger] s[j]),
    ensures
        s[i] matches AttrV::PyfnV(es) && pyfn_entries_result(es) matches Result::Err(e)
            && scan_from(st, s).err == Option::Some(e),
    decreases i,
{
    let st2 = scan_step(st, s.first());
    if i == 0 {
        lemma_scan_from_err(st2, s.drop_first());
    } else {
        assert(!is_malformed_pyfn(s[0]));
        assert(st2.err matches Option::None);
        assert(forall|j: int|
            0 <= j < i - 1 ==> !is_malformed_pyfn(#[trigger] s.drop_first()[j]));
        lemma_scan_from_first_malformed(st2, s.drop_first(), i - 1);
        assert(s.drop_first()[i - 1] == s[i]);
    }
}

/// Law: the first malformed marker makes the whole extraction fail, and its
/// first malformed entry position determines the diagnostic.
pub proof fn lemma_malformed_marker_fails(s: Seq<AttrV>, i: int)
    requires
        0 <= i < s.len(),
        is_malformed_pyfn(s[i]),
        forall|j: int| 0 <= j < i ==> !is_malformed_pyfn(#[trigger] s[j]),
    ensures
        s[i] matches AttrV::PyfnV(es) && pyfn_entries_result(es) matches Result::Err(e)
            && scan_attrs(s).err == Option::Some(e),
{
    lemma_scan_from_first_malformed(scan_init(), s, i);
}

/// Decodes the flag group of a marker: every entry beyond the two mandatory
/// positions.
fn parse_flags(es: &Vec<MetaEntry>) -> (r: PyFunctionAttr)
    requires
        es@.len() >= 2,
    ensures
        flags_view(r) == flags_of(entries_view(es@).skip(2)),
{
    let pass_module_name = String::from_str("pass_module");
    let mut r = PyFunctionAttr { pass_module: false, arguments: Vec::new() };
    let mut i: usize = 2;
    proof {
        assert(entries_view(r.arguments@) =~= Seq::<MetaEntryV>::empty());
        assert(flags_view(r) == empty_flags());
    }
    while i < es.len()
        invariant
            2 <= i <= es@.len(),
            pass_module_name@ == "pass_module"@,
            flags_of(entries_view(es@).skip(2)) == flags_from(
                flags_view(r),
                entries_view(es@).skip(i as int),
            ),
        decreases es@.len() - i,
    {
        let e = &es[i];
        let ghost pre = flags_view(r);
        let ghost ev = entries_view(es@)[i as int];
        proof {
            assert(entries_view(es@).skip(i as int)[0] == ev);
            assert(entries_view(es@).skip(i as int).drop_first() =~= entries_view(es@).skip(
                i + 1 as int,
            ));
            assert(ev == entry_view(es@[i as int]));
        }
        let is_flag = match e {
            MetaEntry::PathArg(p) => p.segments.len() == 1 && p.segments[0] == pass_module_name,
            _ => false,
        };
        proof {
            assert(is_flag == is_pass_module_entry(ev));
        }
        if is_flag {
            r.pass_module = true;
            proof {
                assert(flags_view(r) == flags_step(pre, ev));
            }
        } else {
            r.arguments.push(clone_entry(e));
            proof {
                assert(entries_view(r.arguments@) =~= pre.arguments.push(ev));
                assert(flags_view(r) == flags_step(pre, ev));
            }
        }
        i += 1;
    }
    proof {
        assert(entries_view(es@).skip(i as int) =~= Seq::<MetaEntryV>::empty());
    }
    r
}

/// Decodes one marker's entry list into the module path, the exported name
/// and the flag set, or the diagnostic for its first malformed position.
fn parse_pyfn_entries(es: &Vec<MetaEntry>) -> (r: Result<
    (IdentPath, String, PyFunctionAttr),
    GenError,
>)
    ensures
        ({
            let sr = pyfn_entries_result(entries_view(es@));
            match (r, sr) {
                (Result::Ok((m, n, f)), Result::Ok(fv)) => path_view(m) == fv.module && n@
                    == fv.name && flags_view(f) == fv.flags,
                (Result::Err(e), Result::Err(ev)) => e == ev,
                _ => false,
            }
        }),
{
    proof {
        assert forall|j: int| 0 <= j < es@.len() implies entries_view(es@)[j] == entry_view(
            es@[j],
        ) by {}
    }
    if es.len() < 2 {
        return Result::Err(GenError { kind: ErrKind::MarkerTooShort, at: es.len() });
    }
    let m = match &es[0] {
        MetaEntry::PathArg(p) => {
            if p.segments.len() == 0 {
                return Result::Err(GenError { kind: ErrKind::ModuleNotPath, at: 0 });
            }
            clone_path(p)
        },
        _ => {
            return Result::Err(GenError { kind: ErrKind::ModuleNotPath, at: 0 });
        },
    };
    let n = match &es[1] {
        MetaEntry::StrArg(s) => {
            if !crate::idents::check_ident(s.as_str()) {
                return Result::Err(GenError { kind: ErrKind::NameNotIdent, at: 1 });
            }
            s.clone()
        },
        _ => {
            return Result::Err(GenError { kind: ErrKind::NameNotStr, at: 1 });
        },
    };
    let f = parse_flags(es);
    Result::Ok((m, n, f))
}

/// Finds, decodes and removes the marker attribute of one function.
///
/// Behaves exactly like the scan model: every non-marker attribute is kept
/// in its original relative order; the last well-formed marker yields the
/// module path, exported name and flag set; a list without a marker yields
/// an explicit absent result and is left as it was; and the first malformed
/// marker aborts with its diagnostic, leaving the list unmodified.
pub fn extract_pyfn_attrs(attrs: &mut Vec<Attr>) -> (r: Result<
    Option<(IdentPath, String, PyFunctionAttr)>,
    GenError,
>)
    ensures
        ({
            let sc = scan_attrs(attrs_view(old(attrs)@));
            match sc.err {
                Option::Some(e) => r matches Result::Err(e2) && e2 == e && final(attrs)@ == old(attrs)@,
                Option::None => match sc.found {
                    Option::None => r matches Result::Ok(Option::None) && attrs_view(final(attrs)@)
                        == attrs_view(old(attrs)@),
                    Option::Some(fv) => (r matches Result::Ok(Option::Some((m, n, f)))
                        && path_view(m) == fv.module && n@ == fv.name && flags_view(f) == fv.flags)
                        && attrs_view(final(attrs)@) == sc.kept,
                },
            }
        }),
{
    let mut new_attrs: Vec<Attr> = Vec::new();
    let mut found: Option<(IdentPath, String, PyFunctionAttr)> = Option::None;
    let ghost full: Seq<AttrV> = attrs_view(attrs@);
    let ghost mut st: ScanState = scan_init();
    let n = attrs.len();
    let mut i: usize = 0;
    proof {
        assert(full.skip(0) =~= full);
        assert(full.take(0) =~= Seq::<AttrV>::empty());
        assert(attrs_view(Seq::<Attr>::empty()) =~= Seq::<AttrV>::empty());
    }
    while i < n
        invariant
            i <= n,
            n == attrs@.len(),
            attrs@ == old(attrs)@,
            full == attrs_view(old(attrs)@),
            st.err matches Option::None,
            scan_attrs(full) == scan_from(st, full.skip(i as int)),
            attrs_view(new_attrs@) == st.kept,
            st.found matches Option::None ==> st.kept == full.take(i as int),
            match (found, st.found) {
                (Option::Some((m, n2, f)), Option::Some(fv)) => path_view(m) == fv.module && n2@
                    == fv.name && flags_view(f) == fv.flags,
                (Option::None, Option::None) => true,
                _ => false,
            },
        decreases n - i,
    {
        let a = &attrs[i];
        proof {
            assert(full.skip(i as int)[0] == full[i as int]);
            assert(full[i as int] == attr_view(attrs@[i as int]));
            assert(full.skip(i as int).drop_first() =~= full.skip(i + 1 as int));
        }
        match a {
            Attr::Pyfn(es) => {
                match parse_pyfn_entries(es) {
                    Result::Ok(t) => {
                        found = Option::Some(t);
                        proof {
                            st = scan_step(st, full[i as int]);
                        }
                    },
                    Result::Err(e) => {
                        proof {
                            let st2 = scan_step(st, full[i as int]);
                            lemma_scan_from_err(st2, full.skip(i + 1 as int));
                        }
                        return Result::Err(e);
                    },
                }
            },
            Attr::OtherAttr(node) => {
                new_attrs.push(Attr::OtherAttr(*node));
                proof {
                    st = scan_step(st, full[i as int]);
                    assert(attrs_view(new_attrs@) =~= st.kept);
                    if (st.found matches Option::None) {
                        assert(full.take(i as int).push(full[i as int]) =~= full.take(i + 1 as int));
                    }
                }
            },
        }
        i += 1;
    }
    proof {
        assert(full.skip(i as int) =~= Seq::<AttrV>::empty());
        if (st.found matches Option::None) {
            assert(full.take(i as int) =~= full);
        }
    }
    *attrs = new_attrs;
    match found {
        Option::Some(t) => Result::Ok(Option::Some(t)),
        Option::None => Result::Ok(Option::None),
    }
}

} // verus!
