//! Assembly of the generated records for one marked function, the module
//! entry point, and the module-body transform that wires marked nested
//! functions into their module.
//!
//! Nothing is executed at generation time: the records produced here
//! describe the code the embedding layer renders, and every derived
//! identifier is a pure function of the original name.

use vstd::prelude::*;
use vstd::string::StringExecFns;
use crate::args::ClassifyState;
use crate::args::classify_from;
use crate::args::classify_init;
use crate::args::classify_params;
use crate::args::classify_step;
use crate::args::check_module_ref;
use crate::args::lemma_classify_from_err;
use crate::args::wrap_fn_argument;
use crate::attrs::extract_pyfn_attrs;
use crate::attrs::scan_attrs;
use crate::idents::entry_ident_of;
use crate::idents::entry_point_ident;
use crate::idents::function_wrapper_ident;
use crate::idents::raw_ident_of;
use crate::idents::raw_wrapper_ident;
use crate::idents::thunk_ident_of;
use crate::model::BindingSpec;
use crate::model::BindingSpecV;
use crate::model::ErrKind;
use crate::model::FnArg;
use crate::model::FnArgV;
use crate::model::FnDecl;
use crate::model::FnDeclV;
use crate::model::FnKind;
use crate::model::GenError;
use crate::model::GeneratedFn;
use crate::model::GeneratedFnV;
use crate::model::ModuleFn;
use crate::model::ModuleInit;
use crate::model::Param;
use crate::model::ParamV;
use crate::model::PyFunctionAttr;
use crate::model::PyFunctionAttrV;
use crate::model::RawWrapper;
use crate::model::RawWrapperV;
use crate::model::Stmt;
use crate::model::StmtV;
use crate::model::args_view;
use crate::model::binding_spec_view;
use crate::model::flags_view;
use crate::model::fn_decl_view;
use crate::model::generated_view;
use crate::model::param_view;
use crate::model::params_view;
use crate::model::raw_wrapper_view;
use crate::model::stmt_view;
use crate::model::stmts_view;
use crate::model::strings_view;

verus! {

/// The names of the descriptors, in order.
pub open spec fn arg_names_of(args: Seq<FnArgV>) -> Seq<Seq<char>> {
    args.map_values(|a: FnArgV| a.name)
}

/// The description of the raw callback for `name` under the given binding
/// specification.
pub open spec fn raw_wrapper_of(name: Seq<char>, binding: BindingSpecV, pass_module: bool) -> RawWrapperV {
    RawWrapperV {
        ident: raw_ident_of(name),
        location: name + "()"@,
        pass_module,
        callee: name,
        arg_names: arg_names_of(binding.args),
    }
}

/// The binding specification assembled for one marked function.
pub open spec fn binding_spec_of(
    f: FnDeclV,
    python_name: Seq<char>,
    flags: PyFunctionAttrV,
    args: Seq<FnArgV>,
) -> BindingSpecV {
    BindingSpecV {
        kind: FnKind::Static,
        name: thunk_ident_of(f.name),
        python_name,
        attrs: flags.arguments,
        args,
        output: f.output,
        doc: f.doc,
    }
}

/// Everything generated for one marked function whose parameters classify.
pub open spec fn generated_of(f: FnDeclV, python_name: Seq<char>, flags: PyFunctionAttrV) -> GeneratedFnV {
    let args = classify_params(f.params, flags.pass_module).args;
    let binding = binding_spec_of(f, python_name, flags, args);
    GeneratedFnV {
        thunk_ident: thunk_ident_of(f.name),
        python_name,
        doc: f.doc,
        raw: raw_wrapper_of(f.name, binding, flags.pass_module),
        binding,
    }
}

/// The bound argument names of the emitted call, in declaration order.
pub fn get_arg_names(binding: &BindingSpec) -> (r: Vec<String>)
    ensures
        strings_view(r@) == arg_names_of(binding_spec_view(*binding).args),
{
    let mut r: Vec<String> = Vec::new();
    let mut i: usize = 0;
    while i < binding.args.len()
        invariant
            i <= binding.args@.len(),
            r@.len() == i,
            forall|j: int| 0 <= j < i ==> r@[j]@ == binding.args@[j].name@,
        decreases binding.args@.len() - i,
    {
        r.push(binding.args[i].name.clone());
        i += 1;
    }
    proof {
        assert(strings_view(r@) =~= arg_names_of(args_view(binding.args@)));
    }
    r
}

/// Builds the description of the raw calling-convention callback: its
/// conventional identifier, the location text for the panic-to-error
/// boundary, whether the module context is reconstructed from the raw self
/// pointer, and the call of the native function with the bound names.
pub fn function_c_wrapper(
    name: &str,
    wrapper_ident: String,
    binding: &BindingSpec,
    pass_module: bool,
) -> (r: RawWrapper)
    requires
        wrapper_ident@ == raw_ident_of(name@),
    ensures
        raw_wrapper_view(r) == raw_wrapper_of(name@, binding_spec_view(*binding), pass_module),
{
    let arg_names = get_arg_names(binding);
    let mut location = String::from_str(name);
    location.append("()");
    let callee = String::from_str(name);
    RawWrapper { ident: wrapper_ident, location, pass_module, callee, arg_names }
}

/// Generates the records for one marked function: classifies its parameters
/// (consuming a leading module-context parameter when the pass-module flag
/// asks for it), assembles the binding specification, and derives the thunk
/// and raw-callback descriptions under their conventional names.  Fails
/// with the diagnostic of the first unsupported parameter.
pub fn add_fn_to_module(func: &FnDecl, python_name: String, pyfn_attrs: PyFunctionAttr) -> (r:
    Result<GeneratedFn, GenError>)
    ensures
        ({
            let c = classify_params(params_view(func.params@), pyfn_attrs.pass_module);
            match c.err {
                Option::Some(e) => r matches Result::Err(e2) && e2 == e,
                Option::None => r matches Result::Ok(g) && generated_view(g) == generated_of(
                    fn_decl_view(*func),
                    python_name@,
                    flags_view(pyfn_attrs),
                ),
            }
        }),
{
    let ghost pv = params_view(func.params@);
    let mut args: Vec<FnArg> = Vec::new();
    let ghost mut st: ClassifyState = classify_init();
    let n = func.params.len();
    let mut i: usize = 0;
    proof {
        assert(pv.skip(0) =~= pv);
        assert(args_view(Seq::<FnArg>::empty()) =~= Seq::<FnArgV>::empty());
    }
    while i < n
        invariant
            i <= n,
            n == func.params@.len(),
            pv == params_view(func.params@),
            st.err matches Option::None,
            st.idx == i,
            classify_params(pv, pyfn_attrs.pass_module) == classify_from(
                st,
                pv.skip(i as int),
                pyfn_attrs.pass_module,
            ),
            args_view(args@) == st.args,
        decreases n - i,
    {
        let p = &func.params[i];
        proof {
            assert(pv.skip(i as int)[0] == pv[i as int]);
            assert(pv[i as int] == param_view(func.params@[i as int]));
            assert(pv.skip(i as int).drop_first() =~= pv.skip(i + 1 as int));
        }
        match p {
            Param::Receiver { .. } => {
                proof {
                    let st2 = classify_step(st, pv[i as int], pyfn_attrs.pass_module);
                    lemma_classify_from_err(st2, pv.skip(i + 1 as int), pyfn_attrs.pass_module);
                }
                return Result::Err(GenError { kind: ErrKind::UnexpectedReceiver, at: i });
            },
            Param::Typed { pat, ty } => {
                if pyfn_attrs.pass_module && i == 0 {
                    if check_module_ref(ty) {
                        proof {
                            st = classify_step(st, pv[i as int], pyfn_attrs.pass_module);
                        }
                    } else {
                        proof {
                            let st2 = classify_step(st, pv[i as int], pyfn_attrs.pass_module);
                            lemma_classify_from_err(
                                st2,
                                pv.skip(i + 1 as int),
                                pyfn_attrs.pass_module,
                            );
                        }
                        return Result::Err(GenError { kind: ErrKind::ExpectedModuleArg, at: 0 });
                    }
                } else {
                    match wrap_fn_argument(pat, ty, i) {
                        Result::Ok(a) => {
                            args.push(a);
                            proof {
                                st = classify_step(st, pv[i as int], pyfn_attrs.pass_module);
                                assert(args_view(args@) =~= st.args);
                            }
                        },
                        Result::Err(e) => {
                            proof {
                                let st2 = classify_step(st, pv[i as int], pyfn_attrs.pass_module);
                                lemma_classify_from_err(
                                    st2,
                                    pv.skip(i + 1 as int),
                                    pyfn_attrs.pass_module,
                                );
                            }
                            return Result::Err(e);
                        },
                    }
                }
            },
        }
        i += 1;
    }
    proof {
        assert(pv.skip(i as int) =~= Seq::<ParamV>::empty());
    }
    let name_str = func.name.as_str();
    let thunk_ident = function_wrapper_ident(name_str);
    let wrapper_ident = raw_wrapper_ident(name_str);
    let binding = BindingSpec {
        kind: FnKind::Static,
        name: thunk_ident.clone(),
        python_name: python_name.clone(),
        attrs: pyfn_attrs.arguments,
        args,
        output: func.output,
        doc: func.doc.clone(),
    };
    proof {
        assert(binding_spec_view(binding) == binding_spec_of(
            fn_decl_view(*func),
            python_name@,
            flags_view(pyfn_attrs),
            classify_params(pv, pyfn_attrs.pass_module).args,
        ));
    }
    let raw = function_c_wrapper(name_str, wrapper_ident, &binding, pyfn_attrs.pass_module);
    let g = GeneratedFn { thunk_ident, python_name, doc: func.doc.clone(), raw, binding };
    proof {
        assert(generated_view(g) == generated_of(
            fn_decl_view(*func),
            python_name@,
            flags_view(pyfn_attrs),
        ));
    }
    Result::Ok(g)
}

/// Derives the module entry point record: the fixed-name function the host
/// loader locates, the null-terminated descriptor key, the initializer the
/// descriptor calls and the documentation it attaches.
pub fn py_init(fnname: &str, name: &str, doc: &str) -> (r: ModuleInit)
    ensures
        r.entry_ident@ == entry_ident_of(name@),
        r.module_name@ == name@,
        r.c_name@ == name@ + "\0"@,
        r.init_fn@ == fnname@,
        r.doc@ == doc@,
{
    let entry_ident = entry_point_ident(name);
    let mut c_name = String::from_str(name);
    c_name.append("\0");
    ModuleInit {
        entry_ident,
        module_name: String::from_str(name),
        c_name,
        init_fn: String::from_str(fnname),
        doc: String::from_str(doc),
    }
}

/// What one statement of the module body becomes: a nested function with a
/// well-formed marker expands to the generated definitions, the
/// registration call, and the function itself without its marker; a failed
/// function keeps its statement and contributes its diagnostic; every other
/// statement is kept as it is.
pub open spec fn expand_stmt(s: StmtV) -> (Seq<StmtV>, Option<GenError>) {
    match s {
        StmtV::FnDefV(f) => {
            let sc = scan_attrs(f.attrs);
            match sc.err {
                Option::Some(e) => (seq![s], Option::Some(e)),
                Option::None => match sc.found {
                    Option::None => (seq![s], Option::None),
                    Option::Some(found) => {
                        let f2 = FnDeclV {
                            attrs: sc.kept,
                            name: f.name,
                            params: f.params,
                            output: f.output,
                            doc: f.doc,
                        };
                        let c = classify_params(f.params, found.flags.pass_module);
                        match c.err {
                            Option::Some(e) => (seq![StmtV::FnDefV(f2)], Option::Some(e)),
                            Option::None => {
                                let g = generated_of(f2, found.name, found.flags);
                                (
                                    seq![
                                        StmtV::GeneratedV(g),
                                        StmtV::RegisterV {
                                            module: found.module,
                                            thunk: g.thunk_ident,
                                        },
                                        StmtV::FnDefV(f2),
                                    ],
                                    Option::None,
                                )
                            },
                        }
                    },
                },
            }
        },
        _ => (seq![s], Option::None),
    }
}

/// The state of the module-body transform: the statements emitted so far
/// and the first diagnostic if any.
pub struct ProcessState {
    pub out: Seq<StmtV>,
    pub err: Option<GenError>,
}

pub open spec fn process_init() -> ProcessState {
    ProcessState { out: Seq::empty(), err: Option::None }
}

/// One step of the module-body transform: the statement's expansion is
/// appended, and the first diagnostic is kept.
pub open spec fn process_step(st: ProcessState, s: StmtV) -> ProcessState {
    let r = expand_stmt(s);
    ProcessState {
        out: st.out + r.0,
        err: if st.err matches Option::Some(_) {
            st.err
        } else {
            r.1
        },
    }
}

pub open spec fn process_from(st: ProcessState, s: Seq<StmtV>) -> ProcessState
    decreases s.len(),
{
    if s.len() == 0 {
        st
    } else {
        process_from(process_step(st, s.first()), s.drop_first())
    }
}

/// The transform of a whole module body.
pub open spec fn process_stmts(s: Seq<StmtV>) -> ProcessState {
    process_from(process_init(), s)
}

/// Finds every marked nested function of the module function's body and
/// wires it in: the generated definitions and the registration call are
/// inserted before the function, whose marker is removed.  One function's
/// failure leaves its statement as it is and does not stop the scan of its
/// siblings; the first diagnostic, if any, is returned once the whole body
/// has been processed.
pub fn process_functions_in_module(func: &mut ModuleFn) -> (r: Result<(), GenError>)
    ensures
        ({
            let p = process_stmts(stmts_view(old(func).stmts@));
            stmts_view(final(func).stmts@) == p.out && match p.err {
                Option::Some(e) => r matches Result::Err(e2) && e2 == e,
                Option::None => r matches Result::Ok(_),
            }
        }),
{
    let ghost full: Seq<StmtV> = stmts_view(func.stmts@);
    let mut rest: Vec<Stmt> = Vec::new();
    core::mem::swap(&mut rest, &mut func.stmts);
    let mut out: Vec<Stmt> = Vec::new();
    let mut first_err: Option<GenError> = Option::None;
    let ghost mut st: ProcessState = process_init();
    proof {
        assert(stmts_view(out@) =~= Seq::<StmtV>::empty());
    }
    while rest.len() > 0
        invariant
            process_stmts(full) == process_from(st, stmts_view(rest@)),
            stmts_view(out@) == st.out,
            match (first_err, st.err) {
                (Option::Some(e), Option::Some(ev)) => e == ev,
                (Option::None, Option::None) => true,
                _ => false,
            },
        decreases rest@.len(),
    {
        let ghost rv = stmts_view(rest@);
        let ghost pre = st;
        let s = rest.remove(0);
        let ghost sv = stmt_view(s);
        proof {
            assert(rv[0] == sv);
            assert(stmts_view(rest@) =~= rv.drop_first());
            st = process_step(pre, sv);
        }
        match s {
            Stmt::FnDef(f0) => {
                let mut f = f0;
                let ghost fv = fn_decl_view(f);
                match extract_pyfn_attrs(&mut f.attrs) {
                    Result::Err(e) => {
                        match first_err {
                            Option::None => {
                                first_err = Option::Some(e);
                            },
                            _ => {},
                        }
                        out.push(Stmt::FnDef(f));
                        proof {
                            assert(stmt_view(Stmt::FnDef(f)) == sv);
                            assert(stmts_view(out@) =~= pre.out + expand_stmt(sv).0);
                        }
                    },
                    Result::Ok(Option::None) => {
                        out.push(Stmt::FnDef(f));
                        proof {
                            assert(fn_decl_view(f) == fv);
                            assert(stmts_view(out@) =~= pre.out + expand_stmt(sv).0);
                        }
                    },
                    Result::Ok(Option::Some((m, n, fl))) => {
                        let ghost sc = scan_attrs(fv.attrs);
                        let ghost f2 = (FnDeclV {
                            attrs: sc.kept,
                            name: fv.name,
                            params: fv.params,
                            output: fv.output,
                            doc: fv.doc,
                        });
                        proof {
                            assert(fn_decl_view(f) == f2);
                        }
                        match add_fn_to_module(&f, n, fl) {
                            Result::Err(e) => {
                                match first_err {
                                    Option::None => {
                                        first_err = Option::Some(e);
                                    },
                                    _ => {},
                                }
                                out.push(Stmt::FnDef(f));
                                proof {
                                    assert(stmt_view(Stmt::FnDef(f)) == StmtV::FnDefV(f2));
                                    assert(stmts_view(out@) =~= pre.out + expand_stmt(sv).0);
                                }
                            },
                            Result::Ok(g) => {
                                let thunk = g.thunk_ident.clone();
                                proof {
                                    assert(generated_view(g) == generated_of(
                                        f2,
                                        n@,
                                        flags_view(fl),
                                    ));
                                }
                                out.push(Stmt::Generated(g));
                                out.push(Stmt::Register { module: m, thunk });
                                out.push(Stmt::FnDef(f));
                                proof {
                                    assert(stmts_view(out@) =~= pre.out + expand_stmt(sv).0);
                                }
                            },
                        }
                    },
                }
            },
            other => {
                out.push(other);
                proof {
                    assert(stmt_view(other) == sv);
                    assert(!(sv matches StmtV::FnDefV(_)));
                    assert(stmts_view(out@) =~= pre.out + expand_stmt(sv).0);
                }
            },
        }
    }
    proof {
        assert(stmts_view(rest@) =~= Seq::<StmtV>::empty());
    }
    func.stmts = out;
    match first_err {
        Option::Some(e) => Result::Err(e),
        Option::None => Result::Ok(()),
    }
}

} // verus!
