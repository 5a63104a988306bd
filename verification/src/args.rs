//! Classification of native parameters into argument descriptors.
//!
//! The mathematical model is a left-to-right fold over the parameter list
//! ([`classify_params`]): a receiver parameter is rejected, a leading
//! module-reference parameter is consumed when the pass-module flag is set,
//! and every other parameter becomes one argument descriptor, in declaration
//! order.  Type tests are purely syntactic matches on the declared type's
//! surface shape.

use vstd::prelude::*;
use vstd::string::StringExecFns;
use crate::model::ErrKind;
use crate::model::FnArg;
use crate::model::FnArgV;
use crate::model::GenError;
use crate::model::ParamV;
use crate::model::Pat;
use crate::model::PatV;
use crate::model::Ty;
use crate::model::TyV;
use crate::model::arg_view;
use crate::model::clone_ty;
use crate::model::pat_view;
use crate::model::ty_view;

verus! {

/// Whether the surface shape is a reference to the module type: a reference
/// whose element is a named type whose last segment is the module type name.
pub open spec fn is_module_ref(t: TyV) -> bool {
    match t {
        TyV::RefToV { elem, .. } => match *elem {
            TyV::NamedV { segments, .. } => segments.len() > 0 && segments.last() == "PyModule"@,
            _ => false,
        },
        _ => false,
    }
}

/// The inner type when the surface shape is a generic optional wrapper
/// around it; absent otherwise.
pub open spec fn option_inner_of(t: TyV) -> Option<TyV> {
    match t {
        TyV::NamedV { segments, first_arg, .. } => if segments.len() > 0 && segments.last()
            == "Option"@ {
            match first_arg {
                Option::Some(b) => Option::Some(*b),
                Option::None => Option::None,
            }
        } else {
            Option::None
        },
        _ => Option::None,
    }
}

/// Whether the surface shape is the interpreter-context type.
pub open spec fn is_python_of(t: TyV) -> bool {
    match t {
        TyV::NamedV { segments, .. } => segments.len() > 0 && segments.last() == "Python"@,
        _ => false,
    }
}

/// Classifying one typed parameter at position `idx`: a plain binding
/// becomes a descriptor, any other pattern is unsupported.
pub open spec fn wrap_arg_result(pat: PatV, ty: TyV, idx: int) -> Result<FnArgV, GenError> {
    match pat {
        PatV::BindingV { by_ref, mutable, name } => Result::Ok(
            FnArgV {
                name,
                mutable,
                by_ref,
                ty,
                optional: option_inner_of(ty),
                py: is_python_of(ty),
            },
        ),
        PatV::OtherPatV { .. } => Result::Err(
            GenError { kind: ErrKind::UnsupportedArgument, at: idx as usize },
        ),
    }
}

/// The state of the parameter fold: the next position, the descriptors so
/// far, and the first diagnostic if any.
pub struct ClassifyState {
    pub idx: int,
    pub args: Seq<FnArgV>,
    pub err: Option<GenError>,
}

pub open spec fn classify_init() -> ClassifyState {
    ClassifyState { idx: 0, args: Seq::empty(), err: Option::None }
}

/// One step of parameter classification.
pub open spec fn classify_step(st: ClassifyState, p: ParamV, pass_module: bool) -> ClassifyState {
    if st.err matches Option::Some(_) {
        ClassifyState { idx: st.idx + 1, args: st.args, err: st.err }
    } else {
        match p {
            ParamV::ReceiverV { .. } => ClassifyState {
                idx: st.idx + 1,
                args: st.args,
                err: Option::Some(
                    GenError { kind: ErrKind::UnexpectedReceiver, at: st.idx as usize },
                ),
            },
            ParamV::TypedV { pat, ty } => if pass_module && st.idx == 0 {
                if is_module_ref(ty) {
                    ClassifyState { idx: 1, args: st.args, err: Option::None }
                } else {
                    ClassifyState {
                        idx: 1,
                        args: st.args,
                        err: Option::Some(GenError { kind: ErrKind::ExpectedModuleArg, at: 0 }),
                    }
                }
            } else {
                match wrap_arg_result(pat, ty, st.idx) {
                    Result::Ok(a) => ClassifyState {
                        idx: st.idx + 1,
                        args: st.args.push(a),
                        err: Option::None,
                    },
                    Result::Err(e) => ClassifyState {
                        idx: st.idx + 1,
                        args: st.args,
                        err: Option::Some(e),
                    },
                }
            },
        }
    }
}

pub open spec fn classify_from(st: ClassifyState, s: Seq<ParamV>, pass_module: bool) -> ClassifyState
    decreases s.len(),
{
    if s.len() == 0 {
        st
    } else {
        classify_from(classify_step(st, s.first(), pass_module), s.drop_first(), pass_module)
    }
}

/// The classification of a whole parameter list.
pub open spec fn classify_params(s: Seq<ParamV>, pass_module: bool) -> ClassifyState {
    classify_from(classify_init(), s, pass_module)
}

/// A diagnostic is sticky: once classification has failed, the remaining
/// parameters change neither the diagnostic nor the descriptors.
pub proof fn lemma_classify_from_err(st: ClassifyState, s: Seq<ParamV>, pass_module: bool)
    requires
        st.err matches Option::Some(_),
    ensures
        classify_from(st, s, pass_module).err == st.err,
        classify_from(st, s, pass_module).args == st.args,
    decreases s.len(),
{
    if s.len() > 0 {
        lemma_classify_from_err(classify_step(st, s.first(), pass_module), s.drop_first(), pass_module);
    }
}

/// Law: a receiver-style first parameter makes classification fail with the
/// receiver diagnostic at that parameter, whatever the flags say.
pub proof fn lemma_receiver_rejected(s: Seq<ParamV>, pass_module: bool)
    requires
        s.len() > 0,
        s[0] matches ParamV::ReceiverV { .. },
    ensures
        classify_params(s, pass_module).err == Option::Some(
            GenError { kind: ErrKind::UnexpectedReceiver, at: 0 },
        ),
{
    let st2 = classify_step(classify_init(), s.first(), pass_module);
    lemma_classify_from_err(st2, s.drop_first(), pass_module);
}

/// Law: with the pass-module flag, a first parameter whose declared type is
/// not a reference to the module type makes classification fail, naming
/// that parameter.
pub proof fn lemma_wrong_module_param_rejected(s: Seq<ParamV>)
    requires
        s.len() > 0,
        (s[0] matches ParamV::TypedV { pat, ty } && !is_module_ref(ty)),
    ensures
        classify_params(s, true).err == Option::Some(
            GenError { kind: ErrKind::ExpectedModuleArg, at: 0 },
        ),
{
    let st2 = classify_step(classify_init(), s.first(), true);
    lemma_classify_from_err(st2, s.drop_first(), true);
}

proof fn lemma_classify_shifted(st1: ClassifyState, st2: ClassifyState, s: Seq<ParamV>)
    requires
        st1.idx == st2.idx + 1,
        st1.idx >= 1,
        st2.idx >= 0,
        st1.args == st2.args,
        st1.err matches Option::None,
        st2.err matches Option::None,
    ensures
        (classify_from(st1, s, true).err matches Option::None) == (classify_from(
            st2,
            s,
            false,
        ).err matches Option::None),
        (classify_from(st1, s, true).err matches Option::None) ==> classify_from(st1, s, true).args
            == classify_from(st2, s, false).args,
    decreases s.len(),
{
    if s.len() > 0 {
        let a1 = classify_step(st1, s.first(), true);
        let a2 = classify_step(st2, s.first(), false);
        if a1.err matches Option::Some(_) {
            lemma_classify_from_err(a1, s.drop_first(), true);
            lemma_classify_from_err(a2, s.drop_first(), false);
        } else {
            lemma_classify_shifted(a1, a2, s.drop_first());
        }
    }
}

/// Law: with the pass-module flag, a leading module-reference parameter is
/// consumed: classification succeeds exactly when the remaining parameters
/// classify on their own, and then yields exactly their descriptors.
pub proof fn lemma_module_param_consumed(s: Seq<ParamV>)
    requires
        s.len() > 0,
        (s[0] matches ParamV::TypedV { pat, ty } && is_module_ref(ty)),
    ensures
        (classify_params(s, true).err matches Option::None) == (classify_params(
            s.drop_first(),
            false,
        ).err matches Option::None),
        (classify_params(s, true).err matches Option::None) ==> classify_params(s, true).args
            == classify_params(s.drop_first(), false).args,
{
    let st1 = classify_step(classify_init(), s.first(), true);
    lemma_classify_shifted(st1, classify_init(), s.drop_first());
}

/// Decides whether the declared type is a reference to the module type.
pub fn check_module_ref(t: &Ty) -> (r: bool)
    ensures
        r == is_module_ref(ty_view(*t)),
{
    match t {
        Ty::RefTo { elem, .. } => match &**elem {
            Ty::Named { segments, .. } => {
                if segments.len() == 0 {
                    proof {
                        let iv = ty_view(**elem);
                        assert(iv matches TyV::NamedV { segments: sv, .. } && sv.len() == 0);
                        assert(ty_view(*t) matches TyV::RefToV { elem: e2, .. } && *e2 == iv);
                    }
                    false
                } else {
                    let pm = String::from_str("PyModule");
                    let r = segments[segments.len() - 1] == pm;
                    proof {
                        let iv = ty_view(**elem);
                        assert(crate::model::strings_view(segments@)[segments@.len() - 1]
                            == segments@[segments@.len() - 1]@);
                        assert(iv matches TyV::NamedV { segments: sv, .. } && sv
                            == crate::model::strings_view(segments@));
                        assert(ty_view(*t) matches TyV::RefToV { elem: e2, .. } && *e2 == iv);
                    }
                    r
                }
            },
            _ => {
                proof {
                    let iv = ty_view(**elem);
                    assert(!(iv matches TyV::NamedV { .. }));
                    assert(ty_view(*t) matches TyV::RefToV { elem: e2, .. } && *e2 == iv);
                }
                false
            },
        },
        _ => false,
    }
}

/// Computes the optional-wrapper inner type of a declared type, purely from
/// its surface shape.
pub fn option_type_argument(t: &Ty) -> (r: Option<Ty>)
    ensures
        match (r, option_inner_of(ty_view(*t))) {
            (Option::Some(inner), Option::Some(iv)) => ty_view(inner) == iv,
            (Option::None, Option::None) => true,
            _ => false,
        },
{
    match t {
        Ty::Named { segments, first_arg, .. } => {
            if segments.len() == 0 {
                return Option::None;
            }
            let on = String::from_str("Option");
            let is_opt = segments[segments.len() - 1] == on;
            proof {
                assert(crate::model::strings_view(segments@)[segments@.len() - 1]
                    == segments@[segments@.len() - 1]@);
                assert(ty_view(*t) matches TyV::NamedV { segments: sv, .. } && sv
                    == crate::model::strings_view(segments@));
            }
            if is_opt {
                match first_arg {
                    Option::Some(b) => Option::Some(clone_ty(b)),
                    Option::None => Option::None,
                }
            } else {
                Option::None
            }
        },
        _ => Option::None,
    }
}

/// Decides whether the declared type is the interpreter-context type.
pub fn is_python(t: &Ty) -> (r: bool)
    ensures
        r == is_python_of(ty_view(*t)),
{
    match t {
        Ty::Named { segments, .. } => {
            if segments.len() == 0 {
                false
            } else {
                let py = String::from_str("Python");
                let r = segments[segments.len() - 1] == py;
                proof {
                    assert(crate::model::strings_view(segments@)[segments@.len() - 1]
                        == segments@[segments@.len() - 1]@);
                    assert(ty_view(*t) matches TyV::NamedV { segments: sv, .. } && sv
                        == crate::model::strings_view(segments@));
                }
                r
            }
        },
        _ => false,
    }
}

/// Transforms one typed parameter at position `idx` into an argument
/// descriptor.  Only a plain binding is supported: a destructuring pattern
/// yields the unsupported-argument diagnostic.  The descriptor's optional
/// and context flags come from the declared type's surface shape alone.
pub fn wrap_fn_argument(pat: &Pat, ty: &Ty, idx: usize) -> (r: Result<FnArg, GenError>)
    ensures
        match (r, wrap_arg_result(pat_view(*pat), ty_view(*ty), idx as int)) {
            (Result::Ok(a), Result::Ok(av)) => arg_view(a) == av,
            (Result::Err(e), Result::Err(ev)) => e == ev,
            _ => false,
        },
{
    match pat {
        Pat::Binding { by_ref, mutable, name } => {
            let t = clone_ty(ty);
            let optional = option_type_argument(ty);
            let py = is_python(ty);
            Result::Ok(
                FnArg {
                    name: name.clone(),
                    mutable: *mutable,
                    by_ref: *by_ref,
                    ty: t,
                    optional,
                    py,
                },
            )
        },
        Pat::OtherPat { .. } => Result::Err(
            GenError { kind: ErrKind::UnsupportedArgument, at: idx },
        ),
    }
}

} // verus!
