//! The distilled view of the host syntax tree that the generator works on.
//!
//! Only what the pipeline inspects is carried as plain values: the entries of
//! the recognized marker attribute, parameter patterns, and the surface shape
//! of declared types.  Every other node is kept behind an opaque `u64` handle
//! that the embedding layer resolves back to the real syntax node when it
//! renders the generated code.  Each model type has a spec-level mirror (the
//! `..V` types) that the contracts speak about.

use vstd::prelude::*;

verus! {

/// A dotted path of plain identifiers, such as the marker's module target.
#[derive(Debug, PartialEq, Eq)]
pub struct IdentPath {
    pub segments: Vec<String>,
}

/// The views of a sequence of strings.
pub open spec fn strings_view(s: Seq<String>) -> Seq<Seq<char>> {
    s.map_values(|x: String| x@)
}

/// Spec mirror of [`IdentPath`]: the segment names.
pub open spec fn path_view(p: IdentPath) -> Seq<Seq<char>> {
    strings_view(p.segments@)
}

/// One entry of a marker attribute's parameter list.
#[derive(Debug, PartialEq, Eq)]
pub enum MetaEntry {
    /// A bare path, such as the module target or a flag name.
    PathArg(IdentPath),
    /// A string literal.
    StrArg(String),
    /// Any other entry, kept opaque behind a host-side handle.
    OtherArg(u64),
}

/// Spec mirror of [`MetaEntry`].
pub enum MetaEntryV {
    PathArgV(Seq<Seq<char>>),
    StrArgV(Seq<char>),
    OtherArgV(u64),
}

pub open spec fn entry_view(e: MetaEntry) -> MetaEntryV {
    match e {
        MetaEntry::PathArg(p) => MetaEntryV::PathArgV(path_view(p)),
        MetaEntry::StrArg(s) => MetaEntryV::StrArgV(s@),
        MetaEntry::OtherArg(n) => MetaEntryV::OtherArgV(n),
    }
}

pub open spec fn entries_view(s: Seq<MetaEntry>) -> Seq<MetaEntryV> {
    s.map_values(|e: MetaEntry| entry_view(e))
}

/// One attribute of a function, as far as extraction distinguishes them: the
/// recognized marker with its parsed entry list, or anything else.
#[derive(Debug, PartialEq, Eq)]
pub enum Attr {
    /// The marker attribute, with its parameter list.
    Pyfn(Vec<MetaEntry>),
    /// Any other attribute, kept opaque and preserved verbatim.
    OtherAttr(u64),
}

/// Spec mirror of [`Attr`].
pub enum AttrV {
    PyfnV(Seq<MetaEntryV>),
    OtherAttrV(u64),
}

pub open spec fn attr_view(a: Attr) -> AttrV {
    match a {
        Attr::Pyfn(es) => AttrV::PyfnV(entries_view(es@)),
        Attr::OtherAttr(n) => AttrV::OtherAttrV(n),
    }
}

pub open spec fn attrs_view(s: Seq<Attr>) -> Seq<AttrV> {
    s.map_values(|a: Attr| attr_view(a))
}

/// The surface shape of a declared type, as far as classification reads it:
/// the segment names of a named type and the first generic argument of its
/// last segment, or a reference, or anything else.  The match is purely
/// syntactic: a user type merely named like a recognized pattern is
/// classified as a genuine match would be.
#[derive(Debug, PartialEq, Eq)]
pub enum Ty {
    /// A (possibly qualified) named type.
    Named { segments: Vec<String>, first_arg: Option<Box<Ty>>, node: u64 },
    /// A reference type.
    RefTo { elem: Box<Ty>, node: u64 },
    /// Any other shape, kept opaque.
    OtherTy { node: u64 },
}

/// Spec mirror of [`Ty`].
pub enum TyV {
    NamedV { segments: Seq<Seq<char>>, first_arg: Option<Box<TyV>>, node: u64 },
    RefToV { elem: Box<TyV>, node: u64 },
    OtherTyV { node: u64 },
}

pub open spec fn ty_view(t: Ty) -> TyV
    decreases t,
{
    match t {
        Ty::Named { segments, first_arg, node } => TyV::NamedV {
            segments: strings_view(segments@),
            first_arg: match first_arg {
                Option::Some(b) => Option::Some(Box::new(ty_view(*b))),
                Option::None => Option::None,
            },
            node,
        },
        Ty::RefTo { elem, node } => TyV::RefToV { elem: Box::new(ty_view(*elem)), node },
        Ty::OtherTy { node } => TyV::OtherTyV { node },
    }
}

/// A parameter pattern: a plain binding, or anything else (destructuring
/// patterns are not supported by the generator).
#[derive(Debug, PartialEq, Eq)]
pub enum Pat {
    /// A plain binding: optionally by-reference, optionally mutable, a name.
    Binding { by_ref: bool, mutable: bool, name: String },
    /// Any other pattern, kept opaque.
    OtherPat { node: u64 },
}

/// Spec mirror of [`Pat`].
pub enum PatV {
    BindingV { by_ref: bool, mutable: bool, name: Seq<char> },
    OtherPatV { node: u64 },
}

pub open spec fn pat_view(p: Pat) -> PatV {
    match p {
        Pat::Binding { by_ref, mutable, name } => PatV::BindingV { by_ref, mutable, name: name@ },
        Pat::OtherPat { node } => PatV::OtherPatV { node },
    }
}

/// One declared parameter of the native function.
#[derive(Debug, PartialEq, Eq)]
pub enum Param {
    /// A receiver (`self`-style) parameter.
    Receiver { node: u64 },
    /// An ordinary `pattern: type` parameter.
    Typed { pat: Pat, ty: Ty },
}

/// Spec mirror of [`Param`].
pub enum ParamV {
    ReceiverV { node: u64 },
    TypedV { pat: PatV, ty: TyV },
}

pub open spec fn param_view(p: Param) -> ParamV {
    match p {
        Param::Receiver { node } => ParamV::ReceiverV { node },
        Param::Typed { pat, ty } => ParamV::TypedV { pat: pat_view(pat), ty: ty_view(ty) },
    }
}

pub open spec fn params_view(s: Seq<Param>) -> Seq<ParamV> {
    s.map_values(|p: Param| param_view(p))
}

/// The argument descriptor the binding routine consumes: one per native
/// parameter, in declaration order.
#[derive(Debug, PartialEq, Eq)]
pub struct FnArg {
    pub name: String,
    pub mutable: bool,
    pub by_ref: bool,
    pub ty: Ty,
    /// The inner type when the declared type is a generic optional wrapper.
    pub optional: Option<Ty>,
    /// Whether the declared type is the interpreter-context type.
    pub py: bool,
}

/// Spec mirror of [`FnArg`].
pub struct FnArgV {
    pub name: Seq<char>,
    pub mutable: bool,
    pub by_ref: bool,
    pub ty: TyV,
    pub optional: Option<TyV>,
    pub py: bool,
}

pub open spec fn arg_view(a: FnArg) -> FnArgV {
    FnArgV {
        name: a.name@,
        mutable: a.mutable,
        by_ref: a.by_ref,
        ty: ty_view(a.ty),
        optional: match a.optional {
            Option::Some(t) => Option::Some(ty_view(t)),
            Option::None => Option::None,
        },
        py: a.py,
    }
}

pub open spec fn args_view(s: Seq<FnArg>) -> Seq<FnArgV> {
    s.map_values(|a: FnArg| arg_view(a))
}

/// The decoded flag set of a marker attribute: the calling-convention flags
/// the generator itself reads, plus every remaining entry, kept verbatim for
/// the binding routine.
#[derive(Debug, PartialEq, Eq)]
pub struct PyFunctionAttr {
    pub pass_module: bool,
    pub arguments: Vec<MetaEntry>,
}

/// Spec mirror of [`PyFunctionAttr`].
pub struct PyFunctionAttrV {
    pub pass_module: bool,
    pub arguments: Seq<MetaEntryV>,
}

pub open spec fn flags_view(f: PyFunctionAttr) -> PyFunctionAttrV {
    PyFunctionAttrV { pass_module: f.pass_module, arguments: entries_view(f.arguments@) }
}

/// A native function definition, as far as the generator reads it.  The
/// documentation text and the return-type classification are produced by
/// host-side collaborators and carried through unread.
#[derive(Debug, PartialEq, Eq)]
pub struct FnDecl {
    pub attrs: Vec<Attr>,
    pub name: String,
    pub params: Vec<Param>,
    /// Handle of the declared return type, for the host-side classifier.
    pub output: u64,
    /// Documentation text, as the host-side doc extractor yields it.
    pub doc: String,
}

/// Spec mirror of [`FnDecl`].
pub struct FnDeclV {
    pub attrs: Seq<AttrV>,
    pub name: Seq<char>,
    pub params: Seq<ParamV>,
    pub output: u64,
    pub doc: Seq<char>,
}

pub open spec fn fn_decl_view(f: FnDecl) -> FnDeclV {
    FnDeclV {
        attrs: attrs_view(f.attrs@),
        name: f.name@,
        params: params_view(f.params@),
        output: f.output,
        doc: f.doc@,
    }
}

/// The kind of callable the specification describes; in this generator every
/// wrapped function is registered as a static function.
#[derive(Debug, PartialEq, Eq, Structural, Clone, Copy)]
pub enum FnKind {
    Static,
}

/// The function specification handed to the binding routine: everything it
/// needs to match interpreter-supplied arguments against the native
/// parameters and emit the call.
#[derive(Debug, PartialEq, Eq)]
pub struct BindingSpec {
    pub kind: FnKind,
    /// Internal name of the generated thunk.
    pub name: String,
    /// Name under which the function is exported to the interpreter.
    pub python_name: String,
    /// The marker entries beyond the flags, kept for the binding routine.
    pub attrs: Vec<MetaEntry>,
    pub args: Vec<FnArg>,
    /// Handle of the return-type classification.
    pub output: u64,
    pub doc: String,
}

/// Spec mirror of [`BindingSpec`].
pub struct BindingSpecV {
    pub kind: FnKind,
    pub name: Seq<char>,
    pub python_name: Seq<char>,
    pub attrs: Seq<MetaEntryV>,
    pub args: Seq<FnArgV>,
    pub output: u64,
    pub doc: Seq<char>,
}

pub open spec fn binding_spec_view(s: BindingSpec) -> BindingSpecV {
    BindingSpecV {
        kind: s.kind,
        name: s.name@,
        python_name: s.python_name@,
        attrs: entries_view(s.attrs@),
        args: args_view(s.args@),
        output: s.output,
        doc: s.doc@,
    }
}

/// Description of the raw calling-convention callback to emit.  The callback
/// wraps the panic-to-error boundary around its whole body, reconstructs the
/// module context from the raw self pointer when `pass_module` is set, and
/// hands the specification and the call description to the binding routine.
#[derive(Debug, PartialEq, Eq)]
pub struct RawWrapper {
    /// Identifier of the emitted callback.
    pub ident: String,
    /// The location text embedded for error reporting.
    pub location: String,
    /// Whether the callback reconstructs and passes the module context.
    pub pass_module: bool,
    /// The native function the emitted code calls.
    pub callee: String,
    /// The bound argument names of the emitted call, in order.
    pub arg_names: Vec<String>,
}

/// Spec mirror of [`RawWrapper`].
pub struct RawWrapperV {
    pub ident: Seq<char>,
    pub location: Seq<char>,
    pub pass_module: bool,
    pub callee: Seq<char>,
    pub arg_names: Seq<Seq<char>>,
}

pub open spec fn raw_wrapper_view(w: RawWrapper) -> RawWrapperV {
    RawWrapperV {
        ident: w.ident@,
        location: w.location@,
        pass_module: w.pass_module,
        callee: w.callee@,
        arg_names: strings_view(w.arg_names@),
    }
}

/// Everything emitted for one marked function: the raw callback and the
/// registration thunk that builds a first-class callable from it.
#[derive(Debug, PartialEq, Eq)]
pub struct GeneratedFn {
    /// Identifier of the emitted registration thunk.
    pub thunk_ident: String,
    pub python_name: String,
    pub doc: String,
    pub raw: RawWrapper,
    /// The specification the binding routine receives.
    pub binding: BindingSpec,
}

/// Spec mirror of [`GeneratedFn`].
pub struct GeneratedFnV {
    pub thunk_ident: Seq<char>,
    pub python_name: Seq<char>,
    pub doc: Seq<char>,
    pub raw: RawWrapperV,
    pub binding: BindingSpecV,
}

pub open spec fn generated_view(g: GeneratedFn) -> GeneratedFnV {
    GeneratedFnV {
        thunk_ident: g.thunk_ident@,
        python_name: g.python_name@,
        doc: g.doc@,
        raw: raw_wrapper_view(g.raw),
        binding: binding_spec_view(g.binding),
    }
}

/// One statement of the module function's body.
#[derive(Debug, PartialEq, Eq)]
pub enum Stmt {
    /// A nested function definition.
    FnDef(FnDecl),
    /// Code generated for one marked function.
    Generated(GeneratedFn),
    /// A generated registration call: attach the thunk's callable to the
    /// module named by `module`.
    Register { module: IdentPath, thunk: String },
    /// Any other statement, kept opaque.
    OtherStmt { node: u64 },
}

/// Spec mirror of [`Stmt`].
pub enum StmtV {
    FnDefV(FnDeclV),
    GeneratedV(GeneratedFnV),
    RegisterV { module: Seq<Seq<char>>, thunk: Seq<char> },
    OtherStmtV { node: u64 },
}

pub open spec fn stmt_view(s: Stmt) -> StmtV {
    match s {
        Stmt::FnDef(f) => StmtV::FnDefV(fn_decl_view(f)),
        Stmt::Generated(g) => StmtV::GeneratedV(generated_view(g)),
        Stmt::Register { module, thunk } => StmtV::RegisterV {
            module: path_view(module),
            thunk: thunk@,
        },
        Stmt::OtherStmt { node } => StmtV::OtherStmtV { node },
    }
}

pub open spec fn stmts_view(s: Seq<Stmt>) -> Seq<StmtV> {
    s.map_values(|st: Stmt| stmt_view(st))
}

/// The module function whose body is scanned for marked nested functions.
#[derive(Debug, PartialEq, Eq)]
pub struct ModuleFn {
    pub stmts: Vec<Stmt>,
}

/// Description of the emitted module entry point: the single fixed-name
/// function the host loader locates, which builds the module object from a
/// static descriptor keyed by the null-terminated module name.
#[derive(Debug, PartialEq, Eq)]
pub struct ModuleInit {
    /// Identifier of the emitted entry point.
    pub entry_ident: String,
    pub module_name: String,
    /// The null-terminated form of the module name the descriptor is keyed by.
    pub c_name: String,
    /// The module's internal initializer function the descriptor calls.
    pub init_fn: String,
    pub doc: String,
}

/// The position and kind of a generation-time diagnostic.
#[derive(Debug, PartialEq, Eq, Structural, Clone, Copy)]
pub enum ErrKind {
    /// The marker holds fewer than the two mandatory positional entries.
    MarkerTooShort,
    /// The marker's first entry is not a bare module path.
    ModuleNotPath,
    /// The marker's second entry is not a string literal.
    NameNotStr,
    /// The exported name is not a usable identifier.
    NameNotIdent,
    /// A receiver parameter, which a free-function wrapper cannot take.
    UnexpectedReceiver,
    /// A destructuring or otherwise unsupported parameter pattern.
    UnsupportedArgument,
    /// With the pass-module flag, the first parameter must be a reference to
    /// the module type.
    ExpectedModuleArg,
}

/// A generation-time diagnostic: what was malformed, and at which position
/// (a marker entry position, or a parameter position).
#[derive(Debug, PartialEq, Eq, Structural, Clone, Copy)]
pub struct GenError {
    pub kind: ErrKind,
    pub at: usize,
}

/// The diagnostic text of each error kind.
pub open spec fn message_of(k: ErrKind) -> Seq<char> {
    match k {
        ErrKind::MarkerTooShort => "can not parse 'pyfn' params"@,
        ErrKind::ModuleNotPath => "The first parameter of pyfn must be a MetaItem"@,
        ErrKind::NameNotStr => "The second parameter of pyfn must be a Literal"@,
        ErrKind::NameNotIdent => "The second parameter of pyfn must name an identifier"@,
        ErrKind::UnexpectedReceiver => "Unexpected receiver for #[pyfn]"@,
        ErrKind::UnsupportedArgument => "Unsupported argument"@,
        ErrKind::ExpectedModuleArg => "Expected &PyModule as first argument with `pass_module`."@,
    }
}

impl GenError {
    /// The diagnostic text of this error.
    pub fn message(&self) -> (r: &'static str)
        ensures
            r@ == message_of(self.kind),
    {
        match self.kind {
            ErrKind::MarkerTooShort => "can not parse 'pyfn' params",
            ErrKind::ModuleNotPath => "The first parameter of pyfn must be a MetaItem",
            ErrKind::NameNotStr => "The second parameter of pyfn must be a Literal",
            ErrKind::NameNotIdent => "The second parameter of pyfn must name an identifier",
            ErrKind::UnexpectedReceiver => "Unexpected receiver for #[pyfn]",
            ErrKind::UnsupportedArgument => "Unsupported argument",
            ErrKind::ExpectedModuleArg => "Expected &PyModule as first argument with `pass_module`.",
        }
    }
}

/// Clones a vector of strings.
pub fn clone_strings(v: &Vec<String>) -> (r: Vec<String>)
    ensures
        r@ == v@,
{
    let mut r: Vec<String> = Vec::new();
    let mut i: usize = 0;
    while i < v.len()
        invariant
            i <= v.len(),
            r@.len() == i,
            forall|j: int| 0 <= j < i ==> r@[j] == v@[j],
        decreases v.len() - i,
    {
        r.push(v[i].clone());
        i += 1;
    }
    proof {
        assert(r@ =~= v@);
    }
    r
}

/// Clones an identifier path.
pub fn clone_path(p: &IdentPath) -> (r: IdentPath)
    ensures
        path_view(r) == path_view(*p),
{
    IdentPath { segments: clone_strings(&p.segments) }
}

/// Clones one marker entry.
pub fn clone_entry(e: &MetaEntry) -> (r: MetaEntry)
    ensures
        entry_view(r) == entry_view(*e),
{
    match e {
        MetaEntry::PathArg(p) => MetaEntry::PathArg(clone_path(p)),
        MetaEntry::StrArg(s) => MetaEntry::StrArg(s.clone()),
        MetaEntry::OtherArg(n) => MetaEntry::OtherArg(*n),
    }
}

/// Clones a declared type's surface shape.
pub fn clone_ty(t: &Ty) -> (r: Ty)
    ensures
        ty_view(r) == ty_view(*t),
    decreases *t,
{
    match t {
        Ty::Named { segments, first_arg, node } => {
            let segs = clone_strings(segments);
            let fa: Option<Box<Ty>> = match first_arg {
                Option::Some(b) => Option::Some(Box::new(clone_ty(b))),
                Option::None => Option::None,
            };
            Ty::Named { segments: segs, first_arg: fa, node: *node }
        }
        Ty::RefTo { elem, node } => Ty::RefTo { elem: Box::new(clone_ty(elem)), node: *node },
        Ty::OtherTy { node } => Ty::OtherTy { node: *node },
    }
}

} // verus!
