//! Identifier conventions of the generated code.
//!
//! Every generated item's name is a pure function of the original function's
//! (or module's) identifier, so independently generated code can refer to a
//! thunk or entry point without a shared registry.

use vstd::prelude::*;
use vstd::string::StrSliceExecFns;
use vstd::string::StringExecFns;

verus! {

/// Prefix of the registration thunk's identifier.
pub open spec fn thunk_prefix() -> Seq<char> {
    "__pyo3_get_function_"@
}

/// Prefix of the raw calling-convention callback's identifier.
pub open spec fn raw_prefix() -> Seq<char> {
    "__pyo3_raw_"@
}

/// Prefix of the module entry point the host loader locates by name.
pub open spec fn entry_prefix() -> Seq<char> {
    "PyInit_"@
}

/// Name under which the registration thunk for `name` is emitted.
pub open spec fn thunk_ident_of(name: Seq<char>) -> Seq<char> {
    thunk_prefix() + name
}

/// Name under which the raw callback for `name` is emitted.
pub open spec fn raw_ident_of(name: Seq<char>) -> Seq<char> {
    raw_prefix() + name
}

/// Name of the entry point emitted for the module called `name`.
pub open spec fn entry_ident_of(name: Seq<char>) -> Seq<char> {
    entry_prefix() + name
}

/// The generated identifiers depend on nothing but the original name: two
/// independent generation runs over the same name agree on every derived
/// identifier without coordination.
pub proof fn lemma_generated_idents_deterministic(n1: Seq<char>, n2: Seq<char>)
    requires
        n1 == n2,
    ensures
        thunk_ident_of(n1) == thunk_ident_of(n2),
        raw_ident_of(n1) == raw_ident_of(n2),
        entry_ident_of(n1) == entry_ident_of(n2),
{
}

/// Derives the identifier of the registration thunk for `name`; explicit
/// wrap-this-function call sites predict the same identifier.
pub fn function_wrapper_ident(name: &str) -> (r: String)
    ensures
        r@ == thunk_ident_of(name@),
{
    let mut s = String::from_str("__pyo3_get_function_");
    s.append(name);
    s
}

/// Derives the identifier of the raw callback for `name`.
pub fn raw_wrapper_ident(name: &str) -> (r: String)
    ensures
        r@ == raw_ident_of(name@),
{
    let mut s = String::from_str("__pyo3_raw_");
    s.append(name);
    s
}

/// Derives the identifier of the module entry point for the module `name`.
pub fn entry_point_ident(name: &str) -> (r: String)
    ensures
        r@ == entry_ident_of(name@),
{
    let mut s = String::from_str("PyInit_");
    s.append(name);
    s
}

/// Whether `c` may start an identifier.
pub open spec fn is_ident_start(c: char) -> bool {
    ('a' <= c && c <= 'z') || ('A' <= c && c <= 'Z') || c == '_'
}

/// Whether `c` may continue an identifier.
pub open spec fn is_ident_continue(c: char) -> bool {
    is_ident_start(c) || ('0' <= c && c <= '9')
}

/// Whether `s` is a plain identifier: nonempty, an identifier-start
/// character, then identifier-continue characters.
pub open spec fn is_ident(s: Seq<char>) -> bool {
    &&& s.len() > 0
    &&& is_ident_start(s[0])
    &&& forall|i: int| 1 <= i < s.len() ==> is_ident_continue(#[trigger] s[i])
}

fn check_ident_start(c: char) -> (r: bool)
    ensures
        r == is_ident_start(c),
{
    ('a' <= c && c <= 'z') || ('A' <= c && c <= 'Z') || c == '_'
}

fn check_ident_continue(c: char) -> (r: bool)
    ensures
        r == is_ident_continue(c),
{
    check_ident_start(c) || ('0' <= c && c <= '9')
}

/// Decides whether `s` is a plain identifier, so that an exported name taken
/// from a string literal can be rejected instead of producing unusable code.
pub fn check_ident(s: &str) -> (r: bool)
    ensures
        r == is_ident(s@),
{
    let n = s.unicode_len();
    if n == 0 {
        return false;
    }
    if !check_ident_start(s.get_char(0)) {
        return false;
    }
    let mut i: usize = 1;
    while i < n
        invariant
            1 <= i <= n,
            n == s@.len(),
            is_ident_start(s@[0]),
            forall|j: int| 1 <= j < i ==> is_ident_continue(#[trigger] s@[j]),
        decreases n - i,
    {
        if !check_ident_continue(s.get_char(i)) {
            return false;
        }
        i += 1;
    }
    true
}

} // verus!
