//! Code generators for named-field record declarations.
//!
//! Given a model of a type declaration (its name, generics, attributes and
//! fields), the crate synthesizes accessor ("getter") methods and
//! "dissolve" methods that move, borrow, or mutably borrow every field out
//! as a tuple.  Each generator validates the declaration's shape and the
//! per-field directives (`skip`, `rename = "..."`), and either produces the
//! full text of an `impl` block or reports exactly one diagnostic.

use vstd::prelude::*;

pub mod action;
pub mod ast;
pub mod consume;
pub mod dissolve;
pub mod extract;
pub mod faultmsg;
pub mod getters;
pub mod laws;

use crate::ast::{TypeDecl, TypeDeclV};
use crate::faultmsg::Problem;

verus! {

/// The view of a generation outcome: the emitted text or the diagnostic.
pub open spec fn emit_res_view(r: Result<String, Problem>) -> Result<Seq<char>, Problem> {
    match r {
        Ok(s) => Ok(s@),
        Err(p) => Err(p),
    }
}

/// What the getter generator emits for a declaration.
pub open spec fn getters_spec(d: TypeDeclV) -> Result<Seq<char>, Problem> {
    match getters::try_from_spec(d) {
        Err(p) => Err(p),
        Ok(ns) => Ok(getters::impl_spec(ns)),
    }
}

/// Generates one public accessor per retained field, gathered in a single
/// `impl` block that reuses the declaration's generics verbatim.
pub fn getters(input: &TypeDecl) -> (r: Result<String, Problem>)
    ensures
        emit_res_view(r) == getters_spec(input@),
{
    match getters::NamedStruct::try_from(input) {
        Err(p) => Err(p),
        Ok(ns) => Ok(ns.emit()),
    }
}

/// What a dissolve-family generator emits for a declaration.
pub open spec fn dissolve_flavor_spec(d: TypeDeclV, flavor: dissolve::Flavor) -> Result<
    Seq<char>,
    Problem,
> {
    match dissolve::try_from_spec(d, flavor) {
        Err(p) => Err(p),
        Ok(ns) => Ok(dissolve::impl_spec(ns)),
    }
}

/// Generates the projection method of one flavor in its own `impl` block.
pub fn dissolve_with(input: &TypeDecl, flavor: dissolve::Flavor) -> (r: Result<String, Problem>)
    ensures
        emit_res_view(r) == dissolve_flavor_spec(input@, flavor),
{
    match dissolve::NamedStruct::try_from(input, flavor) {
        Err(p) => Err(p),
        Ok(ns) => Ok(ns.emit()),
    }
}

/// Generates the consuming projection: `fn dissolve(self)` by default.
pub fn dissolve(input: &TypeDecl) -> (r: Result<String, Problem>)
    ensures
        emit_res_view(r) == dissolve_flavor_spec(input@, dissolve::Flavor::Dissolve),
{
    dissolve_with(input, dissolve::Flavor::Dissolve)
}

/// Generates the borrowing projection: `fn dissolve_ref(&self)` by default.
pub fn dissolve_ref(input: &TypeDecl) -> (r: Result<String, Problem>)
    ensures
        emit_res_view(r) == dissolve_flavor_spec(input@, dissolve::Flavor::DissolveRef),
{
    dissolve_with(input, dissolve::Flavor::DissolveRef)
}

/// Generates the mutably borrowing projection: `fn dissolve_mut(&mut self)`
/// by default.
pub fn dissolve_mut(input: &TypeDecl) -> (r: Result<String, Problem>)
    ensures
        emit_res_view(r) == dissolve_flavor_spec(input@, dissolve::Flavor::DissolveMut),
{
    dissolve_with(input, dissolve::Flavor::DissolveMut)
}

} // verus!
