//! Trusted wrappers for the shared-ownership handle.
//!
//! The parameter vector of a problem is shared between the operators of an
//! equations bundle through `Rc`. The standard library's `Rc` is specified
//! by vstd only in part; the two operations below are wrapped here and their
//! contracts taken on trust.

use vstd::prelude::*;

use std::rc::Rc;

verus! {

/// Relies on the `Deref` impl of `std::rc::Rc`: borrowing through the handle
/// yields the shared value itself.
#[verifier::external_body]
pub fn rc_borrow<T>(v: &Rc<T>) -> (r: &T)
    ensures
        *r == *v,
{
    &**v
}

/// Relies on the `Clone` impl of `std::rc::Rc`: cloning the handle yields a
/// handle to the same shared value, and does not touch the value.
#[verifier::external_body]
pub fn rc_clone<T>(v: &Rc<T>) -> (r: Rc<T>)
    ensures
        r == *v,
{
    Rc::clone(v)
}

} // verus!
