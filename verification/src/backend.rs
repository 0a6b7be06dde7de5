//! What the host application provides.

use std::rc::Rc;
use vstd::prelude::*;
use crate::context::Context;

verus! {

/// Anything that provides a device context.
pub trait Facade {
    /// The device context that this facade provides: the one behind every
    /// result of [`Facade::get_context`].
    spec fn context(&self) -> Rc<Context>;

    /// The shared reference to the device context. Every call returns the
    /// same context.
    fn get_context(&self) -> (context: &Rc<Context>)
        ensures
            *context == self.context(),
    ;
}

impl Facade for Rc<Context> {
    open spec fn context(&self) -> Rc<Context> {
        *self
    }

    fn get_context(&self) -> (context: &Rc<Context>) {
        self
    }
}

/// Another counted reference to the context behind `context`.
///
/// Calls `Rc::clone`, which makes a new pointer to the same allocation: the
/// result refers to the very context that the argument refers to.
#[verifier::external_body]
pub(crate) fn share_context(context: &Rc<Context>) -> (shared: Rc<Context>)
    ensures
        shared == *context,
{
    Rc::clone(context)
}

} // verus!
