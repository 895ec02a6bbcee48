use vstd::prelude::*;

use crate::context::ActivationTarget;

verus! {

/// What a thread has current: the binding of its last successful
/// make-current call, or nothing. Each thread has its own; activation on one
/// thread leaves every other thread's binding as it was.
#[derive(Debug, Clone, Copy, PartialEq, Eq, Structural)]
pub struct ThreadBinding {
    pub current: Option<ActivationTarget>,
}

impl ThreadBinding {
    /// The binding after a successful activation of `target`.
    pub open spec fn activated(self, target: ActivationTarget) -> ThreadBinding {
        ThreadBinding { current: Some(target) }
    }

    /// The binding after the thread's context has been released.
    pub open spec fn released(self) -> ThreadBinding {
        ThreadBinding { current: None }
    }

    /// A thread with nothing current.
    pub fn new() -> (r: ThreadBinding)
        ensures
            r.current is None,
    {
        ThreadBinding { current: None }
    }

    /// Records a successful activation: the target replaces whatever was
    /// current.
    pub fn activate(&mut self, target: ActivationTarget)
        ensures
            *final(self) == old(self).activated(target),
    {
        self.current = Some(target);
    }

    /// Records that the thread has nothing current.
    pub fn release(&mut self)
        ensures
            *final(self) == old(self).released(),
    {
        self.current = None;
    }

    /// The native context current on the thread, if any.
    pub fn current_context(&self) -> (r: Option<usize>)
        ensures
            r == (match self.current {
                Some(t) => Some(t.egl_context),
                None => None,
            }),
    {
        match self.current {
            Some(t) => Some(t.egl_context),
            None => None,
        }
    }
}

/// Activating `a` and then `b` on one thread leaves `b` current, with its
/// targets, whatever was current before.
pub proof fn lemma_later_activation_wins(t: ThreadBinding, a: ActivationTarget, b: ActivationTarget)
    ensures
        t.activated(a).activated(b) == t.activated(b),
        t.activated(a).activated(b).current == Some(b),
{
}

/// Activations on two threads are independent: each thread ends with its own
/// target current, in either order of the two calls.
pub proof fn lemma_threads_bind_independently(
    t1: ThreadBinding,
    t2: ThreadBinding,
    a: ActivationTarget,
    b: ActivationTarget,
)
    ensures
        t1.activated(a).current == Some(a),
        t2.activated(b).current == Some(b),
{
}

} // verus!
