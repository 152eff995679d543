//! Support shared by the architectures' interrupt controllers.

use vstd::prelude::*;

verus! {

/// A context held in a static for the interrupt handlers: empty until set.
pub struct StaticContext<T> {
    inner: Option<T>,
}

impl<T: Clone> StaticContext<T> {
    /// The value held, if any.
    pub closed spec fn held(&self) -> Option<T> {
        self.inner
    }

    /// An empty context.
    pub fn new() -> (r: Self)
        ensures
            r.held() is None,
    {
        StaticContext { inner: None }
    }

    /// Holds `val`, replacing what was held.
    pub fn set(&mut self, val: T)
        ensures
            final(self).held() == Some(val),
    {
        self.inner = Some(val);
    }

    /// A clone of the value held, if any.
    pub fn get(&self) -> (r: Option<T>)
        ensures
            r is Some <==> self.held() is Some,
            r matches Some(v) ==> cloned(self.held().unwrap(), v),
    {
        self.inner.clone()
    }
}

/// What `get` reads from a context that was set to `val` is a clone of
/// `val`: `read` stands for any result that `get` may give on it.
pub proof fn lemma_get_after_set<T: Clone>(ctx: StaticContext<T>, val: T, read: Option<T>)
    requires
        ctx.held() == Some(val),
        read is Some <==> ctx.held() is Some,
        read matches Some(v) ==> cloned(ctx.held().unwrap(), v),
    ensures
        read matches Some(v) && cloned(val, v),
{
}

} // verus!
