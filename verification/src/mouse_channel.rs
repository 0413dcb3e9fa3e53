use vstd::prelude::*;

verus! {

/// A mouse channel: the handle of the channel object. It is never connected.
pub struct MouseChannel<H> {
    inner: H,
}

impl<H> MouseChannel<H> {
    /// The handle of the channel object.
    pub closed spec fn handle(&self) -> H {
        self.inner
    }

    /// A channel around `value`.
    pub fn from(value: H) -> (c: Self)
        ensures
            c.handle() == value,
    {
        MouseChannel { inner: value }
    }

    /// Connecting a mouse channel always fails.
    pub fn connect(&self) -> (ok: bool)
        ensures
            !ok,
    {
        false
    }

    /// The handle of the channel object.
    pub fn obj(&self) -> (h: &H)
        ensures
            *h == self.handle(),
    {
        &self.inner
    }
}

} // verus!
