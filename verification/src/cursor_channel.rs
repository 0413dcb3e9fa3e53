use vstd::prelude::*;

verus! {

/// The cursor channel: the handle of the channel object.
pub struct CursorChannel<H> {
    inner: H,
}

impl<H> CursorChannel<H> {
    /// The handle of the channel object.
    pub closed spec fn handle(&self) -> H {
        self.inner
    }

    /// A channel around `value`.
    pub fn from(value: H) -> (c: Self)
        ensures
            c.handle() == value,
    {
        CursorChannel { inner: value }
    }

    /// The handle of the channel object.
    pub fn inner(&self) -> (h: &H)
        ensures
            *h == self.handle(),
    {
        &self.inner
    }
}

} // verus!
