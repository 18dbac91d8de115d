use vstd::prelude::*;

verus! {

/// An operating-system handle that this library may have to release.
#[derive(Debug, Clone, Copy, PartialEq, Eq, Structural)]
pub enum Handle {
    /// Nothing is held; there is nothing to release.
    Closed,
    /// The handle with this value is held and must be released once.
    Open(u64),
}

/// The handle for a raw value that the system handed out: zero and the
/// all-ones invalid value mean that nothing is held.
pub open spec fn handle_of(raw: u64) -> Handle {
    if raw == 0 || raw == u64::MAX {
        Handle::Closed
    } else {
        Handle::Open(raw)
    }
}

/// What releasing a handle hands out (the value to release, if any) and leaves
/// behind.
pub open spec fn release(h: Handle) -> (Option<u64>, Handle) {
    match h {
        Handle::Closed => (None, Handle::Closed),
        Handle::Open(v) => (Some(v), Handle::Closed),
    }
}

impl Handle {
    /// The handle for a raw value that the system handed out.
    pub fn from_raw(raw: u64) -> (r: Handle)
        ensures
            r == handle_of(raw),
    {
        if raw == 0 || raw == u64::MAX {
            Handle::Closed
        } else {
            Handle::Open(raw)
        }
    }

    /// Whether a handle is held.
    pub fn is_open(&self) -> (r: bool)
        ensures
            r <==> *self is Open,
    {
        match self {
            Handle::Open(_) => true,
            Handle::Closed => false,
        }
    }

    /// Takes the held value out, leaving the handle closed: the value is handed
    /// out once, and a second call hands out nothing.
    pub fn take(&mut self) -> (r: Option<u64>)
        ensures
            r == release(*old(self)).0,
            *final(self) == release(*old(self)).1,
    {
        let r = match *self {
            Handle::Open(v) => Some(v),
            Handle::Closed => None,
        };
        *self = Handle::Closed;
        r
    }
}

/// Releasing is idempotent: after one release, releasing again hands out
/// nothing and changes nothing.
pub proof fn lemma_release_once(h: Handle)
    ensures
        release(release(h).1) == (None::<u64>, Handle::Closed),
        h is Open ==> release(h).0 == Some(h->Open_0),
{
}

} // verus!
