//! Flags through which workers are told to stop.
use vstd::prelude::*;

verus! {

/// A flag that a worker holds a share of. `id` tells one flag from the next one that takes its
/// place; `raised` is what the workers read.
#[derive(Clone, Copy, Debug, PartialEq, Eq, Structural)]
pub struct Flag {
    pub id: u64,
    pub raised: bool,
}

impl Flag {
    /// The same flag, raised.
    pub open spec fn up(self) -> Flag {
        Flag { id: self.id, raised: true }
    }

    /// The flag that takes this one's place: another one, and not raised.
    pub open spec fn next(self) -> Flag {
        Flag {
            id: if self.id == u64::MAX {
                0
            } else {
                (self.id + 1) as u64
            },
            raised: false,
        }
    }

    /// A first flag, not raised.
    pub fn new() -> (flag: Flag)
        ensures
            flag == (Flag { id: 0, raised: false }),
    {
        Flag { id: 0, raised: false }
    }

    /// Raises the flag: every worker that holds a share of it is told to stop.
    pub fn raise(self) -> (flag: Flag)
        ensures
            flag == self.up(),
    {
        Flag { id: self.id, raised: true }
    }

    /// A fresh flag for the workers to come. Those that hold a share of this one keep it.
    pub fn renew(self) -> (flag: Flag)
        ensures
            flag == self.next(),
    {
        let id: u64 = if self.id == u64::MAX { 0 } else { self.id + 1 };
        Flag { id, raised: false }
    }
}

/// A renewed flag is another flag: raising the one does not stop the workers of the other.
pub proof fn a_renewed_flag_is_another(flag: Flag)
    ensures
        flag.next().id != flag.id,
        !flag.next().raised,
{
}

/// Raising a flag and renewing it: the raised flag is the same one, and flags that differ are
/// still told apart after each was renewed.
pub proof fn flags_keep_their_identity(a: Flag, b: Flag)
    ensures
        a.up().id == a.id,
        a.up().raised,
        a.next().id == b.next().id <==> a.id == b.id,
        a.id < u64::MAX ==> a.next().id == a.id + 1,
{
}

} // verus!
