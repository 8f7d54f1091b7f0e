//! Typed field values shared by several commands.
use vstd::prelude::*;

verus! {

/// An episode number: a plain number, or one of the special kinds the
/// wire format marks with a one-letter prefix.
#[derive(Debug, Clone, Copy, PartialEq, Eq, Structural)]
pub enum EpNo {
    Regular(i32),
    Special(i32),
    Credit(i32),
    Trailer(i32),
    Parody(i32),
    Other(i32),
}

/// The number inside an episode number, whatever its kind.
pub open spec fn epno_val(e: EpNo) -> i32 {
    match e {
        EpNo::Regular(x) => x,
        EpNo::Special(x) => x,
        EpNo::Credit(x) => x,
        EpNo::Trailer(x) => x,
        EpNo::Parody(x) => x,
        EpNo::Other(x) => x,
    }
}

impl DeepView for EpNo {
    type V = EpNo;

    open spec fn deep_view(&self) -> EpNo {
        *self
    }
}

impl EpNo {
    /// The number inside, with the kind stripped.
    pub fn epno(&self) -> (r: i32)
        ensures
            r == epno_val(*self),
    {
        match self {
            EpNo::Regular(x) => *x,
            EpNo::Special(x) => *x,
            EpNo::Credit(x) => *x,
            EpNo::Trailer(x) => *x,
            EpNo::Parody(x) => *x,
            EpNo::Other(x) => *x,
        }
    }
}

} // verus!
