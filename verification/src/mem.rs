//! What the cpu needs of the memory it runs against.

use crate::err::{GbErrorType, GbResult, outcome};
use vstd::prelude::*;

verus! {

/// A byte-addressed memory, described through its model (`View`). Each
/// access has a spec function over the model: `None` marks an access the
/// memory does not define (an access that cannot be carried out, such as
/// one past the end of a ram),
/// `Some` holds what the access gives and, for a write, the model after it.
pub trait Memory: View + Sized {
    spec fn read8_spec(m: Self::V, addr: u16) -> Option<Result<u8, GbErrorType>>;

    spec fn read16_spec(m: Self::V, addr: u16) -> Option<Result<u16, GbErrorType>>;

    spec fn write8_spec(m: Self::V, addr: u16, val: u8) -> Option<
        (Self::V, Result<(), GbErrorType>),
    >;

    spec fn write16_spec(m: Self::V, addr: u16, val: u16) -> Option<
        (Self::V, Result<(), GbErrorType>),
    >;

    /// Whether a byte read at `addr` is defined.
    fn read8_defined(&self, addr: u16) -> (b: bool)
        ensures
            b == Self::read8_spec(self@, addr) is Some,
    ;

    /// Whether a word read at `addr` is defined.
    fn read16_defined(&self, addr: u16) -> (b: bool)
        ensures
            b == Self::read16_spec(self@, addr) is Some,
    ;

    /// Whether a byte write of `val` at `addr` is defined.
    fn write8_defined(&self, addr: u16, val: u8) -> (b: bool)
        ensures
            b == Self::write8_spec(self@, addr, val) is Some,
    ;

    /// Whether a word write of `val` at `addr` is defined.
    fn write16_defined(&self, addr: u16, val: u16) -> (b: bool)
        ensures
            b == Self::write16_spec(self@, addr, val) is Some,
    ;

    fn read8(&self, addr: u16) -> (r: GbResult<u8>)
        requires
            Self::read8_spec(self@, addr) is Some,
        ensures
            Self::read8_spec(self@, addr) == Some(outcome(r)),
    ;

    fn read16(&self, addr: u16) -> (r: GbResult<u16>)
        requires
            Self::read16_spec(self@, addr) is Some,
        ensures
            Self::read16_spec(self@, addr) == Some(outcome(r)),
    ;

    fn write8(&mut self, addr: u16, val: u8) -> (r: GbResult<()>)
        requires
            Self::write8_spec(old(self)@, addr, val) is Some,
        ensures
            Self::write8_spec(old(self)@, addr, val) == Some((final(self)@, outcome(r))),
    ;

    fn write16(&mut self, addr: u16, val: u16) -> (r: GbResult<()>)
        requires
            Self::write16_spec(old(self)@, addr, val) is Some,
        ensures
            Self::write16_spec(old(self)@, addr, val) == Some((final(self)@, outcome(r))),
    ;
}

} // verus!
