//! What every memory bank controller offers the cartridge.

use crate::err::{GbErrorType, GbResult, outcome};
use vstd::prelude::*;

verus! {

/// The kinds of memory bank controller a cartridge header can name.
#[derive(Debug, Clone, Copy, PartialEq, Eq, Structural)]
pub enum MapperType {
    NoMbc,
    Mbc1,
    Mbc2,
    Mbc3,
    Mbc4,
    Mbc5,
    Mbc6,
    Mbc7,
    Mmm01,
    M161,
    HuC1,
    HuC3,
    Other,
}

/// A memory bank controller, described through its model as `Memory` is:
/// `None` marks an access it does not define.
pub trait Mapper: View + Sized {
    spec fn read_spec(m: Self::V, addr: u16) -> Option<Result<u8, GbErrorType>>;

    spec fn write_spec(m: Self::V, addr: u16, val: u8) -> Option<
        (Self::V, Result<(), GbErrorType>),
    >;

    fn read(&self, addr: u16) -> (r: GbResult<u8>)
        requires
            Self::read_spec(self@, addr) is Some,
        ensures
            Self::read_spec(self@, addr) == Some(outcome(r)),
    ;

    /// Whether `read` is defined at `addr`.
    fn readable(&self, addr: u16) -> (b: bool)
        ensures
            b == Self::read_spec(self@, addr) is Some,
    ;

    /// Whether `write` is defined at `addr` with `val`.
    fn writable(&self, addr: u16, val: u8) -> (b: bool)
        ensures
            b == Self::write_spec(self@, addr, val) is Some,
    ;

    fn write(&mut self, addr: u16, val: u8) -> (r: GbResult<()>)
        requires
            Self::write_spec(old(self)@, addr, val) is Some,
        ensures
            Self::write_spec(old(self)@, addr, val) == Some((final(self)@, outcome(r))),
    ;
}

} // verus!
