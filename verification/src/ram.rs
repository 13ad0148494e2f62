//! Plain byte-addressed ram, used for the working ram and the high ram.

use crate::err::{GbResult, outcome};
use vstd::prelude::*;

verus! {

pub struct Ram {
    data: Vec<u8>,
}

impl View for Ram {
    type V = Seq<u8>;

    closed spec fn view(&self) -> Seq<u8> {
        self.data@
    }
}

impl Ram {
    /// A zero-filled ram of `size` bytes.
    pub fn new(size: u16) -> (r: Ram)
        ensures
            r@ == Seq::new(size as nat, |_i: int| 0u8),
    {
        let r = Ram { data: vec![0u8; size as usize] };
        assert(r@ =~= Seq::new(size as nat, |_i: int| 0u8));
        r
    }

    /// The number of bytes held.
    pub fn size(&self) -> (n: usize)
        ensures
            n == self@.len(),
    {
        self.data.len()
    }

    pub fn read(&self, addr: u16) -> (r: GbResult<u8>)
        requires
            addr < self@.len(),
        ensures
            outcome(r) == Ok::<u8, crate::err::GbErrorType>(self@[addr as int]),
    {
        Ok(self.data[addr as usize])
    }

    pub fn write(&mut self, addr: u16, val: u8) -> (r: GbResult<()>)
        requires
            addr < old(self)@.len(),
        ensures
            final(self)@ == old(self)@.update(addr as int, val),
            r.is_ok(),
    {
        self.data.set(addr as usize, val);
        Ok(())
    }
}

/// A byte written to ram is what a later read of the same address returns,
/// and the other addresses keep their bytes.
pub proof fn lemma_ram_read_after_write(ram: Seq<u8>, addr: int, val: u8, other: int)
    requires
        0 <= addr < ram.len(),
        0 <= other < ram.len(),
    ensures
        ram.update(addr, val)[addr] == val,
        other != addr ==> ram.update(addr, val)[other] == ram[other],
{
}

} // verus!
