//! The cartridge interface: reads and writes on the cartridge bus.
use vstd::prelude::*;

verus! {

/// A cartridge; lets users build their own controllers.
pub trait Mbc: Sized {
    spec fn wf(&self) -> bool;

    /// Whether a read at `address` is served.
    spec fn readable(&self, address: u16) -> bool;

    /// Whether a write of `value` at `address` is served.
    spec fn writable(&self, address: u16, value: u8) -> bool;

    spec fn read_spec(&self, address: u16) -> u8;

    spec fn write_post(&self, address: u16, value: u8, after: Self) -> bool;

    fn read(&self, address: u16) -> (r: u8)
        requires
            self.wf(),
            self.readable(address),
        ensures
            r == self.read_spec(address),
    ;

    fn write(&mut self, address: u16, value: u8)
        requires
            old(self).wf(),
            old(self).writable(address, value),
        ensures
            final(self).wf(),
            old(self).write_post(address, value, *final(self)),
    ;
}

/// A bare ROM: reads index it and writes are ignored.
impl Mbc for Vec<u8> {
    open spec fn wf(&self) -> bool {
        true
    }

    open spec fn readable(&self, address: u16) -> bool {
        address < self@.len()
    }

    open spec fn writable(&self, address: u16, value: u8) -> bool {
        true
    }

    open spec fn read_spec(&self, address: u16) -> u8 {
        self@[address as int]
    }

    open spec fn write_post(&self, address: u16, value: u8, after: Self) -> bool {
        after@ == self@
    }

    fn read(&self, address: u16) -> (r: u8) {
        self[address as usize]
    }

    fn write(&mut self, address: u16, value: u8)
        ensures
            *final(self) == *old(self),
    {
    }
}

} // verus!
