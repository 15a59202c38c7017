use vstd::prelude::*;

use super::MemoryZone;

verus! {

/// A block of readable and writable memory mapped at `base_address`.
pub struct RAMBank {
    pub data: Vec<u8>,
    pub base_address: u16,
}

impl MemoryZone for RAMBank {
    open spec fn contents(&self) -> Seq<u8> {
        self.data@
    }

    open spec fn base(&self) -> int {
        self.base_address as int
    }

    open spec fn read_only(&self) -> bool {
        false
    }

    fn read(&self, address: u16) -> (r: u8) {
        self.data[self.global_address_to_local_address(address) as usize]
    }

    fn write(&mut self, address: u16, value: u8) {
        let local_address = self.global_address_to_local_address(address) as usize;
        self.data[local_address] = value;
    }
}

impl RAMBank {
    fn global_address_to_local_address(&self, address: u16) -> (r: u16)
        requires
            self.base_address <= address,
        ensures
            r == address - self.base_address,
    {
        address - self.base_address
    }
}

} // verus!
