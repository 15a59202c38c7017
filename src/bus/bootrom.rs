use vstd::prelude::*;

use super::MemoryZone;

verus! {

/// Size of the boot ROM image.
pub const BOOT_ROM_SIZE: usize = 256;

/// The boot ROM: read-only, mapped from address 0.
pub struct BootROM {
    pub data: Vec<u8>,
}

/// Why a boot ROM image was refused.
#[derive(Clone, Copy, Debug, PartialEq, Eq, Structural)]
pub enum BootRomError {
    /// The image is not exactly 256 bytes long.
    BadSize { len: usize },
}

impl BootROM {
    /// A boot ROM holding `data`, which must be exactly 256 bytes.
    pub fn new(data: Vec<u8>) -> (r: Result<BootROM, BootRomError>)
        ensures
            data.len() == BOOT_ROM_SIZE ==> (r matches Ok(b) && b.data@ == data@),
            data.len() != BOOT_ROM_SIZE ==> r == Err::<BootROM, BootRomError>(
                BootRomError::BadSize { len: data.len() },
            ),
    {
        if data.len() != BOOT_ROM_SIZE {
            return Err(BootRomError::BadSize { len: data.len() });
        }
        Ok(BootROM { data })
    }
}

impl MemoryZone for BootROM {
    open spec fn contents(&self) -> Seq<u8> {
        self.data@
    }

    open spec fn base(&self) -> int {
        0
    }

    open spec fn read_only(&self) -> bool {
        true
    }

    fn read(&self, address: u16) -> (r: u8) {
        self.data[address as usize]
    }

    fn write(&mut self, address: u16, value: u8) {
    }
}

} // verus!
