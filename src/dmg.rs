use vstd::prelude::*;

use crate::bus::bootrom::BootROM;
use crate::bus::bootrom::BootRomError;
use crate::bus::cartridge::Cartridge;
use crate::bus::cartridge::image_error;
use crate::bus::cartridge::CartridgeError;
use crate::bus::power_on_bus;
use crate::bus::Bus;
use crate::cpu::outcome;
use crate::cpu::semantics::run_spec;
use crate::cpu::power_on_state;
use crate::cpu::CpuFault;
use crate::cpu::CPU;
use crate::ppu::PPU;

verus! {

/// Why the machine could not be put together.
#[derive(Clone, Copy, Debug, PartialEq, Eq, Structural)]
pub enum LoadError {
    BootRom(BootRomError),
    Cartridge(CartridgeError),
}

/// The whole console: a CPU that owns the bus, which owns memory and the PPU.
pub struct DMG {
    pub cpu: CPU,
}

impl DMG {
    pub open spec fn wf(&self) -> bool {
        self.cpu.wf()
    }

    /// A console at power-on over a boot ROM and a cartridge.
    pub fn new(boot_rom: BootROM, cartridge: Cartridge) -> (r: DMG)
        requires
            cartridge.wf(),
        ensures
            r.wf(),
            r.cpu@ == power_on_state(
                power_on_bus(boot_rom.data@, cartridge.rom_banks[0].data@, PPU::new_spec()),
            ),
            r.cpu.bus.boot_rom == boot_rom,
            r.cpu.bus.cartridge == cartridge,
    {
        let bus = Bus::new(boot_rom, cartridge, PPU::new());
        DMG { cpu: CPU::new(bus) }
    }

    /// A console from a boot ROM image and a cartridge image, or why one of them was refused.
    pub fn init(boot_rom_data: Vec<u8>, cartridge_data: Vec<u8>) -> (r: Result<DMG, LoadError>)
        ensures
            boot_rom_data.len() != 256 ==> r == Err::<DMG, LoadError>(
                LoadError::BootRom(BootRomError::BadSize { len: boot_rom_data.len() }),
            ),
            boot_rom_data.len() == 256 ==> match image_error(cartridge_data@) {
                Some(e) => r == Err::<DMG, LoadError>(LoadError::Cartridge(e)),
                None => r is Ok,
            },
            r matches Ok(d) ==> {
                &&& d.wf()
                &&& d.cpu@ == power_on_state(
                    power_on_bus(boot_rom_data@, cartridge_data@.subrange(0, 0x4000), PPU::new_spec()),
                )
                &&& d.cpu.bus.boot_rom.data@ == boot_rom_data@
                &&& d.cpu.bus.cartridge.parsed_from(cartridge_data@)
            },
    {
        let boot_rom = match BootROM::new(boot_rom_data) {
            Ok(b) => b,
            Err(e) => {
                return Err(LoadError::BootRom(e));
            },
        };
        let cartridge = match Cartridge::parse_cartridge_from_blob(cartridge_data) {
            Ok(c) => c,
            Err(e) => {
                return Err(LoadError::Cartridge(e));
            },
        };
        Ok(DMG::new(boot_rom, cartridge))
    }

    /// Runs `steps` instructions, stopping at the first fault.
    pub fn run(&mut self, steps: u64) -> (r: Result<(), CpuFault>)
        requires
            old(self).wf(),
            old(self).cpu.cycle_count + 24 * steps <= u64::MAX,
            old(self).cpu.bus.ppu.cycle_count + 24 * steps <= u64::MAX,
        ensures
            final(self).wf(),
            outcome(r, final(self).cpu@, run_spec(old(self).cpu@, steps as nat)),
            final(self).cpu.bus.cartridge == old(self).cpu.bus.cartridge,
            final(self).cpu.bus.boot_rom == old(self).cpu.bus.boot_rom,
    {
        let mut i: u64 = 0;
        while i < steps
            invariant
                self.wf(),
                i <= steps,
                run_spec(old(self).cpu@, steps as nat) == run_spec(self.cpu@, (steps - i) as nat),
                self.cpu.cycle_count + 24 * (steps - i) <= u64::MAX,
                self.cpu.bus.ppu.cycle_count + 24 * (steps - i) <= u64::MAX,
                self.cpu.bus.cartridge == old(self).cpu.bus.cartridge,
                self.cpu.bus.boot_rom == old(self).cpu.bus.boot_rom,
            decreases steps - i,
        {
            match self.cpu.step() {
                Ok(()) => {},
                Err(e) => {
                    return Err(e);
                },
            }
            i = i + 1;
        }
        Ok(())
    }
}

} // verus!
