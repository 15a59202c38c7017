pub mod bootrom;
pub mod cartridge;
pub mod io_ports;
pub mod ram_bank;

use vstd::prelude::*;

use crate::ppu::ppu_tick;
use crate::ppu::ppu_ticks;
use crate::ppu::PPU;
use bootrom::BootROM;
use cartridge::Cartridge;
use io_ports::is_stub_port;
use io_ports::is_stub_port_exec;
use io_ports::IOPorts;
use io_ports::IO_BOOT_ROM_CONTROL;
use io_ports::IO_LCD_SCROLL_Y;
use io_ports::IO_LCD_Y_COORDINATE;
use ram_bank::RAMBank;

verus! {

pub const BOOT_ROM_END: u16 = 0x0100;

pub const ROM_BANK_END: u16 = 0x4000;

pub const SWITCHABLE_ROM_END: u16 = 0x8000;

pub const VIDEO_RAM_BASE_ADDRESS: u16 = 0x8000;

pub const VIDEO_RAM_SIZE: u16 = 0x2000;

pub const EXTERNAL_RAM_END: u16 = 0xC000;

pub const WORK_RAM_BASE_ADDRESS: u16 = 0xC000;

pub const WORK_RAM_BANK_SIZE: u16 = 0x2000;

pub const IO_PORTS_BASE_ADDRESS: u16 = 0xFF00;

pub const IO_PORTS_SIZE: u16 = 0x80;

pub const HIGH_RAM_BASE_ADDRESS: u16 = 0xFF80;

pub const HIGH_RAM_BANK_SIZE: u16 = 0x007F;

/// A region of memory that answers for the addresses from `base()` on, one byte each.
pub trait MemoryZone {
    /// The bytes of the zone, the first one at address `base()`.
    spec fn contents(&self) -> Seq<u8>;

    spec fn base(&self) -> int;

    /// Whether writes are refused.
    spec fn read_only(&self) -> bool;

    fn read(&self, address: u16) -> (r: u8)
        requires
            self.base() <= address < self.base() + self.contents().len(),
        ensures
            r == self.contents()[address - self.base()],
    ;

    fn write(&mut self, address: u16, value: u8)
        requires
            !old(self).read_only(),
            old(self).base() <= address < old(self).base() + old(self).contents().len(),
        ensures
            final(self).base() == old(self).base(),
            final(self).read_only() == old(self).read_only(),
            final(self).contents() == old(self).contents().update(address - old(self).base(), value),
    ;
}

/// The region an address is routed to.
#[derive(Clone, Copy, Debug, PartialEq, Eq, Structural)]
pub enum MemoryRegion {
    BootRom,
    CartridgeRom,
    VideoRam,
    WorkRam,
    IoPorts,
    HighRam,
}

/// The bus at power-on over a boot ROM image and cartridge bank 0: the boot-ROM overlay on, all
/// RAM and every port cleared.
pub open spec fn power_on_bus(boot_rom: Seq<u8>, rom0: Seq<u8>, ppu: PPU) -> BusState {
    BusState {
        boot_rom_active: true,
        boot_rom,
        rom0,
        video_ram: Seq::new(0x2000, |i: int| 0u8),
        work_ram: Seq::new(0x2000, |i: int| 0u8),
        high_ram: Seq::new(0x7F, |i: int| 0u8),
        io: Seq::new(0x80, |i: int| 0u8),
        ppu,
    }
}

/// Everything the bus holds, as values.
pub struct BusState {
    pub boot_rom_active: bool,
    pub boot_rom: Seq<u8>,
    /// Cartridge bank 0.
    pub rom0: Seq<u8>,
    pub video_ram: Seq<u8>,
    pub work_ram: Seq<u8>,
    pub high_ram: Seq<u8>,
    /// The last byte accepted by each I/O port.
    pub io: Seq<u8>,
    pub ppu: PPU,
}

impl BusState {
    pub open spec fn wf(self) -> bool {
        &&& self.video_ram.len() == 0x2000
        &&& self.work_ram.len() == 0x2000
        &&& self.high_ram.len() == 0x7F
        &&& self.io.len() == 0x80
        &&& self.ppu.wf()
    }
}

/// Where an access to `address` goes, or `None` where the map has nothing (ROM banking,
/// external RAM, echo RAM, the unusable range, the interrupt-enable register).
pub open spec fn region_of(boot_rom_active: bool, address: u16) -> Option<MemoryRegion> {
    if boot_rom_active && address < 0x0100 {
        Some(MemoryRegion::BootRom)
    } else if address < 0x4000 {
        Some(MemoryRegion::CartridgeRom)
    } else if address < 0x8000 {
        None
    } else if address < 0xA000 {
        Some(MemoryRegion::VideoRam)
    } else if address < 0xC000 {
        None
    } else if address < 0xE000 {
        Some(MemoryRegion::WorkRam)
    } else if 0xFF00 <= address < 0xFF80 {
        Some(MemoryRegion::IoPorts)
    } else if 0xFF80 <= address < 0xFFFF {
        Some(MemoryRegion::HighRam)
    } else {
        None
    }
}

/// The byte at index `i` of `s`, when there is one.
pub open spec fn byte_in(s: Seq<u8>, i: int) -> Option<u8> {
    if 0 <= i < s.len() {
        Some(s[i])
    } else {
        None
    }
}

/// What a read of an I/O port returns: LY and SCY come from the PPU, the stub ports read as
/// zero, and the other ports fault.
pub open spec fn io_read(s: BusState, address: u16) -> Option<u8> {
    if address == 0xFF44 {
        Some(s.ppu.current_line)
    } else if address == 0xFF42 {
        Some(s.ppu.bg_scroll_y)
    } else if is_stub_port(address) {
        Some(0)
    } else {
        None
    }
}

/// What a read of `address` returns, or `None` for a fault.
pub open spec fn read_byte(s: BusState, address: u16) -> Option<u8> {
    match region_of(s.boot_rom_active, address) {
        Some(MemoryRegion::BootRom) => byte_in(s.boot_rom, address as int),
        Some(MemoryRegion::CartridgeRom) => byte_in(s.rom0, address as int),
        Some(MemoryRegion::VideoRam) => byte_in(s.video_ram, address - 0x8000),
        Some(MemoryRegion::WorkRam) => byte_in(s.work_ram, address - 0xC000),
        Some(MemoryRegion::IoPorts) => io_read(s, address),
        Some(MemoryRegion::HighRam) => byte_in(s.high_ram, address - 0xFF80),
        None => None,
    }
}

/// The bus after an I/O port accepts `value`, or `None` for a fault. Writes to LY are ignored;
/// a write of 1 to 0xFF50 turns the boot-ROM overlay off for good, another value there faults.
pub open spec fn io_write(s: BusState, address: u16, value: u8) -> Option<BusState> {
    let latched = BusState { io: s.io.update(address - 0xFF00, value), ..s };
    if address == 0xFF44 {
        Some(s)
    } else if address == 0xFF42 {
        Some(BusState { ppu: PPU { bg_scroll_y: value, ..s.ppu }, ..latched })
    } else if address == 0xFF50 {
        if value == 1 {
            Some(BusState { boot_rom_active: false, ..latched })
        } else {
            None
        }
    } else if is_stub_port(address) {
        Some(latched)
    } else {
        None
    }
}

/// The bus after a write of `value` to `address`, or `None` for a fault (ROM, unmapped
/// addresses, unknown ports).
pub open spec fn write_byte(s: BusState, address: u16, value: u8) -> Option<BusState> {
    match region_of(s.boot_rom_active, address) {
        Some(MemoryRegion::VideoRam) => Some(
            BusState { video_ram: s.video_ram.update(address - 0x8000, value), ..s },
        ),
        Some(MemoryRegion::WorkRam) => Some(
            BusState { work_ram: s.work_ram.update(address - 0xC000, value), ..s },
        ),
        Some(MemoryRegion::IoPorts) => io_write(s, address, value),
        Some(MemoryRegion::HighRam) => Some(
            BusState { high_ram: s.high_ram.update(address - 0xFF80, value), ..s },
        ),
        _ => None,
    }
}

/// Whether a byte written to `address` is what a later read there returns: true of video RAM,
/// work RAM, high RAM and the SCY register.
pub open spec fn stores_written_byte(s: BusState, address: u16) -> bool {
    match region_of(s.boot_rom_active, address) {
        Some(MemoryRegion::VideoRam) => true,
        Some(MemoryRegion::WorkRam) => true,
        Some(MemoryRegion::HighRam) => true,
        Some(MemoryRegion::IoPorts) => address == 0xFF42,
        _ => false,
    }
}

/// Writing a byte to a writable region of the bus and reading it back returns the byte.
pub proof fn lemma_write_then_read(s: BusState, address: u16, value: u8)
    requires
        s.wf(),
        stores_written_byte(s, address),
    ensures
        write_byte(s, address, value) matches Some(t) && read_byte(t, address) == Some(value),
{
}

/// A write to one address leaves what a read of another address returns, and where writes are
/// kept, unchanged, unless it is the write of 1 that turns the boot ROM off.
pub proof fn lemma_write_keeps_other(s: BusState, a: u16, value: u8, b: u16)
    requires
        s.wf(),
        stores_written_byte(s, a),
        a != b,
    ensures
        write_byte(s, a, value) matches Some(t) && read_byte(t, b) == read_byte(s, b)
            && stores_written_byte(t, b) == stores_written_byte(s, b) && t.wf(),
{
}

/// The bus after `n` machine cycles.
pub open spec fn bus_ticks(s: BusState, n: nat) -> BusState {
    BusState { ppu: ppu_ticks(s.ppu, n), ..s }
}

/// The memory-mapped bus. It owns every memory region and the PPU.
pub struct Bus {
    pub boot_rom_active: bool,
    pub boot_rom: BootROM,
    pub cartridge: Cartridge,
    pub work_ram: RAMBank,
    pub video_ram: RAMBank,
    pub io_ports: IOPorts,
    pub high_ram: RAMBank,
    pub ppu: PPU,
}

impl View for Bus {
    type V = BusState;

    open spec fn view(&self) -> BusState {
        BusState {
            boot_rom_active: self.boot_rom_active,
            boot_rom: self.boot_rom.data@,
            rom0: if self.cartridge.rom_banks.len() > 0 {
                self.cartridge.rom_banks[0].data@
            } else {
                Seq::empty()
            },
            video_ram: self.video_ram.data@,
            work_ram: self.work_ram.data@,
            high_ram: self.high_ram.data@,
            io: self.io_ports.data@,
            ppu: self.ppu,
        }
    }
}

impl Bus {
    /// Every region has its place and size, and the PPU is in a reachable state.
    pub open spec fn wf(&self) -> bool {
        &&& self.cartridge.wf()
        &&& self.video_ram.base_address == 0x8000
        &&& self.work_ram.base_address == 0xC000
        &&& self.high_ram.base_address == 0xFF80
        &&& self@.wf()
    }

    fn new_video_ram() -> (r: RAMBank)
        ensures
            r.base_address == 0x8000,
            r.data@ == Seq::new(0x2000, |i: int| 0u8),
    {
        RAMBank { base_address: VIDEO_RAM_BASE_ADDRESS, data: vec![0; VIDEO_RAM_SIZE as usize] }
    }

    fn new_work_ram() -> (r: RAMBank)
        ensures
            r.base_address == 0xC000,
            r.data@ == Seq::new(0x2000, |i: int| 0u8),
    {
        RAMBank { base_address: WORK_RAM_BASE_ADDRESS, data: vec![0; WORK_RAM_BANK_SIZE as usize] }
    }

    fn new_high_ram() -> (r: RAMBank)
        ensures
            r.base_address == 0xFF80,
            r.data@ == Seq::new(0x7F, |i: int| 0u8),
    {
        RAMBank { base_address: HIGH_RAM_BASE_ADDRESS, data: vec![0; HIGH_RAM_BANK_SIZE as usize] }
    }

    /// A bus over the given boot ROM, cartridge and PPU, with the boot-ROM overlay on and all
    /// RAM cleared.
    pub fn new(boot_rom: BootROM, cartridge: Cartridge, ppu: PPU) -> (r: Bus)
        requires
            cartridge.wf(),
            ppu.wf(),
        ensures
            r.wf(),
            r@ == power_on_bus(boot_rom.data@, cartridge.rom_banks[0].data@, ppu),
            r.boot_rom == boot_rom,
            r.cartridge == cartridge,
            r.ppu == ppu,
    {
        Bus {
            boot_rom_active: true,
            boot_rom,
            cartridge,
            work_ram: Bus::new_work_ram(),
            video_ram: Bus::new_video_ram(),
            io_ports: IOPorts::new(),
            high_ram: Bus::new_high_ram(),
            ppu,
        }
    }

    /// A bus whose boot ROM holds `boot_rom_data` and whose cartridge bank 0 holds
    /// `cart_rom_bank_zero_data`, with a fresh PPU.
    pub fn new_from_vecs(boot_rom_data: Vec<u8>, cart_rom_bank_zero_data: Vec<u8>) -> (r: Bus)
        ensures
            r.wf(),
            r@ == power_on_bus(boot_rom_data@, cart_rom_bank_zero_data@, PPU::new_spec()),
            r.cartridge.rom_banks.len() == 1,
            r.cartridge.rom_banks[0].bank_number == 0,
            r.cartridge.name@.len() == 0,
            r.cartridge.blob@.len() == 0,
    {
        let boot_rom = BootROM { data: boot_rom_data };
        let cartridge = Cartridge::new_dummy_cartridge(cart_rom_bank_zero_data);
        Bus::new(boot_rom, cartridge, PPU::new())
    }

    /// The region an access to `address` goes to, or `None` where the map has nothing.
    pub fn get_memory_zone_from_address(&self, address: u16) -> (r: Option<MemoryRegion>)
        ensures
            r == region_of(self.boot_rom_active, address),
    {
        if self.boot_rom_active && address < BOOT_ROM_END {
            return Some(MemoryRegion::BootRom);
        }
        if address < ROM_BANK_END {
            return Some(MemoryRegion::CartridgeRom);
        }
        if address < SWITCHABLE_ROM_END {
            return None;
        }
        if address < 0xA000 {
            return Some(MemoryRegion::VideoRam);
        }
        if address < EXTERNAL_RAM_END {
            return None;
        }
        if address < 0xE000 {
            return Some(MemoryRegion::WorkRam);
        }
        if address >= IO_PORTS_BASE_ADDRESS && address < IO_PORTS_BASE_ADDRESS + IO_PORTS_SIZE {
            return Some(MemoryRegion::IoPorts);
        }
        if address >= HIGH_RAM_BASE_ADDRESS && address < HIGH_RAM_BASE_ADDRESS + HIGH_RAM_BANK_SIZE {
            return Some(MemoryRegion::HighRam);
        }
        None
    }

    /// Whether a read of `address` is served.
    pub fn is_readable(&self, address: u16) -> (r: bool)
        requires
            self.wf(),
        ensures
            r == read_byte(self@, address) is Some,
    {
        match self.get_memory_zone_from_address(address) {
            Some(MemoryRegion::BootRom) => (address as usize) < self.boot_rom.data.len(),
            Some(MemoryRegion::CartridgeRom) => (address as usize)
                < self.cartridge.rom_banks[0].data.len(),
            Some(MemoryRegion::IoPorts) => address == IO_LCD_Y_COORDINATE || address
                == IO_LCD_SCROLL_Y || is_stub_port_exec(address),
            Some(_) => true,
            None => false,
        }
    }

    /// Whether a write of `value` to `address` is accepted.
    pub fn is_writable(&self, address: u16, value: u8) -> (r: bool)
        requires
            self.wf(),
        ensures
            r == write_byte(self@, address, value) is Some,
    {
        match self.get_memory_zone_from_address(address) {
            Some(MemoryRegion::IoPorts) => {
                if address == IO_BOOT_ROM_CONTROL {
                    value == 1
                } else {
                    address == IO_LCD_Y_COORDINATE || address == IO_LCD_SCROLL_Y
                        || is_stub_port_exec(address)
                }
            },
            Some(MemoryRegion::BootRom) => false,
            Some(MemoryRegion::CartridgeRom) => false,
            Some(_) => true,
            None => false,
        }
    }

    /// The byte at `address`.
    pub fn read(&self, address: u16) -> (r: u8)
        requires
            self.wf(),
            read_byte(self@, address) is Some,
        ensures
            read_byte(self@, address) == Some(r),
    {
        match self.get_memory_zone_from_address(address) {
            Some(MemoryRegion::BootRom) => self.boot_rom.read(address),
            Some(MemoryRegion::CartridgeRom) => self.cartridge.rom_banks[0].read(address),
            Some(MemoryRegion::VideoRam) => self.video_ram.read(address),
            Some(MemoryRegion::WorkRam) => self.work_ram.read(address),
            Some(MemoryRegion::IoPorts) => self.read_io(address),
            Some(MemoryRegion::HighRam) => self.high_ram.read(address),
            None => 0,
        }
    }

    fn read_io(&self, address: u16) -> (r: u8)
        requires
            io_read(self@, address) is Some,
        ensures
            io_read(self@, address) == Some(r),
    {
        if address == IO_LCD_Y_COORDINATE {
            self.ppu.current_line
        } else if address == IO_LCD_SCROLL_Y {
            self.ppu.bg_scroll_y
        } else {
            0
        }
    }

    /// Writes `value` to `address`. A write of 1 to 0xFF50 turns the boot-ROM overlay off.
    pub fn write(&mut self, address: u16, value: u8)
        requires
            old(self).wf(),
            write_byte(old(self)@, address, value) is Some,
        ensures
            final(self).wf(),
            write_byte(old(self)@, address, value) == Some(final(self)@),
            final(self).cartridge == old(self).cartridge,
            final(self).boot_rom == old(self).boot_rom,
    {
        if address == IO_BOOT_ROM_CONTROL && value == 1 {
            self.boot_rom_active = false;
        }
        match self.get_memory_zone_from_address(address) {
            Some(MemoryRegion::VideoRam) => self.video_ram.write(address, value),
            Some(MemoryRegion::WorkRam) => self.work_ram.write(address, value),
            Some(MemoryRegion::HighRam) => self.high_ram.write(address, value),
            Some(MemoryRegion::IoPorts) => {
                if address == IO_LCD_SCROLL_Y {
                    self.ppu.bg_scroll_y = value;
                }
                if address != IO_LCD_Y_COORDINATE {
                    self.io_ports.latch(address, value);
                }
            },
            _ => {},
        }
    }

    /// Advances the PPU by one machine cycle.
    pub fn cycle(&mut self)
        requires
            old(self).wf(),
            old(self).ppu.cycle_count < u64::MAX,
        ensures
            final(self).wf(),
            final(self)@ == (BusState { ppu: ppu_tick(old(self)@.ppu), ..old(self)@ }),
            final(self).ppu == ppu_tick(old(self).ppu),
            final(self).cartridge == old(self).cartridge,
            final(self).boot_rom == old(self).boot_rom,
    {
        self.ppu.cycle();
    }
}

} // verus!
