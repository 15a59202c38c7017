use vstd::prelude::*;

verus! {

pub const IO_SOUND_CH1_SOUND_LENGTH_WAVE_PATTERN_DUTY_NR11: u16 = 0xFF11;

pub const IO_SOUND_CH1_VOLUME_ENVELOPE_NR12: u16 = 0xFF12;

pub const IO_SOUND_CH1_FREQUENCY_LO_NR13: u16 = 0xFF13;

pub const IO_SOUND_CH1_FREQUENCY_HI_NR14: u16 = 0xFF14;

pub const IO_SOUND_CHANNEL_CONTROL_NR50: u16 = 0xFF24;

pub const IO_SOUND_OUTPUT_TERMINAL_NR51: u16 = 0xFF25;

pub const IO_SOUND_ON_OFF_NR52: u16 = 0xFF26;

pub const IO_LCD_CONTROL: u16 = 0xFF40;

pub const IO_LCD_SCROLL_Y: u16 = 0xFF42;

pub const IO_LCD_Y_COORDINATE: u16 = 0xFF44;

pub const IO_LDC_BG_PALETTE_DATA: u16 = 0xFF47;

pub const IO_BOOT_ROM_CONTROL: u16 = 0xFF50;

pub const IO_PORTS_BASE_ADDRESS: u16 = 0xFF00;

pub const IO_PORTS_SIZE: u16 = 0x80;

/// Ports that accept any write and read as zero: sound, LCD control, background palette and the
/// boot-ROM control register.
pub open spec fn is_stub_port(address: u16) -> bool {
    ||| 0xFF11 <= address <= 0xFF14
    ||| 0xFF24 <= address <= 0xFF26
    ||| address == 0xFF40
    ||| address == 0xFF47
    ||| address == 0xFF50
}

pub fn is_stub_port_exec(address: u16) -> (r: bool)
    ensures
        r == is_stub_port(address),
{
    (IO_SOUND_CH1_SOUND_LENGTH_WAVE_PATTERN_DUTY_NR11 <= address && address
        <= IO_SOUND_CH1_FREQUENCY_HI_NR14) || (IO_SOUND_CHANNEL_CONTROL_NR50 <= address && address
        <= IO_SOUND_ON_OFF_NR52) || address == IO_LCD_CONTROL || address == IO_LDC_BG_PALETTE_DATA
        || address == IO_BOOT_ROM_CONTROL
}

/// The memory-mapped I/O page. It keeps the last byte accepted by each port; the ports that the
/// PPU serves are read from the PPU by the bus.
pub struct IOPorts {
    pub data: Vec<u8>,
}

impl IOPorts {
    pub fn new() -> (r: IOPorts)
        ensures
            r.data@ == Seq::new(IO_PORTS_SIZE as nat, |i: int| 0u8),
    {
        IOPorts { data: vec![0; IO_PORTS_SIZE as usize] }
    }

    pub fn global_address_to_local_address(&self, address: u16) -> (r: u16)
        requires
            IO_PORTS_BASE_ADDRESS <= address,
        ensures
            r == address - IO_PORTS_BASE_ADDRESS,
    {
        address - IO_PORTS_BASE_ADDRESS
    }

    /// Keeps `value` as the last byte written to port `address`.
    pub fn latch(&mut self, address: u16, value: u8)
        requires
            IO_PORTS_BASE_ADDRESS <= address < IO_PORTS_BASE_ADDRESS + IO_PORTS_SIZE,
            old(self).data.len() == IO_PORTS_SIZE,
        ensures
            final(self).data@ == old(self).data@.update(address - IO_PORTS_BASE_ADDRESS, value),
    {
        let local_address = self.global_address_to_local_address(address) as usize;
        self.data[local_address] = value;
    }
}

} // verus!
