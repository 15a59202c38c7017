pub mod instruction;
pub mod register;
pub mod semantics;

use vstd::prelude::*;

use crate::bus::read_byte;
use crate::bus::write_byte;
use crate::bus::Bus;
use crate::bus::BusState;
use crate::ppu::PPU;
use crate::cpu::register::FlagState;
use register::AFRegister;
use register::DMGRegister;
use register::Flags;
use register::Register16bit;
use semantics::add_cycles;
use semantics::fetch16;
use semantics::fetch8;
use semantics::pop16;
use semantics::pop8;
use semantics::push16;
use semantics::push8;
use semantics::r16;
use semantics::r8;
use semantics::set_r16;
use semantics::set_r8;
use semantics::CpuState;

verus! {

/// Why the CPU stopped: these are fatal, the machine state is then only fit for a dump.
#[derive(Clone, Copy, Debug, PartialEq, Eq, Structural)]
pub enum CpuFault {
    /// A read from an address that nothing serves.
    BusRead { address: u16 },
    /// A write that the bus refuses: ROM, an unmapped address or an unknown port.
    BusWrite { address: u16, value: u8 },
    /// An opcode outside the implemented set.
    UnknownOpcode { opcode: u8 },
    /// A CB-prefixed opcode outside the implemented set.
    UnknownCbOpcode { opcode: u8 },
}

/// Whether an operation that was expected to give `expected` did: on `Some`, it succeeded and
/// left `now`; on `None`, it failed.
pub open spec fn outcome<T>(r: Result<T, CpuFault>, now: CpuState, expected: Option<CpuState>) -> bool {
    match expected {
        Some(s) => r is Ok && now == s,
        None => r is Err,
    }
}

/// The machine at power-on over a bus: all registers and flags zero, no cycle run, interrupts
/// enabled, nothing decoded yet.
pub open spec fn power_on_state(bus: BusState) -> CpuState {
    CpuState {
        a: 0,
        f: FlagState { z: false, n: false, h: false, c: false },
        bc: 0,
        de: 0,
        hl: 0,
        sp: 0,
        pc: 0,
        cycles: 0,
        ime: true,
        debug: false,
        instruction_address: 0,
        reg_instruction: 0,
        reg_instruction_is_cb: false,
        bus,
    }
}

/// The CPU: registers, cycle counter and the bus it owns.
pub struct CPU {
    pub reg_af: AFRegister,
    pub reg_bc: Register16bit,
    pub reg_de: Register16bit,
    pub reg_hl: Register16bit,
    pub stack_pointer: Register16bit,
    pub program_counter: Register16bit,
    pub bus: Bus,
    pub cycle_count: u64,
    pub debug: bool,
    /// The last opcode decoded.
    pub reg_instruction: u8,
    /// Whether it came from the CB table.
    pub reg_instruction_is_cb: bool,
    /// Where it was read.
    pub instruction_address: u16,
    pub interrupts_enabled: bool,
}

impl View for CPU {
    type V = CpuState;

    open spec fn view(&self) -> CpuState {
        CpuState {
            a: self.reg_af.a,
            f: self.reg_af.flags.state(),
            bc: self.reg_bc.value,
            de: self.reg_de.value,
            hl: self.reg_hl.value,
            sp: self.stack_pointer.value,
            pc: self.program_counter.value,
            cycles: self.cycle_count as nat,
            ime: self.interrupts_enabled,
            debug: self.debug,
            instruction_address: self.instruction_address,
            reg_instruction: self.reg_instruction,
            reg_instruction_is_cb: self.reg_instruction_is_cb,
            bus: self.bus@,
        }
    }
}

impl CPU {
    pub open spec fn wf(&self) -> bool {
        self.bus.wf()
    }

    /// The bus keeps its shape and the PPU has not moved: at most its scroll register changed.
    pub open spec fn intact(&self, earlier: &CPU) -> bool {
        &&& self.wf()
        &&& self.bus.ppu.cycle_count == earlier.bus.ppu.cycle_count
        &&& self.bus.ppu == (PPU { bg_scroll_y: self.bus.ppu.bg_scroll_y, ..earlier.bus.ppu })
        &&& self.bus.cartridge == earlier.bus.cartridge
        &&& self.bus.boot_rom == earlier.bus.boot_rom
    }

    /// Room left in both cycle counters for one more instruction.
    pub open spec fn has_cycle_headroom(&self) -> bool {
        &&& self.cycle_count <= u64::MAX - 24
        &&& self.bus.ppu.cycle_count <= u64::MAX - 24
    }

    /// A CPU at power-on over `bus`: all registers zero, interrupts enabled.
    pub fn new(bus: Bus) -> (r: CPU)
        requires
            bus.wf(),
        ensures
            r.wf(),
            r@ == power_on_state(bus@),
            r.bus == bus,
    {
        CPU {
            reg_af: AFRegister::new(),
            reg_bc: Register16bit::new(),
            reg_de: Register16bit::new(),
            reg_hl: Register16bit::new(),
            stack_pointer: Register16bit::new(),
            program_counter: Register16bit::new(),
            bus,
            cycle_count: 0,
            debug: false,
            reg_instruction: 0,
            reg_instruction_is_cb: false,
            instruction_address: 0,
            interrupts_enabled: true,
        }
    }

    /// 8-bit register `r` (B, C, D, E, H, L, -, A).
    pub fn read_r8(&self, r: u8) -> (v: u8)
        requires
            r < 8,
            r != 6,
        ensures
            v == r8(self@, r),
    {
        match r {
            0 => self.reg_bc.read_higher(),
            1 => self.reg_bc.read_lower(),
            2 => self.reg_de.read_higher(),
            3 => self.reg_de.read_lower(),
            4 => self.reg_hl.read_higher(),
            5 => self.reg_hl.read_lower(),
            _ => self.reg_af.read_a(),
        }
    }

    pub fn write_r8(&mut self, r: u8, v: u8)
        requires
            r < 8,
            r != 6,
            old(self).wf(),
        ensures
            final(self).intact(old(self)),
            final(self)@ == set_r8(old(self)@, r, v),
    {
        match r {
            0 => self.reg_bc.write_higher(v),
            1 => self.reg_bc.write_lower(v),
            2 => self.reg_de.write_higher(v),
            3 => self.reg_de.write_lower(v),
            4 => self.reg_hl.write_higher(v),
            5 => self.reg_hl.write_lower(v),
            _ => self.reg_af.write_a(v),
        }
    }

    /// 16-bit pair `rr` (BC, DE, HL, SP).
    pub fn read_r16(&self, rr: u8) -> (v: u16)
        requires
            rr < 4,
        ensures
            v == r16(self@, rr),
    {
        match rr {
            0 => self.reg_bc.read(),
            1 => self.reg_de.read(),
            2 => self.reg_hl.read(),
            _ => self.stack_pointer.read(),
        }
    }

    pub fn write_r16(&mut self, rr: u8, v: u16)
        requires
            rr < 4,
            old(self).wf(),
        ensures
            final(self).intact(old(self)),
            final(self)@ == set_r16(old(self)@, rr, v),
    {
        match rr {
            0 => self.reg_bc.write(v),
            1 => self.reg_de.write(v),
            2 => self.reg_hl.write(v),
            _ => self.stack_pointer.write(v),
        }
    }

    /// Sets all four flags at once.
    pub fn write_flags(&mut self, z: bool, n: bool, h: bool, c: bool)
        requires
            old(self).wf(),
        ensures
            final(self).intact(old(self)),
            final(self)@ == (CpuState { f: FlagState { z, n, h, c }, ..old(self)@ }),
    {
        self.reg_af.flags = Flags::Bits { zero: z, subtract: n, half_carry: h, carry: c };
    }

    /// Charges `n` cycles.
    pub fn charge(&mut self, n: u64)
        requires
            old(self).wf(),
            old(self).cycle_count + n <= u64::MAX,
        ensures
            final(self).intact(old(self)),
            final(self)@ == add_cycles(old(self)@, n as nat),
    {
        self.cycle_count = self.cycle_count + n;
    }

    /// The byte at `address`, or a fault.
    pub fn read_mem(&self, address: u16) -> (r: Result<u8, CpuFault>)
        requires
            self.wf(),
        ensures
            match read_byte(self.bus@, address) {
                Some(v) => r == Ok::<u8, CpuFault>(v),
                None => r == Err::<u8, CpuFault>(CpuFault::BusRead { address }),
            },
    {
        if self.bus.is_readable(address) {
            Ok(self.bus.read(address))
        } else {
            Err(CpuFault::BusRead { address })
        }
    }

    /// Writes `value` to `address`, or faults and changes nothing.
    pub fn write_mem(&mut self, address: u16, value: u8) -> (r: Result<(), CpuFault>)
        requires
            old(self).wf(),
        ensures
            final(self).intact(old(self)),
            match write_byte(old(self).bus@, address, value) {
                Some(bus) => r is Ok && final(self)@ == (CpuState { bus, ..old(self)@ }),
                None => r == Err::<(), CpuFault>(CpuFault::BusWrite { address, value })
                    && final(self)@ == old(self)@,
            },
    {
        if self.bus.is_writable(address, value) {
            self.bus.write(address, value);
            Ok(())
        } else {
            Err(CpuFault::BusWrite { address, value })
        }
    }

    /// Reads the byte at PC, then moves PC past it.
    pub fn pop_u8_from_pc(&mut self) -> (r: Result<u8, CpuFault>)
        requires
            old(self).wf(),
        ensures
            final(self).intact(old(self)),
            match fetch8(old(self)@) {
                Some((b, s)) => r == Ok::<u8, CpuFault>(b) && final(self)@ == s,
                None => r is Err && final(self)@ == old(self)@,
            },
    {
        let result = match self.read_mem(self.program_counter.read()) {
            Ok(v) => v,
            Err(e) => {
                return Err(e);
            },
        };
        self.program_counter.inc();
        Ok(result)
    }

    /// Reads a little-endian 16-bit immediate at PC: low byte first.
    pub fn pop_u16_from_pc(&mut self) -> (r: Result<u16, CpuFault>)
        requires
            old(self).wf(),
        ensures
            final(self).intact(old(self)),
            match fetch16(old(self)@) {
                Some((v, s)) => r == Ok::<u16, CpuFault>(v) && final(self)@ == s,
                None => r is Err,
            },
    {
        let low = match self.pop_u8_from_pc() {
            Ok(v) => v,
            Err(e) => {
                return Err(e);
            },
        };
        let high = match self.pop_u8_from_pc() {
            Ok(v) => v,
            Err(e) => {
                return Err(e);
            },
        };
        Ok((high as u16) * 256 + low as u16)
    }

    /// Decrements SP, then writes `value` at SP.
    pub fn push_u8_to_stack(&mut self, value: u8) -> (r: Result<(), CpuFault>)
        requires
            old(self).wf(),
        ensures
            final(self).intact(old(self)),
            match push8(old(self)@, value) {
                Some(s) => r is Ok && final(self)@ == s,
                None => r is Err && final(self)@ == old(self)@,
            },
    {
        let sp = self.stack_pointer.read().wrapping_add(0xFFFF);
        match self.write_mem(sp, value) {
            Ok(()) => {},
            Err(e) => {
                return Err(e);
            },
        }
        self.stack_pointer.write(sp);
        Ok(())
    }

    /// Pushes the low byte of `value`, then its high byte.
    pub fn push_u16_to_stack(&mut self, value: u16) -> (r: Result<(), CpuFault>)
        requires
            old(self).wf(),
        ensures
            final(self).intact(old(self)),
            outcome(r, final(self)@, push16(old(self)@, value)),
    {
        match self.push_u8_to_stack((value % 256) as u8) {
            Ok(()) => {},
            Err(e) => {
                return Err(e);
            },
        }
        self.push_u8_to_stack((value / 256) as u8)
    }

    /// Reads the byte at SP, then increments SP.
    pub fn pop_u8_from_stack(&mut self) -> (r: Result<u8, CpuFault>)
        requires
            old(self).wf(),
        ensures
            final(self).intact(old(self)),
            match pop8(old(self)@) {
                Some((b, s)) => r == Ok::<u8, CpuFault>(b) && final(self)@ == s,
                None => r is Err && final(self)@ == old(self)@,
            },
    {
        let result = match self.read_mem(self.stack_pointer.read()) {
            Ok(v) => v,
            Err(e) => {
                return Err(e);
            },
        };
        self.stack_pointer.overflowing_add(1);
        Ok(result)
    }

    /// Pops two bytes; the first popped is the high byte.
    pub fn pop_u16_from_stack(&mut self) -> (r: Result<u16, CpuFault>)
        requires
            old(self).wf(),
        ensures
            final(self).intact(old(self)),
            match pop16(old(self)@) {
                Some((v, s)) => r == Ok::<u16, CpuFault>(v) && final(self)@ == s,
                None => r is Err,
            },
    {
        let high = match self.pop_u8_from_stack() {
            Ok(v) => v,
            Err(e) => {
                return Err(e);
            },
        };
        let low = match self.pop_u8_from_stack() {
            Ok(v) => v,
            Err(e) => {
                return Err(e);
            },
        };
        Ok((high as u16) * 256 + low as u16)
    }
}

} // verus!
