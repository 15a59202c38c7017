use vstd::prelude::*;

use crate::bus::bus_ticks;
use crate::bus::read_byte;
use crate::bus::lemma_write_keeps_other;
use crate::bus::lemma_write_then_read;
use crate::bus::stores_written_byte;
use crate::bus::write_byte;
use crate::bus::BusState;
use crate::cpu::register::high_byte;
use crate::cpu::register::join_bytes;
use crate::cpu::register::lemma_flag_state_round_trip;
use crate::cpu::register::lemma_join_split;
use crate::cpu::register::lemma_split_join;
use crate::cpu::register::low_byte;
use crate::cpu::register::state_bits;
use crate::cpu::register::state_of_byte;
use crate::cpu::register::wrap16;
use crate::cpu::register::wrap8;
use crate::cpu::register::FlagState;

verus! {

/// The whole machine as values: the registers, the cycle counter, the interrupt switch, what the
/// last step decoded, and the bus.
pub struct CpuState {
    pub a: u8,
    pub f: FlagState,
    pub bc: u16,
    pub de: u16,
    pub hl: u16,
    pub sp: u16,
    pub pc: u16,
    pub cycles: nat,
    pub ime: bool,
    pub debug: bool,
    pub instruction_address: u16,
    pub reg_instruction: u8,
    pub reg_instruction_is_cb: bool,
    pub bus: BusState,
}

/// Branch conditions.
#[derive(Clone, Copy, Debug, PartialEq, Eq, Structural)]
pub enum Condition {
    Always,
    NotZero,
    Zero,
    NotCarry,
    Carry,
}

/// The three arithmetic operations on A.
#[derive(Clone, Copy, Debug, PartialEq, Eq, Structural)]
pub enum AluOp {
    Add,
    Sub,
    Cp,
}

pub open spec fn condition_holds(f: FlagState, c: Condition) -> bool {
    match c {
        Condition::Always => true,
        Condition::NotZero => !f.z,
        Condition::Zero => f.z,
        Condition::NotCarry => !f.c,
        Condition::Carry => f.c,
    }
}

/// A byte read as a two's-complement offset.
pub open spec fn signed8(d: u8) -> int {
    if d < 128 {
        d as int
    } else {
        d - 256
    }
}

/// 8-bit register `r` in opcode order: B, C, D, E, H, L, (6: none), A.
pub open spec fn r8(s: CpuState, r: u8) -> u8 {
    match r {
        0 => high_byte(s.bc),
        1 => low_byte(s.bc),
        2 => high_byte(s.de),
        3 => low_byte(s.de),
        4 => high_byte(s.hl),
        5 => low_byte(s.hl),
        _ => s.a,
    }
}

pub open spec fn set_r8(s: CpuState, r: u8, v: u8) -> CpuState {
    match r {
        0 => CpuState { bc: join_bytes(v, low_byte(s.bc)), ..s },
        1 => CpuState { bc: join_bytes(high_byte(s.bc), v), ..s },
        2 => CpuState { de: join_bytes(v, low_byte(s.de)), ..s },
        3 => CpuState { de: join_bytes(high_byte(s.de), v), ..s },
        4 => CpuState { hl: join_bytes(v, low_byte(s.hl)), ..s },
        5 => CpuState { hl: join_bytes(high_byte(s.hl), v), ..s },
        _ => CpuState { a: v, ..s },
    }
}

/// 16-bit register pair `rr` in opcode order: BC, DE, HL, SP.
pub open spec fn r16(s: CpuState, rr: u8) -> u16 {
    match rr {
        0 => s.bc,
        1 => s.de,
        2 => s.hl,
        _ => s.sp,
    }
}

pub open spec fn set_r16(s: CpuState, rr: u8, v: u16) -> CpuState {
    match rr {
        0 => CpuState { bc: v, ..s },
        1 => CpuState { de: v, ..s },
        2 => CpuState { hl: v, ..s },
        _ => CpuState { sp: v, ..s },
    }
}

/// The value of AF: A in the high byte, the flags in the low byte.
pub open spec fn af_value(s: CpuState) -> u16 {
    join_bytes(s.a, state_bits(s.f))
}

/// Register pair `rr` in PUSH/POP order: BC, DE, HL, AF.
pub open spec fn stack_r16(s: CpuState, rr: u8) -> u16 {
    if rr == 3 {
        af_value(s)
    } else {
        r16(s, rr)
    }
}

/// Writes pair `rr` in PUSH/POP order; AF drops the low nibble of its low byte.
pub open spec fn set_stack_r16(s: CpuState, rr: u8, v: u16) -> CpuState {
    if rr == 3 {
        CpuState { a: high_byte(v), f: state_of_byte(low_byte(v)), ..s }
    } else {
        set_r16(s, rr, v)
    }
}

pub open spec fn add_cycles(s: CpuState, n: nat) -> CpuState {
    CpuState { cycles: s.cycles + n, ..s }
}

/// Reads the byte at PC and moves PC past it.
pub open spec fn fetch8(s: CpuState) -> Option<(u8, CpuState)> {
    match read_byte(s.bus, s.pc) {
        Some(b) => Some((b, CpuState { pc: wrap16(s.pc + 1), ..s })),
        None => None,
    }
}

/// Reads a little-endian 16-bit immediate at PC: low byte first.
pub open spec fn fetch16(s: CpuState) -> Option<(u16, CpuState)> {
    match fetch8(s) {
        Some((lo, s1)) => match fetch8(s1) {
            Some((hi, s2)) => Some((join_bytes(hi, lo), s2)),
            None => None,
        },
        None => None,
    }
}

/// Decrements SP, then writes `v` at SP.
pub open spec fn push8(s: CpuState, v: u8) -> Option<CpuState> {
    let sp = wrap16(s.sp - 1);
    match write_byte(s.bus, sp, v) {
        Some(bus) => Some(CpuState { sp, bus, ..s }),
        None => None,
    }
}

/// Pushes the low byte of `v`, then its high byte, which so sits at the lower address.
pub open spec fn push16(s: CpuState, v: u16) -> Option<CpuState> {
    match push8(s, low_byte(v)) {
        Some(s1) => push8(s1, high_byte(v)),
        None => None,
    }
}

/// Reads the byte at SP, then increments SP.
pub open spec fn pop8(s: CpuState) -> Option<(u8, CpuState)> {
    match read_byte(s.bus, s.sp) {
        Some(b) => Some((b, CpuState { sp: wrap16(s.sp + 1), ..s })),
        None => None,
    }
}

/// Pops two bytes; the first popped is the high byte.
pub open spec fn pop16(s: CpuState) -> Option<(u16, CpuState)> {
    match pop8(s) {
        Some((hi, s1)) => match pop8(s1) {
            Some((lo, s2)) => Some((join_bytes(hi, lo), s2)),
            None => None,
        },
        None => None,
    }
}

/// The operand of an arithmetic instruction: register `src`, (HL) when `src` is 6, or the
/// immediate byte when `src` is 8.
pub open spec fn alu_operand(s: CpuState, src: u8) -> Option<(u8, CpuState)> {
    if src == 8 {
        fetch8(s)
    } else if src == 6 {
        match read_byte(s.bus, s.hl) {
            Some(v) => Some((v, s)),
            None => None,
        }
    } else {
        Some((r8(s, src), s))
    }
}

/// A and the flags after `op` with operand `v`.
pub open spec fn alu_result(op: AluOp, a: u8, v: u8) -> (u8, FlagState) {
    match op {
        AluOp::Add => (
            wrap8(a + v),
            FlagState { z: wrap8(a + v) == 0, n: false, h: a % 16 + v % 16 > 15, c: a + v > 255 },
        ),
        AluOp::Sub => (
            wrap8(a - v + 256),
            FlagState { z: a == v, n: true, h: a % 16 < v % 16, c: a < v },
        ),
        AluOp::Cp => (a, FlagState { z: a == v, n: true, h: a % 16 < v % 16, c: a < v }),
    }
}

/// ADD, SUB or CP: 4 cycles on a register, 8 on (HL) or an immediate.
pub open spec fn alu_spec(s: CpuState, op: AluOp, src: u8) -> Option<CpuState> {
    match alu_operand(s, src) {
        Some((v, s1)) => {
            let (a, f) = alu_result(op, s1.a, v);
            Some(add_cycles(CpuState { a, f, ..s1 }, if src == 6 || src == 8 { 8 } else { 4 }))
        },
        None => None,
    }
}

/// LD r,r' with 6 standing for (HL) on either side.
pub open spec fn ld_r_r_spec(s: CpuState, dst: u8, src: u8) -> Option<CpuState> {
    if src == 6 {
        match read_byte(s.bus, s.hl) {
            Some(v) => Some(add_cycles(set_r8(s, dst, v), 8)),
            None => None,
        }
    } else if dst == 6 {
        match write_byte(s.bus, s.hl, r8(s, src)) {
            Some(bus) => Some(add_cycles(CpuState { bus, ..s }, 8)),
            None => None,
        }
    } else {
        Some(add_cycles(set_r8(s, dst, r8(s, src)), 4))
    }
}

/// LD r,d8.
pub open spec fn ld_r_d8_spec(s: CpuState, dst: u8) -> Option<CpuState> {
    match fetch8(s) {
        Some((v, s1)) => Some(add_cycles(set_r8(s1, dst, v), 8)),
        None => None,
    }
}

/// LD rr,d16.
pub open spec fn ld_rr_d16_spec(s: CpuState, rr: u8) -> Option<CpuState> {
    match fetch16(s) {
        Some((v, s1)) => Some(add_cycles(set_r16(s1, rr, v), 12)),
        None => None,
    }
}

/// Stores A at `address`.
pub open spec fn store_a(s: CpuState, address: u16) -> Option<CpuState> {
    match write_byte(s.bus, address, s.a) {
        Some(bus) => Some(CpuState { bus, ..s }),
        None => None,
    }
}

/// Loads A from `address`.
pub open spec fn load_a(s: CpuState, address: u16) -> Option<CpuState> {
    match read_byte(s.bus, address) {
        Some(v) => Some(CpuState { a: v, ..s }),
        None => None,
    }
}

/// LD (rr),A or, when `to_a`, LD A,(rr); HL moves by `delta` afterwards.
pub open spec fn ld_indirect_spec(s: CpuState, rr: u8, to_a: bool, delta: int) -> Option<CpuState> {
    let r = if to_a { load_a(s, r16(s, rr)) } else { store_a(s, r16(s, rr)) };
    match r {
        Some(t) => Some(
            add_cycles(if rr == 2 { CpuState { hl: wrap16(t.hl + delta), ..t } } else { t }, 8),
        ),
        None => None,
    }
}

/// LD (a16),A or, when `to_a`, LD A,(a16).
pub open spec fn ld_a16_spec(s: CpuState, to_a: bool) -> Option<CpuState> {
    match fetch16(s) {
        Some((address, s1)) => {
            let r = if to_a { load_a(s1, address) } else { store_a(s1, address) };
            match r {
                Some(t) => Some(add_cycles(t, 16)),
                None => None,
            }
        },
        None => None,
    }
}

/// LDH (a8),A or, when `to_a`, LDH A,(a8), at 0xFF00 + a8.
pub open spec fn ldh_spec(s: CpuState, to_a: bool) -> Option<CpuState> {
    match fetch8(s) {
        Some((n, s1)) => {
            let address = (0xFF00 + n) as u16;
            let r = if to_a { load_a(s1, address) } else { store_a(s1, address) };
            match r {
                Some(t) => Some(add_cycles(t, 12)),
                None => None,
            }
        },
        None => None,
    }
}

/// LD (C),A at 0xFF00 + C.
pub open spec fn ld_c_a_spec(s: CpuState) -> Option<CpuState> {
    match store_a(s, (0xFF00 + low_byte(s.bc)) as u16) {
        Some(t) => Some(add_cycles(t, 8)),
        None => None,
    }
}

/// INC r: Z set on a zero result, N cleared, H set when the low nibble of the result is 0, C
/// kept.
pub open spec fn inc8_spec(s: CpuState, r: u8) -> Option<CpuState> {
    let v = wrap8(r8(s, r) + 1);
    let t = set_r8(s, r, v);
    Some(add_cycles(CpuState { f: FlagState { z: v == 0, n: false, h: v % 16 == 0, c: s.f.c }, ..t }, 4))
}

/// DEC r: Z set on a zero result, N set, H set when the low nibble of the result is 0xF, C kept.
pub open spec fn dec8_spec(s: CpuState, r: u8) -> Option<CpuState> {
    let v = wrap8(r8(s, r) + 255);
    let t = set_r8(s, r, v);
    Some(add_cycles(CpuState { f: FlagState { z: v == 0, n: true, h: v % 16 == 15, c: s.f.c }, ..t }, 4))
}

/// INC rr or DEC rr: no flag changes.
pub open spec fn step16_spec(s: CpuState, rr: u8, delta: int) -> Option<CpuState> {
    Some(add_cycles(set_r16(s, rr, wrap16(r16(s, rr) + delta)), 8))
}

/// XOR A: A becomes 0 and the flags exactly Z.
pub open spec fn xor_a_spec(s: CpuState) -> Option<CpuState> {
    Some(add_cycles(CpuState { a: 0, f: FlagState { z: true, n: false, h: false, c: false }, ..s }, 4))
}

/// A byte rotated left through the carry flag: the new value and the new carry.
pub open spec fn rotate_left(v: u8, carry: bool) -> (u8, bool) {
    (wrap8(2 * v + if carry { 1int } else { 0 }), v >= 128)
}

/// RLA: rotate A left through carry; Z, N and H cleared.
pub open spec fn rla_spec(s: CpuState) -> Option<CpuState> {
    let (v, c) = rotate_left(s.a, s.f.c);
    Some(add_cycles(CpuState { a: v, f: FlagState { z: false, n: false, h: false, c }, ..s }, 4))
}

/// CB RL r: rotate r left through carry; Z set on a zero result, N and H cleared.
pub open spec fn rl_spec(s: CpuState, r: u8) -> Option<CpuState> {
    let (v, c) = rotate_left(r8(s, r), s.f.c);
    let t = set_r8(s, r, v);
    Some(add_cycles(CpuState { f: FlagState { z: v == 0, n: false, h: false, c }, ..t }, 8))
}

/// CB BIT 7,H: Z set when bit 7 of H is clear, N cleared, H set, C kept.
pub open spec fn bit7_h_spec(s: CpuState) -> Option<CpuState> {
    Some(
        add_cycles(
            CpuState { f: FlagState { z: high_byte(s.hl) < 128, n: false, h: true, c: s.f.c }, ..s },
            8,
        ),
    )
}

/// JR cc,r8: the offset is added to PC after it was read; 12 cycles when taken, else 8.
pub open spec fn jr_spec(s: CpuState, cond: Condition) -> Option<CpuState> {
    match fetch8(s) {
        Some((d, s1)) => if condition_holds(s1.f, cond) {
            Some(add_cycles(CpuState { pc: wrap16(s1.pc + signed8(d)), ..s1 }, 12))
        } else {
            Some(add_cycles(s1, 8))
        },
        None => None,
    }
}

/// JP cc,a16: 16 cycles when taken, else 12.
pub open spec fn jp_spec(s: CpuState, cond: Condition) -> Option<CpuState> {
    match fetch16(s) {
        Some((t, s1)) => if condition_holds(s1.f, cond) {
            Some(add_cycles(CpuState { pc: t, ..s1 }, 16))
        } else {
            Some(add_cycles(s1, 12))
        },
        None => None,
    }
}

/// JP (HL): PC takes the value of HL.
pub open spec fn jp_hl_spec(s: CpuState) -> Option<CpuState> {
    Some(add_cycles(CpuState { pc: s.hl, ..s }, 4))
}

/// CALL a16: reads the target, pushes PC (already past the instruction), jumps.
pub open spec fn call_spec(s: CpuState) -> Option<CpuState> {
    match fetch16(s) {
        Some((t, s1)) => match push16(s1, s1.pc) {
            Some(s2) => Some(add_cycles(CpuState { pc: t, ..s2 }, 24)),
            None => None,
        },
        None => None,
    }
}

/// RET: pops PC.
pub open spec fn ret_spec(s: CpuState) -> Option<CpuState> {
    match pop16(s) {
        Some((t, s1)) => Some(add_cycles(CpuState { pc: t, ..s1 }, 16)),
        None => None,
    }
}

/// PUSH rr.
pub open spec fn push_spec(s: CpuState, rr: u8) -> Option<CpuState> {
    match push16(s, stack_r16(s, rr)) {
        Some(s1) => Some(add_cycles(s1, 16)),
        None => None,
    }
}

/// POP rr.
pub open spec fn pop_spec(s: CpuState, rr: u8) -> Option<CpuState> {
    match pop16(s) {
        Some((v, s1)) => Some(add_cycles(set_stack_r16(s1, rr, v), 12)),
        None => None,
    }
}

/// DI or EI.
pub open spec fn set_ime_spec(s: CpuState, enabled: bool) -> Option<CpuState> {
    Some(add_cycles(CpuState { ime: enabled, ..s }, 4))
}

/// Executes the primary-table instruction `op`, whose opcode byte was already read. `None`
/// stands for a fault: an opcode outside the implemented set or a refused bus access.
pub open spec fn exec_main(s: CpuState, op: u8) -> Option<CpuState> {
    if 0x40 <= op <= 0x7F && op != 0x76 {
        ld_r_r_spec(s, (op / 8) % 8, op % 8)
    } else if 0x80 <= op <= 0x87 {
        alu_spec(s, AluOp::Add, op % 8)
    } else if 0x90 <= op <= 0x97 {
        alu_spec(s, AluOp::Sub, op % 8)
    } else if 0xB8 <= op <= 0xBF {
        alu_spec(s, AluOp::Cp, op % 8)
    } else if op < 0x40 && op % 8 == 4 && op != 0x34 {
        inc8_spec(s, op / 8)
    } else if op < 0x40 && op % 8 == 5 && op != 0x35 {
        dec8_spec(s, op / 8)
    } else if op < 0x40 && op % 8 == 6 && op != 0x36 {
        ld_r_d8_spec(s, op / 8)
    } else if op < 0x40 && op % 16 == 1 {
        ld_rr_d16_spec(s, op / 16)
    } else if op < 0x40 && op % 16 == 3 {
        step16_spec(s, op / 16, 1)
    } else if op < 0x40 && op % 16 == 0xB {
        step16_spec(s, op / 16, 0xFFFF)
    } else if 0xC0 <= op && op % 16 == 1 {
        pop_spec(s, ((op - 0xC0) / 16) as u8)
    } else if 0xC0 <= op && op % 16 == 5 {
        push_spec(s, ((op - 0xC0) / 16) as u8)
    } else {
        match op {
            0x00 => Some(add_cycles(s, 4)),
            0x02 => ld_indirect_spec(s, 0, false, 0),
            0x12 => ld_indirect_spec(s, 1, false, 0),
            0x0A => ld_indirect_spec(s, 0, true, 0),
            0x1A => ld_indirect_spec(s, 1, true, 0),
            0x22 => ld_indirect_spec(s, 2, false, 1),
            0x32 => ld_indirect_spec(s, 2, false, 0xFFFF),
            0x2A => ld_indirect_spec(s, 2, true, 1),
            0x3A => ld_indirect_spec(s, 2, true, 0xFFFF),
            0x17 => rla_spec(s),
            0x18 => jr_spec(s, Condition::Always),
            0x20 => jr_spec(s, Condition::NotZero),
            0x28 => jr_spec(s, Condition::Zero),
            0x30 => jr_spec(s, Condition::NotCarry),
            0x38 => jr_spec(s, Condition::Carry),
            0xAF => xor_a_spec(s),
            0xC2 => jp_spec(s, Condition::NotZero),
            0xC3 => jp_spec(s, Condition::Always),
            0xCA => jp_spec(s, Condition::Zero),
            0xD2 => jp_spec(s, Condition::NotCarry),
            0xDA => jp_spec(s, Condition::Carry),
            0xC6 => alu_spec(s, AluOp::Add, 8),
            0xD6 => alu_spec(s, AluOp::Sub, 8),
            0xFE => alu_spec(s, AluOp::Cp, 8),
            0xC9 => ret_spec(s),
            0xCD => call_spec(s),
            0xE0 => ldh_spec(s, false),
            0xF0 => ldh_spec(s, true),
            0xE2 => ld_c_a_spec(s),
            0xE9 => jp_hl_spec(s),
            0xEA => ld_a16_spec(s, false),
            0xFA => ld_a16_spec(s, true),
            0xF3 => set_ime_spec(s, false),
            0xFB => set_ime_spec(s, true),
            _ => None,
        }
    }
}

/// Executes the CB-table instruction `op`, whose two bytes were already read.
pub open spec fn exec_cb(s: CpuState, op: u8) -> Option<CpuState> {
    if 0x10 <= op <= 0x17 && op != 0x16 {
        rl_spec(s, op % 8)
    } else if op == 0x7C {
        bit7_h_spec(s)
    } else {
        None
    }
}

/// One instruction: fetch the opcode at PC (and the second byte after a 0xCB prefix), note what
/// was decoded, execute. The bus is not yet cycled.
pub open spec fn execute(s: CpuState) -> Option<CpuState> {
    match fetch8(s) {
        Some((op, s1)) => {
            let s1 = CpuState {
                instruction_address: s.pc,
                reg_instruction: op,
                reg_instruction_is_cb: false,
                ..s1
            };
            if op == 0xCB {
                match fetch8(s1) {
                    Some((op2, s2)) => exec_cb(
                        CpuState {
                            instruction_address: s1.pc,
                            reg_instruction: op2,
                            reg_instruction_is_cb: true,
                            ..s2
                        },
                        op2,
                    ),
                    None => None,
                }
            } else {
                exec_main(s1, op)
            }
        },
        None => None,
    }
}

/// The machine-cycle costs an instruction can have.
pub open spec fn is_instruction_cost(d: int) -> bool {
    d == 4 || d == 8 || d == 12 || d == 16 || d == 24
}

/// One step of the machine: execute one instruction, then cycle the bus once for each machine
/// cycle the instruction charged. `None` stands for a fault.
pub open spec fn step_spec(s: CpuState) -> Option<CpuState> {
    match execute(s) {
        Some(t) => Some(CpuState { bus: bus_ticks(t.bus, (t.cycles - s.cycles) as nat), ..t }),
        None => None,
    }
}

/// `n` steps of the machine, or `None` when one of them faults.
pub open spec fn run_spec(s: CpuState, n: nat) -> Option<CpuState>
    decreases n,
{
    if n == 0 {
        Some(s)
    } else {
        match step_spec(s) {
            Some(t) => run_spec(t, (n - 1) as nat),
            None => None,
        }
    }
}

/// Two steps down the stack from `sp`, wrapping.
proof fn lemma_stack_addresses(sp: u16)
    ensures
        wrap16(wrap16(sp - 1) - 1) == wrap16(sp - 2),
        wrap16(wrap16(sp - 2) + 1) == wrap16(sp - 1),
        wrap16(wrap16(sp - 1) + 1) == sp,
        wrap16(sp - 1) != wrap16(sp - 2),
{
    if sp >= 2 {
    } else if sp == 1 {
        vstd::arithmetic::div_mod::lemma_fundamental_div_mod_converse(-1, 0x10000, -1, 0xFFFF);
    } else {
        vstd::arithmetic::div_mod::lemma_fundamental_div_mod_converse(-1, 0x10000, -1, 0xFFFF);
        vstd::arithmetic::div_mod::lemma_fundamental_div_mod_converse(-2, 0x10000, -1, 0xFFFE);
        vstd::arithmetic::div_mod::lemma_fundamental_div_mod_converse(0x10000, 0x10000, 1, 0);
    }
}

/// Pushing a 16-bit value and popping it back returns the value and restores SP, when both stack
/// bytes land where written bytes are kept.
pub proof fn lemma_push_pop(s: CpuState, v: u16)
    requires
        s.bus.wf(),
        stores_written_byte(s.bus, wrap16(s.sp - 1)),
        stores_written_byte(s.bus, wrap16(s.sp - 2)),
    ensures
        push16(s, v) matches Some(t) && pop16(t) matches Some((w, u)) && w == v && u.sp == s.sp
            && u.bus == t.bus,
{
    lemma_stack_addresses(s.sp);
    let a1 = wrap16(s.sp - 1);
    let a2 = wrap16(s.sp - 2);
    lemma_write_then_read(s.bus, a1, low_byte(v));
    lemma_write_keeps_other(s.bus, a1, low_byte(v), a2);
    let b1 = write_byte(s.bus, a1, low_byte(v))->Some_0;
    lemma_write_then_read(b1, a2, high_byte(v));
    lemma_write_keeps_other(b1, a2, high_byte(v), a1);
    lemma_split_join(v);
}

/// PUSH rr followed by POP rr' leaves in rr' the value rr had, when both stack bytes land where
/// written bytes are kept. AF as the target keeps only the flag bits, so it is the target only of
/// a value pushed from AF.
pub proof fn lemma_push_pop_pair(s: CpuState, rr: u8, rr2: u8)
    requires
        s.bus.wf(),
        rr < 4,
        rr2 < 4,
        rr2 != 3 || rr == 3,
        stores_written_byte(s.bus, wrap16(s.sp - 1)),
        stores_written_byte(s.bus, wrap16(s.sp - 2)),
    ensures
        push_spec(s, rr) matches Some(t) && pop_spec(t, rr2) matches Some(u) && stack_r16(u, rr2)
            == stack_r16(s, rr) && u.sp == s.sp,
{
    lemma_push_pop(s, stack_r16(s, rr));
    if rr2 == 3 {
        lemma_join_split(s.a, state_bits(s.f));
        lemma_flag_state_round_trip(s.f);
    }
}

/// INC r followed by DEC r gives r back; the flags need not come back.
pub proof fn lemma_inc_dec_restores(s: CpuState, r: u8)
    requires
        r < 8,
        r != 6,
    ensures
        inc8_spec(s, r) matches Some(t) && dec8_spec(t, r) matches Some(u) && r8(u, r) == r8(s, r),
{
    let v = wrap8(r8(s, r) + 1);
    let t = inc8_spec(s, r)->Some_0;
    let w = wrap8(v + 255);
    assert(w == r8(s, r));
    if r == 0 {
        lemma_join_split(v, low_byte(s.bc));
        lemma_join_split(w, low_byte(t.bc));
    } else if r == 1 {
        lemma_join_split(high_byte(s.bc), v);
        lemma_join_split(high_byte(t.bc), w);
    } else if r == 2 {
        lemma_join_split(v, low_byte(s.de));
        lemma_join_split(w, low_byte(t.de));
    } else if r == 3 {
        lemma_join_split(high_byte(s.de), v);
        lemma_join_split(high_byte(t.de), w);
    } else if r == 4 {
        lemma_join_split(v, low_byte(s.hl));
        lemma_join_split(w, low_byte(t.hl));
    } else if r == 5 {
        lemma_join_split(high_byte(s.hl), v);
        lemma_join_split(high_byte(t.hl), w);
    }
}

/// XOR A at PC leaves A zero and the flags exactly Z, whatever A held.
pub proof fn lemma_xor_a_clears(s: CpuState)
    requires
        read_byte(s.bus, s.pc) == Some(0xAFu8),
    ensures
        execute(s) matches Some(t) && t.a == 0 && t.f == (FlagState {
            z: true,
            n: false,
            h: false,
            c: false,
        }),
{
}

} // verus!
