use vstd::prelude::*;

use crate::bus::bus_ticks;
use crate::cpu::outcome;
use crate::cpu::register::wrap16;
use crate::cpu::register::DMGRegister;
use crate::cpu::register::Flags;
use crate::cpu::semantics::AluOp;
use crate::cpu::semantics::Condition;
use crate::cpu::semantics::CpuState;
use crate::cpu::semantics::alu_result;
use crate::cpu::semantics::alu_spec;
use crate::cpu::semantics::bit7_h_spec;
use crate::cpu::semantics::call_spec;
use crate::cpu::semantics::condition_holds;
use crate::cpu::semantics::dec8_spec;
use crate::cpu::semantics::fetch8;
use crate::cpu::semantics::exec_cb;
use crate::cpu::semantics::exec_main;
use crate::cpu::semantics::inc8_spec;
use crate::cpu::semantics::is_instruction_cost;
use crate::cpu::semantics::jp_hl_spec;
use crate::cpu::semantics::jp_spec;
use crate::cpu::semantics::jr_spec;
use crate::cpu::semantics::ld_a16_spec;
use crate::cpu::semantics::ld_c_a_spec;
use crate::cpu::semantics::ld_indirect_spec;
use crate::cpu::semantics::ld_r_d8_spec;
use crate::cpu::semantics::ld_r_r_spec;
use crate::cpu::semantics::ld_rr_d16_spec;
use crate::cpu::semantics::ldh_spec;
use crate::cpu::semantics::load_a;
use crate::cpu::semantics::pop_spec;
use crate::cpu::semantics::push_spec;
use crate::cpu::semantics::ret_spec;
use crate::cpu::semantics::rl_spec;
use crate::cpu::semantics::rla_spec;
use crate::cpu::semantics::set_ime_spec;
use crate::cpu::semantics::signed8;
use crate::cpu::semantics::step_spec;
use crate::cpu::semantics::step16_spec;
use crate::cpu::semantics::store_a;
use crate::cpu::semantics::xor_a_spec;
use crate::cpu::CpuFault;
use crate::cpu::CPU;
use crate::ppu::lemma_ticks_keep_scroll;
use crate::ppu::ppu_advanced_by;
use crate::ppu::ppu_ticks;
use crate::ppu::PPU;

verus! {

/// What the disassembler shows of an opcode: its mnemonic, its length in bytes and its cost in
/// machine cycles ("taken/not taken" for conditional branches).
pub struct Instruction {
    pub opcode: u8,
    pub is_cb: bool,
    pub mnemonic: &'static str,
    pub length_in_bytes: u8,
    pub cycles: &'static str,
}

/// Whether an opcode is in the implemented set: the primary table (including the 0xCB prefix)
/// or, when `is_cb`, the CB table.
pub open spec fn is_implemented(op: u8, is_cb: bool) -> bool {
    if is_cb {
        (0x10 <= op <= 0x17 && op != 0x16) || op == 0x7C
    } else {
        ||| 0x40 <= op <= 0x7F && op != 0x76
        ||| 0x80 <= op <= 0x87
        ||| 0x90 <= op <= 0x97
        ||| 0xB8 <= op <= 0xBF
        ||| op < 0x40 && op % 8 == 4 && op != 0x34
        ||| op < 0x40 && op % 8 == 5 && op != 0x35
        ||| op < 0x40 && op % 8 == 6 && op != 0x36
        ||| op < 0x40 && op % 16 == 1
        ||| op < 0x40 && op % 16 == 3
        ||| op < 0x40 && op % 16 == 0xB
        ||| 0xC0 <= op && op % 16 == 1
        ||| 0xC0 <= op && op % 16 == 5
        ||| op == 0x00 || op == 0x02 || op == 0x12 || op == 0x0A || op == 0x1A
        ||| op == 0x22 || op == 0x32 || op == 0x2A || op == 0x3A || op == 0x17
        ||| op == 0x18 || op == 0x20 || op == 0x28 || op == 0x30 || op == 0x38
        ||| op == 0xAF || op == 0xC2 || op == 0xC3 || op == 0xCA || op == 0xD2 || op == 0xDA
        ||| op == 0xC6 || op == 0xD6 || op == 0xFE || op == 0xC9 || op == 0xCB || op == 0xCD
        ||| op == 0xE0 || op == 0xF0 || op == 0xE2 || op == 0xE9 || op == 0xEA || op == 0xFA
        ||| op == 0xF3 || op == 0xFB
    }
}

/// How many bytes an implemented instruction takes, its opcode byte (or, for the CB table, both
/// bytes) included.
pub open spec fn instruction_length(op: u8, is_cb: bool) -> u8 {
    if is_cb {
        2
    } else if (op < 0x40 && op % 8 == 6 && op != 0x36) || op == 0x18 || op == 0x20 || op == 0x28
        || op == 0x30 || op == 0x38 || op == 0xC6 || op == 0xD6 || op == 0xFE || op == 0xE0 || op
        == 0xF0 {
        2
    } else if (op < 0x40 && op % 16 == 1) || op == 0xC2 || op == 0xC3 || op == 0xCA || op == 0xD2
        || op == 0xDA || op == 0xCD || op == 0xEA || op == 0xFA {
        3
    } else {
        1
    }
}

/// The addresses of an instruction's immediate bytes in the order the trace shows them, for an
/// instruction whose opcode byte is at `start`: big-endian, so the byte at `start + 2` comes before
/// the one at `start + 1`. CB-table instructions have no immediate.
pub fn trace_operand_addresses(start: u16, length_in_bytes: u8, is_cb: bool) -> (r: Vec<u16>)
    ensures
        !is_cb && length_in_bytes == 3 ==> r@ == seq![wrap16(start + 2), wrap16(start + 1)],
        !is_cb && length_in_bytes == 2 ==> r@ == seq![wrap16(start + 1)],
        is_cb || (length_in_bytes != 2 && length_in_bytes != 3) ==> r@.len() == 0,
{
    let mut r: Vec<u16> = Vec::new();
    if !is_cb && length_in_bytes == 3 {
        r.push(start.wrapping_add(2));
    }
    if !is_cb && (length_in_bytes == 2 || length_in_bytes == 3) {
        r.push(start.wrapping_add(1));
    }
    r
}

/// The opcodes outside the implemented set fault.
pub proof fn lemma_unimplemented_faults(s: CpuState, op: u8)
    ensures
        !is_implemented(op, false) ==> exec_main(s, op) is None,
        !is_implemented(op, true) ==> exec_cb(s, op) is None,
{
}

/// The mnemonic and cycle cost that the disassembler shows for an implemented opcode, from the
/// CB table when `is_cb` (("", "") for an opcode outside the implemented set).
pub open spec fn instruction_text(op: u8, is_cb: bool) -> (&'static str, &'static str) {
    if is_cb {
        match op {
            0x10 => ("RL B", "8"),
            0x11 => ("RL C", "8"),
            0x12 => ("RL D", "8"),
            0x13 => ("RL E", "8"),
            0x14 => ("RL H", "8"),
            0x15 => ("RL L", "8"),
            0x17 => ("RL A", "8"),
            0x7C => ("BIT 7,H", "8"),
            _ => ("", ""),
        }
    } else {
        match op {
            0x00 => ("NOP", "4"),
            0x01 => ("LD BC,d16", "12"),
            0x02 => ("LD (BC),A", "8"),
            0x03 => ("INC BC", "8"),
            0x04 => ("INC B", "4"),
            0x05 => ("DEC B", "4"),
            0x06 => ("LD B,d8", "8"),
            0x0A => ("LD A,(BC)", "8"),
            0x0B => ("DEC BC", "8"),
            0x0C => ("INC C", "4"),
            0x0D => ("DEC C", "4"),
            0x0E => ("LD C,d8", "8"),
            0x11 => ("LD DE,d16", "12"),
            0x12 => ("LD (DE),A", "8"),
            0x13 => ("INC DE", "8"),
            0x14 => ("INC D", "4"),
            0x15 => ("DEC D", "4"),
            0x16 => ("LD D,d8", "8"),
            0x17 => ("RLA", "4"),
            0x18 => ("JR r8", "12"),
            0x1A => ("LD A,(DE)", "8"),
            0x1B => ("DEC DE", "8"),
            0x1C => ("INC E", "4"),
            0x1D => ("DEC E", "4"),
            0x1E => ("LD E,d8", "8"),
            0x20 => ("JR NZ,r8", "12/8"),
            0x21 => ("LD HL,d16", "12"),
            0x22 => ("LD (HL+),A", "8"),
            0x23 => ("INC HL", "8"),
            0x24 => ("INC H", "4"),
            0x25 => ("DEC H", "4"),
            0x26 => ("LD H,d8", "8"),
            0x28 => ("JR Z,r8", "12/8"),
            0x2A => ("LD A,(HL+)", "8"),
            0x2B => ("DEC HL", "8"),
            0x2C => ("INC L", "4"),
            0x2D => ("DEC L", "4"),
            0x2E => ("LD L,d8", "8"),
            0x30 => ("JR NC,r8", "12/8"),
            0x31 => ("LD SP,d16", "12"),
            0x32 => ("LD (HL-),A", "8"),
            0x33 => ("INC SP", "8"),
            0x38 => ("JR C,r8", "12/8"),
            0x3A => ("LD A,(HL-)", "8"),
            0x3B => ("DEC SP", "8"),
            0x3C => ("INC A", "4"),
            0x3D => ("DEC A", "4"),
            0x3E => ("LD A,d8", "8"),
            0x40 => ("LD B,B", "4"),
            0x41 => ("LD B,C", "4"),
            0x42 => ("LD B,D", "4"),
            0x43 => ("LD B,E", "4"),
            0x44 => ("LD B,H", "4"),
            0x45 => ("LD B,L", "4"),
            0x46 => ("LD B,(HL)", "8"),
            0x47 => ("LD B,A", "4"),
            0x48 => ("LD C,B", "4"),
            0x49 => ("LD C,C", "4"),
            0x4A => ("LD C,D", "4"),
            0x4B => ("LD C,E", "4"),
            0x4C => ("LD C,H", "4"),
            0x4D => ("LD C,L", "4"),
            0x4E => ("LD C,(HL)", "8"),
            0x4F => ("LD C,A", "4"),
            0x50 => ("LD D,B", "4"),
            0x51 => ("LD D,C", "4"),
            0x52 => ("LD D,D", "4"),
            0x53 => ("LD D,E", "4"),
            0x54 => ("LD D,H", "4"),
            0x55 => ("LD D,L", "4"),
            0x56 => ("LD D,(HL)", "8"),
            0x57 => ("LD D,A", "4"),
            0x58 => ("LD E,B", "4"),
            0x59 => ("LD E,C", "4"),
            0x5A => ("LD E,D", "4"),
            0x5B => ("LD E,E", "4"),
            0x5C => ("LD E,H", "4"),
            0x5D => ("LD E,L", "4"),
            0x5E => ("LD E,(HL)", "8"),
            0x5F => ("LD E,A", "4"),
            0x60 => ("LD H,B", "4"),
            0x61 => ("LD H,C", "4"),
            0x62 => ("LD H,D", "4"),
            0x63 => ("LD H,E", "4"),
            0x64 => ("LD H,H", "4"),
            0x65 => ("LD H,L", "4"),
            0x66 => ("LD H,(HL)", "8"),
            0x67 => ("LD H,A", "4"),
            0x68 => ("LD L,B", "4"),
            0x69 => ("LD L,C", "4"),
            0x6A => ("LD L,D", "4"),
            0x6B => ("LD L,E", "4"),
            0x6C => ("LD L,H", "4"),
            0x6D => ("LD L,L", "4"),
            0x6E => ("LD L,(HL)", "8"),
            0x6F => ("LD L,A", "4"),
            0x70 => ("LD (HL),B", "8"),
            0x71 => ("LD (HL),C", "8"),
            0x72 => ("LD (HL),D", "8"),
            0x73 => ("LD (HL),E", "8"),
            0x74 => ("LD (HL),H", "8"),
            0x75 => ("LD (HL),L", "8"),
            0x77 => ("LD (HL),A", "8"),
            0x78 => ("LD A,B", "4"),
            0x79 => ("LD A,C", "4"),
            0x7A => ("LD A,D", "4"),
            0x7B => ("LD A,E", "4"),
            0x7C => ("LD A,H", "4"),
            0x7D => ("LD A,L", "4"),
            0x7E => ("LD A,(HL)", "8"),
            0x7F => ("LD A,A", "4"),
            0x80 => ("ADD A,B", "4"),
            0x81 => ("ADD A,C", "4"),
            0x82 => ("ADD A,D", "4"),
            0x83 => ("ADD A,E", "4"),
            0x84 => ("ADD A,H", "4"),
            0x85 => ("ADD A,L", "4"),
            0x86 => ("ADD A,(HL)", "8"),
            0x87 => ("ADD A,A", "4"),
            0x90 => ("SUB B", "4"),
            0x91 => ("SUB C", "4"),
            0x92 => ("SUB D", "4"),
            0x93 => ("SUB E", "4"),
            0x94 => ("SUB H", "4"),
            0x95 => ("SUB L", "4"),
            0x96 => ("SUB (HL)", "8"),
            0x97 => ("SUB A", "4"),
            0xAF => ("XOR A", "4"),
            0xB8 => ("CP B", "4"),
            0xB9 => ("CP C", "4"),
            0xBA => ("CP D", "4"),
            0xBB => ("CP E", "4"),
            0xBC => ("CP H", "4"),
            0xBD => ("CP L", "4"),
            0xBE => ("CP (HL)", "8"),
            0xBF => ("CP A", "4"),
            0xC1 => ("POP BC", "12"),
            0xC2 => ("JP NZ,a16", "16/12"),
            0xC3 => ("JP a16", "16"),
            0xC5 => ("PUSH BC", "16"),
            0xC6 => ("ADD A,d8", "8"),
            0xC9 => ("RET", "16"),
            0xCA => ("JP Z,a16", "16/12"),
            0xCB => ("PREFIX CB", "0"),
            0xCD => ("CALL a16", "24"),
            0xD1 => ("POP DE", "12"),
            0xD2 => ("JP NC,a16", "16/12"),
            0xD5 => ("PUSH DE", "16"),
            0xD6 => ("SUB d8", "8"),
            0xDA => ("JP C,a16", "16/12"),
            0xE0 => ("LDH (a8),A", "12"),
            0xE1 => ("POP HL", "12"),
            0xE2 => ("LD (C),A", "8"),
            0xE5 => ("PUSH HL", "16"),
            0xE9 => ("JP (HL)", "4"),
            0xEA => ("LD (a16),A", "16"),
            0xF0 => ("LDH A,(a8)", "12"),
            0xF1 => ("POP AF", "12"),
            0xF3 => ("DI", "4"),
            0xF5 => ("PUSH AF", "16"),
            0xFA => ("LD A,(a16)", "16"),
            0xFB => ("EI", "4"),
            0xFE => ("CP d8", "8"),
            _ => ("", ""),
        }
    }
}

/// The disassembler's view of `opcode`, from the CB table when `is_cb`, or `None` when it is not
/// implemented.
pub fn instruction_for(opcode: u8, is_cb: bool) -> (r: Option<Instruction>)
    ensures
        r is Some <==> is_implemented(opcode, is_cb),
        r matches Some(i) ==> i.opcode == opcode && i.is_cb == is_cb && i.length_in_bytes
            == instruction_length(opcode, is_cb) && (i.mnemonic, i.cycles) == instruction_text(
            opcode,
            is_cb,
        ),
{
    let (mnemonic, length_in_bytes, cycles): (&'static str, u8, &'static str) = if is_cb {
        match opcode {
            0x10 => ("RL B", 2, "8"),
            0x11 => ("RL C", 2, "8"),
            0x12 => ("RL D", 2, "8"),
            0x13 => ("RL E", 2, "8"),
            0x14 => ("RL H", 2, "8"),
            0x15 => ("RL L", 2, "8"),
            0x17 => ("RL A", 2, "8"),
            0x7C => ("BIT 7,H", 2, "8"),
            _ => {
                return None;
            },
        }
    } else {
        match opcode {
            0x00 => ("NOP", 1, "4"),
            0x01 => ("LD BC,d16", 3, "12"),
            0x02 => ("LD (BC),A", 1, "8"),
            0x03 => ("INC BC", 1, "8"),
            0x04 => ("INC B", 1, "4"),
            0x05 => ("DEC B", 1, "4"),
            0x06 => ("LD B,d8", 2, "8"),
            0x0A => ("LD A,(BC)", 1, "8"),
            0x0B => ("DEC BC", 1, "8"),
            0x0C => ("INC C", 1, "4"),
            0x0D => ("DEC C", 1, "4"),
            0x0E => ("LD C,d8", 2, "8"),
            0x11 => ("LD DE,d16", 3, "12"),
            0x12 => ("LD (DE),A", 1, "8"),
            0x13 => ("INC DE", 1, "8"),
            0x14 => ("INC D", 1, "4"),
            0x15 => ("DEC D", 1, "4"),
            0x16 => ("LD D,d8", 2, "8"),
            0x17 => ("RLA", 1, "4"),
            0x18 => ("JR r8", 2, "12"),
            0x1A => ("LD A,(DE)", 1, "8"),
            0x1B => ("DEC DE", 1, "8"),
            0x1C => ("INC E", 1, "4"),
            0x1D => ("DEC E", 1, "4"),
            0x1E => ("LD E,d8", 2, "8"),
            0x20 => ("JR NZ,r8", 2, "12/8"),
            0x21 => ("LD HL,d16", 3, "12"),
            0x22 => ("LD (HL+),A", 1, "8"),
            0x23 => ("INC HL", 1, "8"),
            0x24 => ("INC H", 1, "4"),
            0x25 => ("DEC H", 1, "4"),
            0x26 => ("LD H,d8", 2, "8"),
            0x28 => ("JR Z,r8", 2, "12/8"),
            0x2A => ("LD A,(HL+)", 1, "8"),
            0x2B => ("DEC HL", 1, "8"),
            0x2C => ("INC L", 1, "4"),
            0x2D => ("DEC L", 1, "4"),
            0x2E => ("LD L,d8", 2, "8"),
            0x30 => ("JR NC,r8", 2, "12/8"),
            0x31 => ("LD SP,d16", 3, "12"),
            0x32 => ("LD (HL-),A", 1, "8"),
            0x33 => ("INC SP", 1, "8"),
            0x38 => ("JR C,r8", 2, "12/8"),
            0x3A => ("LD A,(HL-)", 1, "8"),
            0x3B => ("DEC SP", 1, "8"),
            0x3C => ("INC A", 1, "4"),
            0x3D => ("DEC A", 1, "4"),
            0x3E => ("LD A,d8", 2, "8"),
            0x40 => ("LD B,B", 1, "4"),
            0x41 => ("LD B,C", 1, "4"),
            0x42 => ("LD B,D", 1, "4"),
            0x43 => ("LD B,E", 1, "4"),
            0x44 => ("LD B,H", 1, "4"),
            0x45 => ("LD B,L", 1, "4"),
            0x46 => ("LD B,(HL)", 1, "8"),
            0x47 => ("LD B,A", 1, "4"),
            0x48 => ("LD C,B", 1, "4"),
            0x49 => ("LD C,C", 1, "4"),
            0x4A => ("LD C,D", 1, "4"),
            0x4B => ("LD C,E", 1, "4"),
            0x4C => ("LD C,H", 1, "4"),
            0x4D => ("LD C,L", 1, "4"),
            0x4E => ("LD C,(HL)", 1, "8"),
            0x4F => ("LD C,A", 1, "4"),
            0x50 => ("LD D,B", 1, "4"),
            0x51 => ("LD D,C", 1, "4"),
            0x52 => ("LD D,D", 1, "4"),
            0x53 => ("LD D,E", 1, "4"),
            0x54 => ("LD D,H", 1, "4"),
            0x55 => ("LD D,L", 1, "4"),
            0x56 => ("LD D,(HL)", 1, "8"),
            0x57 => ("LD D,A", 1, "4"),
            0x58 => ("LD E,B", 1, "4"),
            0x59 => ("LD E,C", 1, "4"),
            0x5A => ("LD E,D", 1, "4"),
            0x5B => ("LD E,E", 1, "4"),
            0x5C => ("LD E,H", 1, "4"),
            0x5D => ("LD E,L", 1, "4"),
            0x5E => ("LD E,(HL)", 1, "8"),
            0x5F => ("LD E,A", 1, "4"),
            0x60 => ("LD H,B", 1, "4"),
            0x61 => ("LD H,C", 1, "4"),
            0x62 => ("LD H,D", 1, "4"),
            0x63 => ("LD H,E", 1, "4"),
            0x64 => ("LD H,H", 1, "4"),
            0x65 => ("LD H,L", 1, "4"),
            0x66 => ("LD H,(HL)", 1, "8"),
            0x67 => ("LD H,A", 1, "4"),
            0x68 => ("LD L,B", 1, "4"),
            0x69 => ("LD L,C", 1, "4"),
            0x6A => ("LD L,D", 1, "4"),
            0x6B => ("LD L,E", 1, "4"),
            0x6C => ("LD L,H", 1, "4"),
            0x6D => ("LD L,L", 1, "4"),
            0x6E => ("LD L,(HL)", 1, "8"),
            0x6F => ("LD L,A", 1, "4"),
            0x70 => ("LD (HL),B", 1, "8"),
            0x71 => ("LD (HL),C", 1, "8"),
            0x72 => ("LD (HL),D", 1, "8"),
            0x73 => ("LD (HL),E", 1, "8"),
            0x74 => ("LD (HL),H", 1, "8"),
            0x75 => ("LD (HL),L", 1, "8"),
            0x77 => ("LD (HL),A", 1, "8"),
            0x78 => ("LD A,B", 1, "4"),
            0x79 => ("LD A,C", 1, "4"),
            0x7A => ("LD A,D", 1, "4"),
            0x7B => ("LD A,E", 1, "4"),
            0x7C => ("LD A,H", 1, "4"),
            0x7D => ("LD A,L", 1, "4"),
            0x7E => ("LD A,(HL)", 1, "8"),
            0x7F => ("LD A,A", 1, "4"),
            0x80 => ("ADD A,B", 1, "4"),
            0x81 => ("ADD A,C", 1, "4"),
            0x82 => ("ADD A,D", 1, "4"),
            0x83 => ("ADD A,E", 1, "4"),
            0x84 => ("ADD A,H", 1, "4"),
            0x85 => ("ADD A,L", 1, "4"),
            0x86 => ("ADD A,(HL)", 1, "8"),
            0x87 => ("ADD A,A", 1, "4"),
            0x90 => ("SUB B", 1, "4"),
            0x91 => ("SUB C", 1, "4"),
            0x92 => ("SUB D", 1, "4"),
            0x93 => ("SUB E", 1, "4"),
            0x94 => ("SUB H", 1, "4"),
            0x95 => ("SUB L", 1, "4"),
            0x96 => ("SUB (HL)", 1, "8"),
            0x97 => ("SUB A", 1, "4"),
            0xAF => ("XOR A", 1, "4"),
            0xB8 => ("CP B", 1, "4"),
            0xB9 => ("CP C", 1, "4"),
            0xBA => ("CP D", 1, "4"),
            0xBB => ("CP E", 1, "4"),
            0xBC => ("CP H", 1, "4"),
            0xBD => ("CP L", 1, "4"),
            0xBE => ("CP (HL)", 1, "8"),
            0xBF => ("CP A", 1, "4"),
            0xC1 => ("POP BC", 1, "12"),
            0xC2 => ("JP NZ,a16", 3, "16/12"),
            0xC3 => ("JP a16", 3, "16"),
            0xC5 => ("PUSH BC", 1, "16"),
            0xC6 => ("ADD A,d8", 2, "8"),
            0xC9 => ("RET", 1, "16"),
            0xCA => ("JP Z,a16", 3, "16/12"),
            0xCB => ("PREFIX CB", 1, "0"),
            0xCD => ("CALL a16", 3, "24"),
            0xD1 => ("POP DE", 1, "12"),
            0xD2 => ("JP NC,a16", 3, "16/12"),
            0xD5 => ("PUSH DE", 1, "16"),
            0xD6 => ("SUB d8", 2, "8"),
            0xDA => ("JP C,a16", 3, "16/12"),
            0xE0 => ("LDH (a8),A", 2, "12"),
            0xE1 => ("POP HL", 1, "12"),
            0xE2 => ("LD (C),A", 1, "8"),
            0xE5 => ("PUSH HL", 1, "16"),
            0xE9 => ("JP (HL)", 1, "4"),
            0xEA => ("LD (a16),A", 3, "16"),
            0xF0 => ("LDH A,(a8)", 2, "12"),
            0xF1 => ("POP AF", 1, "12"),
            0xF3 => ("DI", 1, "4"),
            0xF5 => ("PUSH AF", 1, "16"),
            0xFA => ("LD A,(a16)", 3, "16"),
            0xFB => ("EI", 1, "4"),
            0xFE => ("CP d8", 2, "8"),
            _ => {
                return None;
            },
        }
    };
    Some(Instruction { opcode, is_cb, mnemonic, length_in_bytes, cycles })
}


/// Adding 2^16 does not change a value taken modulo 2^16.
proof fn lemma_wrap16_period(x: int)
    ensures
        wrap16(x + 0x10000) == wrap16(x),
{
    vstd::arithmetic::div_mod::lemma_fundamental_div_mod(x, 0x10000);
    vstd::arithmetic::div_mod::lemma_fundamental_div_mod_converse(
        x + 0x10000,
        0x10000,
        x / 0x10000 + 1,
        x % 0x10000,
    );
}

/// Sets the flags for ADD of `value` to A: Z on a zero sum, N cleared, H on a carry out of bit
/// 3, C on a carry out of bit 7.
pub fn set_cpu_flags_for_add(cpu: &mut CPU, value: u8)
    requires
        old(cpu).wf(),
    ensures
        final(cpu).intact(old(cpu)),
        final(cpu)@ == (CpuState { f: alu_result(AluOp::Add, old(cpu)@.a, value).1, ..old(cpu)@ }),
{
    let a = cpu.reg_af.read_a();
    let sum = a as u16 + value as u16;
    cpu.write_flags(sum % 256 == 0, false, a % 16 + value % 16 > 15, sum > 255);
}

/// Sets the flags for SUB or CP of `value` from A: Z when they are equal, N set, H on a borrow
/// from bit 4, C on a borrow.
pub fn set_cpu_flags_for_sub_or_cp(cpu: &mut CPU, value: u8)
    requires
        old(cpu).wf(),
    ensures
        final(cpu).intact(old(cpu)),
        final(cpu)@ == (CpuState { f: alu_result(AluOp::Cp, old(cpu)@.a, value).1, ..old(cpu)@ }),
{
    let a = cpu.reg_af.read_a();
    cpu.write_flags(a == value, true, a % 16 < value % 16, a < value);
}

impl CPU {
    /// Whether branch condition `cond` holds.
    pub fn condition_holds(&self, cond: Condition) -> (r: bool)
        ensures
            r == condition_holds(self@.f, cond),
    {
        let (z, _n, _h, c) = self.reg_af.flags.parts();
        match cond {
            Condition::Always => true,
            Condition::NotZero => !z,
            Condition::Zero => z,
            Condition::NotCarry => !c,
            Condition::Carry => c,
        }
    }

    /// LD r,r' where 6 stands for (HL).
    pub fn ld_r_r(&mut self, dst: u8, src: u8) -> (r: Result<(), CpuFault>)
        requires
            old(self).wf(),
            old(self).cycle_count <= u64::MAX - 24,
            dst < 8,
            src < 8,
            !(dst == 6 && src == 6),
        ensures
            final(self).intact(old(self)),
            outcome(r, final(self)@, ld_r_r_spec(old(self)@, dst, src)),
            r is Ok ==> is_instruction_cost(final(self).cycle_count - old(self).cycle_count),
    {
        if src == 6 {
            let address = self.reg_hl.read();
            let v = match self.read_mem(address) {
                Ok(v) => v,
                Err(e) => {
                    return Err(e);
                },
            };
            self.write_r8(dst, v);
            self.charge(8);
        } else if dst == 6 {
            let v = self.read_r8(src);
            let address = self.reg_hl.read();
            match self.write_mem(address, v) {
                Ok(()) => {},
                Err(e) => {
                    return Err(e);
                },
            }
            self.charge(8);
        } else {
            let v = self.read_r8(src);
            self.write_r8(dst, v);
            self.charge(4);
        }
        Ok(())
    }

    /// LD r,d8.
    pub fn ld_r_d8(&mut self, dst: u8) -> (r: Result<(), CpuFault>)
        requires
            old(self).wf(),
            old(self).cycle_count <= u64::MAX - 24,
            dst < 8,
            dst != 6,
        ensures
            final(self).intact(old(self)),
            outcome(r, final(self)@, ld_r_d8_spec(old(self)@, dst)),
            r is Ok ==> is_instruction_cost(final(self).cycle_count - old(self).cycle_count),
    {
        let v = match self.pop_u8_from_pc() {
            Ok(v) => v,
            Err(e) => {
                return Err(e);
            },
        };
        self.write_r8(dst, v);
        self.charge(8);
        Ok(())
    }

    /// LD rr,d16.
    pub fn ld_rr_d16(&mut self, rr: u8) -> (r: Result<(), CpuFault>)
        requires
            old(self).wf(),
            old(self).cycle_count <= u64::MAX - 24,
            rr < 4,
        ensures
            final(self).intact(old(self)),
            outcome(r, final(self)@, ld_rr_d16_spec(old(self)@, rr)),
            r is Ok ==> is_instruction_cost(final(self).cycle_count - old(self).cycle_count),
    {
        let v = match self.pop_u16_from_pc() {
            Ok(v) => v,
            Err(e) => {
                return Err(e);
            },
        };
        self.write_r16(rr, v);
        self.charge(12);
        Ok(())
    }

    /// Loads A from `address` or stores A there.
    fn transfer_a(&mut self, address: u16, to_a: bool) -> (r: Result<(), CpuFault>)
        requires
            old(self).wf(),
        ensures
            final(self).intact(old(self)),
            outcome(
                r,
                final(self)@,
                if to_a {
                    load_a(old(self)@, address)
                } else {
                    store_a(old(self)@, address)
                },
            ),
    {
        if to_a {
            let v = match self.read_mem(address) {
                Ok(v) => v,
                Err(e) => {
                    return Err(e);
                },
            };
            self.reg_af.write_a(v);
            Ok(())
        } else {
            let a = self.reg_af.read_a();
            self.write_mem(address, a)
        }
    }

    /// LD (rr),A or LD A,(rr); with HL, HL then moves by `delta` (1 or 0xFFFF).
    pub fn ld_indirect(&mut self, rr: u8, to_a: bool, delta: u16) -> (r: Result<(), CpuFault>)
        requires
            old(self).wf(),
            old(self).cycle_count <= u64::MAX - 24,
            rr < 3,
        ensures
            final(self).intact(old(self)),
            outcome(r, final(self)@, ld_indirect_spec(old(self)@, rr, to_a, delta as int)),
            r is Ok ==> is_instruction_cost(final(self).cycle_count - old(self).cycle_count),
    {
        let address = self.read_r16(rr);
        match self.transfer_a(address, to_a) {
            Ok(()) => {},
            Err(e) => {
                return Err(e);
            },
        }
        if rr == 2 {
            let hl = self.reg_hl.read().wrapping_add(delta);
            self.write_r16(2, hl);
        }
        self.charge(8);
        Ok(())
    }

    /// LD (a16),A or LD A,(a16).
    pub fn ld_a16(&mut self, to_a: bool) -> (r: Result<(), CpuFault>)
        requires
            old(self).wf(),
            old(self).cycle_count <= u64::MAX - 24,
        ensures
            final(self).intact(old(self)),
            outcome(r, final(self)@, ld_a16_spec(old(self)@, to_a)),
            r is Ok ==> is_instruction_cost(final(self).cycle_count - old(self).cycle_count),
    {
        let address = match self.pop_u16_from_pc() {
            Ok(v) => v,
            Err(e) => {
                return Err(e);
            },
        };
        match self.transfer_a(address, to_a) {
            Ok(()) => {},
            Err(e) => {
                return Err(e);
            },
        }
        self.charge(16);
        Ok(())
    }

    /// LDH (a8),A or LDH A,(a8).
    pub fn ldh(&mut self, to_a: bool) -> (r: Result<(), CpuFault>)
        requires
            old(self).wf(),
            old(self).cycle_count <= u64::MAX - 24,
        ensures
            final(self).intact(old(self)),
            outcome(r, final(self)@, ldh_spec(old(self)@, to_a)),
            r is Ok ==> is_instruction_cost(final(self).cycle_count - old(self).cycle_count),
    {
        let n = match self.pop_u8_from_pc() {
            Ok(v) => v,
            Err(e) => {
                return Err(e);
            },
        };
        match self.transfer_a(0xFF00 + n as u16, to_a) {
            Ok(()) => {},
            Err(e) => {
                return Err(e);
            },
        }
        self.charge(12);
        Ok(())
    }

    /// LD (C),A.
    pub fn ld_c_a(&mut self) -> (r: Result<(), CpuFault>)
        requires
            old(self).wf(),
            old(self).cycle_count <= u64::MAX - 24,
        ensures
            final(self).intact(old(self)),
            outcome(r, final(self)@, ld_c_a_spec(old(self)@)),
            r is Ok ==> is_instruction_cost(final(self).cycle_count - old(self).cycle_count),
    {
        let address = 0xFF00 + self.reg_bc.read_lower() as u16;
        match self.transfer_a(address, false) {
            Ok(()) => {},
            Err(e) => {
                return Err(e);
            },
        }
        self.charge(8);
        Ok(())
    }

    /// INC r.
    pub fn inc8(&mut self, reg: u8) -> (r: Result<(), CpuFault>)
        requires
            old(self).wf(),
            old(self).cycle_count <= u64::MAX - 24,
            reg < 8,
            reg != 6,
        ensures
            final(self).intact(old(self)),
            outcome(r, final(self)@, inc8_spec(old(self)@, reg)),
            r is Ok ==> is_instruction_cost(final(self).cycle_count - old(self).cycle_count),
    {
        let (_z, _n, _h, c) = self.reg_af.flags.parts();
        let v = self.read_r8(reg);
        let target_value = ((v as u16 + 1) % 256) as u8;
        self.write_r8(reg, target_value);
        self.write_flags(target_value == 0, false, target_value % 16 == 0, c);
        self.charge(4);
        Ok(())
    }

    /// DEC r.
    pub fn dec8(&mut self, reg: u8) -> (r: Result<(), CpuFault>)
        requires
            old(self).wf(),
            old(self).cycle_count <= u64::MAX - 24,
            reg < 8,
            reg != 6,
        ensures
            final(self).intact(old(self)),
            outcome(r, final(self)@, dec8_spec(old(self)@, reg)),
            r is Ok ==> is_instruction_cost(final(self).cycle_count - old(self).cycle_count),
    {
        let (_z, _n, _h, c) = self.reg_af.flags.parts();
        let v = self.read_r8(reg);
        let target_value = ((v as u16 + 255) % 256) as u8;
        self.write_r8(reg, target_value);
        self.write_flags(target_value == 0, true, target_value % 16 == 15, c);
        self.charge(4);
        Ok(())
    }

    /// INC rr (`delta` 1) or DEC rr (`delta` 0xFFFF).
    pub fn step16(&mut self, rr: u8, delta: u16) -> (r: Result<(), CpuFault>)
        requires
            old(self).wf(),
            old(self).cycle_count <= u64::MAX - 24,
            rr < 4,
        ensures
            final(self).intact(old(self)),
            outcome(r, final(self)@, step16_spec(old(self)@, rr, delta as int)),
            r is Ok ==> is_instruction_cost(final(self).cycle_count - old(self).cycle_count),
    {
        let v = self.read_r16(rr).wrapping_add(delta);
        self.write_r16(rr, v);
        self.charge(8);
        Ok(())
    }

    /// ADD, SUB or CP with register `src`, (HL) when `src` is 6, or an immediate when it is 8.
    pub fn alu(&mut self, op: AluOp, src: u8) -> (r: Result<(), CpuFault>)
        requires
            old(self).wf(),
            old(self).cycle_count <= u64::MAX - 24,
            src <= 8,
        ensures
            final(self).intact(old(self)),
            outcome(r, final(self)@, alu_spec(old(self)@, op, src)),
            r is Ok ==> is_instruction_cost(final(self).cycle_count - old(self).cycle_count),
    {
        let v = if src == 8 {
            match self.pop_u8_from_pc() {
                Ok(v) => v,
                Err(e) => {
                    return Err(e);
                },
            }
        } else if src == 6 {
            match self.read_mem(self.reg_hl.read()) {
                Ok(v) => v,
                Err(e) => {
                    return Err(e);
                },
            }
        } else {
            self.read_r8(src)
        };
        let a = self.reg_af.read_a();
        match op {
            AluOp::Add => {
                set_cpu_flags_for_add(self, v);
                self.reg_af.write_a(((a as u16 + v as u16) % 256) as u8);
            },
            AluOp::Sub => {
                set_cpu_flags_for_sub_or_cp(self, v);
                self.reg_af.write_a(((a as u16 + 256 - v as u16) % 256) as u8);
            },
            AluOp::Cp => {
                set_cpu_flags_for_sub_or_cp(self, v);
            },
        }
        if src == 6 || src == 8 {
            self.charge(8);
        } else {
            self.charge(4);
        }
        Ok(())
    }

    /// XOR A.
    pub fn xor_a(&mut self) -> (r: Result<(), CpuFault>)
        requires
            old(self).wf(),
            old(self).cycle_count <= u64::MAX - 24,
        ensures
            final(self).intact(old(self)),
            outcome(r, final(self)@, xor_a_spec(old(self)@)),
            r is Ok ==> is_instruction_cost(final(self).cycle_count - old(self).cycle_count),
    {
        self.reg_af.write_a(0);
        self.write_flags(true, false, false, false);
        self.charge(4);
        Ok(())
    }

    /// RLA.
    pub fn rla(&mut self) -> (r: Result<(), CpuFault>)
        requires
            old(self).wf(),
            old(self).cycle_count <= u64::MAX - 24,
        ensures
            final(self).intact(old(self)),
            outcome(r, final(self)@, rla_spec(old(self)@)),
            r is Ok ==> is_instruction_cost(final(self).cycle_count - old(self).cycle_count),
    {
        let (_z, _n, _h, c) = self.reg_af.flags.parts();
        let a = self.reg_af.read_a();
        let set_carry = a >= 128;
        let new_value = ((a as u16 * 2 + if c { 1 } else { 0 }) % 256) as u8;
        self.reg_af.write_a(new_value);
        self.write_flags(false, false, false, set_carry);
        self.charge(4);
        Ok(())
    }

    /// CB RL r.
    pub fn rl(&mut self, reg: u8) -> (r: Result<(), CpuFault>)
        requires
            old(self).wf(),
            old(self).cycle_count <= u64::MAX - 24,
            reg < 8,
            reg != 6,
        ensures
            final(self).intact(old(self)),
            outcome(r, final(self)@, rl_spec(old(self)@, reg)),
            r is Ok ==> is_instruction_cost(final(self).cycle_count - old(self).cycle_count),
    {
        let (_z, _n, _h, c) = self.reg_af.flags.parts();
        let v = self.read_r8(reg);
        let set_carry = v >= 128;
        let new_value = ((v as u16 * 2 + if c { 1 } else { 0 }) % 256) as u8;
        self.write_r8(reg, new_value);
        self.write_flags(new_value == 0, false, false, set_carry);
        self.charge(8);
        Ok(())
    }

    /// CB BIT 7,H.
    pub fn bit7_h(&mut self) -> (r: Result<(), CpuFault>)
        requires
            old(self).wf(),
            old(self).cycle_count <= u64::MAX - 24,
        ensures
            final(self).intact(old(self)),
            outcome(r, final(self)@, bit7_h_spec(old(self)@)),
            r is Ok ==> is_instruction_cost(final(self).cycle_count - old(self).cycle_count),
    {
        let (_z, _n, _h, c) = self.reg_af.flags.parts();
        let h = self.reg_hl.read_higher();
        self.write_flags(h < 128, false, true, c);
        self.charge(8);
        Ok(())
    }

    /// JR cc,r8.
    pub fn jr(&mut self, cond: Condition) -> (r: Result<(), CpuFault>)
        requires
            old(self).wf(),
            old(self).cycle_count <= u64::MAX - 24,
        ensures
            final(self).intact(old(self)),
            outcome(r, final(self)@, jr_spec(old(self)@, cond)),
            r is Ok ==> is_instruction_cost(final(self).cycle_count - old(self).cycle_count),
    {
        let jump_distance = match self.pop_u8_from_pc() {
            Ok(v) => v,
            Err(e) => {
                return Err(e);
            },
        };
        if self.condition_holds(cond) {
            let offset: u16 = if jump_distance < 128 {
                jump_distance as u16
            } else {
                jump_distance as u16 + 0xFF00
            };
            proof {
                lemma_wrap16_period(self.program_counter.value + signed8(jump_distance));
            }
            self.program_counter.overflowing_add(offset);
            self.charge(12);
        } else {
            self.charge(8);
        }
        Ok(())
    }

    /// JP cc,a16.
    pub fn jp(&mut self, cond: Condition) -> (r: Result<(), CpuFault>)
        requires
            old(self).wf(),
            old(self).cycle_count <= u64::MAX - 24,
        ensures
            final(self).intact(old(self)),
            outcome(r, final(self)@, jp_spec(old(self)@, cond)),
            r is Ok ==> is_instruction_cost(final(self).cycle_count - old(self).cycle_count),
    {
        let jump_address = match self.pop_u16_from_pc() {
            Ok(v) => v,
            Err(e) => {
                return Err(e);
            },
        };
        if self.condition_holds(cond) {
            self.program_counter.write(jump_address);
            self.charge(16);
        } else {
            self.charge(12);
        }
        Ok(())
    }

    /// JP (HL).
    pub fn jp_hl(&mut self) -> (r: Result<(), CpuFault>)
        requires
            old(self).wf(),
            old(self).cycle_count <= u64::MAX - 24,
        ensures
            final(self).intact(old(self)),
            outcome(r, final(self)@, jp_hl_spec(old(self)@)),
            r is Ok ==> is_instruction_cost(final(self).cycle_count - old(self).cycle_count),
    {
        let hl = self.reg_hl.read();
        self.program_counter.write(hl);
        self.charge(4);
        Ok(())
    }

    /// CALL a16.
    pub fn call(&mut self) -> (r: Result<(), CpuFault>)
        requires
            old(self).wf(),
            old(self).cycle_count <= u64::MAX - 24,
        ensures
            final(self).intact(old(self)),
            outcome(r, final(self)@, call_spec(old(self)@)),
            r is Ok ==> is_instruction_cost(final(self).cycle_count - old(self).cycle_count),
    {
        let new_pc = match self.pop_u16_from_pc() {
            Ok(v) => v,
            Err(e) => {
                return Err(e);
            },
        };
        let pc = self.program_counter.read();
        match self.push_u16_to_stack(pc) {
            Ok(()) => {},
            Err(e) => {
                return Err(e);
            },
        }
        self.program_counter.write(new_pc);
        self.charge(24);
        Ok(())
    }

    /// RET.
    pub fn ret(&mut self) -> (r: Result<(), CpuFault>)
        requires
            old(self).wf(),
            old(self).cycle_count <= u64::MAX - 24,
        ensures
            final(self).intact(old(self)),
            outcome(r, final(self)@, ret_spec(old(self)@)),
            r is Ok ==> is_instruction_cost(final(self).cycle_count - old(self).cycle_count),
    {
        let new_pc = match self.pop_u16_from_stack() {
            Ok(v) => v,
            Err(e) => {
                return Err(e);
            },
        };
        self.program_counter.write(new_pc);
        self.charge(16);
        Ok(())
    }

    /// PUSH rr (BC, DE, HL, AF).
    pub fn push(&mut self, rr: u8) -> (r: Result<(), CpuFault>)
        requires
            old(self).wf(),
            old(self).cycle_count <= u64::MAX - 24,
            rr < 4,
        ensures
            final(self).intact(old(self)),
            outcome(r, final(self)@, push_spec(old(self)@, rr)),
            r is Ok ==> is_instruction_cost(final(self).cycle_count - old(self).cycle_count),
    {
        let value = if rr == 3 {
            self.reg_af.read()
        } else {
            self.read_r16(rr)
        };
        match self.push_u16_to_stack(value) {
            Ok(()) => {},
            Err(e) => {
                return Err(e);
            },
        }
        self.charge(16);
        Ok(())
    }

    /// POP rr (BC, DE, HL, AF); POP AF clears the low nibble of F.
    pub fn pop(&mut self, rr: u8) -> (r: Result<(), CpuFault>)
        requires
            old(self).wf(),
            old(self).cycle_count <= u64::MAX - 24,
            rr < 4,
        ensures
            final(self).intact(old(self)),
            outcome(r, final(self)@, pop_spec(old(self)@, rr)),
            r is Ok ==> is_instruction_cost(final(self).cycle_count - old(self).cycle_count),
    {
        let popped_value = match self.pop_u16_from_stack() {
            Ok(v) => v,
            Err(e) => {
                return Err(e);
            },
        };
        if rr == 3 {
            self.reg_af.a = (popped_value / 256) as u8;
            self.reg_af.flags = Flags::from_bits_truncate((popped_value % 256) as u8);
        } else {
            self.write_r16(rr, popped_value);
        }
        self.charge(12);
        Ok(())
    }

    /// DI (`enabled` false) or EI (`enabled` true).
    pub fn set_interrupts(&mut self, enabled: bool) -> (r: Result<(), CpuFault>)
        requires
            old(self).wf(),
            old(self).cycle_count <= u64::MAX - 24,
        ensures
            final(self).intact(old(self)),
            outcome(r, final(self)@, set_ime_spec(old(self)@, enabled)),
            r is Ok ==> is_instruction_cost(final(self).cycle_count - old(self).cycle_count),
    {
        self.interrupts_enabled = enabled;
        self.charge(4);
        Ok(())
    }
    /// Executes the primary-table instruction `op`, whose opcode byte was already read.
    #[verifier::rlimit(40)]
    pub fn execute_main(&mut self, op: u8) -> (r: Result<(), CpuFault>)
        requires
            old(self).wf(),
            old(self).cycle_count <= u64::MAX - 24,
        ensures
            final(self).intact(old(self)),
            outcome(r, final(self)@, exec_main(old(self)@, op)),
            r is Ok ==> is_instruction_cost(final(self).cycle_count - old(self).cycle_count),
    {
        if 0x40 <= op && op <= 0x7F && op != 0x76 {
            self.ld_r_r((op / 8) % 8, op % 8)
        } else if 0x80 <= op && op <= 0x87 {
            self.alu(AluOp::Add, op % 8)
        } else if 0x90 <= op && op <= 0x97 {
            self.alu(AluOp::Sub, op % 8)
        } else if 0xB8 <= op && op <= 0xBF {
            self.alu(AluOp::Cp, op % 8)
        } else if op < 0x40 && op % 8 == 4 && op != 0x34 {
            self.inc8(op / 8)
        } else if op < 0x40 && op % 8 == 5 && op != 0x35 {
            self.dec8(op / 8)
        } else if op < 0x40 && op % 8 == 6 && op != 0x36 {
            self.ld_r_d8(op / 8)
        } else if op < 0x40 && op % 16 == 1 {
            self.ld_rr_d16(op / 16)
        } else if op < 0x40 && op % 16 == 3 {
            self.step16(op / 16, 1)
        } else if op < 0x40 && op % 16 == 0xB {
            self.step16(op / 16, 0xFFFF)
        } else if 0xC0 <= op && op % 16 == 1 {
            self.pop((op - 0xC0) / 16)
        } else if 0xC0 <= op && op % 16 == 5 {
            self.push((op - 0xC0) / 16)
        } else {
            match op {
                0x00 => {
                    self.charge(4);
                    Ok(())
                },
                0x02 => self.ld_indirect(0, false, 0),
                0x12 => self.ld_indirect(1, false, 0),
                0x0A => self.ld_indirect(0, true, 0),
                0x1A => self.ld_indirect(1, true, 0),
                0x22 => self.ld_indirect(2, false, 1),
                0x32 => self.ld_indirect(2, false, 0xFFFF),
                0x2A => self.ld_indirect(2, true, 1),
                0x3A => self.ld_indirect(2, true, 0xFFFF),
                0x17 => self.rla(),
                0x18 => self.jr(Condition::Always),
                0x20 => self.jr(Condition::NotZero),
                0x28 => self.jr(Condition::Zero),
                0x30 => self.jr(Condition::NotCarry),
                0x38 => self.jr(Condition::Carry),
                0xAF => self.xor_a(),
                0xC2 => self.jp(Condition::NotZero),
                0xC3 => self.jp(Condition::Always),
                0xCA => self.jp(Condition::Zero),
                0xD2 => self.jp(Condition::NotCarry),
                0xDA => self.jp(Condition::Carry),
                0xC6 => self.alu(AluOp::Add, 8),
                0xD6 => self.alu(AluOp::Sub, 8),
                0xFE => self.alu(AluOp::Cp, 8),
                0xC9 => self.ret(),
                0xCD => self.call(),
                0xE0 => self.ldh(false),
                0xF0 => self.ldh(true),
                0xE2 => self.ld_c_a(),
                0xE9 => self.jp_hl(),
                0xEA => self.ld_a16(false),
                0xFA => self.ld_a16(true),
                0xF3 => self.set_interrupts(false),
                0xFB => self.set_interrupts(true),
                _ => Err(CpuFault::UnknownOpcode { opcode: op }),
            }
        }
    }

    /// Reads the second byte of a CB-prefixed instruction and executes it from the CB table.
    pub fn run_cb_op(&mut self) -> (r: Result<(), CpuFault>)
        requires
            old(self).wf(),
            old(self).cycle_count <= u64::MAX - 24,
        ensures
            final(self).intact(old(self)),
            outcome(
                r,
                final(self)@,
                match fetch8(old(self)@) {
                    Some((op, s)) => exec_cb(
                        CpuState {
                            instruction_address: old(self)@.pc,
                            reg_instruction: op,
                            reg_instruction_is_cb: true,
                            ..s
                        },
                        op,
                    ),
                    None => None,
                },
            ),
            r is Ok ==> is_instruction_cost(final(self).cycle_count - old(self).cycle_count),
    {
        self.instruction_address = self.program_counter.read();
        let op = match self.pop_u8_from_pc() {
            Ok(v) => v,
            Err(e) => {
                return Err(e);
            },
        };
        self.reg_instruction = op;
        self.reg_instruction_is_cb = true;
        if 0x10 <= op && op <= 0x17 && op != 0x16 {
            self.rl(op % 8)
        } else if op == 0x7C {
            self.bit7_h()
        } else {
            Err(CpuFault::UnknownCbOpcode { opcode: op })
        }
    }

    /// Cycles the bus `n` times.
    fn cycle_bus(&mut self, n: u64)
        requires
            old(self).wf(),
            old(self).bus.ppu.cycle_count + n <= u64::MAX,
        ensures
            final(self).wf(),
            final(self)@ == (CpuState { bus: bus_ticks(old(self)@.bus, n as nat), ..old(self)@ }),
            final(self).bus.ppu.cycle_count == old(self).bus.ppu.cycle_count + n,
            final(self).bus.ppu == ppu_ticks(old(self).bus.ppu, n as nat),
            final(self).bus.cartridge == old(self).bus.cartridge,
            final(self).bus.boot_rom == old(self).bus.boot_rom,
    {
        let mut i: u64 = 0;
        while i < n
            invariant
                self.wf(),
                i <= n,
                self.bus.ppu.cycle_count == old(self).bus.ppu.cycle_count + i,
                old(self).bus.ppu.cycle_count + n <= u64::MAX,
                self@ == (CpuState { bus: bus_ticks(old(self)@.bus, i as nat), ..old(self)@ }),
                self.bus.ppu == ppu_ticks(old(self).bus.ppu, i as nat),
                self.bus.cartridge == old(self).bus.cartridge,
                self.bus.boot_rom == old(self).bus.boot_rom,
            decreases n - i,
        {
            self.bus.cycle();
            i = i + 1;
        }
    }

    /// Fetches, decodes and executes one instruction, then cycles the bus once for each machine
    /// cycle the instruction charged.
    pub fn run_op(&mut self) -> (r: Result<(), CpuFault>)
        requires
            old(self).wf(),
            old(self).has_cycle_headroom(),
        ensures
            final(self).wf(),
            outcome(r, final(self)@, step_spec(old(self)@)),
            final(self).bus.cartridge == old(self).bus.cartridge,
            final(self).bus.boot_rom == old(self).bus.boot_rom,
            r is Ok ==> is_instruction_cost(final(self).cycle_count - old(self).cycle_count),
            r is Ok ==> final(self).bus.ppu.cycle_count - old(self).bus.ppu.cycle_count
                == final(self).cycle_count - old(self).cycle_count,
            r is Ok ==> ppu_advanced_by(
                old(self).bus.ppu,
                final(self).bus.ppu,
                (final(self).cycle_count - old(self).cycle_count) as nat,
            ),
    {
        let cycles_before_op = self.cycle_count;
        self.instruction_address = self.program_counter.read();
        let op = match self.pop_u8_from_pc() {
            Ok(v) => v,
            Err(e) => {
                return Err(e);
            },
        };
        self.reg_instruction = op;
        self.reg_instruction_is_cb = false;
        let result = if op == 0xCB {
            self.run_cb_op()
        } else {
            self.execute_main(op)
        };
        match result {
            Ok(()) => {},
            Err(e) => {
                return Err(e);
            },
        }
        let delta = self.cycle_count - cycles_before_op;
        proof {
            lemma_ticks_keep_scroll(self.bus.ppu, delta as nat);
        }
        self.cycle_bus(delta);
        proof {
            reveal(ppu_advanced_by);
        }
        Ok(())
    }

    /// Executes exactly one instruction (a CB-prefixed pair counts as one) and cycles the bus
    /// once per machine cycle it took. The cycle counter grows by the instruction's cost, which
    /// is at least 4 and at most 24, and the PPU's clock by as much. On a fault the machine state
    /// is left for a register dump.
    pub fn step(&mut self) -> (r: Result<(), CpuFault>)
        requires
            old(self).wf(),
            old(self).has_cycle_headroom(),
        ensures
            final(self).wf(),
            outcome(r, final(self)@, step_spec(old(self)@)),
            final(self).bus.cartridge == old(self).bus.cartridge,
            final(self).bus.boot_rom == old(self).bus.boot_rom,
            r is Ok ==> is_instruction_cost(final(self).cycle_count - old(self).cycle_count),
            r is Ok ==> final(self).bus.ppu.cycle_count - old(self).bus.ppu.cycle_count
                == final(self).cycle_count - old(self).cycle_count,
            r is Ok ==> ppu_advanced_by(
                old(self).bus.ppu,
                final(self).bus.ppu,
                (final(self).cycle_count - old(self).cycle_count) as nat,
            ),
    {
        self.run_op()
    }
}

} // verus!
