use rustdmg::bus::Bus;
use rustdmg::cpu::register::DMGRegister;
use rustdmg::cpu::register::Flags;
use rustdmg::cpu::CPU;

#[test]
fn xor_a() {
    let mut cpu = CPU::new(
        Bus::new_from_vecs(vec![0xAF], vec![]));
    cpu.reg_af.write_a(0x4F);
    cpu.step().unwrap();
    assert_eq!(cpu.reg_af.read_a(), 0);
    assert_eq!(cpu.reg_af.flags, Flags::Z)
}

#[test]
fn inc_b() {
    let mut cpu = CPU::new(
        Bus::new_from_vecs(vec![0x04], vec![]));
    cpu.reg_bc.write_higher(0x4F);
    cpu.step().unwrap();
    assert_eq!(cpu.reg_bc.read_higher(), 0x50);
    assert!(!cpu.reg_af.flags.contains(Flags::Z));
    assert!(!cpu.reg_af.flags.contains(Flags::N));
    assert!(cpu.reg_af.flags.contains(Flags::H));
}

#[test]
fn inc_c() {
    let mut cpu = CPU::new(
        Bus::new_from_vecs(vec![0x0C], vec![]));
    cpu.reg_bc.write_lower(0x4F);
    cpu.step().unwrap();
    assert_eq!(cpu.reg_bc.read_lower(), 0x50);
    assert!(!cpu.reg_af.flags.contains(Flags::Z));
    assert!(!cpu.reg_af.flags.contains(Flags::N));
    assert!(cpu.reg_af.flags.contains(Flags::H));
}

#[test]
fn inc_d() {
    let mut cpu = CPU::new(
        Bus::new_from_vecs(vec![0x14], vec![]));
    cpu.reg_de.write_higher(0x4F);
    cpu.step().unwrap();
    assert_eq!(cpu.reg_de.read_higher(), 0x50);
    assert!(!cpu.reg_af.flags.contains(Flags::Z));
    assert!(!cpu.reg_af.flags.contains(Flags::N));
    assert!(cpu.reg_af.flags.contains(Flags::H));
}

#[test]
fn inc_e() {
    let mut cpu = CPU::new(
        Bus::new_from_vecs(vec![0x1C], vec![]));
    cpu.reg_de.write_lower(0x4F);
    cpu.step().unwrap();
    assert_eq!(cpu.reg_de.read_lower(), 0x50);
    assert!(!cpu.reg_af.flags.contains(Flags::Z));
    assert!(!cpu.reg_af.flags.contains(Flags::N));
    assert!(cpu.reg_af.flags.contains(Flags::H));
}

#[test]
fn inc_h() {
    let mut cpu = CPU::new(
        Bus::new_from_vecs(vec![0x24], vec![]));
    cpu.reg_hl.write_higher(0x4F);
    cpu.step().unwrap();
    assert_eq!(cpu.reg_hl.read_higher(), 0x50);
    assert!(!cpu.reg_af.flags.contains(Flags::Z));
    assert!(!cpu.reg_af.flags.contains(Flags::N));
    assert!(cpu.reg_af.flags.contains(Flags::H));
}

#[test]
fn inc_l() {
    let mut cpu = CPU::new(
        Bus::new_from_vecs(vec![0x2C], vec![]));
    cpu.reg_hl.write_lower(0x4F);
    cpu.step().unwrap();
    assert_eq!(cpu.reg_hl.read_lower(), 0x50);
    assert!(!cpu.reg_af.flags.contains(Flags::Z));
    assert!(!cpu.reg_af.flags.contains(Flags::N));
    assert!(cpu.reg_af.flags.contains(Flags::H));
}

#[test]
fn inc_a() {
    let mut cpu = CPU::new(
        Bus::new_from_vecs(vec![0x3C], vec![]));
    cpu.reg_af.write_higher(0x4F);
    cpu.step().unwrap();
    assert_eq!(cpu.reg_af.read_higher(), 0x50);
    assert!(!cpu.reg_af.flags.contains(Flags::Z));
    assert!(!cpu.reg_af.flags.contains(Flags::N));
    assert!(cpu.reg_af.flags.contains(Flags::H));
}

#[test]
fn dec_b() {
    let mut cpu = CPU::new(
        Bus::new_from_vecs(vec![0x05], vec![]));
    cpu.reg_bc.write_higher(0x4F);
    cpu.step().unwrap();
    assert_eq!(cpu.reg_bc.read_higher(), 0x4E);
    assert!(!cpu.reg_af.flags.contains(Flags::Z));
    assert!(cpu.reg_af.flags.contains(Flags::N));
    assert!(!cpu.reg_af.flags.contains(Flags::H));
}

#[test]
fn dec_c() {
    let mut cpu = CPU::new(
        Bus::new_from_vecs(vec![0x0D], vec![]));
    cpu.reg_bc.write_lower(0x4F);
    cpu.step().unwrap();
    assert_eq!(cpu.reg_bc.read_lower(), 0x4E);
    assert!(!cpu.reg_af.flags.contains(Flags::Z));
    assert!(cpu.reg_af.flags.contains(Flags::N));
    assert!(!cpu.reg_af.flags.contains(Flags::H));
}

#[test]
fn dec_d() {
    let mut cpu = CPU::new(
        Bus::new_from_vecs(vec![0x15], vec![]));
    cpu.reg_de.write_higher(0x4F);
    cpu.step().unwrap();
    assert_eq!(cpu.reg_de.read_higher(), 0x4E);
    assert!(!cpu.reg_af.flags.contains(Flags::Z));
    assert!(cpu.reg_af.flags.contains(Flags::N));
    assert!(!cpu.reg_af.flags.contains(Flags::H));
}

#[test]
fn dec_e() {
    let mut cpu = CPU::new(
        Bus::new_from_vecs(vec![0x1D], vec![]));
    cpu.reg_de.write_lower(0x4F);
    cpu.step().unwrap();
    assert_eq!(cpu.reg_de.read_lower(), 0x4E);
    assert!(!cpu.reg_af.flags.contains(Flags::Z));
    assert!(cpu.reg_af.flags.contains(Flags::N));
    assert!(!cpu.reg_af.flags.contains(Flags::H));
}

#[test]
fn dec_h() {
    let mut cpu = CPU::new(
        Bus::new_from_vecs(vec![0x25], vec![]));
    cpu.reg_hl.write_higher(0x4F);
    cpu.step().unwrap();
    assert_eq!(cpu.reg_hl.read_higher(), 0x4E);
    assert!(!cpu.reg_af.flags.contains(Flags::Z));
    assert!(cpu.reg_af.flags.contains(Flags::N));
    assert!(!cpu.reg_af.flags.contains(Flags::H));
}

#[test]
fn dec_l() {
    let mut cpu = CPU::new(
        Bus::new_from_vecs(vec![0x2D], vec![]));
    cpu.reg_hl.write_lower(0x4F);
    cpu.step().unwrap();
    assert_eq!(cpu.reg_hl.read_lower(), 0x4E);
    assert!(!cpu.reg_af.flags.contains(Flags::Z));
    assert!(cpu.reg_af.flags.contains(Flags::N));
    assert!(!cpu.reg_af.flags.contains(Flags::H));
}

#[test]
fn dec_a() {
    let mut cpu = CPU::new(
        Bus::new_from_vecs(vec![0x3D], vec![]));
    cpu.reg_af.write_higher(0x4F);
    cpu.step().unwrap();
    assert_eq!(cpu.reg_af.read_higher(), 0x4E);
    assert!(!cpu.reg_af.flags.contains(Flags::Z));
    assert!(cpu.reg_af.flags.contains(Flags::N));
    assert!(!cpu.reg_af.flags.contains(Flags::H));
}

#[test]
fn inc_bc() {
    let mut cpu = CPU::new(
        Bus::new_from_vecs(vec![0x03], vec![]));
    cpu.reg_bc.write(0x4F4F);
    cpu.step().unwrap();
    assert_eq!(cpu.reg_bc.read(), 0x4F50);
}

#[test]
fn inc_de() {
    let mut cpu = CPU::new(
        Bus::new_from_vecs(vec![0x13], vec![]));
    cpu.reg_de.write(0x4F4F);
    cpu.step().unwrap();
    assert_eq!(cpu.reg_de.read(), 0x4F50);
}

#[test]
fn inc_hl() {
    let mut cpu = CPU::new(
        Bus::new_from_vecs(vec![0x23], vec![]));
    cpu.reg_hl.write(0x4F4F);
    cpu.step().unwrap();
    assert_eq!(cpu.reg_hl.read(), 0x4F50);
}

#[test]
fn inc_sp() {
    let mut cpu = CPU::new(
        Bus::new_from_vecs(vec![0x33], vec![]));
    cpu.stack_pointer.write(0x4F4F);
    cpu.step().unwrap();
    assert_eq!(cpu.stack_pointer.read(), 0x4F50);
}

#[test]
fn dec_bc() {
    let mut cpu = CPU::new(
        Bus::new_from_vecs(vec![0x0B], vec![]));
    cpu.reg_bc.write(0x4F4F);
    cpu.step().unwrap();
    assert_eq!(cpu.reg_bc.read(), 0x4F4E);
}

#[test]
fn dec_de() {
    let mut cpu = CPU::new(
        Bus::new_from_vecs(vec![0x1B], vec![]));
    cpu.reg_de.write(0x4F4F);
    cpu.step().unwrap();
    assert_eq!(cpu.reg_de.read(), 0x4F4E);
}

#[test]
fn dec_hl() {
    let mut cpu = CPU::new(
        Bus::new_from_vecs(vec![0x2B], vec![]));
    cpu.reg_hl.write(0x4F4F);
    cpu.step().unwrap();
    assert_eq!(cpu.reg_hl.read(), 0x4F4E);
}

#[test]
fn dec_sp() {
    let mut cpu = CPU::new(
        Bus::new_from_vecs(vec![0x3B], vec![]));
    cpu.stack_pointer.write(0x4F4F);
    cpu.step().unwrap();
    assert_eq!(cpu.stack_pointer.read(), 0x4F4E);
}

#[test]
fn ld_de_d16() {
    let mut cpu = CPU::new(
        Bus::new_from_vecs(vec![0x11, 0x34, 0x12], vec![]));
    cpu.step().unwrap();
    assert_eq!(cpu.reg_de.read(), 0x1234);
}

#[test]
fn ld_hl_d16() {
    let mut cpu = CPU::new(
        Bus::new_from_vecs(vec![0x21, 0x34, 0x12], vec![]));
    cpu.step().unwrap();
    assert_eq!(cpu.reg_hl.read(), 0x1234);
}

#[test]
fn ld_sp_d16() {
    let mut cpu = CPU::new(
        Bus::new_from_vecs(vec![0x31, 0x34, 0x12], vec![]));
    cpu.step().unwrap();
    assert_eq!(cpu.stack_pointer.read(), 0x1234);
}

#[test]
fn ld_pointer_hl_a_and_decrement() {
    let mut cpu = CPU::new(
        Bus::new_from_vecs(vec![0x32], vec![]));
    cpu.reg_af.write_a(0xF0);
    cpu.reg_hl.write(0xC123);
    cpu.step().unwrap();
    assert_eq!(cpu.bus.read(0xC123), 0xF0);
    assert_eq!(cpu.reg_hl.read(), 0xC122);
}

#[test]
fn ld_pointer_hl_a_and_increment() {
    let mut cpu = CPU::new(
        Bus::new_from_vecs(vec![0x22], vec![]));
    cpu.reg_af.write_a(0xF0);
    cpu.reg_hl.write(0xC123);
    cpu.step().unwrap();
    assert_eq!(cpu.bus.read(0xC123), 0xF0);
    assert_eq!(cpu.reg_hl.read(), 0xC124);
}

#[test]
fn ld_pointer_bc_a() {
    let mut cpu = CPU::new(
        Bus::new_from_vecs(vec![0x02], vec![]));
    cpu.reg_af.write_a(0xF0);
    cpu.reg_bc.write(0xC123);
    cpu.step().unwrap();
    assert_eq!(cpu.bus.read(0xC123), 0xF0);
}

#[test]
fn ld_pointer_de_a() {
    let mut cpu = CPU::new(
        Bus::new_from_vecs(vec![0x12], vec![]));
    cpu.reg_af.write_a(0xF0);
    cpu.reg_de.write(0xC123);
    cpu.step().unwrap();
    assert_eq!(cpu.bus.read(0xC123), 0xF0);
}

#[test]
fn ld_pointer_hl_b() {
    let mut cpu = CPU::new(
        Bus::new_from_vecs(vec![0x70], vec![]));
    cpu.reg_bc.write_higher(0xF0);
    cpu.reg_hl.write(0xC123);
    cpu.step().unwrap();
    assert_eq!(cpu.bus.read(0xC123), 0xF0);
}

#[test]
fn ld_pointer_hl_c() {
    let mut cpu = CPU::new(
        Bus::new_from_vecs(vec![0x71], vec![]));
    cpu.reg_bc.write_lower(0xF0);
    cpu.reg_hl.write(0xC123);
    cpu.step().unwrap();
    assert_eq!(cpu.bus.read(0xC123), 0xF0);
}

#[test]
fn ld_pointer_hl_d() {
    let mut cpu = CPU::new(
        Bus::new_from_vecs(vec![0x72], vec![]));
    cpu.reg_de.write_higher(0xF0);
    cpu.reg_hl.write(0xC123);
    cpu.step().unwrap();
    assert_eq!(cpu.bus.read(0xC123), 0xF0);
}

#[test]
fn ld_pointer_hl_e() {
    let mut cpu = CPU::new(
        Bus::new_from_vecs(vec![0x73], vec![]));
    cpu.reg_de.write_lower(0xF0);
    cpu.reg_hl.write(0xC123);
    cpu.step().unwrap();
    assert_eq!(cpu.bus.read(0xC123), 0xF0);
}

#[test]
fn ld_pointer_hl_h() {
    let mut cpu = CPU::new(
        Bus::new_from_vecs(vec![0x74], vec![]));
    cpu.reg_hl.write(0xC123);
    cpu.step().unwrap();
    assert_eq!(cpu.bus.read(0xC123), 0xC1);
}

#[test]
fn ld_pointer_hl_l() {
    let mut cpu = CPU::new(
        Bus::new_from_vecs(vec![0x75], vec![]));
    cpu.reg_hl.write(0xC123);
    cpu.step().unwrap();
    assert_eq!(cpu.bus.read(0xC123), 0x23);
}

#[test]
fn ld_pointer_hl_a() {
    let mut cpu = CPU::new(
        Bus::new_from_vecs(vec![0x77], vec![]));
    cpu.reg_af.write_higher(0xF0);
    cpu.reg_hl.write(0xC123);
    cpu.step().unwrap();
    assert_eq!(cpu.bus.read(0xC123), 0xF0);
}

#[test]
fn ld_pointer_immediate_a() {
    let mut cpu = CPU::new(
        Bus::new_from_vecs(vec![0xEA, 0xC0, 0xC1], vec![]));
    cpu.reg_af.write_higher(0xF0);
    cpu.step().unwrap();
    assert_eq!(cpu.cycle_count, 16);
    assert_eq!(cpu.program_counter.read(), 0x0003);
    assert_eq!(cpu.bus.read(0xC1C0), 0xF0);
}

#[test]
fn ld_a_pointer_de() {
    let mut cpu = CPU::new(
        Bus::new_from_vecs(vec![0x1A, 0x55], vec![]));
    cpu.reg_de.write(0x0001);
    cpu.step().unwrap();
    assert_eq!(cpu.reg_af.read_a(), 0x55);
}

#[test]
fn ld_a_pointer_bc() {
    let mut cpu = CPU::new(
        Bus::new_from_vecs(vec![0x0A, 0x55], vec![]));
    cpu.reg_bc.write(0x0001);
    cpu.step().unwrap();
    assert_eq!(cpu.reg_af.read_a(), 0x55);
}

#[test]
fn ld_a_pointer_hl_increment() {
    let mut cpu = CPU::new(
        Bus::new_from_vecs(vec![0x2A, 0x55], vec![]));
    cpu.reg_hl.write(0x0001);
    cpu.step().unwrap();
    assert_eq!(cpu.reg_af.read_a(), 0x55);
    assert_eq!(cpu.reg_hl.read(), 0x0002);
}

#[test]
fn ld_a_pointer_hl_decrement() {
    let mut cpu = CPU::new(
        Bus::new_from_vecs(vec![0x3A, 0x55], vec![]));
    cpu.reg_hl.write(0x0001);
    cpu.step().unwrap();
    assert_eq!(cpu.reg_af.read_a(), 0x55);
    assert_eq!(cpu.reg_hl.read(), 0x0000);
}

#[test]
fn ld_b_pointer_hl() {
    let mut cpu = CPU::new(
        Bus::new_from_vecs(vec![0x46, 0x55], vec![]));
    cpu.reg_hl.write(0x0001);
    cpu.step().unwrap();
    assert_eq!(cpu.reg_bc.read_higher(), 0x55);
}

#[test]
fn ld_c_pointer_hl() {
    let mut cpu = CPU::new(
        Bus::new_from_vecs(vec![0x4E, 0x55], vec![]));
    cpu.reg_hl.write(0x0001);
    cpu.step().unwrap();
    assert_eq!(cpu.reg_bc.read_lower(), 0x55);
}

#[test]
fn ld_d_pointer_hl() {
    let mut cpu = CPU::new(
        Bus::new_from_vecs(vec![0x56, 0x55], vec![]));
    cpu.reg_hl.write(0x0001);
    cpu.step().unwrap();
    assert_eq!(cpu.reg_de.read_higher(), 0x55);
}

#[test]
fn ld_e_pointer_hl() {
    let mut cpu = CPU::new(
        Bus::new_from_vecs(vec![0x5E, 0x55], vec![]));
    cpu.reg_hl.write(0x0001);
    cpu.step().unwrap();
    assert_eq!(cpu.reg_de.read_lower(), 0x55);
}

#[test]
fn ld_h_pointer_hl() {
    let mut cpu = CPU::new(
        Bus::new_from_vecs(vec![0x66, 0x55], vec![]));
    cpu.reg_hl.write(0x0001);
    cpu.step().unwrap();
    assert_eq!(cpu.reg_hl.read_higher(), 0x55);
}

#[test]
fn ld_l_pointer_hl() {
    let mut cpu = CPU::new(
        Bus::new_from_vecs(vec![0x6E, 0x55], vec![]));
    cpu.reg_hl.write(0x0001);
    cpu.step().unwrap();
    assert_eq!(cpu.reg_hl.read_lower(), 0x55);
}

#[test]
fn ld_high_immediate_a() {
    let mut cpu = CPU::new(
        Bus::new_from_vecs(vec![0xE0, 0xF5], vec![]));
    cpu.reg_af.write_a(0xF0);
    cpu.step().unwrap();
    assert_eq!(cpu.cycle_count, 12);
    assert_eq!(cpu.bus.read(0xFFF5), 0xF0);
}

#[test]
fn ld_a_high_immediate() {
    let mut cpu = CPU::new(
        Bus::new_from_vecs(vec![0xF0, 0xF5], vec![]));
    cpu.bus.write(0xFFF5, 0x12);
    cpu.step().unwrap();
    assert_eq!(cpu.cycle_count, 12);
    assert_eq!(cpu.reg_af.read_a(), 0x12);
}

#[test]
fn ld_pointer_c_a() {
    let mut cpu = CPU::new(
        Bus::new_from_vecs(vec![0xE2], vec![]));
    cpu.reg_af.write_a(0xCC);
    cpu.reg_bc.write_lower(0xF0);
    cpu.step().unwrap();
    assert_eq!(cpu.cycle_count, 8);
    assert_eq!(cpu.bus.read(0xFFF0), 0xCC);
}

#[test]
fn bit_7_h_to_one() {
    let mut cpu = CPU::new(Bus::new_from_vecs(vec![0xCB, 0x7C], vec![]));
    cpu.reg_hl.write(0xF000);
    cpu.step().unwrap();
    assert!(!cpu.reg_af.flags.contains(Flags::N));
    assert!(cpu.reg_af.flags.contains(Flags::H));
    assert!(!cpu.reg_af.flags.contains(Flags::Z));
}

#[test]
fn bit_7_h_to_zero() {
    let mut cpu = CPU::new(Bus::new_from_vecs(vec![0xCB, 0x7C], vec![]));
    cpu.reg_hl.write(0x0F00);
    cpu.step().unwrap();
    assert!(!cpu.reg_af.flags.contains(Flags::N));
    assert!(cpu.reg_af.flags.contains(Flags::H));
    assert!(cpu.reg_af.flags.contains(Flags::Z));
}

#[test]
fn jump() {
    let mut cpu = CPU::new(Bus::new_from_vecs(vec![0xC3, 0x12, 0x34], vec![]));
    cpu.step().unwrap();
    assert_eq!(cpu.program_counter.read(), 0x3412);
    // an unconditional jump is always taken: 16 cycles
    assert_eq!(cpu.cycle_count, 16);
}

#[test]
fn jpnz() {
    let mut cpu = CPU::new(Bus::new_from_vecs(vec![0xC2, 0x12, 0x34], vec![]));
    cpu.reg_af.flags.set(Flags::Z, false);
    cpu.step().unwrap();
    assert_eq!(cpu.program_counter.read(), 0x3412);
    assert_eq!(cpu.cycle_count, 16);
}

#[test]
fn jpnz_no_jump() {
    let mut cpu = CPU::new(Bus::new_from_vecs(vec![0xC2, 0x12, 0x34], vec![]));
    cpu.reg_af.flags.set(Flags::Z, true);
    cpu.step().unwrap();
    assert_eq!(cpu.program_counter.read(), 0x0003);
    assert_eq!(cpu.cycle_count, 12);
}

#[test]
fn jpz() {
    let mut cpu = CPU::new(Bus::new_from_vecs(vec![0xCA, 0x12, 0x34], vec![]));
    cpu.reg_af.flags.set(Flags::Z, true);
    cpu.step().unwrap();
    assert_eq!(cpu.program_counter.read(), 0x3412);
    assert_eq!(cpu.cycle_count, 16);
}

#[test]
fn jpz_no_jump() {
    let mut cpu = CPU::new(Bus::new_from_vecs(vec![0xCA, 0x12, 0x34], vec![]));
    cpu.reg_af.flags.set(Flags::Z, false);
    cpu.step().unwrap();
    assert_eq!(cpu.program_counter.read(), 0x0003);
    assert_eq!(cpu.cycle_count, 12);
}

#[test]
fn jpnc() {
    let mut cpu = CPU::new(Bus::new_from_vecs(vec![0xD2, 0x12, 0x34], vec![]));
    cpu.reg_af.flags.set(Flags::C, false);
    cpu.step().unwrap();
    assert_eq!(cpu.program_counter.read(), 0x3412);
    assert_eq!(cpu.cycle_count, 16);
}

#[test]
fn jpnc_no_jump() {
    let mut cpu = CPU::new(Bus::new_from_vecs(vec![0xD2, 0x12, 0x34], vec![]));
    cpu.reg_af.flags.set(Flags::C, true);
    cpu.step().unwrap();
    assert_eq!(cpu.program_counter.read(), 0x0003);
    assert_eq!(cpu.cycle_count, 12);
}

#[test]
fn jpc() {
    let mut cpu = CPU::new(Bus::new_from_vecs(vec![0xDA, 0x12, 0x34], vec![]));
    cpu.reg_af.flags.set(Flags::C, true);
    cpu.step().unwrap();
    assert_eq!(cpu.program_counter.read(), 0x3412);
    assert_eq!(cpu.cycle_count, 16);
}

#[test]
fn jpc_no_jump() {
    let mut cpu = CPU::new(Bus::new_from_vecs(vec![0xDA, 0x12, 0x34], vec![]));
    cpu.reg_af.flags.set(Flags::C, false);
    cpu.step().unwrap();
    assert_eq!(cpu.program_counter.read(), 0x0003);
    assert_eq!(cpu.cycle_count, 12);
}

#[test]
fn jp_hl() {
    let mut cpu = CPU::new(Bus::new_from_vecs(vec![0xE9, 0x12, 0x34], vec![]));
    cpu.reg_hl.write(0x0002);
    cpu.step().unwrap();
    // JP (HL) jumps to the address held in HL
    assert_eq!(cpu.program_counter.read(), 0x0002);
    assert_eq!(cpu.cycle_count, 4);
}

#[test]
fn jr() {
    let mut cpu = CPU::new(Bus::new_from_vecs(vec![0x18, 0x33], vec![]));
    cpu.step().unwrap();
    assert_eq!(cpu.program_counter.read(), 0x35);
    assert_eq!(cpu.cycle_count, 12);
}

#[test]
fn jrnz_no_jump() {
    let mut cpu = CPU::new(Bus::new_from_vecs(vec![0x20, 0x33], vec![]));
    cpu.reg_af.flags.insert(Flags::Z);
    cpu.step().unwrap();
    assert_eq!(cpu.program_counter.read(), 0x02);
    assert_eq!(cpu.cycle_count, 8);
}

#[test]
fn jrnz_jump_positive() {
    let mut cpu = CPU::new(Bus::new_from_vecs(vec![0x20, 0x33], vec![]));
    cpu.reg_af.flags.remove(Flags::Z);
    cpu.step().unwrap();
    assert_eq!(cpu.program_counter.read(), 0x35);
    assert_eq!(cpu.cycle_count, 12);
}

#[test]
fn jrnz_jump_negative() {
    // Jump -3
    let mut cpu = CPU::new(Bus::new_from_vecs(vec![0x20, 0xFD], vec![]));
    cpu.reg_af.flags.remove(Flags::Z);
    cpu.step().unwrap();
    assert_eq!(cpu.program_counter.read(), 0xFFFF);
    assert_eq!(cpu.cycle_count, 12);
}

#[test]
fn jrz_no_jump() {
    let mut cpu = CPU::new(Bus::new_from_vecs(vec![0x28, 0x33], vec![]));
    cpu.reg_af.flags.remove(Flags::Z);
    cpu.step().unwrap();
    assert_eq!(cpu.program_counter.read(), 0x02);
    assert_eq!(cpu.cycle_count, 8);
}

#[test]
fn jrz_jump_positive() {
    let mut cpu = CPU::new(Bus::new_from_vecs(vec![0x28, 0x33], vec![]));
    cpu.reg_af.flags.insert(Flags::Z);
    cpu.step().unwrap();
    assert_eq!(cpu.program_counter.read(), 0x35);
    assert_eq!(cpu.cycle_count, 12);
}

#[test]
fn jrnc_no_jump() {
    let mut cpu = CPU::new(Bus::new_from_vecs(vec![0x30, 0x33], vec![]));
    cpu.reg_af.flags.insert(Flags::C);
    cpu.step().unwrap();
    assert_eq!(cpu.program_counter.read(), 0x02);
    assert_eq!(cpu.cycle_count, 8);
}

#[test]
fn jrnc_jump_positive() {
    let mut cpu = CPU::new(Bus::new_from_vecs(vec![0x30, 0x33], vec![]));
    cpu.reg_af.flags.remove(Flags::C);
    cpu.step().unwrap();
    assert_eq!(cpu.program_counter.read(), 0x35);
    assert_eq!(cpu.cycle_count, 12);
}

#[test]
fn jrc_no_jump() {
    let mut cpu = CPU::new(Bus::new_from_vecs(vec![0x38, 0x33], vec![]));
    cpu.reg_af.flags.remove(Flags::C);
    cpu.step().unwrap();
    assert_eq!(cpu.program_counter.read(), 0x02);
    assert_eq!(cpu.cycle_count, 8);
}

#[test]
fn jrc_jump_positive() {
    let mut cpu = CPU::new(Bus::new_from_vecs(vec![0x38, 0x33], vec![]));
    cpu.reg_af.flags.insert(Flags::C);
    cpu.step().unwrap();
    assert_eq!(cpu.program_counter.read(), 0x35);
    assert_eq!(cpu.cycle_count, 12);
}

#[test]
fn call() {
    let mut cpu = CPU::new(Bus::new_from_vecs(vec![0xCD, 0x34, 0x12], vec![]));
    cpu.stack_pointer.write(0xD000);
    cpu.step().unwrap();
    assert_eq!(cpu.cycle_count, 24);
    assert_eq!(cpu.program_counter.read(), 0x1234);
    assert_eq!(cpu.stack_pointer.read(), 0xCFFE);
    assert_eq!(cpu.bus.read(0xCFFF), 0x03);
    assert_eq!(cpu.bus.read(0xCFFE), 0x00);
}

#[test]
fn ret() {
    let mut cpu = CPU::new(Bus::new_from_vecs(vec![0xC9], vec![]));
    cpu.stack_pointer.write(0xD000);
    cpu.push_u16_to_stack(0x1234).unwrap();
    cpu.step().unwrap();
    assert_eq!(cpu.cycle_count, 16);
    assert_eq!(cpu.program_counter.read(), 0x1234);
    assert_eq!(cpu.stack_pointer.read(), 0xD000);
}

#[test]
fn ld_b_b() {
    let mut cpu = CPU::new(Bus::new_from_vecs(vec![0x40], vec![]));
    cpu.reg_bc.write_higher(0xF5);
    cpu.step().unwrap();
    assert_eq!(cpu.reg_bc.read_higher(), 0xF5);
}

#[test]
fn ld_b_c() {
    let mut cpu = CPU::new(Bus::new_from_vecs(vec![0x41], vec![]));
    cpu.reg_bc.write_lower(0xF5);
    cpu.step().unwrap();
    assert_eq!(cpu.reg_bc.read_higher(), 0xF5);
}

#[test]
fn ld_b_d() {
    let mut cpu = CPU::new(Bus::new_from_vecs(vec![0x42], vec![]));
    cpu.reg_de.write_higher(0xF5);
    cpu.step().unwrap();
    assert_eq!(cpu.reg_bc.read_higher(), 0xF5);
}

#[test]
fn ld_b_e() {
    let mut cpu = CPU::new(Bus::new_from_vecs(vec![0x43], vec![]));
    cpu.reg_de.write_lower(0xF5);
    cpu.step().unwrap();
    assert_eq!(cpu.reg_bc.read_higher(), 0xF5);
}

#[test]
fn ld_b_h() {
    let mut cpu = CPU::new(Bus::new_from_vecs(vec![0x44], vec![]));
    cpu.reg_hl.write_higher(0xF5);
    cpu.step().unwrap();
    assert_eq!(cpu.reg_bc.read_higher(), 0xF5)
}

#[test]
fn ld_b_l() {
    let mut cpu = CPU::new(Bus::new_from_vecs(vec![0x45], vec![]));
    cpu.reg_hl.write_lower(0xF5);
    cpu.step().unwrap();
    assert_eq!(cpu.reg_bc.read_higher(), 0xF5)
}

#[test]
fn ld_b_a() {
    let mut cpu = CPU::new(Bus::new_from_vecs(vec![0x47], vec![]));
    cpu.reg_af.write_higher(0xF5);
    cpu.step().unwrap();
    assert_eq!(cpu.reg_bc.read_higher(), 0xF5)
}

#[test]
fn ld_b_immediate() {
    let mut cpu = CPU::new(Bus::new_from_vecs(vec![0x06, 0xBB], vec![]));
    cpu.step().unwrap();
    assert_eq!(cpu.cycle_count, 8);
    assert_eq!(cpu.reg_bc.read_higher(), 0xBB);
}

#[test]
fn ld_c_immediate() {
    let mut cpu = CPU::new(Bus::new_from_vecs(vec![0x0E, 0xBB], vec![]));
    cpu.step().unwrap();
    assert_eq!(cpu.cycle_count, 8);
    assert_eq!(cpu.reg_bc.read_lower(), 0xBB);
}

#[test]
fn ld_d_immediate() {
    let mut cpu = CPU::new(Bus::new_from_vecs(vec![0x16, 0xBB], vec![]));
    cpu.step().unwrap();
    assert_eq!(cpu.cycle_count, 8);
    assert_eq!(cpu.reg_de.read_higher(), 0xBB);
}

#[test]
fn ld_e_immediate() {
    let mut cpu = CPU::new(Bus::new_from_vecs(vec![0x1E, 0xBB], vec![]));
    cpu.step().unwrap();
    assert_eq!(cpu.cycle_count, 8);
    assert_eq!(cpu.reg_de.read_lower(), 0xBB);
}

#[test]
fn ld_h_immediate() {
    let mut cpu = CPU::new(Bus::new_from_vecs(vec![0x26, 0xBB], vec![]));
    cpu.step().unwrap();
    assert_eq!(cpu.cycle_count, 8);
    assert_eq!(cpu.reg_hl.read_higher(), 0xBB);
}

#[test]
fn ld_l_immediate() {
    let mut cpu = CPU::new(Bus::new_from_vecs(vec![0x2E, 0xBB], vec![]));
    cpu.step().unwrap();
    assert_eq!(cpu.cycle_count, 8);
    assert_eq!(cpu.reg_hl.read_lower(), 0xBB);
}

#[test]
fn ld_a_immediate() {
    let mut cpu = CPU::new(Bus::new_from_vecs(vec![0x3E, 0xBB], vec![]));
    cpu.step().unwrap();
    assert_eq!(cpu.cycle_count, 8);
    assert_eq!(cpu.reg_af.read_higher(), 0xBB);
}

#[test]
fn push_bc() {
    let mut cpu = CPU::new(Bus::new_from_vecs(vec![0xC5], vec![]));
    cpu.stack_pointer.write(0xD000);
    cpu.reg_bc.write(0x1234);
    cpu.step().unwrap();
    assert_eq!(cpu.cycle_count, 16);
    assert_eq!(cpu.program_counter.read(), 0x0001);
    assert_eq!(cpu.stack_pointer.read(), 0xCFFE);
    assert_eq!(cpu.bus.read(0xCFFF), 0x34);
    assert_eq!(cpu.bus.read(0xCFFE), 0x12);
}

#[test]
fn push_de() {
    let mut cpu = CPU::new(Bus::new_from_vecs(vec![0xD5], vec![]));
    cpu.stack_pointer.write(0xD000);
    cpu.reg_de.write(0x1234);
    cpu.step().unwrap();
    assert_eq!(cpu.cycle_count, 16);
    assert_eq!(cpu.program_counter.read(), 0x0001);
    assert_eq!(cpu.stack_pointer.read(), 0xCFFE);
    assert_eq!(cpu.bus.read(0xCFFF), 0x34);
    assert_eq!(cpu.bus.read(0xCFFE), 0x12);
}

#[test]
fn push_hl() {
    let mut cpu = CPU::new(Bus::new_from_vecs(vec![0xE5], vec![]));
    cpu.stack_pointer.write(0xD000);
    cpu.reg_hl.write(0x1234);
    cpu.step().unwrap();
    assert_eq!(cpu.cycle_count, 16);
    assert_eq!(cpu.program_counter.read(), 0x0001);
    assert_eq!(cpu.stack_pointer.read(), 0xCFFE);
    assert_eq!(cpu.bus.read(0xCFFF), 0x34);
    assert_eq!(cpu.bus.read(0xCFFE), 0x12);
}

#[test]
fn push_af() {
    let mut cpu = CPU::new(Bus::new_from_vecs(vec![0xF5], vec![]));
    cpu.stack_pointer.write(0xD000);
    cpu.reg_af.write(0x1234);
    cpu.step().unwrap();
    assert_eq!(cpu.cycle_count, 16);
    assert_eq!(cpu.program_counter.read(), 0x0001);
    assert_eq!(cpu.stack_pointer.read(), 0xCFFE);
    // the low nibble of F does not exist, so 0x34 was kept as 0x30
    assert_eq!(cpu.bus.read(0xCFFF), 0x30);
    assert_eq!(cpu.bus.read(0xCFFE), 0x12);
}

#[test]
fn pop_bc() {
    let mut cpu = CPU::new(Bus::new_from_vecs(vec![0xC1], vec![]));
    cpu.stack_pointer.write(0xCFFE);
    cpu.bus.write(0xCFFF, 0x34);
    cpu.bus.write(0xCFFE, 0x12);
    cpu.step().unwrap();
    assert_eq!(cpu.cycle_count, 12);
    assert_eq!(cpu.program_counter.read(), 0x0001);
    assert_eq!(cpu.stack_pointer.read(), 0xD000);
    assert_eq!(cpu.reg_bc.read(), 0x1234);
}

#[test]
fn pop_de() {
    let mut cpu = CPU::new(Bus::new_from_vecs(vec![0xD1], vec![]));
    cpu.stack_pointer.write(0xCFFE);
    cpu.bus.write(0xCFFF, 0x34);
    cpu.bus.write(0xCFFE, 0x12);
    cpu.step().unwrap();
    assert_eq!(cpu.cycle_count, 12);
    assert_eq!(cpu.program_counter.read(), 0x0001);
    assert_eq!(cpu.stack_pointer.read(), 0xD000);
    assert_eq!(cpu.reg_de.read(), 0x1234);
}

#[test]
fn pop_hl() {
    let mut cpu = CPU::new(Bus::new_from_vecs(vec![0xE1], vec![]));
    cpu.stack_pointer.write(0xCFFE);
    cpu.bus.write(0xCFFF, 0x34);
    cpu.bus.write(0xCFFE, 0x12);
    cpu.step().unwrap();
    assert_eq!(cpu.cycle_count, 12);
    assert_eq!(cpu.program_counter.read(), 0x0001);
    assert_eq!(cpu.stack_pointer.read(), 0xD000);
    assert_eq!(cpu.reg_hl.read(), 0x1234);
}

#[test]
fn pop_af() {
    let mut cpu = CPU::new(Bus::new_from_vecs(vec![0xF1], vec![]));
    cpu.stack_pointer.write(0xCFFE);
    cpu.bus.write(0xCFFF, 0x34);
    cpu.bus.write(0xCFFE, 0x12);
    cpu.step().unwrap();
    assert_eq!(cpu.cycle_count, 12);
    assert_eq!(cpu.program_counter.read(), 0x0001);
    assert_eq!(cpu.stack_pointer.read(), 0xD000);
    // POP AF clears the low nibble of F
    assert_eq!(cpu.reg_af.read(), 0x1230);
}

#[test]
fn rl_c_no_carry() {
    let mut cpu = CPU::new(Bus::new_from_vecs(vec![0xCB, 0x11], vec![]));
    cpu.reg_bc.write_lower(0b01010010);
    cpu.step().unwrap();
    assert_eq!(cpu.cycle_count, 8);
    assert_eq!(cpu.program_counter.read(), 0x0002);
    assert_eq!(cpu.reg_bc.read_lower(), 0b10100100);
    assert_eq!(cpu.reg_af.flags, Flags::empty());
}

#[test]
fn rl_c_to_carry() {
    let mut cpu = CPU::new(Bus::new_from_vecs(vec![0xCB, 0x11], vec![]));
    cpu.reg_bc.write_lower(0b11010010);
    cpu.step().unwrap();
    assert_eq!(cpu.cycle_count, 8);
    assert_eq!(cpu.program_counter.read(), 0x0002);
    assert_eq!(cpu.reg_bc.read_lower(), 0b10100100);
    assert_eq!(cpu.reg_af.flags, Flags::C);
}

#[test]
fn rl_c_from_carry() {
    let mut cpu = CPU::new(Bus::new_from_vecs(vec![0xCB, 0x11], vec![]));
    cpu.reg_bc.write_lower(0);
    cpu.reg_af.flags.insert(Flags::C);
    cpu.step().unwrap();
    assert_eq!(cpu.cycle_count, 8);
    assert_eq!(cpu.program_counter.read(), 0x0002);
    assert_eq!(cpu.reg_bc.read_lower(), 1);
    assert_eq!(cpu.reg_af.flags, Flags::empty());
}

#[test]
fn rla_no_carry() {
    let mut cpu = CPU::new(Bus::new_from_vecs(vec![0x17], vec![]));
    cpu.reg_af.write_higher(0b01010010);
    cpu.step().unwrap();
    assert_eq!(cpu.cycle_count, 4);
    assert_eq!(cpu.program_counter.read(), 0x0001);
    assert_eq!(cpu.reg_af.read_higher(), 0b10100100);
    assert_eq!(cpu.reg_af.flags, Flags::empty());
}

#[test]
fn rla_to_carry() {
    let mut cpu = CPU::new(Bus::new_from_vecs(vec![0x17], vec![]));
    cpu.reg_af.write_higher(0b11010010);
    cpu.step().unwrap();
    assert_eq!(cpu.cycle_count, 4);
    assert_eq!(cpu.program_counter.read(), 0x0001);
    assert_eq!(cpu.reg_af.read_higher(), 0b10100100);
    assert_eq!(cpu.reg_af.flags, Flags::C);
}

#[test]
fn rla_from_carry() {
    let mut cpu = CPU::new(Bus::new_from_vecs(vec![0x17], vec![]));
    cpu.reg_af.write_higher(0);
    cpu.reg_af.flags.insert(Flags::C);
    cpu.step().unwrap();
    assert_eq!(cpu.cycle_count, 4);
    assert_eq!(cpu.program_counter.read(), 0x0001);
    assert_eq!(cpu.reg_af.read_higher(), 1);
    assert_eq!(cpu.reg_af.flags, Flags::empty());
}

#[test]
fn cp_a_zero() {
    let mut cpu = CPU::new(Bus::new_from_vecs(vec![0xBF], vec![]));
    cpu.reg_af.write_higher(0x10);
    cpu.step().unwrap();
    assert_eq!(cpu.cycle_count, 4);
    assert_eq!(cpu.program_counter.read(), 0x0001);
    assert_eq!(cpu.reg_af.flags, Flags::Z | Flags::N);
}

#[test]
fn cp_b_half_carry() {
    let mut cpu = CPU::new(Bus::new_from_vecs(vec![0xB8], vec![]));
    cpu.reg_af.write_higher(0x13);
    cpu.reg_bc.write_higher(0x04);
    cpu.step().unwrap();
    assert_eq!(cpu.cycle_count, 4);
    assert_eq!(cpu.program_counter.read(), 0x0001);
    assert_eq!(cpu.reg_af.flags, Flags::N | Flags::H);
}

#[test]
fn cp_c_no_carry() {
    let mut cpu = CPU::new(Bus::new_from_vecs(vec![0xB9], vec![]));
    cpu.reg_af.write_higher(0x11);
    cpu.reg_bc.write_lower(0x10);
    cpu.step().unwrap();
    assert_eq!(cpu.cycle_count, 4);
    assert_eq!(cpu.program_counter.read(), 0x0001);
    assert_eq!(cpu.reg_af.flags, Flags::N);
}

#[test]
fn cp_d_carry() {
    let mut cpu = CPU::new(Bus::new_from_vecs(vec![0xBA], vec![]));
    cpu.reg_af.write_higher(0x05);
    cpu.reg_de.write_higher(0x06);
    cpu.step().unwrap();
    assert_eq!(cpu.cycle_count, 4);
    assert_eq!(cpu.program_counter.read(), 0x0001);
    assert_eq!(cpu.reg_af.flags, Flags::C | Flags::H | Flags::N);
}

#[test]
fn cp_e_half_carry() {
    let mut cpu = CPU::new(Bus::new_from_vecs(vec![0xBB], vec![]));
    cpu.reg_af.write_higher(0x13);
    cpu.reg_de.write_lower(0x04);
    cpu.step().unwrap();
    assert_eq!(cpu.cycle_count, 4);
    assert_eq!(cpu.program_counter.read(), 0x0001);
    assert_eq!(cpu.reg_af.flags, Flags::N | Flags::H);
}

#[test]
fn cp_h_no_carry() {
    let mut cpu = CPU::new(Bus::new_from_vecs(vec![0xBC], vec![]));
    cpu.reg_af.write_higher(0x11);
    cpu.reg_hl.write_higher(0x10);
    cpu.step().unwrap();
    assert_eq!(cpu.cycle_count, 4);
    assert_eq!(cpu.program_counter.read(), 0x0001);
    assert_eq!(cpu.reg_af.flags, Flags::N);
}

#[test]
fn cp_l_carry() {
    let mut cpu = CPU::new(Bus::new_from_vecs(vec![0xBD], vec![]));
    cpu.reg_af.write_higher(0x05);
    cpu.reg_hl.write_lower(0x06);
    cpu.step().unwrap();
    assert_eq!(cpu.cycle_count, 4);
    assert_eq!(cpu.program_counter.read(), 0x0001);
    assert_eq!(cpu.reg_af.flags, Flags::C | Flags::H | Flags::N);
}

#[test]
fn cp_hl_carry() {
    let mut cpu = CPU::new(Bus::new_from_vecs(vec![0xBE, 0x06], vec![]));
    cpu.reg_af.write_higher(0x05);
    cpu.reg_hl.write(0x0001);
    cpu.step().unwrap();
    assert_eq!(cpu.cycle_count, 8);
    assert_eq!(cpu.program_counter.read(), 0x0001);
    assert_eq!(cpu.reg_af.flags, Flags::C | Flags::H | Flags::N);
}

#[test]
fn cp_immediate_zero() {
    let mut cpu = CPU::new(Bus::new_from_vecs(vec![0xFE, 0x10], vec![]));
    cpu.reg_af.write_higher(0x10);
    cpu.step().unwrap();
    assert_eq!(cpu.cycle_count, 8);
    assert_eq!(cpu.program_counter.read(), 0x0002);
    assert_eq!(cpu.reg_af.flags, Flags::Z | Flags::N);
}

#[test]
fn cp_immediate_half_carry() {
    let mut cpu = CPU::new(Bus::new_from_vecs(vec![0xFE, 0x9], vec![]));
    cpu.reg_af.write_higher(0x10);
    cpu.step().unwrap();
    assert_eq!(cpu.cycle_count, 8);
    assert_eq!(cpu.program_counter.read(), 0x0002);
    assert_eq!(cpu.reg_af.flags, Flags::N | Flags::H);
}

#[test]
fn cp_immediate_no_carry() {
    let mut cpu = CPU::new(Bus::new_from_vecs(vec![0xFE, 0x1], vec![]));
    cpu.reg_af.write_higher(0x11);
    cpu.step().unwrap();
    assert_eq!(cpu.cycle_count, 8);
    assert_eq!(cpu.program_counter.read(), 0x0002);
    assert_eq!(cpu.reg_af.flags, Flags::N);
}

#[test]
fn cp_immediate_carry() {
    let mut cpu = CPU::new(Bus::new_from_vecs(vec![0xFE, 0x11], vec![]));
    cpu.reg_af.write_higher(0x10);
    cpu.step().unwrap();
    assert_eq!(cpu.cycle_count, 8);
    assert_eq!(cpu.program_counter.read(), 0x0002);
    assert_eq!(cpu.reg_af.flags, Flags::C | Flags::H | Flags::N);
}

#[test]
fn sub_a_zero() {
    let mut cpu = CPU::new(Bus::new_from_vecs(vec![0x97], vec![]));
    cpu.reg_af.write_higher(0x10);
    cpu.step().unwrap();
    assert_eq!(cpu.cycle_count, 4);
    assert_eq!(cpu.program_counter.read(), 0x0001);
    assert_eq!(cpu.reg_af.flags, Flags::Z | Flags::N);
    assert_eq!(cpu.reg_af.read_higher(), 0);
}

#[test]
fn sub_b_half_carry() {
    let mut cpu = CPU::new(Bus::new_from_vecs(vec![0x90], vec![]));
    cpu.reg_af.write_higher(0x13);
    cpu.reg_bc.write_higher(0x04);
    cpu.step().unwrap();
    assert_eq!(cpu.cycle_count, 4);
    assert_eq!(cpu.program_counter.read(), 0x0001);
    assert_eq!(cpu.reg_af.flags, Flags::N | Flags::H);
    assert_eq!(cpu.reg_af.read_higher(), 0x0F);
}

#[test]
fn sub_c_no_carry() {
    let mut cpu = CPU::new(Bus::new_from_vecs(vec![0x91], vec![]));
    cpu.reg_af.write_higher(0x11);
    cpu.reg_bc.write_lower(0x10);
    cpu.step().unwrap();
    assert_eq!(cpu.cycle_count, 4);
    assert_eq!(cpu.program_counter.read(), 0x0001);
    assert_eq!(cpu.reg_af.flags, Flags::N);
    assert_eq!(cpu.reg_af.read_higher(), 0x01);
}

#[test]
fn sub_d_carry() {
    let mut cpu = CPU::new(Bus::new_from_vecs(vec![0x92], vec![]));
    cpu.reg_af.write_higher(0x05);
    cpu.reg_de.write_higher(0x06);
    cpu.step().unwrap();
    assert_eq!(cpu.cycle_count, 4);
    assert_eq!(cpu.program_counter.read(), 0x0001);
    assert_eq!(cpu.reg_af.flags, Flags::C | Flags::H | Flags::N);
    assert_eq!(cpu.reg_af.read_higher(), 0xFF);
}

#[test]
fn sub_e_half_carry() {
    let mut cpu = CPU::new(Bus::new_from_vecs(vec![0x93], vec![]));
    cpu.reg_af.write_higher(0x13);
    cpu.reg_de.write_lower(0x04);
    cpu.step().unwrap();
    assert_eq!(cpu.cycle_count, 4);
    assert_eq!(cpu.program_counter.read(), 0x0001);
    assert_eq!(cpu.reg_af.flags, Flags::N | Flags::H);
    assert_eq!(cpu.reg_af.read_higher(), 0x0F);
}

#[test]
fn sub_h_no_carry() {
    let mut cpu = CPU::new(Bus::new_from_vecs(vec![0x94], vec![]));
    cpu.reg_af.write_higher(0x11);
    cpu.reg_hl.write_higher(0x10);
    cpu.step().unwrap();
    assert_eq!(cpu.cycle_count, 4);
    assert_eq!(cpu.program_counter.read(), 0x0001);
    assert_eq!(cpu.reg_af.flags, Flags::N);
    assert_eq!(cpu.reg_af.read_higher(), 0x01);
}

#[test]
fn sub_l_carry() {
    let mut cpu = CPU::new(Bus::new_from_vecs(vec![0x95], vec![]));
    cpu.reg_af.write_higher(0x05);
    cpu.reg_hl.write_lower(0x06);
    cpu.step().unwrap();
    assert_eq!(cpu.cycle_count, 4);
    assert_eq!(cpu.program_counter.read(), 0x0001);
    assert_eq!(cpu.reg_af.flags, Flags::C | Flags::H | Flags::N);
    assert_eq!(cpu.reg_af.read_higher(), 0xFF);
}

#[test]
fn sub_hl_carry() {
    let mut cpu = CPU::new(Bus::new_from_vecs(vec![0x96, 0x06], vec![]));
    cpu.reg_af.write_higher(0x05);
    cpu.reg_hl.write(0x0001);
    cpu.step().unwrap();
    assert_eq!(cpu.cycle_count, 8);
    assert_eq!(cpu.program_counter.read(), 0x0001);
    assert_eq!(cpu.reg_af.flags, Flags::C | Flags::H | Flags::N);
    assert_eq!(cpu.reg_af.read_higher(), 0xFF);
}

#[test]
fn sub_immediate() {
    let mut cpu = CPU::new(Bus::new_from_vecs(vec![0xD6, 0x06], vec![]));
    cpu.reg_af.write_higher(0x05);
    cpu.step().unwrap();
    assert_eq!(cpu.cycle_count, 8);
    assert_eq!(cpu.program_counter.read(), 0x0002);
    assert_eq!(cpu.reg_af.flags, Flags::C | Flags::H | Flags::N);
    assert_eq!(cpu.reg_af.read_higher(), 0xFF);
}

#[test]
fn add_a_no_carry() {
    let mut cpu = CPU::new(Bus::new_from_vecs(vec![0x87], vec![]));
    cpu.reg_af.write_higher(0x10);
    cpu.step().unwrap();
    assert_eq!(cpu.cycle_count, 4);
    assert_eq!(cpu.program_counter.read(), 0x0001);
    assert_eq!(cpu.reg_af.flags, Flags::default());
    assert_eq!(cpu.reg_af.read_higher(), 0x20);
}

#[test]
fn add_b_half_carry() {
    let mut cpu = CPU::new(Bus::new_from_vecs(vec![0x80], vec![]));
    cpu.reg_af.write_higher(0x13);
    cpu.reg_bc.write_higher(0x0F);
    cpu.step().unwrap();
    assert_eq!(cpu.cycle_count, 4);
    assert_eq!(cpu.program_counter.read(), 0x0001);
    assert_eq!(cpu.reg_af.flags, Flags::H);
    assert_eq!(cpu.reg_af.read_higher(), 0x22);
}

#[test]
fn add_c_no_carry() {
    let mut cpu = CPU::new(Bus::new_from_vecs(vec![0x81], vec![]));
    cpu.reg_af.write_higher(0x11);
    cpu.reg_bc.write_lower(0x10);
    cpu.step().unwrap();
    assert_eq!(cpu.cycle_count, 4);
    assert_eq!(cpu.program_counter.read(), 0x0001);
    assert_eq!(cpu.reg_af.flags, Flags::default());
    assert_eq!(cpu.reg_af.read_higher(), 0x21);
}

#[test]
fn add_d_carry() {
    let mut cpu = CPU::new(Bus::new_from_vecs(vec![0x82], vec![]));
    cpu.reg_af.write_higher(0xFF);
    cpu.reg_de.write_higher(0x01);
    cpu.step().unwrap();
    assert_eq!(cpu.cycle_count, 4);
    assert_eq!(cpu.program_counter.read(), 0x0001);
    assert_eq!(cpu.reg_af.flags, Flags::Z | Flags::C | Flags::H);
    assert_eq!(cpu.reg_af.read_higher(), 0x00);
}

#[test]
fn add_e_half_carry() {
    let mut cpu = CPU::new(Bus::new_from_vecs(vec![0x83], vec![]));
    cpu.reg_af.write_higher(0x5F);
    cpu.reg_de.write_lower(0x12);
    cpu.step().unwrap();
    assert_eq!(cpu.cycle_count, 4);
    assert_eq!(cpu.program_counter.read(), 0x0001);
    assert_eq!(cpu.reg_af.flags, Flags::H);
    assert_eq!(cpu.reg_af.read_higher(), 0x71);
}

#[test]
fn add_h_no_carry() {
    let mut cpu = CPU::new(Bus::new_from_vecs(vec![0x84], vec![]));
    cpu.reg_af.write_higher(0x11);
    cpu.reg_hl.write_higher(0x10);
    cpu.step().unwrap();
    assert_eq!(cpu.cycle_count, 4);
    assert_eq!(cpu.program_counter.read(), 0x0001);
    assert_eq!(cpu.reg_af.flags, Flags::default());
    assert_eq!(cpu.reg_af.read_higher(), 0x21);
}

#[test]
fn add_l_carry() {
    let mut cpu = CPU::new(Bus::new_from_vecs(vec![0x85], vec![]));
    cpu.reg_af.write_higher(0xF5);
    cpu.reg_hl.write_lower(0x0F);
    cpu.step().unwrap();
    assert_eq!(cpu.cycle_count, 4);
    assert_eq!(cpu.program_counter.read(), 0x0001);
    assert_eq!(cpu.reg_af.flags, Flags::C | Flags::H);
    assert_eq!(cpu.reg_af.read_higher(), 0x04);
}

#[test]
fn add_hl_carry() {
    let mut cpu = CPU::new(Bus::new_from_vecs(vec![0x86, 0xFF], vec![]));
    cpu.reg_af.write_higher(0x05);
    cpu.reg_hl.write(0x0001);
    cpu.step().unwrap();
    assert_eq!(cpu.cycle_count, 8);
    assert_eq!(cpu.program_counter.read(), 0x0001);
    assert_eq!(cpu.reg_af.flags, Flags::C | Flags::H);
    assert_eq!(cpu.reg_af.read_higher(), 0x04);
}

#[test]
fn add_immediate() {
    let mut cpu = CPU::new(Bus::new_from_vecs(vec![0xC6, 0x06], vec![]));
    cpu.reg_af.write_higher(0x05);
    cpu.step().unwrap();
    assert_eq!(cpu.cycle_count, 8);
    assert_eq!(cpu.program_counter.read(), 0x0002);
    assert_eq!(cpu.reg_af.flags, Flags::default());
    assert_eq!(cpu.reg_af.read_higher(), 0x0B);
}

#[test]
fn disable_interrupts() {
    let mut cpu = CPU::new(Bus::new_from_vecs(vec![0xF3], vec![]));
    cpu.interrupts_enabled = true;
    cpu.step().unwrap();
    assert_eq!(cpu.cycle_count, 4);
    assert_eq!(cpu.program_counter.read(), 0x0001);
    assert_eq!(cpu.interrupts_enabled, false);
}

#[test]
fn enable_interrupts() {
    let mut cpu = CPU::new(Bus::new_from_vecs(vec![0xFB], vec![]));
    cpu.interrupts_enabled = false;
    cpu.step().unwrap();
    assert_eq!(cpu.cycle_count, 4);
    assert_eq!(cpu.program_counter.read(), 0x0001);
    assert_eq!(cpu.interrupts_enabled, true);
}
