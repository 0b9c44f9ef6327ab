use nes_emulator::cpu::CPU;
use nes_emulator::flags::Flag;

/// Flags that each expectation pins down. Break and the always-set bit are on
/// from power-on, and the interrupt-disable bit is not under test here.
const CHECKED_FLAGS: [Flag; 5] = [Flag::Carry, Flag::Zero, Flag::Decimal, Flag::Overflow, Flag::Negative];

fn assert_flags(cpu: &CPU, enabled_flags: Vec<Flag>) {
    for f in CHECKED_FLAGS {
        assert_eq!(
            cpu.status.contains(f),
            enabled_flags.contains(&f),
            "CPU status: {:#010b} | Failing Flag: {:?}",
            cpu.status.bits(),
            f
        );
    }
}

fn assert_flag(cpu: &CPU, enabled_flag: Flag) {
    assert_flags(cpu, vec![enabled_flag]);
}

#[test]
fn test_0xc0_cpy_sets_flags_correctly_when_a_lt_mem() {
    let mut cpu = CPU::new();
    cpu.register_y = 0x01;

    cpu.load_and_run_without_reset(vec![0xC0, 0x05, 0x00]).unwrap();
    assert_eq!(cpu.register_y, 0x01);
    assert_flag(&cpu, Flag::Negative);
}

#[test]
fn test_0xc0_cpy_sets_carry_and_zero_flag_when_a_eq_mem() {
    let mut cpu = CPU::new();
    cpu.register_y = 0x26;

    cpu.load_and_run_without_reset(vec![0xC0, 0x26, 0x00]).unwrap();
    assert_eq!(cpu.register_y, 0x26);
    assert_flags(&cpu, vec![Flag::Carry, Flag::Zero]);
}

#[test]
fn test_0xc0_cpy_sets_carry_flag_when_a_gt_mem() {
    let mut cpu = CPU::new();
    cpu.register_y = 0x05;

    cpu.load_and_run_without_reset(vec![0xC0, 0x01, 0x00]).unwrap();
    assert_eq!(cpu.register_y, 0x05);
    assert_flag(&cpu, Flag::Carry);
}

#[test]
fn test_0xc4_cpy_sets_flags_correctly_when_a_lt_mem() {
    let mut cpu = CPU::new();
    cpu.register_y = 0x01;
    cpu.memory.write(0x01, 0x05);

    cpu.load_and_run_without_reset(vec![0xC4, 0x01, 0x00]).unwrap();

    assert_eq!(cpu.register_y, 0x01);
    assert_eq!(cpu.memory.read(0x01), 0x05);
    assert_flag(&cpu, Flag::Negative);
}

#[test]
fn test_0xc4_cpy_sets_carry_and_zero_flag_when_a_eq_mem() {
    let mut cpu = CPU::new();
    cpu.register_y = 0x26;
    cpu.memory.write(0x01, 0x26);

    cpu.load_and_run_without_reset(vec![0xC4, 0x01, 0x00]).unwrap();

    assert_eq!(cpu.register_y, 0x26);
    assert_eq!(cpu.memory.read(0x01), 0x26);
    assert_flags(&cpu, vec![Flag::Carry, Flag::Zero]);
}

#[test]
fn test_0xc4_cpy_sets_carry_flag_when_a_gt_mem() {
    let mut cpu = CPU::new();
    cpu.register_y = 0x05;
    cpu.memory.write(0x01, 0x01);

    cpu.load_and_run_without_reset(vec![0xC4, 0x01, 0x00]).unwrap();

    assert_eq!(cpu.register_y, 0x05);
    assert_eq!(cpu.memory.read(0x01), 0x01);
    assert_flag(&cpu, Flag::Carry);
}

#[test]
fn test_0xcc_cpy_sets_flags_correctly_when_a_lt_mem() {
    let mut cpu = CPU::new();
    cpu.register_y = 0x01;
    cpu.memory.write(0x1010, 0x05);

    cpu.load_and_run_without_reset(vec![0xCC, 0x10, 0x10, 0x00]).unwrap();

    assert_eq!(cpu.register_y, 0x01);
    assert_eq!(cpu.memory.read(0x1010), 0x05);
    assert_flag(&cpu, Flag::Negative);
}

#[test]
fn test_0xcc_cpy_sets_carry_and_zero_flag_when_a_eq_mem() {
    let mut cpu = CPU::new();
    cpu.register_y = 0x26;
    cpu.memory.write(0x1010, 0x26);

    cpu.load_and_run_without_reset(vec![0xCC, 0x10, 0x10, 0x00]).unwrap();

    assert_eq!(cpu.register_y, 0x26);
    assert_eq!(cpu.memory.read(0x1010), 0x26);
    assert_flags(&cpu, vec![Flag::Carry, Flag::Zero]);
}

#[test]
fn test_0xcc_cpy_sets_carry_flag_when_a_gt_mem() {
    let mut cpu = CPU::new();
    cpu.register_y = 0x05;
    cpu.memory.write(0x1010, 0x01);

    cpu.load_and_run_without_reset(vec![0xCC, 0x10, 0x10, 0x00]).unwrap();

    assert_eq!(cpu.register_y, 0x05);
    assert_eq!(cpu.memory.read(0x1010), 0x01);
    assert_flag(&cpu, Flag::Carry);
}
