use nes_emulator::cpu::CPU;
use nes_emulator::flags::Flag;

/// Flags that each expectation pins down. Break and the always-set bit are on
/// from power-on, and the interrupt-disable bit is not under test here.
const CHECKED_FLAGS: [Flag; 5] = [Flag::Carry, Flag::Zero, Flag::Decimal, Flag::Overflow, Flag::Negative];

fn assert_flags(cpu: &CPU, enabled_flags: Vec<Flag>) {
    for f in CHECKED_FLAGS {
        assert_eq!(
            cpu.status.contains(f),
            enabled_flags.contains(&f),
            "CPU status: {:#010b} | Failing Flag: {:?}",
            cpu.status.bits(),
            f
        );
    }
}

fn assert_flag(cpu: &CPU, enabled_flag: Flag) {
    assert_flags(cpu, vec![enabled_flag]);
}

fn assert_no_flags(cpu: &CPU) {
    assert_flags(cpu, vec![]);
}

#[test]
fn test_0xe6_inc_increments_memory_correctly() {
    let mut cpu = CPU::new();
    cpu.memory.write(0x01, 0x01);

    cpu.load_and_run_without_reset(vec![0xE6, 0x01, 0x00]).unwrap();

    assert_eq!(cpu.memory.read(0x01), 0x02);
    assert_no_flags(&cpu);
}

#[test]
fn inc_tests_test_0xe6_inc_wraps_and_sets_zero_flag_correctly() {
    let mut cpu = CPU::new();
    cpu.memory.write(0x01, 0xFF);

    cpu.load_and_run_without_reset(vec![0xE6, 0x01, 0x00]).unwrap();

    assert_eq!(cpu.memory.read(0x01), 0x00);
    assert_flag(&cpu, Flag::Zero);
}

#[test]
fn inc_tests_test_0xe6_inc_sets_negative_flag_correctly() {
    let mut cpu = CPU::new();
    cpu.memory.write(0x01, 0x7F);

    cpu.load_and_run_without_reset(vec![0xE6, 0x01, 0x00]).unwrap();

    assert_eq!(cpu.memory.read(0x01), 0x80);
    assert_flag(&cpu, Flag::Negative);
}

#[test]
fn test_0xf6_inc_increments_memory_correctly() {
    let mut cpu = CPU::new();
    cpu.register_x = 0x01;
    cpu.memory.write(0x02, 0x01);

    cpu.load_and_run_without_reset(vec![0xF6, 0x01, 0x00]).unwrap();

    assert_eq!(cpu.memory.read(0x02), 0x02);
    assert_no_flags(&cpu);
}

#[test]
fn test_0xf6_inc_wraps_and_sets_zero_flag_correctly() {
    let mut cpu = CPU::new();
    cpu.register_x = 0x01;
    cpu.memory.write(0x02, 0xFF);

    cpu.load_and_run_without_reset(vec![0xF6, 0x01, 0x00]).unwrap();

    assert_eq!(cpu.memory.read(0x01), 0x00);
    assert_flag(&cpu, Flag::Zero);
}

#[test]
fn test_0xf6_inc_sets_negative_flag_correctly() {
    let mut cpu = CPU::new();
    cpu.register_x = 0x01;
    cpu.memory.write(0x02, 0x7F);

    cpu.load_and_run_without_reset(vec![0xF6, 0x01, 0x00]).unwrap();

    assert_eq!(cpu.memory.read(0x02), 0x80);
    assert_flag(&cpu, Flag::Negative);
}

#[test]
fn test_0xee_inc_increments_memory_correctly() {
    let mut cpu = CPU::new();
    cpu.memory.write(0x1010, 0x01);

    cpu.load_and_run_without_reset(vec![0xEE, 0x10, 0x10, 0x00]).unwrap();

    assert_eq!(cpu.memory.read(0x1010), 0x02);
    assert_no_flags(&cpu);
}

#[test]
fn test_0xee_inc_wraps_and_sets_zero_flag_correctly() {
    let mut cpu = CPU::new();
    cpu.memory.write(0x1010, 0xFF);

    cpu.load_and_run_without_reset(vec![0xEE, 0x10, 0x10, 0x00]).unwrap();

    assert_eq!(cpu.memory.read(0x1010), 0x00);
    assert_flag(&cpu, Flag::Zero);
}

#[test]
fn test_0xee_inc_sets_negative_flag_correctly() {
    let mut cpu = CPU::new();
    cpu.memory.write(0x1010, 0x7F);

    cpu.load_and_run_without_reset(vec![0xEE, 0x10, 0x10, 0x00]).unwrap();

    assert_eq!(cpu.memory.read(0x1010), 0x80);
    assert_flag(&cpu, Flag::Negative);
}

#[test]
fn test_0xfe_inc_increments_memory_correctly() {
    let mut cpu = CPU::new();
    cpu.register_x = 0x01;
    cpu.memory.write(0x1011, 0x01);

    cpu.load_and_run_without_reset(vec![0xFE, 0x10, 0x10, 0x00]).unwrap();

    assert_eq!(cpu.memory.read(0x1011), 0x02);
    assert_no_flags(&cpu);
}

#[test]
fn test_0xfe_inc_wraps_and_sets_zero_flag_correctly() {
    let mut cpu = CPU::new();
    cpu.register_x = 0x01;
    cpu.memory.write(0x1011, 0xFF);

    cpu.load_and_run_without_reset(vec![0xFE, 0x10, 0x10, 0x00]).unwrap();

    assert_eq!(cpu.memory.read(0x1011), 0x00);
    assert_flag(&cpu, Flag::Zero);
}

#[test]
fn test_0xfe_inc_sets_negative_flag_correctly() {
    let mut cpu = CPU::new();
    cpu.register_x = 0x01;
    cpu.memory.write(0x1011, 0x7F);

    cpu.load_and_run_without_reset(vec![0xFE, 0x10, 0x10, 0x00]).unwrap();

    assert_eq!(cpu.memory.read(0x1011), 0x80);
    assert_flag(&cpu, Flag::Negative);
}
