use nes_emulator::cpu::CPU;
use nes_emulator::flags::Flag;

/// Flags that each expectation pins down. Break and the always-set bit are on
/// from power-on, and the interrupt-disable bit is not under test here.
const CHECKED_FLAGS: [Flag; 5] = [Flag::Carry, Flag::Zero, Flag::Decimal, Flag::Overflow, Flag::Negative];

fn assert_flags(cpu: &CPU, enabled_flags: Vec<Flag>) {
    for f in CHECKED_FLAGS {
        assert_eq!(
            cpu.status.contains(f),
            enabled_flags.contains(&f),
            "CPU status: {:#010b} | Failing Flag: {:?}",
            cpu.status.bits(),
            f
        );
    }
}

fn assert_flag(cpu: &CPU, enabled_flag: Flag) {
    assert_flags(cpu, vec![enabled_flag]);
}

fn assert_no_flags(cpu: &CPU) {
    assert_flags(cpu, vec![]);
}

#[test]
fn test_0xaa_tax_implied_copy_data() {
    let mut cpu = CPU::new();
    cpu.register_a = 0x01;

    cpu.load_and_run_without_reset(vec![0xAA, 0x00]).unwrap();

    assert_eq!(cpu.register_a, 0x01);
    assert_eq!(cpu.register_x, 0x01);
    assert_no_flags(&cpu);
}

#[test]
fn test_0xaa_tax_zero_flag() {
    let mut cpu = CPU::new();
    cpu.register_a = 0x00;

    cpu.load_and_run_without_reset(vec![0xAA, 0x00]).unwrap();

    assert_eq!(cpu.register_a, 0x00);
    assert_eq!(cpu.register_x, 0x00);
    assert_flag(&cpu, Flag::Zero);
}

#[test]
fn test_0xaa_tax_negative_flag() {
    let mut cpu = CPU::new();
    cpu.register_a = 0b1000_0000;

    cpu.load_and_run_without_reset(vec![0xAA, 0x00]).unwrap();

    assert_eq!(cpu.register_a, 0b1000_0000);
    assert_eq!(cpu.register_x, 0b1000_0000);
    assert_flag(&cpu, Flag::Negative);
}
