use nes_emulator::cpu::CPU;
use nes_emulator::flags::{Flag, Flags};

fn push_to_stack(cpu: &mut CPU, data: u8) {
    let stack_addr = 0x0100u16 + cpu.stack_pointer as u16;
    cpu.memory.write(stack_addr, data);
    cpu.stack_pointer -= 1;
}

#[test]
fn test_0x28_plp_imlied_carry_flag() {
    let flag = Flag::Carry;
    let mut cpu = CPU::new();
    push_to_stack(&mut cpu, flag.mask());

    cpu.load_and_run_without_reset(vec![0x28, 0x00]).unwrap();

    assert_eq!(cpu.memory.read(0x01FF), 0x00);
    assert_eq!(cpu.status.bits(), flag.mask());
}

#[test]
fn test_0x28_plp_imlied_zero_flag() {
    let flag = Flag::Zero;
    let mut cpu = CPU::new();
    push_to_stack(&mut cpu, flag.mask());

    cpu.load_and_run_without_reset(vec![0x28, 0x00]).unwrap();

    assert_eq!(cpu.memory.read(0x01FF), 0x00);
    assert_eq!(cpu.status.bits(), flag.mask());
}

#[test]
fn test_0x28_plp_imlied_interupt_flag() {
    let flag = Flag::InterruptDisable;
    let mut cpu = CPU::new();
    push_to_stack(&mut cpu, flag.mask());

    cpu.load_and_run_without_reset(vec![0x28, 0x00]).unwrap();

    assert_eq!(cpu.memory.read(0x01FF), 0x00);
    assert_eq!(cpu.status.bits(), flag.mask());
}

#[test]
fn test_0x28_plp_imlied_decimal_flag() {
    let flag = Flag::Decimal;
    let mut cpu = CPU::new();
    push_to_stack(&mut cpu, flag.mask());

    cpu.load_and_run_without_reset(vec![0x28, 0x00]).unwrap();

    assert_eq!(cpu.memory.read(0x01FF), 0x00);
    assert_eq!(cpu.status.bits(), flag.mask());
}

#[test]
fn test_0x28_plp_imlied_break_flag() {
    let flag = Flag::Break;
    let mut cpu = CPU::new();
    push_to_stack(&mut cpu, flag.mask());

    cpu.load_and_run_without_reset(vec![0x28, 0x00]).unwrap();

    assert_eq!(cpu.memory.read(0x01FF), 0x00);
    assert_eq!(cpu.status.bits(), flag.mask());
}

#[test]
fn test_0x28_plp_imlied_overflow_flag() {
    let flag = Flag::Overflow;
    let mut cpu = CPU::new();
    push_to_stack(&mut cpu, flag.mask());

    cpu.load_and_run_without_reset(vec![0x28, 0x00]).unwrap();

    assert_eq!(cpu.memory.read(0x01FF), 0x00);
    assert_eq!(cpu.status.bits(), flag.mask());
}

#[test]
fn test_0x28_plp_imlied_negative_flag() {
    let flag = Flag::Negative;
    let mut cpu = CPU::new();
    push_to_stack(&mut cpu, flag.mask());

    cpu.load_and_run_without_reset(vec![0x28, 0x00]).unwrap();

    assert_eq!(cpu.memory.read(0x01FF), 0x00);
    assert_eq!(cpu.status.bits(), flag.mask());
}

#[test]
fn test_0x28_plp_implied_pulls_multiple_flags_correcly() {
    let mut cpu = CPU::new();
    let expected_flags = Flags::empty()
        .with(Flag::Zero)
        .with(Flag::Carry)
        .with(Flag::Overflow)
        .with(Flag::InterruptDisable)
        .bits();
    push_to_stack(&mut cpu, expected_flags);

    cpu.load_and_run_without_reset(vec![0x28, 0x00]).unwrap();

    assert_eq!(cpu.memory.read(0x01FF), 0x00);
    assert_eq!(cpu.status.bits(), expected_flags);
}
