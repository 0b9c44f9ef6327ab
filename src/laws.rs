//! Laws of the instruction semantics, stated over the model that the
//! engine's contracts use and proved from it.
use vstd::prelude::*;

use crate::cpu::{adc_sum, stack_addr, CpuState};
use crate::flags::{lemma_with_bits, with_bits, CARRY, NEGATIVE, OVERFLOW, ZERO};
use crate::operation::Operation;

verus! {

/// Two's-complement reading of a byte.
pub open spec fn signed(v: u8) -> int {
    if v < 128 {
        v as int
    } else {
        v - 256
    }
}

/// Flags of a state whose status went through `with_flag(mask, on)` and then
/// the Zero and Negative update for `v`.
proof fn lemma_flag_then_nz(s: CpuState, mask: u8, on: bool, v: u8)
    requires
        mask == CARRY || mask == OVERFLOW,
    ensures
        s.with_flag(mask, on).with_nz(v).flag(mask) == on,
        s.with_flag(mask, on).with_nz(v).flag(ZERO) == (v == 0),
        s.with_flag(mask, on).with_nz(v).flag(NEGATIVE) == (v >= 128),
        s.with_flag(mask, on).with_nz(v).flag(CARRY) == if mask == CARRY {
            on
        } else {
            s.flag(CARRY)
        },
{
    let s1 = s.with_flag(mask, on);
    let s2 = s1.with_flag(ZERO, v == 0);
    let s3 = s2.with_flag(NEGATIVE, v & 0x80 != 0);
    lemma_with_bits(s.status, mask, on, mask);
    lemma_with_bits(s.status, mask, on, CARRY);
    lemma_with_bits(s1.status, ZERO, v == 0, mask);
    lemma_with_bits(s1.status, ZERO, v == 0, ZERO);
    lemma_with_bits(s1.status, ZERO, v == 0, CARRY);
    lemma_with_bits(s2.status, NEGATIVE, v & 0x80 != 0, mask);
    lemma_with_bits(s2.status, NEGATIVE, v & 0x80 != 0, ZERO);
    lemma_with_bits(s2.status, NEGATIVE, v & 0x80 != 0, NEGATIVE);
    lemma_with_bits(s2.status, NEGATIVE, v & 0x80 != 0, CARRY);
    assert((v & 0x80 != 0) == (v >= 128)) by (bit_vector);
}

/// Add with carry: the result is the sum modulo 256; Carry is set exactly
/// when the unsigned sum exceeds 255, Overflow exactly when the signed sum
/// leaves [-128, 127], Zero exactly when the result is 0, and Negative
/// exactly when bit 7 of the result is set.
pub proof fn adc_law(s: CpuState, op: Operation)
    requires
        op.mnemonic_name is ADC,
        op.wf(),
    ensures
        ({
            let m = s.operand(op.addressing_mode);
            let c: int = if s.flag(CARRY) {
                1
            } else {
                0
            };
            let t = s.execute(op);
            &&& t.a == (s.a + m + c) % 256
            &&& t.flag(CARRY) <==> s.a + m + c > 255
            &&& t.flag(OVERFLOW) <==> !(-128 <= signed(s.a) + signed(m) + c <= 127)
            &&& t.flag(ZERO) <==> t.a == 0
            &&& t.flag(NEGATIVE) <==> t.a >= 128
        }),
{
    let mode = op.addressing_mode;
    let a = s.a;
    let m = s.operand(mode);
    let carry = s.flag(CARRY);
    let c: int = if carry {
        1
    } else {
        0
    };
    let sum = adc_sum(a, m, carry);
    assert(sum == (a + m + c) % 256);
    let s1 = s.fetched(mode).with_flag(CARRY, a + m + c > 255);
    let ov = (a ^ sum) & (m ^ sum) & 0x80 != 0;
    lemma_flag_then_nz(CpuState { a: sum, ..s1 }, OVERFLOW, ov, sum);
    lemma_with_bits(s1.status, OVERFLOW, ov, CARRY);
    lemma_with_bits(s.fetched(mode).status, CARRY, a + m + c > 255, CARRY);
    assert(((a ^ sum) & (m ^ sum) & 0x80 != 0) == ((a >= 128) == (m >= 128) && (sum >= 128) != (a
        >= 128))) by (bit_vector);
}

/// Compare: Carry is set exactly when the register is at least the operand
/// (unsigned), Zero exactly when they are equal, and Negative exactly when
/// bit 7 of their difference modulo 256 is set.
pub proof fn cmp_law(s: CpuState, op: Operation)
    requires
        op.mnemonic_name is CMP,
        op.wf(),
    ensures
        ({
            let m = s.operand(op.addressing_mode);
            let t = s.execute(op);
            &&& t.flag(CARRY) <==> s.a >= m
            &&& t.flag(ZERO) <==> s.a == m
            &&& t.flag(NEGATIVE) <==> (s.a - m) % 256 >= 128
            &&& t.a == s.a
        }),
{
    let mode = op.addressing_mode;
    let m = s.operand(mode);
    let d = s.a.wrapping_sub(m);
    assert(d == (s.a - m) % 256);
    lemma_flag_then_nz(s.fetched(mode), CARRY, s.a >= m, d);
}

/// Pushing the accumulator and pulling it back restores the accumulator and
/// the stack pointer, and leaves the vacated stack slot holding 0.
pub proof fn push_pull_accumulator_law(s: CpuState, pha: Operation, pla: Operation)
    requires
        s.wf(),
        pha.mnemonic_name is PHA,
        pla.mnemonic_name is PLA,
    ensures
        ({
            let t = s.execute(pha).execute(pla);
            &&& t.a == s.a
            &&& t.sp == s.sp
            &&& t.mem.byte(stack_addr(s.sp)) == 0
        }),
{
}

/// Pushing the status byte and pulling it back restores every bit of it,
/// the break bit and the always-set bit included, and the stack pointer.
pub proof fn push_pull_status_law(s: CpuState, php: Operation, plp: Operation)
    requires
        s.wf(),
        php.mnemonic_name is PHP,
        plp.mnemonic_name is PLP,
    ensures
        ({
            let t = s.execute(php).execute(plp);
            &&& t.status == s.status
            &&& t.sp == s.sp
        }),
{
}

/// Clearing Carry leaves it clear, and doing it again changes nothing.
pub proof fn clear_carry_law(s: CpuState, clc: Operation)
    requires
        clc.mnemonic_name is CLC,
    ensures
        !s.execute(clc).flag(CARRY),
        s.execute(clc).execute(clc) == s.execute(clc),
{
    lemma_with_bits(s.status, CARRY, false, CARRY);
    let p = s.status;
    assert(with_bits(with_bits(p, CARRY, false), CARRY, false) == with_bits(p, CARRY, false))
        by (bit_vector);
}

} // verus!
