//! Status-register flags, the immediate shifter and the arithmetic-logic unit.

use vstd::prelude::*;
use crate::util::spec_bit;

verus! {

/// Bit position of the negative flag.
pub const FLAG_N: u32 = 31;

/// Bit position of the zero flag.
pub const FLAG_Z: u32 = 30;

/// Bit position of the carry flag.
pub const FLAG_C: u32 = 29;

/// Bit position of the signed-overflow flag.
pub const FLAG_V: u32 = 28;

/// Bit position of the Thumb-state flag.
pub const FLAG_T: u32 = 5;

/// A program status word. The condition flags live in the top four bits.
#[derive(Copy, Clone, Eq, PartialEq, Debug, Structural)]
pub struct Cpsr(pub u32);

impl Cpsr {
    /// Whether bit `bit` of the status word is set.
    pub open spec fn flag(self, bit: u32) -> bool {
        self.0 & (1u32 << bit) != 0
    }

    /// The status word with bit `bit` forced to `c` and every other bit kept.
    pub open spec fn with_flag(self, bit: u32, c: bool) -> Cpsr {
        if c {
            Cpsr(self.0 | (1u32 << bit))
        } else {
            Cpsr(self.0 & !(1u32 << bit))
        }
    }

    /// The status word with the four condition flags replaced.
    pub open spec fn with_nzcv(self, n: bool, z: bool, c: bool, v: bool) -> Cpsr {
        self.with_flag(FLAG_C, c).with_flag(FLAG_V, v).with_flag(FLAG_N, n).with_flag(FLAG_Z, z)
    }

    fn get(&self, bit: u32) -> (r: bool)
        requires
            bit < 32,
        ensures
            r == self.flag(bit),
    {
        self.0 & (1u32 << bit) != 0
    }

    fn set(&mut self, bit: u32, c: bool)
        requires
            bit < 32,
        ensures
            *final(self) == old(self).with_flag(bit, c),
    {
        if c {
            self.0 = self.0 | (1u32 << bit);
        } else {
            self.0 = self.0 & !(1u32 << bit);
        }
    }

    pub fn negative(&self) -> (r: bool)
        ensures
            r == self.flag(FLAG_N),
    {
        self.get(FLAG_N)
    }

    pub fn set_negative(&mut self, c: bool)
        ensures
            *final(self) == old(self).with_flag(FLAG_N, c),
    {
        self.set(FLAG_N, c)
    }

    pub fn zero(&self) -> (r: bool)
        ensures
            r == self.flag(FLAG_Z),
    {
        self.get(FLAG_Z)
    }

    pub fn set_zero(&mut self, c: bool)
        ensures
            *final(self) == old(self).with_flag(FLAG_Z, c),
    {
        self.set(FLAG_Z, c)
    }

    pub fn carry(&self) -> (r: bool)
        ensures
            r == self.flag(FLAG_C),
    {
        self.get(FLAG_C)
    }

    pub fn set_carry(&mut self, c: bool)
        ensures
            *final(self) == old(self).with_flag(FLAG_C, c),
    {
        self.set(FLAG_C, c)
    }

    pub fn overflow(&self) -> (r: bool)
        ensures
            r == self.flag(FLAG_V),
    {
        self.get(FLAG_V)
    }

    pub fn set_overflow(&mut self, c: bool)
        ensures
            *final(self) == old(self).with_flag(FLAG_V, c),
    {
        self.set(FLAG_V, c)
    }

    pub fn thumb(&self) -> (r: bool)
        ensures
            r == self.flag(FLAG_T),
    {
        self.get(FLAG_T)
    }

    pub fn set_thumb(&mut self, c: bool)
        ensures
            *final(self) == old(self).with_flag(FLAG_T, c),
    {
        self.set(FLAG_T, c)
    }
}

proof fn lemma_flag_bits(w: u32, a: u32, b: u32)
    by (bit_vector)
    requires
        a < 32,
        b < 32,
    ensures
        (w | (1u32 << a)) & (1u32 << a) != 0,
        (w & !(1u32 << a)) & (1u32 << a) == 0,
        a != b ==> (w | (1u32 << a)) & (1u32 << b) == w & (1u32 << b),
        a != b ==> (w & !(1u32 << a)) & (1u32 << b) == w & (1u32 << b),
{
}

/// Writing a flag makes it read back as written and leaves every other
/// flag as it was.
pub proof fn lemma_with_flag(cpsr: Cpsr, bit: u32, c: bool, other: u32)
    requires
        bit < 32,
        other < 32,
    ensures
        cpsr.with_flag(bit, c).flag(bit) == c,
        other != bit ==> cpsr.with_flag(bit, c).flag(other) == cpsr.flag(other),
{
    lemma_flag_bits(cpsr.0, bit, other);
}

/// After all four condition flags are written, each reads back as written.
pub proof fn lemma_with_nzcv(cpsr: Cpsr, n: bool, z: bool, c: bool, v: bool)
    ensures
        cpsr.with_nzcv(n, z, c, v).flag(FLAG_N) == n,
        cpsr.with_nzcv(n, z, c, v).flag(FLAG_Z) == z,
        cpsr.with_nzcv(n, z, c, v).flag(FLAG_C) == c,
        cpsr.with_nzcv(n, z, c, v).flag(FLAG_V) == v,
{
    let s1 = cpsr.with_flag(FLAG_C, c);
    let s2 = s1.with_flag(FLAG_V, v);
    let s3 = s2.with_flag(FLAG_N, n);
    lemma_with_flag(cpsr, FLAG_C, c, FLAG_C);
    lemma_with_flag(s1, FLAG_V, v, FLAG_C);
    lemma_with_flag(s2, FLAG_N, n, FLAG_C);
    lemma_with_flag(s2, FLAG_N, n, FLAG_V);
    lemma_with_flag(s3, FLAG_Z, z, FLAG_C);
    lemma_with_flag(s3, FLAG_Z, z, FLAG_V);
    lemma_with_flag(s3, FLAG_Z, z, FLAG_N);
}

/// `x` rotated right by `n` bit positions, `n` taken modulo 32.
pub open spec fn spec_rotate_right(x: u32, n: u32) -> u32 {
    if n % 32 == 0 {
        x
    } else {
        (x >> (n % 32)) | (x << ((32 - n % 32) as u32))
    }
}

/// Rotates `x` right by `n` bit positions, `n` taken modulo 32.
pub fn rotate_right(x: u32, n: u32) -> (r: u32)
    ensures
        r == spec_rotate_right(x, n),
{
    let k: u32 = n % 32;
    if k == 0 {
        x
    } else {
        (x >> k) | (x << (32 - k))
    }
}

/// Value and shifter carry-out of an 8-bit immediate rotated right by twice
/// `rotate`. A rotation field of zero passes the incoming carry through.
pub open spec fn spec_decode_immediate(imm: u8, rotate: u8, carry_in: bool) -> (u32, bool) {
    let value = spec_rotate_right(imm as u32, (rotate as u32 * 2) as u32);
    (value, if rotate == 0 { carry_in } else { spec_bit(value, 31) })
}

/// Expands the immediate operand of a data-processing instruction.
pub fn decode_immediate(imm: u8, rotate: u8, carry_in: bool) -> (r: (u32, bool))
    ensures
        r == spec_decode_immediate(imm, rotate, carry_in),
{
    let result: u32 = rotate_right(imm as u32, rotate as u32 * 2);
    let carry_out = if rotate == 0 {
        carry_in
    } else {
        (result >> 31) & 1 == 1
    };
    (result, carry_out)
}

/// Signed overflow of the addition `x + y` whose 32-bit result is `r`: the
/// sign of the result differs from the sign of both operands.
pub open spec fn spec_add_has_signed_overflow(x: u32, y: u32, r: u32) -> bool {
    ((x ^ r) & (y ^ r)) & 0x8000_0000u32 != 0
}

pub fn add_has_signed_overflow(x: u32, y: u32, r: u32) -> (v: bool)
    ensures
        v == spec_add_has_signed_overflow(x, y, r),
{
    ((x ^ r) & (y ^ r)) & 0x8000_0000u32 != 0
}

/// The unbounded sum `op1 + op2 + carry_in`.
pub open spec fn carry_sum(op1: u32, op2: u32, carry_in: bool) -> int {
    op1 + op2 + if carry_in { 1int } else { 0int }
}

/// Result, carry-out and signed overflow of `op1 + op2 + carry_in`.
pub open spec fn spec_add_with_carry(op1: u32, op2: u32, carry_in: bool) -> (u32, bool, bool) {
    let sum = carry_sum(op1, op2, carry_in);
    let result = (sum % 0x1_0000_0000) as u32;
    (result, sum >= 0x1_0000_0000, spec_add_has_signed_overflow(op1, op2, result))
}

/// The value of `x` read as a two's complement number.
pub open spec fn signed(x: u32) -> int {
    if x >= 0x8000_0000 {
        x - 0x1_0000_0000
    } else {
        x as int
    }
}

proof fn lemma_overflow_bits(x: u32, y: u32, r: u32)
    by (bit_vector)
    ensures
        spec_add_has_signed_overflow(x, y, r) <==> ((x >= 0x8000_0000u32) == (y >= 0x8000_0000u32) && (r
            >= 0x8000_0000u32) != (x >= 0x8000_0000u32)),
{
}

/// The overflow that `add_with_carry` reports is the overflow of signed
/// arithmetic: the sum of the operands, read as two's complement numbers,
/// and the carry does not fit 32 bits.
pub proof fn lemma_signed_overflow(op1: u32, op2: u32, carry_in: bool)
    ensures
        ({
            let sum = signed(op1) + signed(op2) + if carry_in {
                1int
            } else {
                0int
            };
            spec_add_with_carry(op1, op2, carry_in).2 <==> !(-0x8000_0000 <= sum < 0x8000_0000)
        }),
{
    lemma_overflow_bits(op1, op2, spec_add_with_carry(op1, op2, carry_in).0);
}

proof fn lemma_low_word(sum: u64)
    by (bit_vector)
    ensures
        sum & 0xFFFF_FFFFu64 == sum % 0x1_0000_0000u64,
{
}

pub fn add_with_carry(op1: u32, op2: u32, carry_in: bool) -> (r: (u32, bool, bool))
    ensures
        r == spec_add_with_carry(op1, op2, carry_in),
{
    let c: u64 = if carry_in { 1 } else { 0 };
    let sum: u64 = op1 as u64 + op2 as u64 + c;
    proof {
        lemma_low_word(sum);
    }
    let result: u32 = (sum & 0xFFFF_FFFF) as u32;
    let carry = sum > 0xFFFF_FFFF;
    (result, carry, add_has_signed_overflow(op1, op2, result))
}

/// Result, carry-out (set iff no borrow) and signed overflow of `a - b`.
pub open spec fn spec_subtract(a: u32, b: u32) -> (u32, bool, bool) {
    let result = a.wrapping_sub(b);
    (result, a >= b, spec_add_has_signed_overflow(a, !b, result))
}

/// Whether `opcode` names one of the four arithmetic groups that compute
/// their own carry and overflow.
pub open spec fn is_arithmetic(opcode: u8) -> bool {
    2 <= opcode <= 7 || opcode == 10 || opcode == 11
}

/// Whether `opcode` only compares: it sets flags and leaves the destination
/// register alone (TST, TEQ, CMP, CMN).
pub open spec fn is_compare(opcode: u8) -> bool {
    8 <= opcode <= 11
}

/// Result, carry and overflow of the arithmetic opcodes.
pub open spec fn alu_arithmetic(opcode: u8, op1: u32, op2: u32, carry_in: bool) -> (u32, bool, bool) {
    if opcode == 2 || opcode == 10 {
        spec_subtract(op1, op2)
    } else if opcode == 3 {
        spec_subtract(op2, op1)
    } else if opcode == 4 || opcode == 11 {
        spec_add_with_carry(op1, op2, false)
    } else if opcode == 5 {
        spec_add_with_carry(op1, op2, carry_in)
    } else if opcode == 6 {
        spec_add_with_carry(op1, !op2, carry_in)
    } else {
        spec_add_with_carry(op2, !op1, carry_in)
    }
}

/// The 32-bit result of data-processing opcode `opcode`.
pub open spec fn alu_result(opcode: u8, op1: u32, op2: u32, carry_in: bool) -> u32 {
    if is_arithmetic(opcode) {
        alu_arithmetic(opcode, op1, op2, carry_in).0
    } else if opcode == 0 || opcode == 8 {
        op1 & op2
    } else if opcode == 1 || opcode == 9 {
        op1 ^ op2
    } else if opcode == 12 {
        op1 | op2
    } else if opcode == 13 {
        op2
    } else if opcode == 14 {
        op1 & !op2
    } else {
        !op2
    }
}

/// The status word after opcode `opcode`. Logical opcodes take the carry
/// from the shifter and keep V; arithmetic opcodes compute both. N and Z
/// always follow the result.
pub open spec fn alu_flags(opcode: u8, op1: u32, op2: u32, shifter_carry: bool, cpsr: Cpsr) -> Cpsr {
    let carry_in = cpsr.flag(FLAG_C);
    let result = alu_result(opcode, op1, op2, carry_in);
    let arith = alu_arithmetic(opcode, op1, op2, carry_in);
    let cv = if is_arithmetic(opcode) {
        cpsr.with_flag(FLAG_C, arith.1).with_flag(FLAG_V, arith.2)
    } else {
        cpsr.with_flag(FLAG_C, shifter_carry)
    };
    cv.with_flag(FLAG_N, spec_bit(result, 31)).with_flag(FLAG_Z, result == 0)
}

fn subtract(a: u32, b: u32) -> (r: (u32, bool, bool))
    ensures
        r == spec_subtract(a, b),
{
    let x: u32 = a.wrapping_sub(b);
    (x, a >= b, add_has_signed_overflow(a, !b, x))
}

/// Runs one data-processing opcode on `op1` and the shifter output `op2`.
/// Returns the result and the updated status word.
pub fn alu_operation(opcode: u8, op1: u32, op2: u32, shifter_carry: bool, cpsr: Cpsr) -> (r: (u32, Cpsr))
    requires
        opcode < 16,
    ensures
        r.0 == alu_result(opcode, op1, op2, cpsr.flag(FLAG_C)),
        r.1 == alu_flags(opcode, op1, op2, shifter_carry, cpsr),
{
    let mut cpsr = cpsr;
    let carry_in = cpsr.carry();
    let result: u32 = match opcode {
        // AND, TST
        0 | 8 => {
            cpsr.set_carry(shifter_carry);
            op1 & op2
        },
        // EOR, TEQ
        1 | 9 => {
            cpsr.set_carry(shifter_carry);
            op1 ^ op2
        },
        // SUB, CMP
        2 | 10 => {
            let (x, c, v) = subtract(op1, op2);
            cpsr.set_carry(c);
            cpsr.set_overflow(v);
            x
        },
        // RSB
        3 => {
            let (x, c, v) = subtract(op2, op1);
            cpsr.set_carry(c);
            cpsr.set_overflow(v);
            x
        },
        // ADD, CMN
        4 | 11 => {
            let (x, c, v) = add_with_carry(op1, op2, false);
            cpsr.set_carry(c);
            cpsr.set_overflow(v);
            x
        },
        // ADC
        5 => {
            let (x, c, v) = add_with_carry(op1, op2, carry_in);
            cpsr.set_carry(c);
            cpsr.set_overflow(v);
            x
        },
        // SBC
        6 => {
            let (x, c, v) = add_with_carry(op1, !op2, carry_in);
            cpsr.set_carry(c);
            cpsr.set_overflow(v);
            x
        },
        // RSC
        7 => {
            let (x, c, v) = add_with_carry(op2, !op1, carry_in);
            cpsr.set_carry(c);
            cpsr.set_overflow(v);
            x
        },
        // ORR
        12 => {
            cpsr.set_carry(shifter_carry);
            op1 | op2
        },
        // MOV
        13 => {
            cpsr.set_carry(shifter_carry);
            op2
        },
        // BIC
        14 => {
            cpsr.set_carry(shifter_carry);
            op1 & !op2
        },
        // MVN
        _ => {
            cpsr.set_carry(shifter_carry);
            !op2
        },
    };
    cpsr.set_negative((result >> 31) & 1 == 1);
    cpsr.set_zero(result == 0);
    (result, cpsr)
}

proof fn lemma_complement(b: u32)
    by (bit_vector)
    ensures
        !b == 0xFFFF_FFFFu32 - b,
{
}

/// Subtraction is addition of the complement with carry-in one: `SUB` gives
/// the result, carry and overflow of `ADD(op1, !op2, 1)`.
pub proof fn lemma_sub_is_add_of_complement(op1: u32, op2: u32)
    ensures
        spec_subtract(op1, op2) == spec_add_with_carry(op1, !op2, true),
        forall|carry_in: bool| #[trigger]
            alu_arithmetic(2, op1, op2, carry_in) == spec_add_with_carry(op1, !op2, true),
{
    lemma_complement(op2);
}

/// Reverse subtraction is subtraction with the operands exchanged.
pub proof fn lemma_rsb_is_swapped_sub(a: u32, b: u32, carry_in: bool, shifter_carry: bool, cpsr: Cpsr)
    ensures
        alu_result(3, a, b, carry_in) == alu_result(2, b, a, carry_in),
        alu_flags(3, a, b, shifter_carry, cpsr) == alu_flags(2, b, a, shifter_carry, cpsr),
{
}

} // verus!
