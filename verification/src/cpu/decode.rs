//! Bit-pattern decoder for 32-bit ARM instruction words.
//!
//! An instruction class is written as a template of 32 characters, most
//! significant bit first: `0` and `1` must match the bit, any other letter
//! matches either value and names the field the bit belongs to. `_` is a
//! separator and stands for no bit. Classes are tried in a fixed order and
//! the first match wins.

use vstd::prelude::*;
use vstd::string::StringSliceAdditionalSpecFns;
use crate::util::{bit, bits, spec_bit, spec_bits};

verus! {

/// Types that can be decoded from one instruction word.
pub trait DecodeInstruction: Sized {
    fn decode_arm_instruction(instr: u32) -> Self;
}

/// A decoded instruction; each class carries the fields needed to run it.
#[allow(inconsistent_fields)]
#[derive(Debug, Clone, Copy, Eq, PartialEq, Structural)]
pub enum DecodedArmInstruction {
    DataProcessingImmediate {
        cond: u8,
        opcode: u8,
        s: bool,
        rn: u8,
        rd: u8,
        rotate: u8,
        imm: u8,
    },
    LoadStoreImmOffset {
        cond: u8,
        indexing_p: bool,
        imm_add: bool,
        byte: bool,
        indexing_w: bool,
        load: bool,
        rn: u8,
        rd: u8,
        imm: u16,
    },
    LoadStoreHalfImmOffset {
        cond: u8,
        indexing_p: bool,
        imm_add: bool,
        indexing_w: bool,
        load: bool,
        rn: u8,
        rd: u8,
        // 4 bits each
        imm_high: u8,
        imm_low: u8,
    },
    LoadStoreMultiple {
        cond: u8,
        indexing_p: bool,
        upwards: bool,
        use_banked_or_spsr: bool,
        indexing_w: bool,
        load: bool,
        rn: u8,
        regs: u16,
    },
    BranchImm {
        cond: u8,
        link: bool,
        offset: u32,
    },
    BranchAndExchangeReg {
        cond: u8,
        rm: u8,
    },
    MoveToStatusReg {
        cond: u8,
        /// Operate on the saved status register instead of the current one.
        saved: bool,
        field_mask: u8,
        rm: u8,
    },
    UndefinedInstruction,
    UnknownInstruction,
}

/// Template character that demands a clear bit.
pub const ZERO: u8 = 0x30;

/// Template character that demands a set bit.
pub const ONE: u8 = 0x31;

/// Template character that stands for no bit at all.
pub const SEPARATOR: u8 = 0x5f;

/// Branch and exchange to the address in a register.
pub const BX_TEMPLATE: &'static str = "cccc0001_00101111_11111111_0001mmmm";

/// Move a register to a status register.
pub const MSR_TEMPLATE: &'static str = "cccc0001_0R10ffff_11110000_0000mmmm";

/// Halfword load or store with a split 8-bit immediate offset.
pub const HALFWORD_TRANSFER_TEMPLATE: &'static str = "cccc000P_U1WLnnnn_ddddhhhh_1011llll";

/// Data processing with a rotated 8-bit immediate operand.
pub const DATA_PROCESSING_TEMPLATE: &'static str = "cccc001o_oooSnnnn_ddddrrrr_iiiiiiii";

/// Word or byte load or store with a 12-bit immediate offset.
pub const SINGLE_TRANSFER_TEMPLATE: &'static str = "cccc010P_UBWLnnnn_ddddiiii_iiiiiiii";

/// Load or store of a register list.
pub const BLOCK_TRANSFER_TEMPLATE: &'static str = "cccc100P_USWLnnnn_rrrrrrrr_rrrrrrrr";

/// Branch, with or without link, by a 24-bit word offset.
pub const BRANCH_TEMPLATE: &'static str = "cccc101L_iiiiiiii_iiiiiiii_iiiiiiii";

/// Whether the first `n` characters of `format`, read from the right, accept
/// `instr` when the rightmost of them that stands for a bit stands for bit `k`.
pub open spec fn template_matches_from(instr: u32, format: Seq<u8>, n: nat, k: nat) -> bool
    decreases n,
{
    if n == 0 {
        true
    } else {
        let c = format[n - 1];
        if c == SEPARATOR {
            template_matches_from(instr, format, (n - 1) as nat, k)
        } else if c == ZERO && spec_bit(instr, k as u32) {
            false
        } else if c == ONE && !spec_bit(instr, k as u32) {
            false
        } else {
            template_matches_from(instr, format, (n - 1) as nat, k + 1)
        }
    }
}

/// Whether `instr` fits the template `format`: the rightmost character that
/// is no separator stands for bit 0, the next one for bit 1, and so on.
pub open spec fn template_matches(instr: u32, format: Seq<u8>) -> bool {
    template_matches_from(instr, format, format.len(), 0)
}

proof fn lemma_shift_once_more(x: u32, k: u32)
    by (bit_vector)
    requires
        k < 64,
    ensures
        (x >> k) >> 1u32 == x >> ((k + 1) as u32),
        x >> 0u32 == x,
{
}

/// Tests `instr` against a template of 32 bit characters and 3 separators.
pub fn test(instr: u32, format: &[u8]) -> (r: bool)
    requires
        format@.len() == 35,
    ensures
        r == template_matches(instr, format@),
{
    let mut word: u32 = instr;
    let mut n: usize = format.len();
    let ghost mut k: nat = 0;
    proof {
        lemma_shift_once_more(instr, 0);
    }
    while n > 0
        invariant
            format@.len() == 35,
            n <= 35,
            k + n <= 35,
            word == instr >> (k as u32),
            template_matches(instr, format@) == template_matches_from(instr, format@, n as nat, k),
        decreases n,
    {
        n = n - 1;
        let c: u8 = format[n];
        let set = (word & 1) == 1;
        if c == ZERO && set {
            return false;
        }
        if c == ONE && !set {
            return false;
        }
        if c != SEPARATOR {
            proof {
                lemma_shift_once_more(instr, k as u32);
                k = k + 1;
            }
            word = word >> 1;
        }
    }
    true
}

/// Whether the fixed bits of `w` are those of the branch and exchange class.
pub open spec fn is_bx(w: u32) -> bool {
    w & 0x0FFFFFF0u32 == 0x012FFF10u32
}

/// Whether the fixed bits of `w` are those of the move to status register class.
pub open spec fn is_msr(w: u32) -> bool {
    w & 0x0FB0FFF0u32 == 0x0120F000u32
}

/// Whether the fixed bits of `w` are those of the halfword transfer class.
pub open spec fn is_halfword_transfer(w: u32) -> bool {
    w & 0x0E4000F0u32 == 0x004000B0u32
}

/// Whether the fixed bits of `w` are those of the data processing with immediate class.
pub open spec fn is_data_processing(w: u32) -> bool {
    w & 0x0E000000u32 == 0x02000000u32
}

/// Whether the fixed bits of `w` are those of the single transfer class.
pub open spec fn is_single_transfer(w: u32) -> bool {
    w & 0x0E000000u32 == 0x04000000u32
}

/// Whether the fixed bits of `w` are those of the block transfer class.
pub open spec fn is_block_transfer(w: u32) -> bool {
    w & 0x0E000000u32 == 0x08000000u32
}

/// Whether the fixed bits of `w` are those of the branch class.
pub open spec fn is_branch(w: u32) -> bool {
    w & 0x0E000000u32 == 0x0A000000u32
}

proof fn lemma_class_bits(w: u32)
    by (bit_vector)
    ensures
        is_bx(w) <==> (spec_bit(w, 4) && !spec_bit(w, 5) && !spec_bit(w, 6) && !spec_bit(w, 7) && spec_bit(w, 8) && spec_bit(w, 9) && spec_bit(w, 10) && spec_bit(w, 11) && spec_bit(w, 12) && spec_bit(w, 13) && spec_bit(w, 14) && spec_bit(w, 15) && spec_bit(w, 16) && spec_bit(w, 17) && spec_bit(w, 18) && spec_bit(w, 19) && !spec_bit(w, 20) && spec_bit(w, 21) && !spec_bit(w, 22) && !spec_bit(w, 23) && spec_bit(w, 24) && !spec_bit(w, 25) && !spec_bit(w, 26) && !spec_bit(w, 27)),
        is_msr(w) <==> (!spec_bit(w, 4) && !spec_bit(w, 5) && !spec_bit(w, 6) && !spec_bit(w, 7) && !spec_bit(w, 8) && !spec_bit(w, 9) && !spec_bit(w, 10) && !spec_bit(w, 11) && spec_bit(w, 12) && spec_bit(w, 13) && spec_bit(w, 14) && spec_bit(w, 15) && !spec_bit(w, 20) && spec_bit(w, 21) && !spec_bit(w, 23) && spec_bit(w, 24) && !spec_bit(w, 25) && !spec_bit(w, 26) && !spec_bit(w, 27)),
        is_halfword_transfer(w) <==> (spec_bit(w, 4) && spec_bit(w, 5) && !spec_bit(w, 6) && spec_bit(w, 7) && spec_bit(w, 22) && !spec_bit(w, 25) && !spec_bit(w, 26) && !spec_bit(w, 27)),
        is_data_processing(w) <==> (spec_bit(w, 25) && !spec_bit(w, 26) && !spec_bit(w, 27)),
        is_single_transfer(w) <==> (!spec_bit(w, 25) && spec_bit(w, 26) && !spec_bit(w, 27)),
        is_block_transfer(w) <==> (!spec_bit(w, 25) && !spec_bit(w, 26) && spec_bit(w, 27)),
        is_branch(w) <==> (spec_bit(w, 25) && !spec_bit(w, 26) && spec_bit(w, 27)),
{
}

proof fn lemma_bx_template(w: u32)
    ensures
        template_matches(w, BX_TEMPLATE.spec_bytes()) <==> is_bx(w),
        BX_TEMPLATE@.len() == 35,
        BX_TEMPLATE.is_ascii(),
{
    broadcast use vstd::string::group_string_axioms;
    reveal_strlit("cccc0001_00101111_11111111_0001mmmm");
    lemma_class_bits(w);
    assert(BX_TEMPLATE.is_ascii());
    let b = BX_TEMPLATE.spec_bytes();
    assert(template_matches_from(w, b, 35, 0) == ((spec_bit(w, 4) && !spec_bit(w, 5) && !spec_bit(w, 6) && !spec_bit(w, 7)) && template_matches_from(w, b, 26, 8))) by {
        reveal_with_fuel(template_matches_from, 10);
    }
    assert(template_matches_from(w, b, 26, 8) == ((spec_bit(w, 8) && spec_bit(w, 9) && spec_bit(w, 10) && spec_bit(w, 11) && spec_bit(w, 12) && spec_bit(w, 13) && spec_bit(w, 14) && spec_bit(w, 15)) && template_matches_from(w, b, 17, 16))) by {
        reveal_with_fuel(template_matches_from, 10);
    }
    assert(template_matches_from(w, b, 17, 16) == ((spec_bit(w, 16) && spec_bit(w, 17) && spec_bit(w, 18) && spec_bit(w, 19) && !spec_bit(w, 20) && spec_bit(w, 21) && !spec_bit(w, 22) && !spec_bit(w, 23)) && template_matches_from(w, b, 8, 24))) by {
        reveal_with_fuel(template_matches_from, 10);
    }
    assert(template_matches_from(w, b, 8, 24) == (spec_bit(w, 24) && !spec_bit(w, 25) && !spec_bit(w, 26) && !spec_bit(w, 27))) by {
        reveal_with_fuel(template_matches_from, 10);
    }
}

proof fn lemma_msr_template(w: u32)
    ensures
        template_matches(w, MSR_TEMPLATE.spec_bytes()) <==> is_msr(w),
        MSR_TEMPLATE@.len() == 35,
        MSR_TEMPLATE.is_ascii(),
{
    broadcast use vstd::string::group_string_axioms;
    reveal_strlit("cccc0001_0R10ffff_11110000_0000mmmm");
    lemma_class_bits(w);
    assert(MSR_TEMPLATE.is_ascii());
    let b = MSR_TEMPLATE.spec_bytes();
    assert(template_matches_from(w, b, 35, 0) == ((!spec_bit(w, 4) && !spec_bit(w, 5) && !spec_bit(w, 6) && !spec_bit(w, 7)) && template_matches_from(w, b, 26, 8))) by {
        reveal_with_fuel(template_matches_from, 10);
    }
    assert(template_matches_from(w, b, 26, 8) == ((!spec_bit(w, 8) && !spec_bit(w, 9) && !spec_bit(w, 10) && !spec_bit(w, 11) && spec_bit(w, 12) && spec_bit(w, 13) && spec_bit(w, 14) && spec_bit(w, 15)) && template_matches_from(w, b, 17, 16))) by {
        reveal_with_fuel(template_matches_from, 10);
    }
    assert(template_matches_from(w, b, 17, 16) == ((!spec_bit(w, 20) && spec_bit(w, 21) && !spec_bit(w, 23)) && template_matches_from(w, b, 8, 24))) by {
        reveal_with_fuel(template_matches_from, 10);
    }
    assert(template_matches_from(w, b, 8, 24) == (spec_bit(w, 24) && !spec_bit(w, 25) && !spec_bit(w, 26) && !spec_bit(w, 27))) by {
        reveal_with_fuel(template_matches_from, 10);
    }
}

proof fn lemma_halfword_transfer_template(w: u32)
    ensures
        template_matches(w, HALFWORD_TRANSFER_TEMPLATE.spec_bytes()) <==> is_halfword_transfer(w),
        HALFWORD_TRANSFER_TEMPLATE@.len() == 35,
        HALFWORD_TRANSFER_TEMPLATE.is_ascii(),
{
    broadcast use vstd::string::group_string_axioms;
    reveal_strlit("cccc000P_U1WLnnnn_ddddhhhh_1011llll");
    lemma_class_bits(w);
    assert(HALFWORD_TRANSFER_TEMPLATE.is_ascii());
    let b = HALFWORD_TRANSFER_TEMPLATE.spec_bytes();
    assert(template_matches_from(w, b, 35, 0) == ((spec_bit(w, 4) && spec_bit(w, 5) && !spec_bit(w, 6) && spec_bit(w, 7)) && template_matches_from(w, b, 26, 8))) by {
        reveal_with_fuel(template_matches_from, 10);
    }
    assert(template_matches_from(w, b, 26, 8) == ((true) && template_matches_from(w, b, 17, 16))) by {
        reveal_with_fuel(template_matches_from, 10);
    }
    assert(template_matches_from(w, b, 17, 16) == ((spec_bit(w, 22)) && template_matches_from(w, b, 8, 24))) by {
        reveal_with_fuel(template_matches_from, 10);
    }
    assert(template_matches_from(w, b, 8, 24) == (!spec_bit(w, 25) && !spec_bit(w, 26) && !spec_bit(w, 27))) by {
        reveal_with_fuel(template_matches_from, 10);
    }
}

proof fn lemma_data_processing_template(w: u32)
    ensures
        template_matches(w, DATA_PROCESSING_TEMPLATE.spec_bytes()) <==> is_data_processing(w),
        DATA_PROCESSING_TEMPLATE@.len() == 35,
        DATA_PROCESSING_TEMPLATE.is_ascii(),
{
    broadcast use vstd::string::group_string_axioms;
    reveal_strlit("cccc001o_oooSnnnn_ddddrrrr_iiiiiiii");
    lemma_class_bits(w);
    assert(DATA_PROCESSING_TEMPLATE.is_ascii());
    let b = DATA_PROCESSING_TEMPLATE.spec_bytes();
    assert(template_matches_from(w, b, 35, 0) == ((true) && template_matches_from(w, b, 26, 8))) by {
        reveal_with_fuel(template_matches_from, 10);
    }
    assert(template_matches_from(w, b, 26, 8) == ((true) && template_matches_from(w, b, 17, 16))) by {
        reveal_with_fuel(template_matches_from, 10);
    }
    assert(template_matches_from(w, b, 17, 16) == ((true) && template_matches_from(w, b, 8, 24))) by {
        reveal_with_fuel(template_matches_from, 10);
    }
    assert(template_matches_from(w, b, 8, 24) == (spec_bit(w, 25) && !spec_bit(w, 26) && !spec_bit(w, 27))) by {
        reveal_with_fuel(template_matches_from, 10);
    }
}

proof fn lemma_single_transfer_template(w: u32)
    ensures
        template_matches(w, SINGLE_TRANSFER_TEMPLATE.spec_bytes()) <==> is_single_transfer(w),
        SINGLE_TRANSFER_TEMPLATE@.len() == 35,
        SINGLE_TRANSFER_TEMPLATE.is_ascii(),
{
    broadcast use vstd::string::group_string_axioms;
    reveal_strlit("cccc010P_UBWLnnnn_ddddiiii_iiiiiiii");
    lemma_class_bits(w);
    assert(SINGLE_TRANSFER_TEMPLATE.is_ascii());
    let b = SINGLE_TRANSFER_TEMPLATE.spec_bytes();
    assert(template_matches_from(w, b, 35, 0) == ((true) && template_matches_from(w, b, 26, 8))) by {
        reveal_with_fuel(template_matches_from, 10);
    }
    assert(template_matches_from(w, b, 26, 8) == ((true) && template_matches_from(w, b, 17, 16))) by {
        reveal_with_fuel(template_matches_from, 10);
    }
    assert(template_matches_from(w, b, 17, 16) == ((true) && template_matches_from(w, b, 8, 24))) by {
        reveal_with_fuel(template_matches_from, 10);
    }
    assert(template_matches_from(w, b, 8, 24) == (!spec_bit(w, 25) && spec_bit(w, 26) && !spec_bit(w, 27))) by {
        reveal_with_fuel(template_matches_from, 10);
    }
}

proof fn lemma_block_transfer_template(w: u32)
    ensures
        template_matches(w, BLOCK_TRANSFER_TEMPLATE.spec_bytes()) <==> is_block_transfer(w),
        BLOCK_TRANSFER_TEMPLATE@.len() == 35,
        BLOCK_TRANSFER_TEMPLATE.is_ascii(),
{
    broadcast use vstd::string::group_string_axioms;
    reveal_strlit("cccc100P_USWLnnnn_rrrrrrrr_rrrrrrrr");
    lemma_class_bits(w);
    assert(BLOCK_TRANSFER_TEMPLATE.is_ascii());
    let b = BLOCK_TRANSFER_TEMPLATE.spec_bytes();
    assert(template_matches_from(w, b, 35, 0) == ((true) && template_matches_from(w, b, 26, 8))) by {
        reveal_with_fuel(template_matches_from, 10);
    }
    assert(template_matches_from(w, b, 26, 8) == ((true) && template_matches_from(w, b, 17, 16))) by {
        reveal_with_fuel(template_matches_from, 10);
    }
    assert(template_matches_from(w, b, 17, 16) == ((true) && template_matches_from(w, b, 8, 24))) by {
        reveal_with_fuel(template_matches_from, 10);
    }
    assert(template_matches_from(w, b, 8, 24) == (!spec_bit(w, 25) && !spec_bit(w, 26) && spec_bit(w, 27))) by {
        reveal_with_fuel(template_matches_from, 10);
    }
}

proof fn lemma_branch_template(w: u32)
    ensures
        template_matches(w, BRANCH_TEMPLATE.spec_bytes()) <==> is_branch(w),
        BRANCH_TEMPLATE@.len() == 35,
        BRANCH_TEMPLATE.is_ascii(),
{
    broadcast use vstd::string::group_string_axioms;
    reveal_strlit("cccc101L_iiiiiiii_iiiiiiii_iiiiiiii");
    lemma_class_bits(w);
    assert(BRANCH_TEMPLATE.is_ascii());
    let b = BRANCH_TEMPLATE.spec_bytes();
    assert(template_matches_from(w, b, 35, 0) == ((true) && template_matches_from(w, b, 26, 8))) by {
        reveal_with_fuel(template_matches_from, 10);
    }
    assert(template_matches_from(w, b, 26, 8) == ((true) && template_matches_from(w, b, 17, 16))) by {
        reveal_with_fuel(template_matches_from, 10);
    }
    assert(template_matches_from(w, b, 17, 16) == ((true) && template_matches_from(w, b, 8, 24))) by {
        reveal_with_fuel(template_matches_from, 10);
    }
    assert(template_matches_from(w, b, 8, 24) == (spec_bit(w, 25) && !spec_bit(w, 26) && spec_bit(w, 27))) by {
        reveal_with_fuel(template_matches_from, 10);
    }
}

/// Each template accepts exactly the words whose fixed bits have the
/// values the template spells out.
pub proof fn lemma_template_classes(w: u32)
    ensures
        template_matches(w, BX_TEMPLATE.spec_bytes()) <==> is_bx(w),
        template_matches(w, MSR_TEMPLATE.spec_bytes()) <==> is_msr(w),
        template_matches(w, HALFWORD_TRANSFER_TEMPLATE.spec_bytes()) <==> is_halfword_transfer(w),
        template_matches(w, DATA_PROCESSING_TEMPLATE.spec_bytes()) <==> is_data_processing(w),
        template_matches(w, SINGLE_TRANSFER_TEMPLATE.spec_bytes()) <==> is_single_transfer(w),
        template_matches(w, BLOCK_TRANSFER_TEMPLATE.spec_bytes()) <==> is_block_transfer(w),
        template_matches(w, BRANCH_TEMPLATE.spec_bytes()) <==> is_branch(w),
        BX_TEMPLATE@.len() == 35 && BX_TEMPLATE.is_ascii(),
        MSR_TEMPLATE@.len() == 35 && MSR_TEMPLATE.is_ascii(),
        HALFWORD_TRANSFER_TEMPLATE@.len() == 35 && HALFWORD_TRANSFER_TEMPLATE.is_ascii(),
        DATA_PROCESSING_TEMPLATE@.len() == 35 && DATA_PROCESSING_TEMPLATE.is_ascii(),
        SINGLE_TRANSFER_TEMPLATE@.len() == 35 && SINGLE_TRANSFER_TEMPLATE.is_ascii(),
        BLOCK_TRANSFER_TEMPLATE@.len() == 35 && BLOCK_TRANSFER_TEMPLATE.is_ascii(),
        BRANCH_TEMPLATE@.len() == 35 && BRANCH_TEMPLATE.is_ascii(),
{
    lemma_bx_template(w);
    lemma_msr_template(w);
    lemma_halfword_transfer_template(w);
    lemma_data_processing_template(w);
    lemma_single_transfer_template(w);
    lemma_block_transfer_template(w);
    lemma_branch_template(w);
}

/// Word meaning of a one-bit field.
pub open spec fn bit_word(b: bool) -> u32 {
    if b {
        1u32
    } else {
        0u32
    }
}

/// The instruction that `instr` encodes: the class of the first template it
/// fits, with the fields cut out of their bit ranges.
pub open spec fn spec_decode(instr: u32) -> DecodedArmInstruction {
    let cond = spec_bits(instr, 28, 31) as u8;
    if template_matches(instr, BX_TEMPLATE.spec_bytes()) {
        DecodedArmInstruction::BranchAndExchangeReg { cond, rm: spec_bits(instr, 0, 3) as u8 }
    } else if template_matches(instr, MSR_TEMPLATE.spec_bytes()) {
        DecodedArmInstruction::MoveToStatusReg {
            cond,
            saved: spec_bit(instr, 22),
            field_mask: spec_bits(instr, 16, 19) as u8,
            rm: spec_bits(instr, 0, 3) as u8,
        }
    } else if template_matches(instr, HALFWORD_TRANSFER_TEMPLATE.spec_bytes()) {
        DecodedArmInstruction::LoadStoreHalfImmOffset {
            cond,
            indexing_p: spec_bit(instr, 24),
            imm_add: spec_bit(instr, 23),
            indexing_w: spec_bit(instr, 21),
            load: spec_bit(instr, 20),
            rn: spec_bits(instr, 16, 19) as u8,
            rd: spec_bits(instr, 12, 15) as u8,
            imm_high: spec_bits(instr, 8, 11) as u8,
            imm_low: spec_bits(instr, 0, 3) as u8,
        }
    } else if template_matches(instr, DATA_PROCESSING_TEMPLATE.spec_bytes()) {
        DecodedArmInstruction::DataProcessingImmediate {
            cond,
            opcode: spec_bits(instr, 21, 24) as u8,
            s: spec_bit(instr, 20),
            rn: spec_bits(instr, 16, 19) as u8,
            rd: spec_bits(instr, 12, 15) as u8,
            rotate: spec_bits(instr, 8, 11) as u8,
            imm: spec_bits(instr, 0, 7) as u8,
        }
    } else if template_matches(instr, SINGLE_TRANSFER_TEMPLATE.spec_bytes()) {
        DecodedArmInstruction::LoadStoreImmOffset {
            cond,
            indexing_p: spec_bit(instr, 24),
            imm_add: spec_bit(instr, 23),
            byte: spec_bit(instr, 22),
            indexing_w: spec_bit(instr, 21),
            load: spec_bit(instr, 20),
            rn: spec_bits(instr, 16, 19) as u8,
            rd: spec_bits(instr, 12, 15) as u8,
            imm: spec_bits(instr, 0, 11) as u16,
        }
    } else if template_matches(instr, BLOCK_TRANSFER_TEMPLATE.spec_bytes()) {
        DecodedArmInstruction::LoadStoreMultiple {
            cond,
            indexing_p: spec_bit(instr, 24),
            upwards: spec_bit(instr, 23),
            use_banked_or_spsr: spec_bit(instr, 22),
            indexing_w: spec_bit(instr, 21),
            load: spec_bit(instr, 20),
            rn: spec_bits(instr, 16, 19) as u8,
            regs: spec_bits(instr, 0, 15) as u16,
        }
    } else if template_matches(instr, BRANCH_TEMPLATE.spec_bytes()) {
        DecodedArmInstruction::BranchImm {
            cond,
            link: spec_bit(instr, 24),
            offset: spec_bits(instr, 0, 23),
        }
    } else {
        DecodedArmInstruction::UnknownInstruction
    }
}

/// Every field cut out of a word fits the width of its bit range.
pub proof fn lemma_field_bounds(w: u32)
    by (bit_vector)
    ensures
        spec_bits(w, 28, 31) <= 15,
        spec_bits(w, 21, 24) <= 15,
        spec_bits(w, 16, 19) <= 15,
        spec_bits(w, 12, 15) <= 15,
        spec_bits(w, 8, 11) <= 15,
        spec_bits(w, 0, 3) <= 15,
        spec_bits(w, 0, 7) <= 0xFF,
        spec_bits(w, 0, 11) <= 0xFFF,
        spec_bits(w, 0, 15) <= 0xFFFF,
        spec_bits(w, 0, 23) <= 0xFF_FFFF,
{
}

impl DecodeInstruction for DecodedArmInstruction {
    fn decode_arm_instruction(instr: u32) -> (r: DecodedArmInstruction)
        ensures
            r == spec_decode(instr),
    {
        proof {
            lemma_field_bounds(instr);
            lemma_template_classes(instr);
        }
        let cond: u8 = bits(instr, 28, 31) as u8;

        if test(instr, template_bytes(BX_TEMPLATE)) {
            return DecodedArmInstruction::BranchAndExchangeReg {
                cond,
                rm: bits(instr, 0, 3) as u8,
            };
        }
        if test(instr, template_bytes(MSR_TEMPLATE)) {
            return DecodedArmInstruction::MoveToStatusReg {
                cond,
                saved: bit(instr, 22),
                field_mask: bits(instr, 16, 19) as u8,
                rm: bits(instr, 0, 3) as u8,
            };
        }
        if test(instr, template_bytes(HALFWORD_TRANSFER_TEMPLATE)) {
            return DecodedArmInstruction::LoadStoreHalfImmOffset {
                cond,
                indexing_p: bit(instr, 24),
                imm_add: bit(instr, 23),
                indexing_w: bit(instr, 21),
                load: bit(instr, 20),
                rn: bits(instr, 16, 19) as u8,
                rd: bits(instr, 12, 15) as u8,
                imm_high: bits(instr, 8, 11) as u8,
                imm_low: bits(instr, 0, 3) as u8,
            };
        }
        if test(instr, template_bytes(DATA_PROCESSING_TEMPLATE)) {
            return DecodedArmInstruction::DataProcessingImmediate {
                cond,
                opcode: bits(instr, 21, 24) as u8,
                s: bit(instr, 20),
                rn: bits(instr, 16, 19) as u8,
                rd: bits(instr, 12, 15) as u8,
                rotate: bits(instr, 8, 11) as u8,
                imm: bits(instr, 0, 7) as u8,
            };
        }
        if test(instr, template_bytes(SINGLE_TRANSFER_TEMPLATE)) {
            return DecodedArmInstruction::LoadStoreImmOffset {
                cond,
                indexing_p: bit(instr, 24),
                imm_add: bit(instr, 23),
                byte: bit(instr, 22),
                indexing_w: bit(instr, 21),
                load: bit(instr, 20),
                rn: bits(instr, 16, 19) as u8,
                rd: bits(instr, 12, 15) as u8,
                imm: bits(instr, 0, 11) as u16,
            };
        }
        if test(instr, template_bytes(BLOCK_TRANSFER_TEMPLATE)) {
            return DecodedArmInstruction::LoadStoreMultiple {
                cond,
                indexing_p: bit(instr, 24),
                upwards: bit(instr, 23),
                use_banked_or_spsr: bit(instr, 22),
                indexing_w: bit(instr, 21),
                load: bit(instr, 20),
                rn: bits(instr, 16, 19) as u8,
                regs: bits(instr, 0, 15) as u16,
            };
        }
        if test(instr, template_bytes(BRANCH_TEMPLATE)) {
            return DecodedArmInstruction::BranchImm {
                cond,
                link: bit(instr, 24),
                offset: bits(instr, 0, 23),
            };
        }
        DecodedArmInstruction::UnknownInstruction
    }
}

/// The characters of a template as the bytes that `test` reads.
fn template_bytes(template: &'static str) -> (r: &'static [u8])
    requires
        template@.len() == 35,
        template.is_ascii(),
    ensures
        r@ == template.spec_bytes(),
        r@.len() == 35,
{
    broadcast use vstd::string::group_string_axioms;
    template.as_bytes()
}


impl DecodedArmInstruction {
    /// Whether the instruction belongs to a decodable class and each of its
    /// fields fits the bits its template gives it.
    pub open spec fn encodable(self) -> bool {
        match self {
            DecodedArmInstruction::DataProcessingImmediate { cond, opcode, rn, rd, rotate, .. } => {
                cond <= 15 && opcode <= 15 && rn <= 15 && rd <= 15 && rotate <= 15
            },
            DecodedArmInstruction::LoadStoreImmOffset { cond, rn, rd, imm, .. } => {
                cond <= 15 && rn <= 15 && rd <= 15 && imm <= 0xFFF
            },
            DecodedArmInstruction::LoadStoreHalfImmOffset { cond, rn, rd, imm_high, imm_low, .. } => {
                cond <= 15 && rn <= 15 && rd <= 15 && imm_high <= 15 && imm_low <= 15
            },
            DecodedArmInstruction::LoadStoreMultiple { cond, rn, .. } => cond <= 15 && rn <= 15,
            DecodedArmInstruction::BranchImm { cond, offset, .. } => cond <= 15 && offset <= 0xFF_FFFF,
            DecodedArmInstruction::BranchAndExchangeReg { cond, rm } => cond <= 15 && rm <= 15,
            DecodedArmInstruction::MoveToStatusReg { cond, field_mask, rm, .. } => {
                cond <= 15 && field_mask <= 15 && rm <= 15
            },
            DecodedArmInstruction::UndefinedInstruction => false,
            DecodedArmInstruction::UnknownInstruction => false,
        }
    }

    /// The instruction word of an encodable instruction: the fixed bits of its
    /// class with every field placed in its bit range.
    pub open spec fn spec_encode(self) -> u32 {
        match self {
            DecodedArmInstruction::DataProcessingImmediate { cond, opcode, s, rn, rd, rotate, imm } => {
                (cond as u32) << 28 | 0x0200_0000u32 | (opcode as u32) << 21 | bit_word(s) << 20 | (rn as u32) << 16
                    | (rd as u32) << 12 | (rotate as u32) << 8 | (imm as u32)
            },
            DecodedArmInstruction::LoadStoreImmOffset {
                cond,
                indexing_p,
                imm_add,
                byte,
                indexing_w,
                load,
                rn,
                rd,
                imm,
            } => {
                (cond as u32) << 28 | 0x0400_0000u32 | bit_word(indexing_p) << 24 | bit_word(imm_add) << 23
                    | bit_word(byte) << 22 | bit_word(indexing_w) << 21 | bit_word(load) << 20 | (rn as u32) << 16
                    | (rd as u32) << 12 | (imm as u32)
            },
            DecodedArmInstruction::LoadStoreHalfImmOffset {
                cond,
                indexing_p,
                imm_add,
                indexing_w,
                load,
                rn,
                rd,
                imm_high,
                imm_low,
            } => {
                (cond as u32) << 28 | 0x0040_00B0u32 | bit_word(indexing_p) << 24 | bit_word(imm_add) << 23
                    | bit_word(indexing_w) << 21 | bit_word(load) << 20 | (rn as u32) << 16 | (rd as u32) << 12
                    | (imm_high as u32) << 8 | (imm_low as u32)
            },
            DecodedArmInstruction::LoadStoreMultiple {
                cond,
                indexing_p,
                upwards,
                use_banked_or_spsr,
                indexing_w,
                load,
                rn,
                regs,
            } => {
                (cond as u32) << 28 | 0x0800_0000u32 | bit_word(indexing_p) << 24 | bit_word(upwards) << 23
                    | bit_word(use_banked_or_spsr) << 22 | bit_word(indexing_w) << 21 | bit_word(load) << 20
                    | (rn as u32) << 16 | (regs as u32)
            },
            DecodedArmInstruction::BranchImm { cond, link, offset } => {
                (cond as u32) << 28 | 0x0A00_0000u32 | bit_word(link) << 24 | offset
            },
            DecodedArmInstruction::BranchAndExchangeReg { cond, rm } => {
                (cond as u32) << 28 | 0x012F_FF10u32 | (rm as u32)
            },
            DecodedArmInstruction::MoveToStatusReg { cond, saved, field_mask, rm } => {
                (cond as u32) << 28 | 0x0120_F000u32 | bit_word(saved) << 22 | (field_mask as u32) << 16 | (rm as u32)
            },
            DecodedArmInstruction::UndefinedInstruction => 0,
            DecodedArmInstruction::UnknownInstruction => 0,
        }
    }

    /// Encodes the instruction as a word, or `None` if it has no encoding.
    pub fn encode_arm_instruction(&self) -> (r: Option<u32>)
        ensures
            r == if self.encodable() {
                Some(self.spec_encode())
            } else {
                None::<u32>
            },
    {
        match *self {
            DecodedArmInstruction::DataProcessingImmediate { cond, opcode, s, rn, rd, rotate, imm } => {
                if cond <= 15 && opcode <= 15 && rn <= 15 && rd <= 15 && rotate <= 15 {
                    Some(
                        (cond as u32) << 28 | 0x0200_0000u32 | (opcode as u32) << 21 | word_of(s) << 20 | (rn as u32)
                            << 16 | (rd as u32) << 12 | (rotate as u32) << 8 | (imm as u32),
                    )
                } else {
                    None
                }
            },
            DecodedArmInstruction::LoadStoreImmOffset {
                cond,
                indexing_p,
                imm_add,
                byte,
                indexing_w,
                load,
                rn,
                rd,
                imm,
            } => {
                if cond <= 15 && rn <= 15 && rd <= 15 && imm <= 0xFFF {
                    Some(
                        (cond as u32) << 28 | 0x0400_0000u32 | word_of(indexing_p) << 24 | word_of(imm_add) << 23
                            | word_of(byte) << 22 | word_of(indexing_w) << 21 | word_of(load) << 20 | (rn as u32)
                            << 16 | (rd as u32) << 12 | (imm as u32),
                    )
                } else {
                    None
                }
            },
            DecodedArmInstruction::LoadStoreHalfImmOffset {
                cond,
                indexing_p,
                imm_add,
                indexing_w,
                load,
                rn,
                rd,
                imm_high,
                imm_low,
            } => {
                if cond <= 15 && rn <= 15 && rd <= 15 && imm_high <= 15 && imm_low <= 15 {
                    Some(
                        (cond as u32) << 28 | 0x0040_00B0u32 | word_of(indexing_p) << 24 | word_of(imm_add) << 23
                            | word_of(indexing_w) << 21 | word_of(load) << 20 | (rn as u32) << 16 | (rd as u32)
                            << 12 | (imm_high as u32) << 8 | (imm_low as u32),
                    )
                } else {
                    None
                }
            },
            DecodedArmInstruction::LoadStoreMultiple {
                cond,
                indexing_p,
                upwards,
                use_banked_or_spsr,
                indexing_w,
                load,
                rn,
                regs,
            } => {
                if cond <= 15 && rn <= 15 {
                    Some(
                        (cond as u32) << 28 | 0x0800_0000u32 | word_of(indexing_p) << 24 | word_of(upwards) << 23
                            | word_of(use_banked_or_spsr) << 22 | word_of(indexing_w) << 21 | word_of(load) << 20
                            | (rn as u32) << 16 | (regs as u32),
                    )
                } else {
                    None
                }
            },
            DecodedArmInstruction::BranchImm { cond, link, offset } => {
                if cond <= 15 && offset <= 0xFF_FFFF {
                    Some((cond as u32) << 28 | 0x0A00_0000u32 | word_of(link) << 24 | offset)
                } else {
                    None
                }
            },
            DecodedArmInstruction::BranchAndExchangeReg { cond, rm } => {
                if cond <= 15 && rm <= 15 {
                    Some((cond as u32) << 28 | 0x012F_FF10u32 | (rm as u32))
                } else {
                    None
                }
            },
            DecodedArmInstruction::MoveToStatusReg { cond, saved, field_mask, rm } => {
                if cond <= 15 && field_mask <= 15 && rm <= 15 {
                    Some(
                        (cond as u32) << 28 | 0x0120_F000u32 | word_of(saved) << 22 | (field_mask as u32) << 16 | (
                        rm as u32),
                    )
                } else {
                    None
                }
            },
            DecodedArmInstruction::UndefinedInstruction => None,
            DecodedArmInstruction::UnknownInstruction => None,
        }
    }
}

fn word_of(b: bool) -> (r: u32)
    ensures
        r == bit_word(b),
{
    if b {
        1
    } else {
        0
    }
}

proof fn lemma_fields_survive(
    cond: u8,
    opcode: u8,
    rn: u8,
    rd: u8,
    rotate: u8,
    imm: u8,
    imm12: u16,
    regs: u16,
    offset: u32,
    b24: bool,
    b23: bool,
    b22: bool,
    b21: bool,
    b20: bool,
)
    by (bit_vector)
    requires
        cond <= 15,
        opcode <= 15,
        rn <= 15,
        rd <= 15,
        rotate <= 15,
        imm12 <= 0xFFF,
        offset <= 0xFF_FFFF,
    ensures
        ({
            let w = (cond as u32) << 28 | 0x0200_0000u32 | (opcode as u32) << 21 | bit_word(b20) << 20 | (rn as u32)
                << 16 | (rd as u32) << 12 | (rotate as u32) << 8 | (imm as u32);
            &&& is_data_processing(w)
            &&& spec_bits(w, 28, 31) == cond
            &&& spec_bits(w, 21, 24) == opcode
            &&& spec_bit(w, 20) == b20
            &&& spec_bits(w, 16, 19) == rn
            &&& spec_bits(w, 12, 15) == rd
            &&& spec_bits(w, 8, 11) == rotate
            &&& spec_bits(w, 0, 7) == imm
        }),
        ({
            let w = (cond as u32) << 28 | 0x0400_0000u32 | bit_word(b24) << 24 | bit_word(b23) << 23 | bit_word(b22)
                << 22 | bit_word(b21) << 21 | bit_word(b20) << 20 | (rn as u32) << 16 | (rd as u32) << 12 | (
            imm12 as u32);
            &&& is_single_transfer(w)
            &&& spec_bits(w, 28, 31) == cond
            &&& spec_bit(w, 24) == b24
            &&& spec_bit(w, 23) == b23
            &&& spec_bit(w, 22) == b22
            &&& spec_bit(w, 21) == b21
            &&& spec_bit(w, 20) == b20
            &&& spec_bits(w, 16, 19) == rn
            &&& spec_bits(w, 12, 15) == rd
            &&& spec_bits(w, 0, 11) == imm12
        }),
        ({
            // here `rotate` and `opcode` stand for the high and low offset nibbles
            let w = (cond as u32) << 28 | 0x0040_00B0u32 | bit_word(b24) << 24 | bit_word(b23) << 23 | bit_word(b21)
                << 21 | bit_word(b20) << 20 | (rn as u32) << 16 | (rd as u32) << 12 | (rotate as u32) << 8 | (
            opcode as u32);
            &&& is_halfword_transfer(w)
            &&& spec_bits(w, 28, 31) == cond
            &&& spec_bit(w, 24) == b24
            &&& spec_bit(w, 23) == b23
            &&& spec_bit(w, 21) == b21
            &&& spec_bit(w, 20) == b20
            &&& spec_bits(w, 16, 19) == rn
            &&& spec_bits(w, 12, 15) == rd
            &&& spec_bits(w, 8, 11) == rotate
            &&& spec_bits(w, 0, 3) == opcode
        }),
        ({
            let w = (cond as u32) << 28 | 0x0800_0000u32 | bit_word(b24) << 24 | bit_word(b23) << 23 | bit_word(b22)
                << 22 | bit_word(b21) << 21 | bit_word(b20) << 20 | (rn as u32) << 16 | (regs as u32);
            &&& is_block_transfer(w)
            &&& spec_bits(w, 28, 31) == cond
            &&& spec_bit(w, 24) == b24
            &&& spec_bit(w, 23) == b23
            &&& spec_bit(w, 22) == b22
            &&& spec_bit(w, 21) == b21
            &&& spec_bit(w, 20) == b20
            &&& spec_bits(w, 16, 19) == rn
            &&& spec_bits(w, 0, 15) == regs
        }),
        ({
            let w = (cond as u32) << 28 | 0x0A00_0000u32 | bit_word(b24) << 24 | offset;
            &&& is_branch(w)
            &&& spec_bits(w, 28, 31) == cond
            &&& spec_bit(w, 24) == b24
            &&& spec_bits(w, 0, 23) == offset
        }),
        ({
            // here `rn` stands for the operand register
            let w = (cond as u32) << 28 | 0x012F_FF10u32 | (rn as u32);
            &&& is_bx(w)
            &&& spec_bits(w, 28, 31) == cond
            &&& spec_bits(w, 0, 3) == rn
        }),
        ({
            // here `rd` stands for the field mask and `rn` for the operand register
            let w = (cond as u32) << 28 | 0x0120_F000u32 | bit_word(b22) << 22 | (rd as u32) << 16 | (rn as u32);
            &&& is_msr(w)
            &&& spec_bits(w, 28, 31) == cond
            &&& spec_bit(w, 22) == b22
            &&& spec_bits(w, 16, 19) == rd
            &&& spec_bits(w, 0, 3) == rn
        }),
{
}

proof fn lemma_fields_rebuild(w: u32)
    by (bit_vector)
    ensures
        is_data_processing(w) ==> w == spec_bits(w, 28, 31) << 28 | 0x0200_0000u32 | spec_bits(w, 21, 24) << 21
            | bit_word(spec_bit(w, 20)) << 20 | spec_bits(w, 16, 19) << 16 | spec_bits(w, 12, 15) << 12 | spec_bits(
            w,
            8,
            11,
        ) << 8 | spec_bits(w, 0, 7),
        is_single_transfer(w) ==> w == spec_bits(w, 28, 31) << 28 | 0x0400_0000u32 | bit_word(spec_bit(w, 24)) << 24
            | bit_word(spec_bit(w, 23)) << 23 | bit_word(spec_bit(w, 22)) << 22 | bit_word(spec_bit(w, 21)) << 21
            | bit_word(spec_bit(w, 20)) << 20 | spec_bits(w, 16, 19) << 16 | spec_bits(w, 12, 15) << 12 | spec_bits(
            w,
            0,
            11,
        ),
        is_halfword_transfer(w) ==> w == spec_bits(w, 28, 31) << 28 | 0x0040_00B0u32 | bit_word(spec_bit(w, 24))
            << 24 | bit_word(spec_bit(w, 23)) << 23 | bit_word(spec_bit(w, 21)) << 21 | bit_word(spec_bit(w, 20))
            << 20 | spec_bits(w, 16, 19) << 16 | spec_bits(w, 12, 15) << 12 | spec_bits(w, 8, 11) << 8 | spec_bits(
            w,
            0,
            3,
        ),
        is_block_transfer(w) ==> w == spec_bits(w, 28, 31) << 28 | 0x0800_0000u32 | bit_word(spec_bit(w, 24)) << 24
            | bit_word(spec_bit(w, 23)) << 23 | bit_word(spec_bit(w, 22)) << 22 | bit_word(spec_bit(w, 21)) << 21
            | bit_word(spec_bit(w, 20)) << 20 | spec_bits(w, 16, 19) << 16 | spec_bits(w, 0, 15),
        is_branch(w) ==> w == spec_bits(w, 28, 31) << 28 | 0x0A00_0000u32 | bit_word(spec_bit(w, 24)) << 24
            | spec_bits(w, 0, 23),
        is_bx(w) ==> w == spec_bits(w, 28, 31) << 28 | 0x012F_FF10u32 | spec_bits(w, 0, 3),
        is_msr(w) ==> w == spec_bits(w, 28, 31) << 28 | 0x0120_F000u32 | bit_word(spec_bit(w, 22)) << 22 | spec_bits(
            w,
            16,
            19,
        ) << 16 | spec_bits(w, 0, 3),
{
}

/// No word belongs to two instruction classes, so the order in which the
/// classes are tried decides nothing.
pub proof fn lemma_classes_disjoint(w: u32)
    ensures
        !(is_bx(w) && is_msr(w)),
        !(is_bx(w) && is_halfword_transfer(w)),
        !(is_msr(w) && is_halfword_transfer(w)),
        is_bx(w) || is_msr(w) || is_halfword_transfer(w) ==> !is_data_processing(w) && !is_single_transfer(w)
            && !is_block_transfer(w) && !is_branch(w),
        !(is_data_processing(w) && is_single_transfer(w)),
        !(is_data_processing(w) && is_block_transfer(w)),
        !(is_data_processing(w) && is_branch(w)),
        !(is_single_transfer(w) && is_block_transfer(w)),
        !(is_single_transfer(w) && is_branch(w)),
        !(is_block_transfer(w) && is_branch(w)),
{
    lemma_class_bits(w);
}

/// No word fits two templates.
pub proof fn lemma_at_most_one_template(w: u32)
    ensures
        !(template_matches(w, BX_TEMPLATE.spec_bytes()) && template_matches(w, MSR_TEMPLATE.spec_bytes())),
        !(template_matches(w, BX_TEMPLATE.spec_bytes()) && template_matches(w, HALFWORD_TRANSFER_TEMPLATE.spec_bytes())),
        !(template_matches(w, BX_TEMPLATE.spec_bytes()) && template_matches(w, DATA_PROCESSING_TEMPLATE.spec_bytes())),
        !(template_matches(w, BX_TEMPLATE.spec_bytes()) && template_matches(w, SINGLE_TRANSFER_TEMPLATE.spec_bytes())),
        !(template_matches(w, BX_TEMPLATE.spec_bytes()) && template_matches(w, BLOCK_TRANSFER_TEMPLATE.spec_bytes())),
        !(template_matches(w, BX_TEMPLATE.spec_bytes()) && template_matches(w, BRANCH_TEMPLATE.spec_bytes())),
        !(template_matches(w, MSR_TEMPLATE.spec_bytes()) && template_matches(w, HALFWORD_TRANSFER_TEMPLATE.spec_bytes())),
        !(template_matches(w, MSR_TEMPLATE.spec_bytes()) && template_matches(w, DATA_PROCESSING_TEMPLATE.spec_bytes())),
        !(template_matches(w, MSR_TEMPLATE.spec_bytes()) && template_matches(w, SINGLE_TRANSFER_TEMPLATE.spec_bytes())),
        !(template_matches(w, MSR_TEMPLATE.spec_bytes()) && template_matches(w, BLOCK_TRANSFER_TEMPLATE.spec_bytes())),
        !(template_matches(w, MSR_TEMPLATE.spec_bytes()) && template_matches(w, BRANCH_TEMPLATE.spec_bytes())),
        !(template_matches(w, HALFWORD_TRANSFER_TEMPLATE.spec_bytes()) && template_matches(w, DATA_PROCESSING_TEMPLATE.spec_bytes())),
        !(template_matches(w, HALFWORD_TRANSFER_TEMPLATE.spec_bytes()) && template_matches(w, SINGLE_TRANSFER_TEMPLATE.spec_bytes())),
        !(template_matches(w, HALFWORD_TRANSFER_TEMPLATE.spec_bytes()) && template_matches(w, BLOCK_TRANSFER_TEMPLATE.spec_bytes())),
        !(template_matches(w, HALFWORD_TRANSFER_TEMPLATE.spec_bytes()) && template_matches(w, BRANCH_TEMPLATE.spec_bytes())),
        !(template_matches(w, DATA_PROCESSING_TEMPLATE.spec_bytes()) && template_matches(w, SINGLE_TRANSFER_TEMPLATE.spec_bytes())),
        !(template_matches(w, DATA_PROCESSING_TEMPLATE.spec_bytes()) && template_matches(w, BLOCK_TRANSFER_TEMPLATE.spec_bytes())),
        !(template_matches(w, DATA_PROCESSING_TEMPLATE.spec_bytes()) && template_matches(w, BRANCH_TEMPLATE.spec_bytes())),
        !(template_matches(w, SINGLE_TRANSFER_TEMPLATE.spec_bytes()) && template_matches(w, BLOCK_TRANSFER_TEMPLATE.spec_bytes())),
        !(template_matches(w, SINGLE_TRANSFER_TEMPLATE.spec_bytes()) && template_matches(w, BRANCH_TEMPLATE.spec_bytes())),
        !(template_matches(w, BLOCK_TRANSFER_TEMPLATE.spec_bytes()) && template_matches(w, BRANCH_TEMPLATE.spec_bytes())),
{
    lemma_template_classes(w);
    lemma_classes_disjoint(w);
}

/// Decoding yields the class whose template accepts the word, and the
/// unknown instruction exactly when no template does.
pub proof fn lemma_decode_class(w: u32)
    ensures
        is_bx(w) <==> spec_decode(w) is BranchAndExchangeReg,
        is_msr(w) <==> spec_decode(w) is MoveToStatusReg,
        is_halfword_transfer(w) <==> spec_decode(w) is LoadStoreHalfImmOffset,
        is_data_processing(w) <==> spec_decode(w) is DataProcessingImmediate,
        is_single_transfer(w) <==> spec_decode(w) is LoadStoreImmOffset,
        is_block_transfer(w) <==> spec_decode(w) is LoadStoreMultiple,
        is_branch(w) <==> spec_decode(w) is BranchImm,
        !(spec_decode(w) is UndefinedInstruction),
{
    lemma_template_classes(w);
    lemma_classes_disjoint(w);
}

/// Every word that decodes to a known instruction is recovered by encoding
/// that instruction again.
pub proof fn lemma_encode_of_decode(w: u32)
    requires
        !(spec_decode(w) is UnknownInstruction),
    ensures
        spec_decode(w).encodable(),
        spec_decode(w).spec_encode() == w,
{
    lemma_template_classes(w);
    lemma_classes_disjoint(w);
    lemma_field_bounds(w);
    lemma_fields_rebuild(w);
}

/// Decoding the encoding of an instruction gives the instruction back, for
/// every class and every value of its fields within their widths.
pub proof fn lemma_decode_of_encode(d: DecodedArmInstruction)
    requires
        d.encodable(),
    ensures
        spec_decode(d.spec_encode()) == d,
{
    let w = d.spec_encode();
    lemma_template_classes(w);
    lemma_classes_disjoint(w);
    match d {
        DecodedArmInstruction::DataProcessingImmediate { cond, opcode, s, rn, rd, rotate, imm } => {
            lemma_fields_survive(cond, opcode, rn, rd, rotate, imm, 0, 0, 0, false, false, false, false, s);
        },
        DecodedArmInstruction::LoadStoreImmOffset {
            cond,
            indexing_p,
            imm_add,
            byte,
            indexing_w,
            load,
            rn,
            rd,
            imm,
        } => {
            lemma_fields_survive(cond, 0, rn, rd, 0, 0, imm, 0, 0, indexing_p, imm_add, byte, indexing_w, load);
        },
        DecodedArmInstruction::LoadStoreHalfImmOffset {
            cond,
            indexing_p,
            imm_add,
            indexing_w,
            load,
            rn,
            rd,
            imm_high,
            imm_low,
        } => {
            lemma_fields_survive(
                cond,
                imm_low,
                rn,
                rd,
                imm_high,
                0,
                0,
                0,
                0,
                indexing_p,
                imm_add,
                false,
                indexing_w,
                load,
            );
        },
        DecodedArmInstruction::LoadStoreMultiple {
            cond,
            indexing_p,
            upwards,
            use_banked_or_spsr,
            indexing_w,
            load,
            rn,
            regs,
        } => {
            lemma_fields_survive(
                cond,
                0,
                rn,
                0,
                0,
                0,
                0,
                regs,
                0,
                indexing_p,
                upwards,
                use_banked_or_spsr,
                indexing_w,
                load,
            );
        },
        DecodedArmInstruction::BranchImm { cond, link, offset } => {
            lemma_fields_survive(cond, 0, 0, 0, 0, 0, 0, 0, offset, link, false, false, false, false);
        },
        DecodedArmInstruction::BranchAndExchangeReg { cond, rm } => {
            lemma_fields_survive(cond, 0, rm, 0, 0, 0, 0, 0, 0, false, false, false, false, false);
        },
        DecodedArmInstruction::MoveToStatusReg { cond, saved, field_mask, rm } => {
            lemma_fields_survive(cond, 0, rm, field_mask, 0, 0, 0, 0, 0, false, false, saved, false, false);
        },
        DecodedArmInstruction::UndefinedInstruction => {},
        DecodedArmInstruction::UnknownInstruction => {},
    }
}

} // verus!
