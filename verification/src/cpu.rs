//! The ARM core: a three-stage pipeline of fetch, decode and execute that
//! puts at most one request on the bus per cycle.
//!
//! `r15` is the program counter. While an instruction executes, `r15` holds
//! the address of that instruction plus eight: fetch runs two stages ahead.

pub mod alu;
pub mod decode;

use vstd::prelude::*;
use vstd::array::spec_array_update;
use crate::cpu::alu::{
    alu_flags, alu_operation, alu_result, decode_immediate, is_compare, spec_decode_immediate, Cpsr,
    FLAG_C, FLAG_N, FLAG_T, FLAG_V, FLAG_Z,
};
use crate::cpu::decode::{
    lemma_field_bounds, spec_decode, DecodeInstruction, DecodedArmInstruction,
};
use crate::memory::{mirror_16to32, mirror_8to32, spec_mirror_16to32, spec_mirror_8to32};
use crate::scheduler::{wait_cycles, GeneratorState, Task, WaitCycles};
use crate::system::{AccessWidth, Bus, MemoryRequest, OperationType};
use crate::util::spec_bit;

verus! {

/// Index of the link register.
pub const LR: usize = 14;

/// Index of the program counter.
pub const PC: usize = 15;

/// A load or store that is under way. It moves one register per cycle.
#[derive(Copy, Clone, Debug, PartialEq, Eq)]
pub struct Transfer {
    /// Memory to register if true, register to memory if false.
    pub load: bool,
    pub width: AccessWidth,
    /// Address of the next access.
    pub address: u32,
    /// The registers still to move, one bit each; the lowest goes next.
    pub remaining: u16,
    /// The register that takes what the read of the previous cycle returns.
    pub pending: Option<u8>,
    /// True until the first access is made.
    pub first: bool,
}

/// What the execute stage does in the coming cycle.
#[derive(Copy, Clone, Debug, PartialEq, Eq)]
pub enum ExecuteState {
    /// First bubble after the program counter jumped.
    PipelineRefill1,
    /// Second bubble after the program counter jumped.
    PipelineRefill2,
    /// An instruction is ready to execute. For single-cycle instructions
    /// this is the only cycle.
    FirstCycle,
    /// A load or store holds the bus; nothing is fetched.
    DataTransfer(Transfer),
}

/// What a cycle of the core did.
#[derive(Copy, Clone, Debug, PartialEq, Eq, Structural)]
pub enum CycleOutcome {
    /// The bus was not free; nothing changed.
    Waited,
    /// The pipeline was refilling; the execute stage was idle.
    Bubble,
    /// An instruction reached the execute stage and its condition failed.
    ConditionFailed,
    /// An instruction executed, or started a load or store.
    Executed,
    /// The word in the execute stage encodes no known instruction or was
    /// fetched from an address that is no multiple of four. It was passed
    /// over.
    Undefined,
    /// A load or store moved on by one cycle.
    Transferred,
}

/// The core: register file, status registers and pipeline latches.
pub struct ArmCpu {
    pub regs: [u32; 16],
    pub cpsr: Cpsr,
    /// The saved status register, copied back by instructions that return
    /// from an exception.
    pub spsr: Cpsr,
    pub current_execute_state: ExecuteState,
    /// False for the first fetch after the program counter jumped or a
    /// load or store used the bus.
    pub sequential_fetch: bool,
    /// Fetch stage output.
    pub f_out_instr: u32,
    /// True while `f_out_instr` holds a word that decode has not taken yet.
    pub fetch_held: bool,
    /// Decode stage output.
    pub d_out_instr: u32,
}

/// Whether an instruction with condition field `cond` executes under the
/// flags of `cpsr`. Condition 14 always passes, 15 never does.
pub open spec fn condition_passes(cond: u8, cpsr: Cpsr) -> bool {
    let n = cpsr.flag(FLAG_N);
    let z = cpsr.flag(FLAG_Z);
    let c = cpsr.flag(FLAG_C);
    let v = cpsr.flag(FLAG_V);
    if cond == 0 {
        z
    } else if cond == 1 {
        !z
    } else if cond == 2 {
        c
    } else if cond == 3 {
        !c
    } else if cond == 4 {
        n
    } else if cond == 5 {
        !n
    } else if cond == 6 {
        v
    } else if cond == 7 {
        !v
    } else if cond == 8 {
        c && !z
    } else if cond == 9 {
        !c || z
    } else if cond == 10 {
        n == v
    } else if cond == 11 {
        n != v
    } else if cond == 12 {
        !z && n == v
    } else if cond == 13 {
        z || n != v
    } else {
        cond == 14
    }
}

pub fn check_condition(cond: u8, cpsr: Cpsr) -> (r: bool)
    ensures
        r == condition_passes(cond, cpsr),
{
    let n = cpsr.negative();
    let z = cpsr.zero();
    let c = cpsr.carry();
    let v = cpsr.overflow();
    if cond == 0 {
        z
    } else if cond == 1 {
        !z
    } else if cond == 2 {
        c
    } else if cond == 3 {
        !c
    } else if cond == 4 {
        n
    } else if cond == 5 {
        !n
    } else if cond == 6 {
        v
    } else if cond == 7 {
        !v
    } else if cond == 8 {
        c && !z
    } else if cond == 9 {
        !c || z
    } else if cond == 10 {
        n == v
    } else if cond == 11 {
        n != v
    } else if cond == 12 {
        !z && n == v
    } else if cond == 13 {
        z || n != v
    } else {
        cond == 14
    }
}

/// Byte distance of a branch: the 24-bit word offset, sign-extended and
/// multiplied by four.
pub open spec fn spec_branch_distance(offset: u32) -> u32 {
    if offset & 0x80_0000 != 0 {
        (offset | 0xFF00_0000u32) << 2
    } else {
        offset << 2
    }
}

pub fn branch_distance(offset: u32) -> (r: u32)
    ensures
        r == spec_branch_distance(offset),
{
    if offset & 0x80_0000 != 0 {
        (offset | 0xFF00_0000u32) << 2
    } else {
        offset << 2
    }
}

/// How many of the registers 0 to `n - 1` are in `list`.
pub open spec fn registers_below(list: u16, n: nat) -> nat
    decreases n,
{
    if n == 0 {
        0
    } else {
        registers_below(list, (n - 1) as nat) + if spec_bit(list as u32, (n - 1) as u32) {
            1nat
        } else {
            0nat
        }
    }
}

/// How many registers are in `list`.
pub open spec fn spec_register_count(list: u16) -> nat {
    registers_below(list, 16)
}

pub fn register_count(list: u16) -> (r: u32)
    ensures
        r == spec_register_count(list),
        r <= 16,
{
    let mut count: u32 = 0;
    let mut i: u32 = 0;
    while i < 16
        invariant
            i <= 16,
            count == registers_below(list, i as nat),
            count <= i,
        decreases 16 - i,
    {
        if ((list as u32) >> i) & 1 == 1 {
            count = count + 1;
        }
        i = i + 1;
    }
    count
}

/// The lowest register from `from` upwards that is in `list`, or 16 if
/// there is none.
pub open spec fn lowest_register_from(list: u16, from: nat) -> nat
    decreases 16 - from,
{
    if from >= 16 {
        16
    } else if spec_bit(list as u32, from as u32) {
        from
    } else {
        lowest_register_from(list, from + 1)
    }
}

/// The lowest register in `list`, or 16 if the list is empty.
pub open spec fn spec_lowest_register(list: u16) -> nat {
    lowest_register_from(list, 0)
}

pub fn lowest_register(list: u16) -> (r: u8)
    ensures
        r == spec_lowest_register(list),
        r <= 16,
{
    let mut i: u8 = 0;
    while i < 16
        invariant
            i <= 16,
            lowest_register_from(list, 0) == lowest_register_from(list, i as nat),
        decreases 16 - i,
    {
        if ((list as u32) >> (i as u32)) & 1 == 1 {
            return i;
        }
        i = i + 1;
    }
    16
}

/// What a load of `width` keeps of the word on the bus: the low byte, the
/// low half-word or all of it, zero-extended.
pub open spec fn load_value(data: u32, width: AccessWidth) -> u32 {
    match width {
        AccessWidth::Bit8 => data & 0xFF,
        AccessWidth::Bit16 => data & 0xFFFF,
        AccessWidth::Bit32 => data,
    }
}

/// What a store of `width` puts on the bus: the value, repeated over the
/// whole word if it is narrower.
pub open spec fn store_value(value: u32, width: AccessWidth) -> u32 {
    match width {
        AccessWidth::Bit8 => spec_mirror_8to32((value & 0xFF) as u8),
        AccessWidth::Bit16 => spec_mirror_16to32((value & 0xFFFF) as u16),
        AccessWidth::Bit32 => value,
    }
}

/// The bits of a status register that the field mask `field_mask` selects:
/// one byte for each of its four bits.
pub open spec fn spec_status_mask(field_mask: u8) -> u32 {
    (if field_mask & 1 != 0 {
        0x0000_00FFu32
    } else {
        0u32
    }) | (if field_mask & 2 != 0 {
        0x0000_FF00u32
    } else {
        0u32
    }) | (if field_mask & 4 != 0 {
        0x00FF_0000u32
    } else {
        0u32
    }) | (if field_mask & 8 != 0 {
        0xFF00_0000u32
    } else {
        0u32
    })
}

pub fn status_mask(field_mask: u8) -> (r: u32)
    ensures
        r == spec_status_mask(field_mask),
{
    let b0: u32 = if field_mask & 1 != 0 { 0x0000_00FF } else { 0 };
    let b1: u32 = if field_mask & 2 != 0 { 0x0000_FF00 } else { 0 };
    let b2: u32 = if field_mask & 4 != 0 { 0x00FF_0000 } else { 0 };
    let b3: u32 = if field_mask & 8 != 0 { 0xFF00_0000 } else { 0 };
    b0 | b1 | b2 | b3
}

/// Address of the first access and value written back to the base register
/// by a transfer of `count` registers from `base`. Registers go to rising
/// addresses; `upwards` says whether the block lies above or below the
/// base, `before` whether the base itself is skipped.
pub open spec fn spec_block_addresses(base: u32, count: u32, upwards: bool, before: bool) -> (u32, u32) {
    let size = (count * 4) as u32;
    if upwards {
        (if before {
            base.wrapping_add(4)
        } else {
            base
        }, base.wrapping_add(size))
    } else {
        (if before {
            base.wrapping_sub(size)
        } else {
            base.wrapping_sub(size).wrapping_add(4)
        }, base.wrapping_sub(size))
    }
}

pub fn block_addresses(base: u32, count: u32, upwards: bool, before: bool) -> (r: (u32, u32))
    requires
        count <= 16,
    ensures
        r == spec_block_addresses(base, count, upwards, before),
{
    let size: u32 = count * 4;
    if upwards {
        (if before { base.wrapping_add(4) } else { base }, base.wrapping_add(size))
    } else {
        (if before { base.wrapping_sub(size) } else { base.wrapping_sub(size).wrapping_add(4) }, base.wrapping_sub(size))
    }
}

impl ArmCpu {
    /// The core with register `i` set to `value`.
    pub open spec fn with_reg(self, i: int, value: u32) -> ArmCpu {
        ArmCpu { regs: spec_array_update(self.regs, i, value), ..self }
    }

    /// The core with the program counter moved on by one instruction.
    pub open spec fn advanced(self) -> ArmCpu {
        self.with_reg(15, self.regs[15].wrapping_add(4))
    }

    /// The core with the program counter set to `target` and the pipeline
    /// emptied: two bubbles follow, and the next fetch is not sequential.
    pub open spec fn jumped(self, target: u32) -> ArmCpu {
        ArmCpu {
            current_execute_state: ExecuteState::PipelineRefill1,
            sequential_fetch: false,
            fetch_held: false,
            ..self.with_reg(15, target)
        }
    }

    /// The core with a transfer started and the program counter moved on.
    pub open spec fn transferring(self, load: bool, width: AccessWidth, address: u32, registers: u16) -> ArmCpu {
        ArmCpu {
            current_execute_state: ExecuteState::DataTransfer(
                Transfer { load, width, address, remaining: registers, pending: None, first: true },
            ),
            ..self.advanced()
        }
    }

    /// The core after a data-processing instruction. Compare opcodes leave
    /// the destination alone and always take the new flags; other opcodes
    /// take them if `s` is set. With the program counter as destination,
    /// `s` restores the saved status instead, and a written program counter
    /// empties the pipeline.
    pub open spec fn data_processed(self, opcode: u8, s: bool, rn: u8, rd: u8, rotate: u8, imm: u8) -> ArmCpu {
        let (op2, shifter_carry) = spec_decode_immediate(imm, rotate, self.cpsr.flag(FLAG_C));
        let op1 = self.regs[rn as int];
        let result = alu_result(opcode, op1, op2, self.cpsr.flag(FLAG_C));
        let flags = alu_flags(opcode, op1, op2, shifter_carry, self.cpsr);
        let cpsr = if s && rd == 15 {
            self.spsr
        } else if s || is_compare(opcode) {
            flags
        } else {
            self.cpsr
        };
        let with_status = ArmCpu { cpsr, ..self };
        if is_compare(opcode) {
            with_status.advanced()
        } else if rd == 15 {
            with_status.jumped(result)
        } else {
            with_status.with_reg(rd as int, result).advanced()
        }
    }

    /// The core after a branch: the link register takes the address of the
    /// next instruction if `link` is set.
    pub open spec fn branched(self, link: bool, offset: u32) -> ArmCpu {
        let pc = self.regs[15];
        let linked = if link {
            self.with_reg(14, pc.wrapping_sub(4))
        } else {
            self
        };
        linked.jumped(pc.wrapping_add(spec_branch_distance(offset)))
    }

    /// The core after a branch to the address in register `rm`. Bit 0 of
    /// the address is not part of the target; it asks for Thumb state, which
    /// the Thumb flag records.
    pub open spec fn exchanged(self, rm: u8) -> ArmCpu {
        let target = self.regs[rm as int];
        ArmCpu { cpsr: self.cpsr.with_flag(FLAG_T, target & 1 != 0), ..self }.jumped(target & !1u32)
    }

    /// The core after a move of register `rm` to a status register: only
    /// the bytes that `field_mask` selects are replaced.
    pub open spec fn status_moved(self, saved: bool, field_mask: u8, rm: u8) -> ArmCpu {
        let mask = spec_status_mask(field_mask);
        let operand = self.regs[rm as int];
        if saved {
            ArmCpu { spsr: Cpsr((self.spsr.0 & !mask) | (operand & mask)), ..self }.advanced()
        } else {
            ArmCpu { cpsr: Cpsr((self.cpsr.0 & !mask) | (operand & mask)), ..self }.advanced()
        }
    }

    /// The core after the first cycle of a load or store of one register.
    /// The offset is added to or subtracted from the base; the access goes
    /// to the result if `indexing_p` is set and to the base otherwise; the
    /// result is written back to the base register if `indexing_w` is set
    /// or `indexing_p` is not.
    pub open spec fn single_transfer_started(
        self,
        indexing_p: bool,
        imm_add: bool,
        indexing_w: bool,
        load: bool,
        rn: u8,
        rd: u8,
        offset: u32,
        width: AccessWidth,
    ) -> ArmCpu {
        let base = self.regs[rn as int];
        let effective = if imm_add {
            base.wrapping_add(offset)
        } else {
            base.wrapping_sub(offset)
        };
        let address = if indexing_p {
            effective
        } else {
            base
        };
        let written_back = if indexing_w || !indexing_p {
            self.with_reg(rn as int, effective)
        } else {
            self
        };
        written_back.transferring(load, width, address, 1u16 << rd)
    }

    /// The core after the first cycle of a load or store of a register list.
    pub open spec fn block_transfer_started(
        self,
        indexing_p: bool,
        upwards: bool,
        indexing_w: bool,
        load: bool,
        rn: u8,
        registers: u16,
    ) -> ArmCpu {
        let base = self.regs[rn as int];
        let (start, end) = spec_block_addresses(base, spec_register_count(registers) as u32, upwards, indexing_p);
        let written_back = if indexing_w {
            self.with_reg(rn as int, end)
        } else {
            self
        };
        written_back.transferring(load, AccessWidth::Bit32, start, registers)
    }

    /// Whether the word in the execute stage is passed over: it encodes no
    /// known instruction, or it was fetched from an address that is no
    /// multiple of four.
    pub open spec fn undefined(self, instr: u32) -> bool {
        self.regs[15] % 4 != 0 || spec_decode(instr) is UndefinedInstruction || spec_decode(
            instr,
        ) is UnknownInstruction
    }

    /// The core after the instruction word `instr` went through the execute
    /// stage. An instruction whose condition fails, and a word that is
    /// passed over, only move the program counter on.
    pub open spec fn executed(self, instr: u32) -> ArmCpu {
        if self.undefined(instr) {
            self.advanced()
        } else {
            self.executed_decoded(spec_decode(instr))
        }
    }

    /// The core after the instruction `decoded` went through the execute
    /// stage.
    pub open spec fn executed_decoded(self, decoded: DecodedArmInstruction) -> ArmCpu {
        match decoded {
            DecodedArmInstruction::DataProcessingImmediate { cond, opcode, s, rn, rd, rotate, imm } => {
                if condition_passes(cond, self.cpsr) {
                    self.data_processed(opcode, s, rn, rd, rotate, imm)
                } else {
                    self.advanced()
                }
            },
            DecodedArmInstruction::LoadStoreImmOffset {
                cond,
                indexing_p,
                imm_add,
                byte,
                indexing_w,
                load,
                rn,
                rd,
                imm,
            } => {
                if condition_passes(cond, self.cpsr) {
                    self.single_transfer_started(
                        indexing_p,
                        imm_add,
                        indexing_w,
                        load,
                        rn,
                        rd,
                        imm as u32,
                        if byte {
                            AccessWidth::Bit8
                        } else {
                            AccessWidth::Bit32
                        },
                    )
                } else {
                    self.advanced()
                }
            },
            DecodedArmInstruction::LoadStoreHalfImmOffset {
                cond,
                indexing_p,
                imm_add,
                indexing_w,
                load,
                rn,
                rd,
                imm_high,
                imm_low,
            } => {
                if condition_passes(cond, self.cpsr) {
                    self.single_transfer_started(
                        indexing_p,
                        imm_add,
                        indexing_w,
                        load,
                        rn,
                        rd,
                        (imm_high as u32) << 4 | (imm_low as u32),
                        AccessWidth::Bit16,
                    )
                } else {
                    self.advanced()
                }
            },
            DecodedArmInstruction::LoadStoreMultiple { cond, indexing_p, upwards, indexing_w, load, rn, regs, .. } => {
                if condition_passes(cond, self.cpsr) {
                    self.block_transfer_started(indexing_p, upwards, indexing_w, load, rn, regs)
                } else {
                    self.advanced()
                }
            },
            DecodedArmInstruction::BranchImm { cond, link, offset } => {
                if condition_passes(cond, self.cpsr) {
                    self.branched(link, offset)
                } else {
                    self.advanced()
                }
            },
            DecodedArmInstruction::BranchAndExchangeReg { cond, rm } => {
                if condition_passes(cond, self.cpsr) {
                    self.exchanged(rm)
                } else {
                    self.advanced()
                }
            },
            DecodedArmInstruction::MoveToStatusReg { cond, saved, field_mask, rm } => {
                if condition_passes(cond, self.cpsr) {
                    self.status_moved(saved, field_mask, rm)
                } else {
                    self.advanced()
                }
            },
            DecodedArmInstruction::UndefinedInstruction => self.advanced(),
            DecodedArmInstruction::UnknownInstruction => self.advanced(),
        }
    }

    /// What the execute stage reports of the instruction word `instr`.
    pub open spec fn execute_outcome(self, instr: u32) -> CycleOutcome {
        if self.undefined(instr) {
            CycleOutcome::Undefined
        } else if condition_passes(crate::util::spec_bits(instr, 28, 31) as u8, self.cpsr) {
            CycleOutcome::Executed
        } else {
            CycleOutcome::ConditionFailed
        }
    }

    /// Core and bus data after one cycle of the execute stage, with `instr`
    /// the word that has reached the stage and `data` the word on the bus.
    /// While the pipeline refills the stage is idle and only the program
    /// counter moves on; the second idle cycle ends the refill. With an
    /// instruction ready the stage executes `instr`. While a load or store
    /// is under way the stage moves it on by one cycle.
    pub open spec fn execute_stage(self, instr: u32, data: u32) -> (ArmCpu, u32) {
        match self.current_execute_state {
            ExecuteState::PipelineRefill1 => (
                ArmCpu { current_execute_state: ExecuteState::PipelineRefill2, ..self.advanced() },
                data,
            ),
            ExecuteState::PipelineRefill2 => (
                ArmCpu { current_execute_state: ExecuteState::FirstCycle, ..self.advanced() },
                data,
            ),
            ExecuteState::FirstCycle => (self.executed(instr), data),
            ExecuteState::DataTransfer(transfer) => self.transferred(transfer, data),
        }
    }

    /// What the execute stage reports of the cycle.
    pub open spec fn stage_outcome(self, instr: u32) -> CycleOutcome {
        match self.current_execute_state {
            ExecuteState::DataTransfer(_) => CycleOutcome::Transferred,
            ExecuteState::FirstCycle => self.execute_outcome(instr),
            _ => CycleOutcome::Bubble,
        }
    }

    /// The request that the core puts on the bus in state `state`: an
    /// instruction fetch at the program counter while the pipeline runs or
    /// refills, the next access of a transfer while there is one to make,
    /// and nothing in the cycle that ends a load.
    pub open spec fn spec_bus_operation(self, state: ExecuteState) -> Option<MemoryRequest> {
        match state {
            ExecuteState::DataTransfer(transfer) => {
                if spec_lowest_register(transfer.remaining) < 16 {
                    Some(
                        MemoryRequest {
                            address: transfer.address,
                            width: transfer.width,
                            op: if transfer.load {
                                OperationType::Read { is_instruction: false }
                            } else {
                                OperationType::Write
                            },
                            seq: !transfer.first,
                        },
                    )
                } else {
                    None
                }
            },
            _ => Some(
                MemoryRequest {
                    address: self.regs[15],
                    width: AccessWidth::Bit32,
                    op: OperationType::Read { is_instruction: true },
                    seq: self.sequential_fetch,
                },
            ),
        }
    }

    /// Core and bus data after one cycle of the transfer `transfer`.
    ///
    /// The first cycle keeps the word that was fetched last for the decode
    /// stage; every later cycle of a load puts what the bus returns into the
    /// register that waits for it. Then the lowest register still to move
    /// makes its access. A store is over with its last access, a load one
    /// cycle later. A load of the program counter empties the pipeline.
    pub open spec fn transferred(self, transfer: Transfer, data: u32) -> (ArmCpu, u32) {
        let latched = if transfer.first {
            ArmCpu { f_out_instr: data, fetch_held: true, ..self }
        } else {
            match transfer.pending {
                Some(r) => if r < 16 {
                    self.with_reg(r as int, load_value(data, transfer.width))
                } else {
                    self
                },
                None => self,
            }
        };
        let r = spec_lowest_register(transfer.remaining);
        if r < 16 {
            let remaining = transfer.remaining & !(1u16 << r);
            let next = Transfer {
                address: transfer.address.wrapping_add(4),
                remaining,
                pending: if transfer.load {
                    Some(r as u8)
                } else {
                    None
                },
                first: false,
                ..transfer
            };
            let out = if transfer.load {
                data
            } else {
                store_value(latched.regs[r as int], transfer.width)
            };
            if !transfer.load && spec_lowest_register(remaining) >= 16 {
                (
                    ArmCpu {
                        current_execute_state: ExecuteState::FirstCycle,
                        sequential_fetch: false,
                        ..latched
                    },
                    out,
                )
            } else {
                (ArmCpu { current_execute_state: ExecuteState::DataTransfer(next), ..latched }, out)
            }
        } else if !transfer.first && transfer.pending == Some(15u8) {
            (latched.jumped(latched.regs[15]), data)
        } else {
            (
                ArmCpu { current_execute_state: ExecuteState::FirstCycle, sequential_fetch: false, ..latched },
                data,
            )
        }
    }

    /// The core after a fetch was made and `word`, which the fetch before
    /// it returned, moved through the fetch latch into the decode latch.
    pub open spec fn latched(self, word: u32) -> ArmCpu {
        ArmCpu { f_out_instr: word, fetch_held: false, d_out_instr: word, sequential_fetch: true, ..self }
    }

    /// The instruction fetch at `address`.
    pub open spec fn fetch(address: u32, seq: bool) -> MemoryRequest {
        MemoryRequest {
            address,
            width: AccessWidth::Bit32,
            op: OperationType::Read { is_instruction: true },
            seq,
        }
    }

    /// Core and bus after one cycle.
    ///
    /// A core that has to wait does nothing. Otherwise it puts the request
    /// of its state on the bus. While the pipeline runs or refills, the
    /// word that the last fetch returned moves into the decode latch and
    /// the word that was there reaches the execute stage, which is idle
    /// while the pipeline refills.
    pub open spec fn spec_step(self, bus: Bus) -> (ArmCpu, Bus) {
        if bus.busy || bus.dma_active {
            (self, bus)
        } else {
            let request = self.spec_bus_operation(self.current_execute_state);
            let ready = if self.current_execute_state is DataTransfer {
                self
            } else if self.fetch_held {
                self.latched(self.f_out_instr)
            } else {
                self.latched(bus.data)
            };
            let (cpu, data) = ready.execute_stage(self.d_out_instr, bus.data);
            (cpu, Bus { request, data, ..bus })
        }
    }

    /// What `spec_step` reports of the cycle.
    pub open spec fn spec_step_outcome(self, bus: Bus) -> CycleOutcome {
        if bus.busy || bus.dma_active {
            CycleOutcome::Waited
        } else {
            self.stage_outcome(self.d_out_instr)
        }
    }
}

impl ArmCpu {
    /// A core at reset: all registers zero, the pipeline empty, the
    /// program counter at address 0.
    pub open spec fn reset() -> ArmCpu {
        ArmCpu {
            regs: [0, 0, 0, 0, 0, 0, 0, 0, 0, 0, 0, 0, 0, 0, 0, 0],
            cpsr: Cpsr(0),
            spsr: Cpsr(0),
            current_execute_state: ExecuteState::PipelineRefill1,
            sequential_fetch: false,
            f_out_instr: 0xFFFF_FFFF,
            fetch_held: false,
            d_out_instr: 0xFFFF_FFFF,
        }
    }

    pub fn new() -> (r: ArmCpu)
        ensures
            r == Self::reset(),
    {
        let r = ArmCpu {
            regs: [0; 16],
            cpsr: Cpsr(0),
            spsr: Cpsr(0),
            current_execute_state: ExecuteState::PipelineRefill1,
            sequential_fetch: false,
            f_out_instr: 0xFFFF_FFFF,
            fetch_held: false,
            d_out_instr: 0xFFFF_FFFF,
        };
        assert(r.regs =~= Self::reset().regs);
        r
    }

    fn advance(&mut self)
        ensures
            *final(self) == old(self).advanced(),
    {
        self.regs[PC] = self.regs[PC].wrapping_add(4);
    }

    fn jump(&mut self, target: u32)
        ensures
            *final(self) == old(self).jumped(target),
    {
        self.regs[PC] = target;
        self.current_execute_state = ExecuteState::PipelineRefill1;
        self.sequential_fetch = false;
        self.fetch_held = false;
    }

    fn start_transfer(&mut self, load: bool, width: AccessWidth, address: u32, registers: u16)
        ensures
            *final(self) == old(self).transferring(load, width, address, registers),
    {
        self.advance();
        self.current_execute_state = ExecuteState::DataTransfer(
            Transfer { load, width, address, remaining: registers, pending: None, first: true },
        );
    }

    fn execute_data_processing(&mut self, opcode: u8, s: bool, rn: u8, rd: u8, rotate: u8, imm: u8)
        requires
            opcode < 16,
            rn < 16,
            rd < 16,
        ensures
            *final(self) == old(self).data_processed(opcode, s, rn, rd, rotate, imm),
    {
        let (imm_value, imm_carry) = decode_immediate(imm, rotate, self.cpsr.carry());
        let (result, new_cpsr) = alu_operation(opcode, self.regs[rn as usize], imm_value, imm_carry, self.cpsr);
        let compare = 8 <= opcode && opcode <= 11;
        if s && rd as usize == PC {
            self.cpsr = self.spsr;
        } else if s || compare {
            self.cpsr = new_cpsr;
        }
        if compare {
            self.advance();
        } else if rd as usize == PC {
            self.jump(result);
        } else {
            self.regs[rd as usize] = result;
            self.advance();
        }
    }

    fn execute_branch(&mut self, link: bool, offset: u32)
        ensures
            *final(self) == old(self).branched(link, offset),
    {
        let pc: u32 = self.regs[PC];
        if link {
            self.regs[LR] = pc.wrapping_sub(4);
        }
        self.jump(pc.wrapping_add(branch_distance(offset)));
    }

    fn execute_exchange(&mut self, rm: u8)
        requires
            rm < 16,
        ensures
            *final(self) == old(self).exchanged(rm),
    {
        let target: u32 = self.regs[rm as usize];
        self.cpsr.set_thumb(target & 1 != 0);
        self.jump(target & !1u32);
    }

    fn execute_status_move(&mut self, saved: bool, field_mask: u8, rm: u8)
        requires
            rm < 16,
        ensures
            *final(self) == old(self).status_moved(saved, field_mask, rm),
    {
        let mask: u32 = status_mask(field_mask);
        let operand: u32 = self.regs[rm as usize];
        if saved {
            self.spsr = Cpsr((self.spsr.0 & !mask) | (operand & mask));
        } else {
            self.cpsr = Cpsr((self.cpsr.0 & !mask) | (operand & mask));
        }
        self.advance();
    }

    fn execute_single_transfer(
        &mut self,
        indexing_p: bool,
        imm_add: bool,
        indexing_w: bool,
        load: bool,
        rn: u8,
        rd: u8,
        offset: u32,
        width: AccessWidth,
    )
        requires
            rn < 16,
            rd < 16,
        ensures
            *final(self) == old(self).single_transfer_started(
                indexing_p,
                imm_add,
                indexing_w,
                load,
                rn,
                rd,
                offset,
                width,
            ),
    {
        let base: u32 = self.regs[rn as usize];
        let effective: u32 = if imm_add {
            base.wrapping_add(offset)
        } else {
            base.wrapping_sub(offset)
        };
        let address: u32 = if indexing_p {
            effective
        } else {
            base
        };
        if indexing_w || !indexing_p {
            self.regs[rn as usize] = effective;
        }
        self.start_transfer(load, width, address, 1u16 << rd);
    }

    fn execute_block_transfer(
        &mut self,
        indexing_p: bool,
        upwards: bool,
        indexing_w: bool,
        load: bool,
        rn: u8,
        registers: u16,
    )
        requires
            rn < 16,
        ensures
            *final(self) == old(self).block_transfer_started(indexing_p, upwards, indexing_w, load, rn, registers),
    {
        let base: u32 = self.regs[rn as usize];
        let (start, end) = block_addresses(base, register_count(registers), upwards, indexing_p);
        if indexing_w {
            self.regs[rn as usize] = end;
        }
        self.start_transfer(load, AccessWidth::Bit32, start, registers);
    }

    /// Executes the instruction word `in_instr` and reports what became of it.
    fn execute_instruction(&mut self, in_instr: u32) -> (outcome: CycleOutcome)
        ensures
            *final(self) == old(self).executed(in_instr),
            outcome == old(self).execute_outcome(in_instr),
    {
        proof {
            lemma_field_bounds(in_instr);
        }
        if self.regs[PC] % 4 != 0 {
            self.advance();
            return CycleOutcome::Undefined;
        }
        let decoded_instr = DecodedArmInstruction::decode_arm_instruction(in_instr);
        match decoded_instr {
            DecodedArmInstruction::DataProcessingImmediate { cond, opcode, s, rn, rd, rotate, imm } => {
                if check_condition(cond, self.cpsr) {
                    self.execute_data_processing(opcode, s, rn, rd, rotate, imm);
                    CycleOutcome::Executed
                } else {
                    self.advance();
                    CycleOutcome::ConditionFailed
                }
            },
            DecodedArmInstruction::LoadStoreImmOffset {
                cond,
                indexing_p,
                imm_add,
                byte,
                indexing_w,
                load,
                rn,
                rd,
                imm,
            } => {
                if check_condition(cond, self.cpsr) {
                    let width = if byte {
                        AccessWidth::Bit8
                    } else {
                        AccessWidth::Bit32
                    };
                    self.execute_single_transfer(indexing_p, imm_add, indexing_w, load, rn, rd, imm as u32, width);
                    CycleOutcome::Executed
                } else {
                    self.advance();
                    CycleOutcome::ConditionFailed
                }
            },
            DecodedArmInstruction::LoadStoreHalfImmOffset {
                cond,
                indexing_p,
                imm_add,
                indexing_w,
                load,
                rn,
                rd,
                imm_high,
                imm_low,
            } => {
                if check_condition(cond, self.cpsr) {
                    let offset: u32 = (imm_high as u32) << 4 | (imm_low as u32);
                    self.execute_single_transfer(
                        indexing_p,
                        imm_add,
                        indexing_w,
                        load,
                        rn,
                        rd,
                        offset,
                        AccessWidth::Bit16,
                    );
                    CycleOutcome::Executed
                } else {
                    self.advance();
                    CycleOutcome::ConditionFailed
                }
            },
            DecodedArmInstruction::LoadStoreMultiple {
                cond,
                indexing_p,
                upwards,
                use_banked_or_spsr: _,
                indexing_w,
                load,
                rn,
                regs,
            } => {
                if check_condition(cond, self.cpsr) {
                    self.execute_block_transfer(indexing_p, upwards, indexing_w, load, rn, regs);
                    CycleOutcome::Executed
                } else {
                    self.advance();
                    CycleOutcome::ConditionFailed
                }
            },
            DecodedArmInstruction::BranchImm { cond, link, offset } => {
                if check_condition(cond, self.cpsr) {
                    self.execute_branch(link, offset);
                    CycleOutcome::Executed
                } else {
                    self.advance();
                    CycleOutcome::ConditionFailed
                }
            },
            DecodedArmInstruction::BranchAndExchangeReg { cond, rm } => {
                if check_condition(cond, self.cpsr) {
                    self.execute_exchange(rm);
                    CycleOutcome::Executed
                } else {
                    self.advance();
                    CycleOutcome::ConditionFailed
                }
            },
            DecodedArmInstruction::MoveToStatusReg { cond, saved, field_mask, rm } => {
                if check_condition(cond, self.cpsr) {
                    self.execute_status_move(saved, field_mask, rm);
                    CycleOutcome::Executed
                } else {
                    self.advance();
                    CycleOutcome::ConditionFailed
                }
            },
            DecodedArmInstruction::UndefinedInstruction => {
                self.advance();
                CycleOutcome::Undefined
            },
            DecodedArmInstruction::UnknownInstruction => {
                self.advance();
                CycleOutcome::Undefined
            },
        }
    }

    /// The request that goes on the bus in state `state`, if any.
    pub fn bus_operation_for_state(&self, state: ExecuteState) -> (r: Option<MemoryRequest>)
        ensures
            r == self.spec_bus_operation(state),
    {
        match state {
            ExecuteState::DataTransfer(transfer) => {
                if lowest_register(transfer.remaining) < 16 {
                    Some(
                        MemoryRequest {
                            address: transfer.address,
                            width: transfer.width,
                            op: if transfer.load {
                                OperationType::Read { is_instruction: false }
                            } else {
                                OperationType::Write
                            },
                            seq: !transfer.first,
                        },
                    )
                } else {
                    None
                }
            },
            ExecuteState::PipelineRefill1 | ExecuteState::PipelineRefill2 | ExecuteState::FirstCycle => Some(
                MemoryRequest {
                    address: self.regs[PC],
                    width: AccessWidth::Bit32,
                    op: OperationType::Read { is_instruction: true },
                    seq: self.sequential_fetch,
                },
            ),
        }
    }

    /// One cycle of the transfer `transfer`, with `data` the word on the bus.
    fn step_transfer(&mut self, transfer: Transfer, data: &mut u32)
        ensures
            (*final(self), *final(data)) == old(self).transferred(transfer, *old(data)),
    {
        if transfer.first {
            self.f_out_instr = *data;
            self.fetch_held = true;
        } else {
            match transfer.pending {
                Some(r) => {
                    if r < 16 {
                        self.regs[r as usize] = load_word(*data, transfer.width);
                    }
                },
                None => {},
            }
        }
        let r: u8 = lowest_register(transfer.remaining);
        if r < 16 {
            let remaining: u16 = transfer.remaining & !(1u16 << r);
            if !transfer.load {
                *data = store_word(self.regs[r as usize], transfer.width);
            }
            if !transfer.load && lowest_register(remaining) >= 16 {
                self.current_execute_state = ExecuteState::FirstCycle;
                self.sequential_fetch = false;
            } else {
                self.current_execute_state = ExecuteState::DataTransfer(
                    Transfer {
                        load: transfer.load,
                        width: transfer.width,
                        address: transfer.address.wrapping_add(4),
                        remaining,
                        pending: if transfer.load {
                            Some(r)
                        } else {
                            None
                        },
                        first: false,
                    },
                );
            }
        } else {
            let loaded_pc = !transfer.first && match transfer.pending {
                Some(p) => p == 15,
                None => false,
            };
            if loaded_pc {
                let target: u32 = self.regs[PC];
                self.jump(target);
            } else {
                self.current_execute_state = ExecuteState::FirstCycle;
                self.sequential_fetch = false;
            }
        }
    }

    /// One cycle of the execute stage, with `in_instr` the word that has
    /// reached the stage. The stage reads and writes the data on the bus
    /// while a load or store is under way, and nothing else of the bus.
    pub fn step_execute_fsm(&mut self, bus: &mut Bus, in_instr: u32) -> (outcome: CycleOutcome)
        ensures
            *final(self) == old(self).execute_stage(in_instr, old(bus).data).0,
            *final(bus) == (Bus { data: old(self).execute_stage(in_instr, old(bus).data).1, ..*old(bus) }),
            outcome == old(self).stage_outcome(in_instr),
    {
        match self.current_execute_state {
            ExecuteState::PipelineRefill1 => {
                self.advance();
                self.current_execute_state = ExecuteState::PipelineRefill2;
                CycleOutcome::Bubble
            },
            ExecuteState::PipelineRefill2 => {
                self.advance();
                self.current_execute_state = ExecuteState::FirstCycle;
                CycleOutcome::Bubble
            },
            ExecuteState::FirstCycle => self.execute_instruction(in_instr),
            ExecuteState::DataTransfer(transfer) => {
                self.step_transfer(transfer, &mut bus.data);
                CycleOutcome::Transferred
            },
        }
    }

    /// One cycle of a core that does not have to wait.
    pub fn step_fetch_or_single_instruction(&mut self, bus: &mut Bus) -> (outcome: CycleOutcome)
        requires
            !old(bus).busy,
            !old(bus).dma_active,
            old(bus).request is None,
        ensures
            (*final(self), *final(bus)) == old(self).spec_step(*old(bus)),
            outcome == old(self).spec_step_outcome(*old(bus)),
    {
        // Fetch stage, or the data access that takes its place
        if let Some(request) = self.bus_operation_for_state(self.current_execute_state) {
            bus.make_request(request);
        }
        let e_in_instr: u32 = self.d_out_instr;
        match self.current_execute_state {
            ExecuteState::DataTransfer(_) => {},
            _ => {
                // Pre-read
                let d_in_instr: u32 = if self.fetch_held {
                    self.f_out_instr
                } else {
                    bus.data
                };
                self.f_out_instr = d_in_instr;
                self.fetch_held = false;
                self.sequential_fetch = true;
                // Decode stage
                self.d_out_instr = d_in_instr;
            },
        }
        // Execute stage
        self.step_execute_fsm(bus, e_in_instr)
    }

    /// One cycle of the core. While the bus is busy or a DMA master holds
    /// it, the core does nothing; no request may be outstanding otherwise.
    pub fn step(&mut self, bus: &mut Bus) -> (outcome: CycleOutcome)
        requires
            !old(bus).busy && !old(bus).dma_active ==> old(bus).request is None,
        ensures
            (*final(self), *final(bus)) == old(self).spec_step(*old(bus)),
            outcome == old(self).spec_step_outcome(*old(bus)),
    {
        if bus.should_cpu_wait() {
            return CycleOutcome::Waited;
        }
        self.step_fetch_or_single_instruction(bus)
    }
}

fn load_word(data: u32, width: AccessWidth) -> (r: u32)
    ensures
        r == load_value(data, width),
{
    match width {
        AccessWidth::Bit8 => data & 0xFF,
        AccessWidth::Bit16 => data & 0xFFFF,
        AccessWidth::Bit32 => data,
    }
}

fn store_word(value: u32, width: AccessWidth) -> (r: u32)
    ensures
        r == store_value(value, width),
{
    match width {
        AccessWidth::Bit8 => mirror_8to32((value & 0xFF) as u8),
        AccessWidth::Bit16 => mirror_16to32((value & 0xFFFF) as u16),
        AccessWidth::Bit32 => value,
    }
}

/// The opcodes that only compare leave every register but the program
/// counter as it was, whatever the operands are.
pub proof fn lemma_compare_keeps_registers(cpu: ArmCpu, opcode: u8, s: bool, rn: u8, rd: u8, rotate: u8, imm: u8)
    requires
        is_compare(opcode),
    ensures
        forall|i: int|
            0 <= i < 15 ==> cpu.data_processed(opcode, s, rn, rd, rotate, imm).regs[i] == cpu.regs[i],
        cpu.data_processed(opcode, s, rn, rd, rotate, imm).regs[15] == cpu.regs[15].wrapping_add(4),
        cpu.data_processed(opcode, s, rn, rd, rotate, imm).current_execute_state == cpu.current_execute_state,
{
    broadcast use vstd::array::axiom_spec_array_update;

}

/// After the program counter jumps to `target`, the execute stage is idle
/// for two cycles while the words at `target` and `target + 4` are fetched,
/// the first of them out of sequence. In the third cycle the word that the
/// fetch at `target` returned executes, and finds `target + 8` in the
/// program counter.
pub proof fn lemma_pipeline_refill(before: ArmCpu, target: u32, bus1: Bus, bus2: Bus, bus3: Bus)
    requires
        !bus1.busy && !bus1.dma_active,
        !bus2.busy && !bus2.dma_active,
        !bus3.busy && !bus3.dma_active,
    ensures
        ({
            let cpu0 = before.jumped(target);
            let (cpu1, out1) = cpu0.spec_step(bus1);
            let (cpu2, out2) = cpu1.spec_step(bus2);
            let (cpu3, out3) = cpu2.spec_step(bus3);
            let ready = cpu2.latched(bus3.data);
            &&& cpu0.spec_step_outcome(bus1) == CycleOutcome::Bubble
            &&& out1.request == Some(ArmCpu::fetch(target, false))
            &&& cpu1.spec_step_outcome(bus2) == CycleOutcome::Bubble
            &&& out2.request == Some(ArmCpu::fetch(target.wrapping_add(4), true))
            &&& out3.request == Some(ArmCpu::fetch(target.wrapping_add(4).wrapping_add(4), true))
            &&& ready.regs[15] == target.wrapping_add(4).wrapping_add(4)
            &&& forall|i: int| 0 <= i < 15 ==> ready.regs[i] == before.regs[i]
            &&& ready.cpsr == before.cpsr
            &&& cpu3 == ready.executed(bus2.data)
            &&& cpu2.spec_step_outcome(bus3) == ready.execute_outcome(bus2.data)
        }),
{
    broadcast use vstd::array::axiom_spec_array_update;

}

/// A branch whose condition passes makes the program counter jump: to the
/// address of the branch plus eight plus the branch distance.
pub proof fn lemma_taken_branch_jumps(cpu: ArmCpu, instr: u32)
    requires
        cpu.regs[15] % 4 == 0,
        spec_decode(instr) is BranchImm,
        condition_passes(spec_decode(instr)->BranchImm_cond, cpu.cpsr),
    ensures
        ({
            let link = spec_decode(instr)->link;
            let offset = spec_decode(instr)->BranchImm_offset;
            let linked = if link {
                cpu.with_reg(14, cpu.regs[15].wrapping_sub(4))
            } else {
                cpu
            };
            cpu.executed(instr) == linked.jumped(cpu.regs[15].wrapping_add(spec_branch_distance(offset)))
        }),
{
}

/// The core as a task of the scheduler, with the bus as context. It runs
/// one cycle per resumption and then waits for the next cycle. If the
/// request of an earlier cycle is still on a free bus, nobody has taken it
/// yet, and the core holds off.
pub struct CpuTask {
    pub cpu: ArmCpu,
    /// What the last resumption did, for whoever wants to report it.
    pub last_outcome: Option<CycleOutcome>,
}

impl CpuTask {
    /// Core and bus after one resumption of the task.
    pub open spec fn cycle(cpu: ArmCpu, bus: Bus) -> (ArmCpu, Bus) {
        if !bus.busy && !bus.dma_active && bus.request is Some {
            (cpu, bus)
        } else {
            cpu.spec_step(bus)
        }
    }

    /// What one resumption of the task reports.
    pub open spec fn cycle_outcome(cpu: ArmCpu, bus: Bus) -> CycleOutcome {
        if !bus.busy && !bus.dma_active && bus.request is Some {
            CycleOutcome::Waited
        } else {
            cpu.spec_step_outcome(bus)
        }
    }

    /// A task around `cpu` that has not run yet.
    pub fn new(cpu: ArmCpu) -> (r: CpuTask)
        ensures
            r == (CpuTask { cpu, last_outcome: None }),
    {
        CpuTask { cpu, last_outcome: None }
    }
}

impl Task<Bus> for CpuTask {
    open spec fn resumable(&self) -> bool {
        true
    }

    fn step(&mut self, bus: &mut Bus) -> (r: GeneratorState<WaitCycles, ()>)
        ensures
            r == GeneratorState::<WaitCycles, ()>::Yielded(WaitCycles { cycles: 1 }),
            (final(self).cpu, *final(bus)) == Self::cycle(old(self).cpu, *old(bus)),
            final(self).last_outcome == Some(Self::cycle_outcome(old(self).cpu, *old(bus))),
    {
        if bus.should_cpu_wait() || bus.request.is_none() {
            let outcome = self.cpu.step(bus);
            self.last_outcome = Some(outcome);
        } else {
            self.last_outcome = Some(CycleOutcome::Waited);
        }
        GeneratorState::Yielded(wait_cycles(1))
    }
}

} // verus!
