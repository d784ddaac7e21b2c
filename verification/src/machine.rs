//! The execution model: the register/stack machine state, and the exact
//! semantics of one fetch-decode-execute step.
//!
//! The machine owns a fixed-size stack region addressed as the range
//! `[0, STACK_SIZE)`; register 10 starts at `STACK_SIZE`, the address one
//! past the region's top, and every load or store is checked against the
//! region before any byte is touched. Byte order in memory and in the
//! byte-order conversion ops models a little-endian host.

use vstd::prelude::*;

use crate::types::Class;
use crate::types::Fault;
use crate::types::Inst;
use crate::types::Mode;
use crate::types::Op;
use crate::types::Size;
use crate::types::Src;
use crate::types::lemma_decode_wf;
use crate::types::spec_decode;

verus! {

/// The byte size of the stack region each run owns.
pub const STACK_SIZE: usize = 512;

/// The number of general-purpose registers.
pub const NUM_REGS: usize = 16;

/// The longest program the engine accepts, leaving the program counter
/// room for the largest forward branch without overflowing a `usize`.
pub const MAX_PROG_LEN: usize = usize::MAX - 0x10000;

/// The mathematical machine state: the sixteen 64-bit registers, the
/// program counter, and the bytes of the stack region.
#[verifier::ext_equal]
pub struct VmState {
    pub regs: Seq<u64>,
    pub pc: nat,
    pub stack: Seq<u8>,
}

impl VmState {
    /// A state of the right shape: sixteen registers and a full-size
    /// stack region.
    pub open spec fn wf(self) -> bool {
        self.regs.len() == NUM_REGS && self.stack.len() == STACK_SIZE
    }
}

/// The state one run starts in: every register zero except register 1,
/// which holds the caller's context value, and register 10, which holds
/// the address one past the top of the zeroed stack region; the program
/// counter at the first word.
pub open spec fn init_state(ctx: u64) -> VmState {
    VmState {
        regs: Seq::new(
            NUM_REGS as nat,
            |i: int|
                if i == 1 {
                    ctx
                } else if i == 10 {
                    STACK_SIZE as u64
                } else {
                    0u64
                },
        ),
        pc: 0,
        stack: Seq::new(STACK_SIZE as nat, |i: int| 0u8),
    }
}

/// What one step does beyond transforming the state: continue, request a
/// helper call with the given immediate, terminate with a result, or
/// abort with a fault.
#[derive(Debug, Copy, Clone, PartialEq, Eq, Structural)]
pub enum StepTag {
    Cont,
    Call(i32),
    Done(u64),
    Abort(Fault),
}

/// The outcome of one arithmetic/logic operation: a result value, a
/// division or remainder by zero (which terminates the run with 0), a
/// byte-order conversion with an invalid width, or an operation form
/// that the engine does not implement.
#[derive(Debug, Copy, Clone, PartialEq, Eq, Structural)]
pub enum AluOut {
    Value(u64),
    DivideByZero,
    InvalidWidth,
    Unimplemented,
}

/// The second operand of an ALU or jump instruction: the sign-extended
/// immediate for K, the source register's value for X.
pub open spec fn spec_operand(s: VmState, i: Inst) -> u64 {
    if i.src == Some(Src::X) {
        s.regs[i.srcreg as int]
    } else {
        i.imm as u64
    }
}

/// The bytes of a 16-bit value exchanged.
pub open spec fn spec_swap16(x: u16) -> u16 {
    (x << 8) | (x >> 8)
}

/// The bytes of a 32-bit value reversed.
pub open spec fn spec_swap32(x: u32) -> u32 {
    (x << 24) | ((x & 0xff00) << 8) | ((x >> 8) & 0xff00) | (x >> 24)
}

/// The bytes of a 64-bit value reversed.
pub open spec fn spec_swap64(x: u64) -> u64 {
    (x << 56) | ((x & 0xff00) << 40) | ((x & 0xff0000) << 24) | ((x & 0xff000000) << 8) | ((x >> 8)
        & 0xff000000) | ((x >> 24) & 0xff0000) | ((x >> 40) & 0xff00) | (x >> 56)
}

/// One 32-bit arithmetic/logic operation on the low halves of its
/// operands. Every produced value is a zero-extended 32-bit result: the
/// upper half is cleared. Shift amounts are taken modulo 32. A byte-order
/// conversion (END) reads its requested width from the immediate and
/// converts to little-endian order for K, big-endian order for X.
pub open spec fn spec_alu32(op: Op, sk: Src, d: u64, o: u64, imm: i32) -> AluOut {
    let dl = d as u32;
    let ol = o as u32;
    match op {
        Op::ADD => AluOut::Value(dl.wrapping_add(ol) as u64),
        Op::SUB => AluOut::Value(dl.wrapping_sub(ol) as u64),
        Op::MUL => AluOut::Value(dl.wrapping_mul(ol) as u64),
        Op::DIV => if ol == 0 {
            AluOut::DivideByZero
        } else {
            AluOut::Value((dl / ol) as u64)
        },
        Op::OR => AluOut::Value((dl | ol) as u64),
        Op::AND => AluOut::Value((dl & ol) as u64),
        Op::LSH => AluOut::Value((dl << (ol % 32)) as u64),
        Op::RSH => AluOut::Value((dl >> (ol % 32)) as u64),
        Op::NEG => if sk == Src::K {
            AluOut::Value(0u32.wrapping_sub(dl) as u64)
        } else {
            AluOut::Unimplemented
        },
        Op::MOD => if ol == 0 {
            AluOut::DivideByZero
        } else {
            AluOut::Value((dl % ol) as u64)
        },
        Op::XOR => AluOut::Value((dl ^ ol) as u64),
        Op::MOV => AluOut::Value(ol as u64),
        Op::ARSH => AluOut::Value((((dl as i32) >> (ol % 32)) as u32) as u64),
        Op::END => match sk {
            Src::K => if imm == 16 {
                AluOut::Value((d as u16) as u64)
            } else if imm == 32 {
                AluOut::Value((d as u32) as u64)
            } else if imm == 64 {
                AluOut::Value(d)
            } else {
                AluOut::InvalidWidth
            },
            Src::X => if imm == 16 {
                AluOut::Value(spec_swap16(d as u16) as u64)
            } else if imm == 32 {
                AluOut::Value(spec_swap32(d as u32) as u64)
            } else if imm == 64 {
                AluOut::Value(spec_swap64(d))
            } else {
                AluOut::InvalidWidth
            },
        },
        _ => AluOut::Unimplemented,
    }
}

/// One 64-bit arithmetic/logic operation on the full register width.
/// Shift amounts are taken modulo 64. The 64-bit family wires no
/// byte-order conversion and no register-negate form.
pub open spec fn spec_alu64(op: Op, sk: Src, d: u64, o: u64) -> AluOut {
    match op {
        Op::ADD => AluOut::Value(d.wrapping_add(o)),
        Op::SUB => AluOut::Value(d.wrapping_sub(o)),
        Op::MUL => AluOut::Value(d.wrapping_mul(o)),
        Op::DIV => if o == 0 {
            AluOut::DivideByZero
        } else {
            AluOut::Value(d / o)
        },
        Op::OR => AluOut::Value(d | o),
        Op::AND => AluOut::Value(d & o),
        Op::LSH => AluOut::Value(d << (o % 64)),
        Op::RSH => AluOut::Value(d >> (o % 64)),
        Op::NEG => if sk == Src::K {
            AluOut::Value(0u64.wrapping_sub(d))
        } else {
            AluOut::Unimplemented
        },
        Op::MOD => if o == 0 {
            AluOut::DivideByZero
        } else {
            AluOut::Value(d % o)
        },
        Op::XOR => AluOut::Value(d ^ o),
        Op::MOV => AluOut::Value(o),
        Op::ARSH => AluOut::Value(((d as i64) >> (o % 64)) as u64),
        _ => AluOut::Unimplemented,
    }
}

/// Whether a conditional jump is taken: `None` when the operation is no
/// comparison. The 32-bit family compares the low halves; JGT/JGE/JLT/JLE
/// compare unsigned, JSGT/JSGE/JSLT/JSLE signed; JSET tests whether the
/// operands share a set bit.
pub open spec fn spec_jump_taken(op: Op, is32: bool, d: u64, o: u64) -> Option<bool> {
    if is32 {
        let dl = d as u32;
        let ol = o as u32;
        match op {
            Op::JEQ => Some(dl == ol),
            Op::JGT => Some(dl > ol),
            Op::JGE => Some(dl >= ol),
            Op::JSET => Some(dl & ol != 0),
            Op::JNE => Some(dl != ol),
            Op::JSGT => Some((dl as i32) > (ol as i32)),
            Op::JSGE => Some((dl as i32) >= (ol as i32)),
            Op::JLT => Some(dl < ol),
            Op::JLE => Some(dl <= ol),
            Op::JSLT => Some((dl as i32) < (ol as i32)),
            Op::JSLE => Some((dl as i32) <= (ol as i32)),
            _ => None,
        }
    } else {
        match op {
            Op::JEQ => Some(d == o),
            Op::JGT => Some(d > o),
            Op::JGE => Some(d >= o),
            Op::JSET => Some(d & o != 0),
            Op::JNE => Some(d != o),
            Op::JSGT => Some((d as i64) > (o as i64)),
            Op::JSGE => Some((d as i64) >= (o as i64)),
            Op::JLT => Some(d < o),
            Op::JLE => Some(d <= o),
            Op::JSLT => Some((d as i64) < (o as i64)),
            Op::JSLE => Some((d as i64) <= (o as i64)),
            _ => None,
        }
    }
}

/// The byte width of an access size.
pub open spec fn spec_size_bytes(sz: Size) -> usize {
    match sz {
        Size::B => 1,
        Size::H => 2,
        Size::W => 4,
        Size::DW => 8,
    }
}

/// The effective address of a memory access: the base register's value
/// plus the sign-extended offset, wrapping over the 64-bit address space.
pub open spec fn spec_ea(base: u64, off: i16) -> u64 {
    base.wrapping_add(off as u64)
}

/// A little-endian load of `n` bytes starting at byte `a` of the stack.
pub open spec fn spec_load(stack: Seq<u8>, a: int, n: usize) -> u64 {
    if n == 1 {
        stack[a] as u64
    } else if n == 2 {
        (stack[a] as u64) | ((stack[a + 1] as u64) << 8)
    } else if n == 4 {
        (stack[a] as u64) | ((stack[a + 1] as u64) << 8) | ((stack[a + 2] as u64) << 16) | ((stack[a
            + 3] as u64) << 24)
    } else {
        (stack[a] as u64) | ((stack[a + 1] as u64) << 8) | ((stack[a + 2] as u64) << 16) | ((stack[a
            + 3] as u64) << 24) | ((stack[a + 4] as u64) << 32) | ((stack[a + 5] as u64) << 40) | ((
        stack[a + 6] as u64) << 48) | ((stack[a + 7] as u64) << 56)
    }
}

/// A little-endian store of the low `n` bytes of `v` starting at byte
/// `a` of the stack.
pub open spec fn spec_store(stack: Seq<u8>, a: int, n: usize, v: u64) -> Seq<u8> {
    if n == 1 {
        stack.update(a, v as u8)
    } else if n == 2 {
        stack.update(a, v as u8).update(a + 1, (v >> 8) as u8)
    } else if n == 4 {
        stack.update(a, v as u8).update(a + 1, (v >> 8) as u8).update(a + 2, (v >> 16) as u8).update(
            a + 3,
            (v >> 24) as u8,
        )
    } else {
        stack.update(a, v as u8).update(a + 1, (v >> 8) as u8).update(a + 2, (v >> 16) as u8).update(
            a + 3,
            (v >> 24) as u8,
        ).update(a + 4, (v >> 32) as u8).update(a + 5, (v >> 40) as u8).update(
            a + 6,
            (v >> 48) as u8,
        ).update(a + 7, (v >> 56) as u8)
    }
}

/// The legacy packet addressing modes the engine acknowledges but does
/// not support.
pub open spec fn is_legacy_mode(m: Mode) -> bool {
    m == Mode::ABS || m == Mode::IND || m == Mode::LEN || m == Mode::MSH
}

/// A branch: the signed offset is added to the already-advanced program
/// counter, so offset 0 continues with the next instruction. A negative
/// target aborts; a target at or past the end of the program aborts at
/// the next fetch.
pub open spec fn spec_branch(s: VmState, off: i16) -> (VmState, StepTag) {
    if s.pc + off < 0 {
        (s, StepTag::Abort(Fault::PcOutOfRange))
    } else {
        (VmState { pc: (s.pc + off) as nat, ..s }, StepTag::Cont)
    }
}

/// A checked store step: fault when any touched byte would fall outside
/// the stack region, otherwise write the low `n` bytes of `v`.
pub open spec fn spec_store_step(s: VmState, base: u64, off: i16, sz: Size, v: u64) -> (
    VmState,
    StepTag,
) {
    let n = spec_size_bytes(sz);
    let addr = spec_ea(base, off);
    if addr + n <= STACK_SIZE {
        (VmState { stack: spec_store(s.stack, addr as int, n, v), ..s }, StepTag::Cont)
    } else {
        (s, StepTag::Abort(Fault::OutOfBoundsMemoryAccess))
    }
}

/// One ALU-class instruction: apply the operation to the destination
/// register and the operand; a division by zero terminates the run with
/// result 0, a malformed or unwired operation aborts.
pub open spec fn spec_alu_step(s: VmState, i: Inst, is64: bool) -> (VmState, StepTag) {
    let d = s.regs[i.dstreg as int];
    let o = spec_operand(s, i);
    let out = match (i.op, i.src) {
        (Some(op), Some(sk)) => if is64 {
            spec_alu64(op, sk, d, o)
        } else {
            spec_alu32(op, sk, d, o, i.imm)
        },
        _ => AluOut::Unimplemented,
    };
    match out {
        AluOut::Value(v) => (VmState { regs: s.regs.update(i.dstreg as int, v), ..s }, StepTag::Cont),
        AluOut::DivideByZero => (s, StepTag::Done(0)),
        AluOut::InvalidWidth => (s, StepTag::Abort(Fault::InvalidEndWidth)),
        AluOut::Unimplemented => (s, StepTag::Abort(Fault::UnimplementedOpcode)),
    }
}

/// One JMP-class instruction: an unconditional or conditional branch, a
/// helper-call request, or program exit with register 0. JA, CALL and
/// EXIT are wired only in their 64-bit immediate forms.
pub open spec fn spec_jmp_step(s: VmState, i: Inst, is32: bool) -> (VmState, StepTag) {
    match (i.op, i.src) {
        (Some(op), Some(sk)) => if op == Op::JA {
            if !is32 && sk == Src::K {
                spec_branch(s, i.off)
            } else {
                (s, StepTag::Abort(Fault::UnimplementedOpcode))
            }
        } else if op == Op::CALL {
            if !is32 && sk == Src::K {
                (s, StepTag::Call(i.imm))
            } else {
                (s, StepTag::Abort(Fault::UnimplementedOpcode))
            }
        } else if op == Op::EXIT {
            if !is32 && sk == Src::K {
                (s, StepTag::Done(s.regs[0]))
            } else {
                (s, StepTag::Abort(Fault::UnimplementedOpcode))
            }
        } else {
            let d = s.regs[i.dstreg as int];
            let o = spec_operand(s, i);
            match spec_jump_taken(op, is32, d, o) {
                Some(true) => spec_branch(s, i.off),
                Some(false) => (s, StepTag::Cont),
                None => (s, StepTag::Abort(Fault::UnimplementedOpcode)),
            }
        },
        _ => (s, StepTag::Abort(Fault::UnimplementedOpcode)),
    }
}

/// One LD-class instruction. Only the wide-immediate load is wired: the
/// only two-slot instruction, whose value is the first word's immediate
/// zero-extended with the following word's immediate as the high half.
pub open spec fn spec_ld_step(prog: Seq<u64>, s: VmState, i: Inst) -> (VmState, StepTag) {
    match (i.mode, i.size) {
        (Some(Mode::IMM), Some(Size::DW)) => {
            if s.pc >= prog.len() {
                (s, StepTag::Abort(Fault::PcOutOfRange))
            } else {
                let hi = prog[s.pc as int];
                let v = ((i.imm as u32) as u64) | ((hi >> 32) << 32);
                (VmState { pc: s.pc + 1, regs: s.regs.update(i.dstreg as int, v), ..s }, StepTag::Cont)
            }
        },
        (Some(m), _) => if is_legacy_mode(m) {
            (s, StepTag::Abort(Fault::UnsupportedAddressingMode))
        } else {
            (s, StepTag::Abort(Fault::UnimplementedOpcode))
        },
        _ => (s, StepTag::Abort(Fault::UnimplementedOpcode)),
    }
}

/// One LDX-class instruction: a checked load from the stack region into
/// the destination register.
pub open spec fn spec_ldx_step(s: VmState, i: Inst) -> (VmState, StepTag) {
    match (i.mode, i.size) {
        (Some(Mode::MEM), Some(sz)) => {
            let n = spec_size_bytes(sz);
            let addr = spec_ea(s.regs[i.srcreg as int], i.off);
            if addr + n <= STACK_SIZE {
                (
                    VmState {
                        regs: s.regs.update(i.dstreg as int, spec_load(s.stack, addr as int, n)),
                        ..s
                    },
                    StepTag::Cont,
                )
            } else {
                (s, StepTag::Abort(Fault::OutOfBoundsMemoryAccess))
            }
        },
        (Some(m), _) => if is_legacy_mode(m) {
            (s, StepTag::Abort(Fault::UnsupportedAddressingMode))
        } else {
            (s, StepTag::Abort(Fault::UnimplementedOpcode))
        },
        _ => (s, StepTag::Abort(Fault::UnimplementedOpcode)),
    }
}

/// One ST-class instruction: a checked store of the sign-extended
/// immediate to the stack region.
pub open spec fn spec_st_step(s: VmState, i: Inst) -> (VmState, StepTag) {
    match (i.mode, i.size) {
        (Some(Mode::MEM), Some(sz)) => spec_store_step(
            s,
            s.regs[i.dstreg as int],
            i.off,
            sz,
            i.imm as u64,
        ),
        (Some(m), _) => if is_legacy_mode(m) {
            (s, StepTag::Abort(Fault::UnsupportedAddressingMode))
        } else {
            (s, StepTag::Abort(Fault::UnimplementedOpcode))
        },
        _ => (s, StepTag::Abort(Fault::UnimplementedOpcode)),
    }
}

/// One STX-class instruction: a checked store of the source register to
/// the stack region.
pub open spec fn spec_stx_step(s: VmState, i: Inst) -> (VmState, StepTag) {
    match (i.mode, i.size) {
        (Some(Mode::MEM), Some(sz)) => spec_store_step(
            s,
            s.regs[i.dstreg as int],
            i.off,
            sz,
            s.regs[i.srcreg as int],
        ),
        (Some(m), _) => if is_legacy_mode(m) {
            (s, StepTag::Abort(Fault::UnsupportedAddressingMode))
        } else {
            (s, StepTag::Abort(Fault::UnimplementedOpcode))
        },
        _ => (s, StepTag::Abort(Fault::UnimplementedOpcode)),
    }
}

/// The effect of one decoded instruction on a state whose program
/// counter has already advanced past the instruction's own word.
pub open spec fn step_inst(prog: Seq<u64>, s: VmState, i: Inst) -> (VmState, StepTag) {
    match i.class {
        Some(Class::ALU) => spec_alu_step(s, i, false),
        Some(Class::ALU64) => spec_alu_step(s, i, true),
        Some(Class::JMP) => spec_jmp_step(s, i, false),
        Some(Class::JMP32) => spec_jmp_step(s, i, true),
        Some(Class::LD) => spec_ld_step(prog, s, i),
        Some(Class::LDX) => spec_ldx_step(s, i),
        Some(Class::ST) => spec_st_step(s, i),
        Some(Class::STX) => spec_stx_step(s, i),
        None => (s, StepTag::Abort(Fault::Decode)),
    }
}

/// One full fetch-decode-execute step: fault when the program counter is
/// outside the program, otherwise fetch the word there, advance past it,
/// decode it, and apply it.
pub open spec fn step_spec(prog: Seq<u64>, s: VmState) -> (VmState, StepTag) {
    if s.pc >= prog.len() {
        (s, StepTag::Abort(Fault::PcOutOfRange))
    } else {
        let w = prog[s.pc as int];
        match spec_decode(w) {
            Err(_) => (s, StepTag::Abort(Fault::Decode)),
            Ok(i) => step_inst(prog, VmState { pc: s.pc + 1, ..s }, i),
        }
    }
}

proof fn lemma_shr32_of_small(v: u64)
    by (bit_vector)
    requires
        v < 0x1_0000_0000,
    ensures
        v >> 32 == 0,
{
}

/// Masking law for the 32-bit ALU family: every value one of its
/// arithmetic/logic operations produces fits in 32 bits — the upper half
/// of the result is zero, whatever the operands held. The byte-order
/// conversion (END) is its own category and is exempt: its 64-bit width
/// rewrites the full register.
pub proof fn lemma_alu32_masked(op: Op, sk: Src, d: u64, o: u64, imm: i32)
    requires
        op != Op::END,
    ensures
        spec_alu32(op, sk, d, o, imm) matches AluOut::Value(v) ==> v < 0x1_0000_0000 && v >> 32
            == 0,
{
    if let AluOut::Value(v) = spec_alu32(op, sk, d, o, imm) {
        assert(v < 0x1_0000_0000);
        lemma_shr32_of_small(v);
    }
}

/// Masking law at the machine level: after any 32-bit ALU
/// arithmetic/logic instruction executes, the upper 32 bits of its
/// destination register are zero.
pub proof fn lemma_step_alu32_masked(prog: Seq<u64>, s: VmState, i: Inst)
    requires
        s.wf(),
        s.pc < prog.len(),
        spec_decode(prog[s.pc as int]) == Ok::<Inst, Fault>(i),
        i.class == Some(Class::ALU),
        i.op != Some(Op::END),
        step_spec(prog, s).1 == StepTag::Cont,
    ensures
        step_spec(prog, s).0.regs[i.dstreg as int] < 0x1_0000_0000,
        step_spec(prog, s).0.regs[i.dstreg as int] >> 32 == 0,
{
    let s1 = VmState { pc: s.pc + 1, ..s };
    lemma_decode_wf(prog[s.pc as int]);
    lemma_alu32_masked(
        i.op->Some_0,
        i.src->Some_0,
        s1.regs[i.dstreg as int],
        spec_operand(s1, i),
        i.imm,
    );
}

/// Fail-safe division: a DIV or MOD whose divisor operand is zero does
/// not fault and does not trap; it terminates the run with result 0, as
/// if EXIT had been reached with register 0 zeroed. The 32-bit family
/// reads its divisor from the operand's low half.
pub proof fn lemma_div_zero_terminates(prog: Seq<u64>, s: VmState, i: Inst)
    requires
        s.wf(),
        s.pc < prog.len(),
        spec_decode(prog[s.pc as int]) == Ok::<Inst, Fault>(i),
        i.class == Some(Class::ALU) || i.class == Some(Class::ALU64),
        i.op == Some(Op::DIV) || i.op == Some(Op::MOD),
        i.class == Some(Class::ALU64) ==> spec_operand(
            VmState { pc: s.pc + 1, ..s },
            i,
        ) == 0,
        i.class == Some(Class::ALU) ==> spec_operand(
            VmState { pc: s.pc + 1, ..s },
            i,
        ) as u32 == 0,
    ensures
        step_spec(prog, s) == (VmState { pc: s.pc + 1, ..s }, StepTag::Done(0)),
{
    lemma_decode_wf(prog[s.pc as int]);
}

/// Branch-offset law: a conditional jump whose condition is false
/// continues with the immediately following instruction; one whose
/// condition is true continues `offset + 1` slots past its own word.
/// Either way the registers and the stack are untouched.
pub proof fn lemma_jump_offset(prog: Seq<u64>, s: VmState, i: Inst)
    requires
        s.wf(),
        s.pc < prog.len(),
        spec_decode(prog[s.pc as int]) == Ok::<Inst, Fault>(i),
        i.class == Some(Class::JMP) || i.class == Some(Class::JMP32),
        i.op matches Some(op) && spec_jump_taken(
            op,
            i.class == Some(Class::JMP32),
            s.regs[i.dstreg as int],
            spec_operand(s, i),
        ) is Some,
        spec_jump_taken(
            i.op->Some_0,
            i.class == Some(Class::JMP32),
            s.regs[i.dstreg as int],
            spec_operand(s, i),
        ) == Some(true) ==> s.pc + 1 + i.off >= 0,
    ensures
        step_spec(prog, s).1 == StepTag::Cont,
        step_spec(prog, s).0.regs == s.regs,
        step_spec(prog, s).0.stack == s.stack,
        step_spec(prog, s).0.pc == if spec_jump_taken(
            i.op->Some_0,
            i.class == Some(Class::JMP32),
            s.regs[i.dstreg as int],
            spec_operand(s, i),
        ) == Some(true) {
            (s.pc + 1 + i.off) as nat
        } else {
            s.pc + 1 as nat
        },
{
    lemma_decode_wf(prog[s.pc as int]);
    let s1 = VmState { pc: s.pc + 1, ..s };
    assert(spec_operand(s1, i) == spec_operand(s, i));
}

/// Fault law for malformed words: a fetched word that does not decode
/// aborts the run with a decode fault and changes nothing — the machine
/// never silently continues past it.
pub proof fn lemma_undecodable_word_aborts(prog: Seq<u64>, s: VmState)
    requires
        s.pc < prog.len(),
        spec_decode(prog[s.pc as int]) is Err,
    ensures
        step_spec(prog, s) == (s, StepTag::Abort(Fault::Decode)),
{
}

fn swap16(x: u16) -> (r: u16)
    ensures
        r == spec_swap16(x),
{
    (x << 8u16) | (x >> 8u16)
}

fn swap32(x: u32) -> (r: u32)
    ensures
        r == spec_swap32(x),
{
    (x << 24u32) | ((x & 0xff00) << 8u32) | ((x >> 8u32) & 0xff00) | (x >> 24u32)
}

fn swap64(x: u64) -> (r: u64)
    ensures
        r == spec_swap64(x),
{
    (x << 56u64) | ((x & 0xff00) << 40u64) | ((x & 0xff0000) << 24u64) | ((x & 0xff000000)
        << 8u64) | ((x >> 8u64) & 0xff000000) | ((x >> 24u64) & 0xff0000) | ((x >> 40u64) & 0xff00)
        | (x >> 56u64)
}

/// Evaluate one 32-bit arithmetic/logic operation.
pub fn eval_alu32(op: Op, sk: Src, d: u64, o: u64, imm: i32) -> (r: AluOut)
    ensures
        r == spec_alu32(op, sk, d, o, imm),
{
    let dl = #[verifier::truncate] (d as u32);
    let ol = #[verifier::truncate] (o as u32);
    match op {
        Op::ADD => AluOut::Value(dl.wrapping_add(ol) as u64),
        Op::SUB => AluOut::Value(dl.wrapping_sub(ol) as u64),
        Op::MUL => AluOut::Value(dl.wrapping_mul(ol) as u64),
        Op::DIV => if ol == 0 {
            AluOut::DivideByZero
        } else {
            AluOut::Value((dl / ol) as u64)
        },
        Op::OR => AluOut::Value((dl | ol) as u64),
        Op::AND => AluOut::Value((dl & ol) as u64),
        Op::LSH => AluOut::Value((dl << (ol % 32)) as u64),
        Op::RSH => AluOut::Value((dl >> (ol % 32)) as u64),
        Op::NEG => if sk == Src::K {
            AluOut::Value(0u32.wrapping_sub(dl) as u64)
        } else {
            AluOut::Unimplemented
        },
        Op::MOD => if ol == 0 {
            AluOut::DivideByZero
        } else {
            AluOut::Value((dl % ol) as u64)
        },
        Op::XOR => AluOut::Value((dl ^ ol) as u64),
        Op::MOV => AluOut::Value(ol as u64),
        Op::ARSH => AluOut::Value(
            ((#[verifier::truncate] (dl as i32)) >> (ol % 32)) as u32 as u64,
        ),
        Op::END => match sk {
            Src::K => if imm == 16 {
                AluOut::Value((#[verifier::truncate] (d as u16)) as u64)
            } else if imm == 32 {
                AluOut::Value(dl as u64)
            } else if imm == 64 {
                AluOut::Value(d)
            } else {
                AluOut::InvalidWidth
            },
            Src::X => if imm == 16 {
                AluOut::Value(swap16(#[verifier::truncate] (d as u16)) as u64)
            } else if imm == 32 {
                AluOut::Value(swap32(dl) as u64)
            } else if imm == 64 {
                AluOut::Value(swap64(d))
            } else {
                AluOut::InvalidWidth
            },
        },
        _ => AluOut::Unimplemented,
    }
}

/// Evaluate one 64-bit arithmetic/logic operation.
pub fn eval_alu64(op: Op, sk: Src, d: u64, o: u64) -> (r: AluOut)
    ensures
        r == spec_alu64(op, sk, d, o),
{
    match op {
        Op::ADD => AluOut::Value(d.wrapping_add(o)),
        Op::SUB => AluOut::Value(d.wrapping_sub(o)),
        Op::MUL => AluOut::Value(d.wrapping_mul(o)),
        Op::DIV => if o == 0 {
            AluOut::DivideByZero
        } else {
            AluOut::Value(d / o)
        },
        Op::OR => AluOut::Value(d | o),
        Op::AND => AluOut::Value(d & o),
        Op::LSH => AluOut::Value(d << (o % 64)),
        Op::RSH => AluOut::Value(d >> (o % 64)),
        Op::NEG => if sk == Src::K {
            AluOut::Value(0u64.wrapping_sub(d))
        } else {
            AluOut::Unimplemented
        },
        Op::MOD => if o == 0 {
            AluOut::DivideByZero
        } else {
            AluOut::Value(d % o)
        },
        Op::XOR => AluOut::Value(d ^ o),
        Op::MOV => AluOut::Value(o),
        Op::ARSH => AluOut::Value(
            ((#[verifier::truncate] (d as i64)) >> (o % 64)) as u64,
        ),
        _ => AluOut::Unimplemented,
    }
}

/// Evaluate whether a conditional jump is taken; `None` for the
/// non-comparison operations.
pub fn eval_jump(op: Op, is32: bool, d: u64, o: u64) -> (r: Option<bool>)
    ensures
        r == spec_jump_taken(op, is32, d, o),
{
    if is32 {
        let dl = #[verifier::truncate] (d as u32);
        let ol = #[verifier::truncate] (o as u32);
        let ds = #[verifier::truncate] (dl as i32);
        let os = #[verifier::truncate] (ol as i32);
        match op {
            Op::JEQ => Some(dl == ol),
            Op::JGT => Some(dl > ol),
            Op::JGE => Some(dl >= ol),
            Op::JSET => Some(dl & ol != 0),
            Op::JNE => Some(dl != ol),
            Op::JSGT => Some(ds > os),
            Op::JSGE => Some(ds >= os),
            Op::JLT => Some(dl < ol),
            Op::JLE => Some(dl <= ol),
            Op::JSLT => Some(ds < os),
            Op::JSLE => Some(ds <= os),
            _ => None,
        }
    } else {
        let ds = #[verifier::truncate] (d as i64);
        let os = #[verifier::truncate] (o as i64);
        match op {
            Op::JEQ => Some(d == o),
            Op::JGT => Some(d > o),
            Op::JGE => Some(d >= o),
            Op::JSET => Some(d & o != 0),
            Op::JNE => Some(d != o),
            Op::JSGT => Some(ds > os),
            Op::JSGE => Some(ds >= os),
            Op::JLT => Some(d < o),
            Op::JLE => Some(d <= o),
            Op::JSLT => Some(ds < os),
            Op::JSLE => Some(ds <= os),
            _ => None,
        }
    }
}

fn size_bytes(sz: Size) -> (n: usize)
    ensures
        n == spec_size_bytes(sz),
{
    match sz {
        Size::B => 1,
        Size::H => 2,
        Size::W => 4,
        Size::DW => 8,
    }
}

fn load_le(stack: &Vec<u8>, idx: usize, n: usize) -> (r: u64)
    requires
        n == 1 || n == 2 || n == 4 || n == 8,
        stack@.len() == STACK_SIZE,
        idx + n <= STACK_SIZE,
    ensures
        r == spec_load(stack@, idx as int, n),
{
    if n == 1 {
        stack[idx] as u64
    } else if n == 2 {
        (stack[idx] as u64) | ((stack[idx + 1] as u64) << 8u64)
    } else if n == 4 {
        (stack[idx] as u64) | ((stack[idx + 1] as u64) << 8u64) | ((stack[idx + 2] as u64)
            << 16u64) | ((stack[idx + 3] as u64) << 24u64)
    } else {
        (stack[idx] as u64) | ((stack[idx + 1] as u64) << 8u64) | ((stack[idx + 2] as u64)
            << 16u64) | ((stack[idx + 3] as u64) << 24u64) | ((stack[idx + 4] as u64) << 32u64) | ((
        stack[idx + 5] as u64) << 40u64) | ((stack[idx + 6] as u64) << 48u64) | ((stack[idx
            + 7] as u64) << 56u64)
    }
}

/// The register/stack execution model of one run: sixteen registers, a
/// program counter, and the owned stack region. Its mathematical view is
/// a `VmState`.
pub struct Vm {
    regs: Vec<u64>,
    pc: usize,
    stack: Vec<u8>,
}

impl View for Vm {
    type V = VmState;

    closed spec fn view(&self) -> VmState {
        VmState { regs: self.regs@, pc: self.pc as nat, stack: self.stack@ }
    }
}

impl Vm {
    /// A fresh machine in the initial state for the given context value.
    pub fn new(ctx: u64) -> (vm: Vm)
        ensures
            vm@ == init_state(ctx),
            vm@.wf(),
    {
        let mut regs: Vec<u64> = vec![0u64; NUM_REGS];
        regs[1] = ctx;
        regs[10] = STACK_SIZE as u64;
        let stack: Vec<u8> = vec![0u8; STACK_SIZE];
        let vm = Vm { regs, pc: 0, stack };
        proof {
            assert(vm@.regs =~= init_state(ctx).regs);
            assert(vm@.stack =~= init_state(ctx).stack);
            assert(vm@ =~= init_state(ctx));
        }
        vm
    }

    /// Read one register.
    pub fn reg(&self, i: usize) -> (r: u64)
        requires
            self@.wf(),
            i < NUM_REGS,
        ensures
            r == self@.regs[i as int],
    {
        self.regs[i]
    }

    /// Write a helper call's result into register 0, the return-value
    /// register; nothing else changes.
    pub fn set_ret(&mut self, v: u64)
        requires
            old(self)@.wf(),
        ensures
            final(self)@.wf(),
            final(self)@ == (VmState { regs: old(self)@.regs.update(0, v), ..old(self)@ }),
    {
        self.regs[0] = v;
        proof {
            assert(self@ =~= (VmState { regs: old(self)@.regs.update(0, v), ..old(self)@ }));
        }
    }

    fn operand(&self, i: &Inst) -> (o: u64)
        requires
            self@.wf(),
            i.srcreg < 16,
        ensures
            o == spec_operand(self@, *i),
    {
        match i.src {
            Some(Src::X) => self.regs[i.srcreg as usize],
            _ => #[verifier::truncate] (i.imm as u64),
        }
    }

    fn branch(&mut self, off: i16) -> (tag: StepTag)
        requires
            old(self)@.wf(),
            old(self)@.pc <= MAX_PROG_LEN,
        ensures
            final(self)@.wf(),
            (final(self)@, tag) == spec_branch(old(self)@, off),
    {
        if off >= 0 {
            self.pc = self.pc + (off as usize);
            proof {
                assert(self@ =~= spec_branch(old(self)@, off).0);
            }
            StepTag::Cont
        } else {
            let back = (-(off as i32)) as usize;
            if self.pc >= back {
                self.pc = self.pc - back;
                StepTag::Cont
            } else {
                StepTag::Abort(Fault::PcOutOfRange)
            }
        }
    }

    fn exec_alu(&mut self, i: &Inst, is64: bool) -> (tag: StepTag)
        requires
            old(self)@.wf(),
            i.srcreg < 16,
            i.dstreg < 16,
        ensures
            final(self)@.wf(),
            (final(self)@, tag) == spec_alu_step(old(self)@, *i, is64),
    {
        let d = self.regs[i.dstreg as usize];
        let o = self.operand(i);
        let out = match (i.op, i.src) {
            (Some(op), Some(sk)) => if is64 {
                eval_alu64(op, sk, d, o)
            } else {
                eval_alu32(op, sk, d, o, i.imm)
            },
            _ => AluOut::Unimplemented,
        };
        match out {
            AluOut::Value(v) => {
                self.regs[i.dstreg as usize] = v;
                StepTag::Cont
            },
            AluOut::DivideByZero => StepTag::Done(0),
            AluOut::InvalidWidth => StepTag::Abort(Fault::InvalidEndWidth),
            AluOut::Unimplemented => StepTag::Abort(Fault::UnimplementedOpcode),
        }
    }

    fn exec_jmp(&mut self, i: &Inst, is32: bool) -> (tag: StepTag)
        requires
            old(self)@.wf(),
            old(self)@.pc <= MAX_PROG_LEN,
            i.srcreg < 16,
            i.dstreg < 16,
        ensures
            final(self)@.wf(),
            (final(self)@, tag) == spec_jmp_step(old(self)@, *i, is32),
    {
        match (i.op, i.src) {
            (Some(op), Some(sk)) => {
                if op == Op::JA {
                    if !is32 && sk == Src::K {
                        self.branch(i.off)
                    } else {
                        StepTag::Abort(Fault::UnimplementedOpcode)
                    }
                } else if op == Op::CALL {
                    if !is32 && sk == Src::K {
                        StepTag::Call(i.imm)
                    } else {
                        StepTag::Abort(Fault::UnimplementedOpcode)
                    }
                } else if op == Op::EXIT {
                    if !is32 && sk == Src::K {
                        StepTag::Done(self.regs[0])
                    } else {
                        StepTag::Abort(Fault::UnimplementedOpcode)
                    }
                } else {
                    let d = self.regs[i.dstreg as usize];
                    let o = self.operand(i);
                    match eval_jump(op, is32, d, o) {
                        Some(true) => self.branch(i.off),
                        Some(false) => StepTag::Cont,
                        None => StepTag::Abort(Fault::UnimplementedOpcode),
                    }
                }
            },
            _ => StepTag::Abort(Fault::UnimplementedOpcode),
        }
    }

    fn exec_ld(&mut self, prog: &[u64], i: &Inst) -> (tag: StepTag)
        requires
            old(self)@.wf(),
            i.dstreg < 16,
        ensures
            final(self)@.wf(),
            (final(self)@, tag) == spec_ld_step(prog@, old(self)@, *i),
    {
        match (i.mode, i.size) {
            (Some(Mode::IMM), Some(Size::DW)) => {
                if self.pc >= prog.len() {
                    StepTag::Abort(Fault::PcOutOfRange)
                } else {
                    let hi = prog[self.pc];
                    self.pc = self.pc + 1;
                    let v = ((#[verifier::truncate] (i.imm as u32)) as u64) | ((hi >> 32u64)
                        << 32u64);
                    self.regs[i.dstreg as usize] = v;
                    StepTag::Cont
                }
            },
            (Some(m), _) => {
                if is_legacy(m) {
                    StepTag::Abort(Fault::UnsupportedAddressingMode)
                } else {
                    StepTag::Abort(Fault::UnimplementedOpcode)
                }
            },
            (None, _) => StepTag::Abort(Fault::UnimplementedOpcode),
        }
    }

    fn exec_ldx(&mut self, i: &Inst) -> (tag: StepTag)
        requires
            old(self)@.wf(),
            i.srcreg < 16,
            i.dstreg < 16,
        ensures
            final(self)@.wf(),
            (final(self)@, tag) == spec_ldx_step(old(self)@, *i),
    {
        match (i.mode, i.size) {
            (Some(Mode::MEM), Some(sz)) => {
                let n = size_bytes(sz);
                let base = self.regs[i.srcreg as usize];
                let addr = base.wrapping_add(#[verifier::truncate] (i.off as u64));
                if addr <= (STACK_SIZE as u64) - (n as u64) {
                    let v = load_le(&self.stack, addr as usize, n);
                    self.regs[i.dstreg as usize] = v;
                    StepTag::Cont
                } else {
                    StepTag::Abort(Fault::OutOfBoundsMemoryAccess)
                }
            },
            (Some(m), _) => {
                if is_legacy(m) {
                    StepTag::Abort(Fault::UnsupportedAddressingMode)
                } else {
                    StepTag::Abort(Fault::UnimplementedOpcode)
                }
            },
            (None, _) => StepTag::Abort(Fault::UnimplementedOpcode),
        }
    }

    fn exec_store(&mut self, base: u64, off: i16, sz: Size, v: u64) -> (tag: StepTag)
        requires
            old(self)@.wf(),
        ensures
            final(self)@.wf(),
            (final(self)@, tag) == spec_store_step(old(self)@, base, off, sz, v),
    {
        let n = size_bytes(sz);
        let addr = base.wrapping_add(#[verifier::truncate] (off as u64));
        if addr <= (STACK_SIZE as u64) - (n as u64) {
            store_le(&mut self.stack, addr as usize, n, v);
            proof {
                assert(self@ =~= spec_store_step(old(self)@, base, off, sz, v).0);
            }
            StepTag::Cont
        } else {
            StepTag::Abort(Fault::OutOfBoundsMemoryAccess)
        }
    }

    fn exec_st(&mut self, i: &Inst) -> (tag: StepTag)
        requires
            old(self)@.wf(),
            i.dstreg < 16,
        ensures
            final(self)@.wf(),
            (final(self)@, tag) == spec_st_step(old(self)@, *i),
    {
        match (i.mode, i.size) {
            (Some(Mode::MEM), Some(sz)) => {
                let base = self.regs[i.dstreg as usize];
                self.exec_store(base, i.off, sz, #[verifier::truncate] (i.imm as u64))
            },
            (Some(m), _) => {
                if is_legacy(m) {
                    StepTag::Abort(Fault::UnsupportedAddressingMode)
                } else {
                    StepTag::Abort(Fault::UnimplementedOpcode)
                }
            },
            (None, _) => StepTag::Abort(Fault::UnimplementedOpcode),
        }
    }

    fn exec_stx(&mut self, i: &Inst) -> (tag: StepTag)
        requires
            old(self)@.wf(),
            i.srcreg < 16,
            i.dstreg < 16,
        ensures
            final(self)@.wf(),
            (final(self)@, tag) == spec_stx_step(old(self)@, *i),
    {
        match (i.mode, i.size) {
            (Some(Mode::MEM), Some(sz)) => {
                let base = self.regs[i.dstreg as usize];
                let v = self.regs[i.srcreg as usize];
                self.exec_store(base, i.off, sz, v)
            },
            (Some(m), _) => {
                if is_legacy(m) {
                    StepTag::Abort(Fault::UnsupportedAddressingMode)
                } else {
                    StepTag::Abort(Fault::UnimplementedOpcode)
                }
            },
            (None, _) => StepTag::Abort(Fault::UnimplementedOpcode),
        }
    }

    /// Perform one fetch-decode-execute step on the given program.
    pub fn step(&mut self, prog: &[u64]) -> (tag: StepTag)
        requires
            old(self)@.wf(),
            prog@.len() <= MAX_PROG_LEN,
        ensures
            final(self)@.wf(),
            (final(self)@, tag) == step_spec(prog@, old(self)@),
    {
        if self.pc >= prog.len() {
            return StepTag::Abort(Fault::PcOutOfRange);
        }
        let w = prog[self.pc];
        let i = match Inst::decode(w) {
            Ok(i) => i,
            Err(_) => {
                return StepTag::Abort(Fault::Decode);
            },
        };
        self.pc = self.pc + 1;
        match i.class {
            Some(Class::ALU) => self.exec_alu(&i, false),
            Some(Class::ALU64) => self.exec_alu(&i, true),
            Some(Class::JMP) => self.exec_jmp(&i, false),
            Some(Class::JMP32) => self.exec_jmp(&i, true),
            Some(Class::LD) => self.exec_ld(prog, &i),
            Some(Class::LDX) => self.exec_ldx(&i),
            Some(Class::ST) => self.exec_st(&i),
            Some(Class::STX) => self.exec_stx(&i),
            None => StepTag::Abort(Fault::Decode),
        }
    }
}

fn is_legacy(m: Mode) -> (r: bool)
    ensures
        r == is_legacy_mode(m),
{
    match m {
        Mode::ABS | Mode::IND | Mode::LEN | Mode::MSH => true,
        _ => false,
    }
}

fn store_le(stack: &mut Vec<u8>, idx: usize, n: usize, v: u64)
    requires
        n == 1 || n == 2 || n == 4 || n == 8,
        old(stack)@.len() == STACK_SIZE,
        idx + n <= STACK_SIZE,
    ensures
        final(stack)@ == spec_store(old(stack)@, idx as int, n, v),
{
    stack[idx] = #[verifier::truncate] (v as u8);
    if n >= 2 {
        stack[idx + 1] = #[verifier::truncate] ((v >> 8u64) as u8);
    }
    if n >= 4 {
        stack[idx + 2] = #[verifier::truncate] ((v >> 16u64) as u8);
        stack[idx + 3] = #[verifier::truncate] ((v >> 24u64) as u8);
    }
    if n == 8 {
        stack[idx + 4] = #[verifier::truncate] ((v >> 32u64) as u8);
        stack[idx + 5] = #[verifier::truncate] ((v >> 40u64) as u8);
        stack[idx + 6] = #[verifier::truncate] ((v >> 48u64) as u8);
        stack[idx + 7] = #[verifier::truncate] ((v >> 56u64) as u8);
    }
}

} // verus!
