//! Instruction decoding: the numeric encoding constants, the decoded
//! instruction type, and the bit-exact field extraction functions.
//!
//! An instruction is one 64-bit word:
//!
//! - bits 0..3   instruction class,
//! - bit  3      source-operand kind (ALU/JMP classes),
//! - bits 3..5   access size (load/store classes),
//! - bits 4..8   operation (ALU/JMP classes),
//! - bits 5..8   addressing mode (load/store classes),
//! - bits 8..12  destination register,
//! - bits 12..16 source register,
//! - bits 16..32 signed offset,
//! - bits 32..64 signed immediate.

use vstd::prelude::*;

verus! {

// Numeric encoding constants. The values are fixed by the instruction-set
// ABI; programs compiled elsewhere use exactly these bit patterns.

// Instruction classes (mask 0x07).
pub const BPF_LD: u32 = 0x00;
pub const BPF_LDX: u32 = 0x01;
pub const BPF_ST: u32 = 0x02;
pub const BPF_STX: u32 = 0x03;
pub const BPF_ALU: u32 = 0x04;
pub const BPF_JMP: u32 = 0x05;
pub const BPF_JMP32: u32 = 0x06;
pub const BPF_ALU64: u32 = 0x07;

// Access sizes for load/store classes (mask 0x18).
pub const BPF_W: u32 = 0x00;
pub const BPF_H: u32 = 0x08;
pub const BPF_B: u32 = 0x10;
pub const BPF_DW: u32 = 0x18;

// Addressing modes for load/store classes (mask 0xe0).
pub const BPF_IMM: u32 = 0x00;
pub const BPF_ABS: u32 = 0x20;
pub const BPF_IND: u32 = 0x40;
pub const BPF_MEM: u32 = 0x60;
pub const BPF_LEN: u32 = 0x80;
pub const BPF_MSH: u32 = 0xa0;
pub const BPF_XADD: u32 = 0xc0;

// Source-operand kind for ALU/JMP classes (mask 0x08).
pub const BPF_K: u32 = 0x00;
pub const BPF_X: u32 = 0x08;

// Arithmetic/logic operations for the ALU classes (mask 0xf0).
pub const BPF_ADD: u32 = 0x00;
pub const BPF_SUB: u32 = 0x10;
pub const BPF_MUL: u32 = 0x20;
pub const BPF_DIV: u32 = 0x30;
pub const BPF_OR: u32 = 0x40;
pub const BPF_AND: u32 = 0x50;
pub const BPF_LSH: u32 = 0x60;
pub const BPF_RSH: u32 = 0x70;
pub const BPF_NEG: u32 = 0x80;
pub const BPF_MOD: u32 = 0x90;
pub const BPF_XOR: u32 = 0xa0;
pub const BPF_MOV: u32 = 0xb0;
pub const BPF_ARSH: u32 = 0xc0;
pub const BPF_END: u32 = 0xd0;

// Jump operations for the JMP classes (mask 0xf0).
pub const BPF_JA: u32 = 0x00;
pub const BPF_JEQ: u32 = 0x10;
pub const BPF_JGT: u32 = 0x20;
pub const BPF_JGE: u32 = 0x30;
pub const BPF_JSET: u32 = 0x40;
pub const BPF_JNE: u32 = 0x50;
pub const BPF_JSGT: u32 = 0x60;
pub const BPF_JSGE: u32 = 0x70;
pub const BPF_CALL: u32 = 0x80;
pub const BPF_EXIT: u32 = 0x90;
pub const BPF_JLT: u32 = 0xa0;
pub const BPF_JLE: u32 = 0xb0;
pub const BPF_JSLT: u32 = 0xc0;
pub const BPF_JSLE: u32 = 0xd0;

/// The coarse category of an instruction; it decides which other fields
/// of the word are meaningful.
#[derive(Debug, Copy, Clone, PartialEq, Eq, Structural)]
pub enum Class {
    LD,
    LDX,
    ST,
    STX,
    ALU,
    JMP,
    JMP32,
    ALU64,
}

/// The access width of a load or store.
#[derive(Debug, Copy, Clone, PartialEq, Eq, Structural)]
pub enum Size {
    W,
    H,
    B,
    DW,
}

/// The addressing mode of a load or store.
#[derive(Debug, Copy, Clone, PartialEq, Eq, Structural)]
pub enum Mode {
    IMM,
    ABS,
    IND,
    MEM,
    LEN,
    MSH,
    XADD,
}

/// The operation of an ALU or jump instruction. The arithmetic/logic
/// tags are meaningful in the ALU classes, the comparison/control tags
/// in the JMP classes; a numeric op code valid in one family is invalid
/// in the other.
#[derive(Debug, Copy, Clone, PartialEq, Eq, Structural)]
pub enum Op {
    ADD,
    SUB,
    MUL,
    DIV,
    OR,
    AND,
    LSH,
    RSH,
    NEG,
    MOD,
    XOR,
    MOV,
    ARSH,
    END,
    JA,
    JEQ,
    JGT,
    JGE,
    JSET,
    JNE,
    JSGT,
    JSGE,
    CALL,
    EXIT,
    JLT,
    JLE,
    JSLT,
    JSLE,
}

/// The source-operand kind: an embedded immediate (K) or a register (X).
#[derive(Debug, Copy, Clone, PartialEq, Eq, Structural)]
pub enum Src {
    K,
    X,
}

/// A fault: a terminal, non-recoverable outcome of decoding or of one
/// interpreter invocation. A division by zero is not a fault; it is a
/// modeled program behavior that terminates the run with result 0.
#[derive(Debug, Copy, Clone, PartialEq, Eq, Structural)]
pub enum Fault {
    /// The instruction word does not map to any defined combination of
    /// class, size, mode, op and source kind.
    Decode,
    /// The word decodes, but the engine implements no behavior for it.
    UnimplementedOpcode,
    /// A legacy packet addressing mode (ABS/IND/LEN/MSH) was encountered;
    /// those are acknowledged in the format but not supported.
    UnsupportedAddressingMode,
    /// A byte-order conversion named a bit width other than 16, 32 or 64.
    InvalidEndWidth,
    /// A CALL immediate was outside the supplied helper table.
    HelperIndexOutOfRange,
    /// A memory access fell outside the stack region.
    OutOfBoundsMemoryAccess,
    /// The program counter left the program, or a branch target was
    /// negative.
    PcOutOfRange,
    /// The caller's step budget ran out before the program exited: the
    /// dispatch loop's counter check aborted a run that an unbounded
    /// machine would have continued.
    OutOfFuel,
}

/// One decoded instruction. `class` is always populated by a successful
/// decode; `size` and `mode` are populated exactly for the load/store
/// classes, `op` and `src` exactly for the ALU/JMP classes.
#[derive(Debug, PartialEq)]
pub struct Inst {
    pub imm: i32,
    pub off: i16,
    pub srcreg: u8,
    pub dstreg: u8,
    pub class: Option<Class>,
    pub size: Option<Size>,
    pub mode: Option<Mode>,
    pub op: Option<Op>,
    pub src: Option<Src>,
}

/// The signed 32-bit immediate, from bits 32..64.
pub open spec fn spec_immediate(inst: u64) -> i32 {
    (inst >> 32) as i32
}

/// The signed 16-bit offset, from bits 16..32.
pub open spec fn spec_offset(inst: u64) -> i16 {
    (inst >> 16) as i16
}

/// The source register index, from bits 12..16.
pub open spec fn spec_srcreg(inst: u64) -> u8 {
    ((inst >> 12) & 0x0f) as u8
}

/// The destination register index, from bits 8..12.
pub open spec fn spec_dstreg(inst: u64) -> u8 {
    ((inst >> 8) & 0x0f) as u8
}

pub fn immediate(inst: u64) -> (r: i32)
    ensures
        r == spec_immediate(inst),
{
    #[verifier::truncate] ((inst >> 32) as i32)
}

pub fn offset(inst: u64) -> (r: i16)
    ensures
        r == spec_offset(inst),
{
    #[verifier::truncate] ((inst >> 16) as i16)
}

pub fn srcreg(inst: u64) -> (r: u8)
    ensures
        r == spec_srcreg(inst),
        r < 16,
{
    proof {
        lemma_regfield_bounded(inst >> 12);
    }
    #[verifier::truncate] (((inst >> 12) & 0x0f) as u8)
}

pub fn dstreg(inst: u64) -> (r: u8)
    ensures
        r == spec_dstreg(inst),
        r < 16,
{
    proof {
        lemma_regfield_bounded(inst >> 8);
    }
    #[verifier::truncate] (((inst >> 8) & 0x0f) as u8)
}

/// A four-bit register field is always an index below 16.
pub proof fn lemma_regfield_bounded(x: u64)
    by (bit_vector)
    ensures
        x & 0x0f < 16,
{
}

/// The instruction class, from bits 0..3. Every three-bit value names a
/// class, so extraction never fails; the explicit `None` keeps the
/// contract honest should the table ever shrink.
pub open spec fn spec_class(inst: u64) -> Option<Class> {
    let bits = (inst & 0x07) as u32;
    if bits == BPF_LD {
        Some(Class::LD)
    } else if bits == BPF_LDX {
        Some(Class::LDX)
    } else if bits == BPF_ST {
        Some(Class::ST)
    } else if bits == BPF_STX {
        Some(Class::STX)
    } else if bits == BPF_ALU {
        Some(Class::ALU)
    } else if bits == BPF_JMP {
        Some(Class::JMP)
    } else if bits == BPF_JMP32 {
        Some(Class::JMP32)
    } else if bits == BPF_ALU64 {
        Some(Class::ALU64)
    } else {
        None
    }
}

/// The access size, from bits 3..5; meaningful only for the load/store
/// classes, `None` for every other class.
pub open spec fn spec_size(inst: u64, cls: Class) -> Option<Size> {
    match cls {
        Class::LD | Class::LDX | Class::ST | Class::STX => {
            let bits = (inst & 0x18) as u32;
            if bits == BPF_W {
                Some(Size::W)
            } else if bits == BPF_H {
                Some(Size::H)
            } else if bits == BPF_B {
                Some(Size::B)
            } else if bits == BPF_DW {
                Some(Size::DW)
            } else {
                None
            }
        },
        _ => None,
    }
}

/// The addressing mode, from bits 5..8; meaningful only for the
/// load/store classes. The value 0xe0 names no mode and fails.
pub open spec fn spec_mode(inst: u64, cls: Class) -> Option<Mode> {
    match cls {
        Class::LD | Class::LDX | Class::ST | Class::STX => {
            let bits = (inst & 0xe0) as u32;
            if bits == BPF_IMM {
                Some(Mode::IMM)
            } else if bits == BPF_ABS {
                Some(Mode::ABS)
            } else if bits == BPF_IND {
                Some(Mode::IND)
            } else if bits == BPF_MEM {
                Some(Mode::MEM)
            } else if bits == BPF_LEN {
                Some(Mode::LEN)
            } else if bits == BPF_MSH {
                Some(Mode::MSH)
            } else if bits == BPF_XADD {
                Some(Mode::XADD)
            } else {
                None
            }
        },
        _ => None,
    }
}

/// The operation, from bits 4..8; meaningful only for the ALU/JMP
/// classes, and read against the family's own table: an op code valid in
/// one family is invalid in the other. The values 0xe0 and 0xf0 name no
/// operation in either family and fail.
pub open spec fn spec_op(inst: u64, cls: Class) -> Option<Op> {
    let bits = (inst & 0xf0) as u32;
    match cls {
        Class::ALU | Class::ALU64 => {
            if bits == BPF_ADD {
                Some(Op::ADD)
            } else if bits == BPF_SUB {
                Some(Op::SUB)
            } else if bits == BPF_MUL {
                Some(Op::MUL)
            } else if bits == BPF_DIV {
                Some(Op::DIV)
            } else if bits == BPF_OR {
                Some(Op::OR)
            } else if bits == BPF_AND {
                Some(Op::AND)
            } else if bits == BPF_LSH {
                Some(Op::LSH)
            } else if bits == BPF_RSH {
                Some(Op::RSH)
            } else if bits == BPF_NEG {
                Some(Op::NEG)
            } else if bits == BPF_MOD {
                Some(Op::MOD)
            } else if bits == BPF_XOR {
                Some(Op::XOR)
            } else if bits == BPF_MOV {
                Some(Op::MOV)
            } else if bits == BPF_ARSH {
                Some(Op::ARSH)
            } else if bits == BPF_END {
                Some(Op::END)
            } else {
                None
            }
        },
        Class::JMP | Class::JMP32 => {
            if bits == BPF_JA {
                Some(Op::JA)
            } else if bits == BPF_JEQ {
                Some(Op::JEQ)
            } else if bits == BPF_JGT {
                Some(Op::JGT)
            } else if bits == BPF_JGE {
                Some(Op::JGE)
            } else if bits == BPF_JSET {
                Some(Op::JSET)
            } else if bits == BPF_JNE {
                Some(Op::JNE)
            } else if bits == BPF_JSGT {
                Some(Op::JSGT)
            } else if bits == BPF_JSGE {
                Some(Op::JSGE)
            } else if bits == BPF_CALL {
                Some(Op::CALL)
            } else if bits == BPF_EXIT {
                Some(Op::EXIT)
            } else if bits == BPF_JLT {
                Some(Op::JLT)
            } else if bits == BPF_JLE {
                Some(Op::JLE)
            } else if bits == BPF_JSLT {
                Some(Op::JSLT)
            } else if bits == BPF_JSLE {
                Some(Op::JSLE)
            } else {
                None
            }
        },
        _ => None,
    }
}

/// The source-operand kind, from bit 3; meaningful only for the ALU/JMP
/// classes. A single bit always names a kind.
pub open spec fn spec_src(inst: u64, cls: Class) -> Option<Src> {
    match cls {
        Class::ALU | Class::ALU64 | Class::JMP | Class::JMP32 => {
            let bits = (inst & 0x08) as u32;
            if bits == BPF_K {
                Some(Src::K)
            } else if bits == BPF_X {
                Some(Src::X)
            } else {
                None
            }
        },
        _ => None,
    }
}

pub fn class(inst: u64) -> (r: Option<Class>)
    ensures
        r == spec_class(inst),
{
    let bits = #[verifier::truncate] ((inst & 0x07) as u32);
    if bits == BPF_LD {
        Some(Class::LD)
    } else if bits == BPF_LDX {
        Some(Class::LDX)
    } else if bits == BPF_ST {
        Some(Class::ST)
    } else if bits == BPF_STX {
        Some(Class::STX)
    } else if bits == BPF_ALU {
        Some(Class::ALU)
    } else if bits == BPF_JMP {
        Some(Class::JMP)
    } else if bits == BPF_JMP32 {
        Some(Class::JMP32)
    } else if bits == BPF_ALU64 {
        Some(Class::ALU64)
    } else {
        None
    }
}

pub fn size(inst: u64, cls: Class) -> (r: Option<Size>)
    ensures
        r == spec_size(inst, cls),
{
    match cls {
        Class::LD | Class::LDX | Class::ST | Class::STX => {
            let bits = #[verifier::truncate] ((inst & 0x18) as u32);
            if bits == BPF_W {
                Some(Size::W)
            } else if bits == BPF_H {
                Some(Size::H)
            } else if bits == BPF_B {
                Some(Size::B)
            } else if bits == BPF_DW {
                Some(Size::DW)
            } else {
                None
            }
        },
        _ => None,
    }
}

pub fn mode(inst: u64, cls: Class) -> (r: Option<Mode>)
    ensures
        r == spec_mode(inst, cls),
{
    match cls {
        Class::LD | Class::LDX | Class::ST | Class::STX => {
            let bits = #[verifier::truncate] ((inst & 0xe0) as u32);
            if bits == BPF_IMM {
                Some(Mode::IMM)
            } else if bits == BPF_ABS {
                Some(Mode::ABS)
            } else if bits == BPF_IND {
                Some(Mode::IND)
            } else if bits == BPF_MEM {
                Some(Mode::MEM)
            } else if bits == BPF_LEN {
                Some(Mode::LEN)
            } else if bits == BPF_MSH {
                Some(Mode::MSH)
            } else if bits == BPF_XADD {
                Some(Mode::XADD)
            } else {
                None
            }
        },
        _ => None,
    }
}

pub fn op(inst: u64, cls: Class) -> (r: Option<Op>)
    ensures
        r == spec_op(inst, cls),
{
    let bits = #[verifier::truncate] ((inst & 0xf0) as u32);
    match cls {
        Class::ALU | Class::ALU64 => {
            if bits == BPF_ADD {
                Some(Op::ADD)
            } else if bits == BPF_SUB {
                Some(Op::SUB)
            } else if bits == BPF_MUL {
                Some(Op::MUL)
            } else if bits == BPF_DIV {
                Some(Op::DIV)
            } else if bits == BPF_OR {
                Some(Op::OR)
            } else if bits == BPF_AND {
                Some(Op::AND)
            } else if bits == BPF_LSH {
                Some(Op::LSH)
            } else if bits == BPF_RSH {
                Some(Op::RSH)
            } else if bits == BPF_NEG {
                Some(Op::NEG)
            } else if bits == BPF_MOD {
                Some(Op::MOD)
            } else if bits == BPF_XOR {
                Some(Op::XOR)
            } else if bits == BPF_MOV {
                Some(Op::MOV)
            } else if bits == BPF_ARSH {
                Some(Op::ARSH)
            } else if bits == BPF_END {
                Some(Op::END)
            } else {
                None
            }
        },
        Class::JMP | Class::JMP32 => {
            if bits == BPF_JA {
                Some(Op::JA)
            } else if bits == BPF_JEQ {
                Some(Op::JEQ)
            } else if bits == BPF_JGT {
                Some(Op::JGT)
            } else if bits == BPF_JGE {
                Some(Op::JGE)
            } else if bits == BPF_JSET {
                Some(Op::JSET)
            } else if bits == BPF_JNE {
                Some(Op::JNE)
            } else if bits == BPF_JSGT {
                Some(Op::JSGT)
            } else if bits == BPF_JSGE {
                Some(Op::JSGE)
            } else if bits == BPF_CALL {
                Some(Op::CALL)
            } else if bits == BPF_EXIT {
                Some(Op::EXIT)
            } else if bits == BPF_JLT {
                Some(Op::JLT)
            } else if bits == BPF_JLE {
                Some(Op::JLE)
            } else if bits == BPF_JSLT {
                Some(Op::JSLT)
            } else if bits == BPF_JSLE {
                Some(Op::JSLE)
            } else {
                None
            }
        },
        _ => None,
    }
}

/// Whether the class is a load or store, so that `size` and `mode` are
/// the meaningful sub-fields.
pub open spec fn is_ldst_class(c: Class) -> bool {
    c == Class::LD || c == Class::LDX || c == Class::ST || c == Class::STX
}

/// Whether the operation belongs to the arithmetic/logic family.
pub open spec fn is_alu_op(o: Op) -> bool {
    o == Op::ADD || o == Op::SUB || o == Op::MUL || o == Op::DIV || o == Op::OR || o == Op::AND
        || o == Op::LSH || o == Op::RSH || o == Op::NEG || o == Op::MOD || o == Op::XOR || o
        == Op::MOV || o == Op::ARSH || o == Op::END
}

/// Whether the operation belongs to the comparison/control family.
pub open spec fn is_jmp_op(o: Op) -> bool {
    o == Op::JA || o == Op::JEQ || o == Op::JGT || o == Op::JGE || o == Op::JSET || o == Op::JNE
        || o == Op::JSGT || o == Op::JSGE || o == Op::CALL || o == Op::EXIT || o == Op::JLT || o
        == Op::JLE || o == Op::JSLT || o == Op::JSLE
}

impl Inst {
    /// A well-formed decoded instruction: register indices are four-bit
    /// values, the class is known, and exactly the fields meaningful for
    /// that class are populated, with the operation in the class's own
    /// family.
    pub open spec fn wf(self) -> bool {
        &&& self.srcreg < 16
        &&& self.dstreg < 16
        &&& match self.class {
            None => false,
            Some(c) => if is_ldst_class(c) {
                &&& self.size is Some
                &&& self.mode is Some
                &&& self.op is None
                &&& self.src is None
            } else {
                &&& self.size is None
                &&& self.mode is None
                &&& self.op matches Some(o) && if c == Class::ALU || c == Class::ALU64 {
                    is_alu_op(o)
                } else {
                    is_jmp_op(o)
                }
                &&& self.src is Some
            },
        }
    }
}

/// Decoding one instruction word: either every field meaningful for the
/// word's class matches a defined value and the structured instruction
/// comes back, or the word is rejected with a decode fault. There is no
/// third outcome, and no bit pattern decodes to an unlisted combination.
pub open spec fn spec_decode(w: u64) -> Result<Inst, Fault> {
    match spec_class(w) {
        None => Err(Fault::Decode),
        Some(c) => {
            let fields = Inst {
                imm: spec_immediate(w),
                off: spec_offset(w),
                srcreg: spec_srcreg(w),
                dstreg: spec_dstreg(w),
                class: Some(c),
                size: spec_size(w, c),
                mode: spec_mode(w, c),
                op: spec_op(w, c),
                src: spec_src(w, c),
            };
            if is_ldst_class(c) {
                if fields.size is Some && fields.mode is Some {
                    Ok(fields)
                } else {
                    Err(Fault::Decode)
                }
            } else {
                if fields.op is Some && fields.src is Some {
                    Ok(fields)
                } else {
                    Err(Fault::Decode)
                }
            }
        },
    }
}

/// Whatever decodes is well formed: its register indices are below 16
/// and its populated fields match its class family.
pub proof fn lemma_decode_wf(w: u64)
    ensures
        spec_decode(w) matches Ok(i) ==> i.wf(),
{
    lemma_regfield_bounded(w >> 12);
    lemma_regfield_bounded(w >> 8);
}

impl Inst {
    /// Decode one 64-bit instruction word, or fail with a decode fault
    /// when a meaningful field matches no defined value.
    pub fn decode(inst: u64) -> (r: Result<Self, Fault>)
        ensures
            r == spec_decode(inst),
            r matches Ok(i) ==> i.wf(),
    {
        proof {
            lemma_decode_wf(inst);
        }
        let cls = match class(inst) {
            Some(c) => c,
            None => {
                return Err(Fault::Decode);
            },
        };
        let fields = Inst {
            imm: immediate(inst),
            off: offset(inst),
            srcreg: srcreg(inst),
            dstreg: dstreg(inst),
            class: Some(cls),
            size: size(inst, cls),
            mode: mode(inst, cls),
            op: op(inst, cls),
            src: src(inst, cls),
        };
        match cls {
            Class::LD | Class::LDX | Class::ST | Class::STX => {
                if fields.size.is_some() && fields.mode.is_some() {
                    Ok(fields)
                } else {
                    Err(Fault::Decode)
                }
            },
            _ => {
                if fields.op.is_some() && fields.src.is_some() {
                    Ok(fields)
                } else {
                    Err(Fault::Decode)
                }
            },
        }
    }
}

/// The numeric code of a class, for encoding.
pub open spec fn spec_class_code(c: Class) -> u32 {
    match c {
        Class::LD => BPF_LD,
        Class::LDX => BPF_LDX,
        Class::ST => BPF_ST,
        Class::STX => BPF_STX,
        Class::ALU => BPF_ALU,
        Class::JMP => BPF_JMP,
        Class::JMP32 => BPF_JMP32,
        Class::ALU64 => BPF_ALU64,
    }
}

/// The numeric code of an access size, for encoding.
pub open spec fn spec_size_code(s: Size) -> u32 {
    match s {
        Size::W => BPF_W,
        Size::H => BPF_H,
        Size::B => BPF_B,
        Size::DW => BPF_DW,
    }
}

/// The numeric code of an addressing mode, for encoding.
pub open spec fn spec_mode_code(m: Mode) -> u32 {
    match m {
        Mode::IMM => BPF_IMM,
        Mode::ABS => BPF_ABS,
        Mode::IND => BPF_IND,
        Mode::MEM => BPF_MEM,
        Mode::LEN => BPF_LEN,
        Mode::MSH => BPF_MSH,
        Mode::XADD => BPF_XADD,
    }
}

/// The numeric code of a source-operand kind, for encoding.
pub open spec fn spec_src_code(s: Src) -> u32 {
    match s {
        Src::K => BPF_K,
        Src::X => BPF_X,
    }
}

/// The numeric code of an operation, for encoding. The two op families
/// reuse the same code space; the class distinguishes them.
pub open spec fn spec_op_code(o: Op) -> u32 {
    match o {
        Op::ADD => BPF_ADD,
        Op::SUB => BPF_SUB,
        Op::MUL => BPF_MUL,
        Op::DIV => BPF_DIV,
        Op::OR => BPF_OR,
        Op::AND => BPF_AND,
        Op::LSH => BPF_LSH,
        Op::RSH => BPF_RSH,
        Op::NEG => BPF_NEG,
        Op::MOD => BPF_MOD,
        Op::XOR => BPF_XOR,
        Op::MOV => BPF_MOV,
        Op::ARSH => BPF_ARSH,
        Op::END => BPF_END,
        Op::JA => BPF_JA,
        Op::JEQ => BPF_JEQ,
        Op::JGT => BPF_JGT,
        Op::JGE => BPF_JGE,
        Op::JSET => BPF_JSET,
        Op::JNE => BPF_JNE,
        Op::JSGT => BPF_JSGT,
        Op::JSGE => BPF_JSGE,
        Op::CALL => BPF_CALL,
        Op::EXIT => BPF_EXIT,
        Op::JLT => BPF_JLT,
        Op::JLE => BPF_JLE,
        Op::JSLT => BPF_JSLT,
        Op::JSLE => BPF_JSLE,
    }
}

/// The low byte of an encoded instruction: the class code plus the
/// class's meaningful sub-field codes, which occupy disjoint bits.
pub open spec fn spec_opbyte(i: Inst) -> u64 {
    match i.class {
        None => 0,
        Some(c) => if is_ldst_class(c) {
            match (i.size, i.mode) {
                (Some(s), Some(m)) => (spec_class_code(c) + spec_size_code(s)
                    + spec_mode_code(m)) as u64,
                _ => 0,
            }
        } else {
            match (i.op, i.src) {
                (Some(o), Some(k)) => (spec_class_code(c) + spec_src_code(k)
                    + spec_op_code(o)) as u64,
                _ => 0,
            }
        },
    }
}

/// The 64-bit word that encodes a decoded instruction: immediate in bits
/// 32..64, offset in bits 16..32, registers in bits 8..16, and the op
/// byte in bits 0..8.
pub open spec fn spec_encode(i: Inst) -> u64 {
    ((i.imm as u32 as u64) << 32) | ((i.off as u16 as u64) << 16) | ((i.srcreg as u64) << 12) | ((
    i.dstreg as u64) << 8) | spec_opbyte(i)
}

/// Field extraction inverts field packing: each field of an encoded word
/// reads back as the value that was packed, and the masks of the low
/// byte see only the low byte.
proof fn lemma_word_fields(imm: i32, off: i16, sreg: u8, dreg: u8, b: u64, w: u64)
    by (bit_vector)
    requires
        sreg < 16,
        dreg < 16,
        b < 256,
        w == ((imm as u32 as u64) << 32) | ((off as u16 as u64) << 16) | ((sreg as u64) << 12) | ((
        dreg as u64) << 8) | b,
    ensures
        (w >> 32) as i32 == imm,
        (w >> 16) as i16 == off,
        ((w >> 12) & 0x0f) as u8 == sreg,
        ((w >> 8) & 0x0f) as u8 == dreg,
        w & 0x07 == b & 0x07,
        w & 0x08 == b & 0x08,
        w & 0x18 == b & 0x18,
        w & 0xe0 == b & 0xe0,
        w & 0xf0 == b & 0xf0,
{
}

/// An ALU/JMP op byte assembled by addition splits back under the class,
/// source-kind and operation masks.
proof fn lemma_opbyte_alu(c: u32, k: u32, o: u32, b: u64)
    by (bit_vector)
    requires
        c < 8,
        k == 0 || k == 8,
        o % 16 == 0,
        o < 256,
        b == c as u64 + k as u64 + o as u64,
    ensures
        b < 256,
        (b & 0x07) as u32 == c,
        (b & 0x08) as u32 == k,
        (b & 0xf0) as u32 == o,
{
}

/// A load/store op byte assembled by addition splits back under the
/// class, size and mode masks.
proof fn lemma_opbyte_ldst(c: u32, t: u32, m: u32, b: u64)
    by (bit_vector)
    requires
        c < 8,
        t % 8 == 0,
        t < 0x20,
        m % 0x20 == 0,
        m < 256,
        b == c as u64 + t as u64 + m as u64,
    ensures
        b < 256,
        (b & 0x07) as u32 == c,
        (b & 0x18) as u32 == t,
        (b & 0xe0) as u32 == m,
{
}

/// Round trip: encoding any well-formed instruction tuple and decoding
/// the resulting word reproduces the original tuple exactly.
#[verifier::rlimit(60)]
pub proof fn lemma_encode_decode(i: Inst)
    requires
        i.wf(),
    ensures
        spec_decode(spec_encode(i)) == Ok::<Inst, Fault>(i),
{
    let b = spec_opbyte(i);
    let w = spec_encode(i);
    let c = i.class->Some_0;
    if is_ldst_class(c) {
        let t = spec_size_code(i.size->Some_0);
        let m = spec_mode_code(i.mode->Some_0);
        lemma_opbyte_ldst(spec_class_code(c), t, m, b);
    } else {
        let k = spec_src_code(i.src->Some_0);
        let o = spec_op_code(i.op->Some_0);
        lemma_opbyte_alu(spec_class_code(c), k, o, b);
    }
    lemma_word_fields(i.imm, i.off, i.srcreg, i.dstreg, b, w);
}

fn class_code(c: Class) -> (r: u32)
    ensures
        r == spec_class_code(c),
{
    match c {
        Class::LD => BPF_LD,
        Class::LDX => BPF_LDX,
        Class::ST => BPF_ST,
        Class::STX => BPF_STX,
        Class::ALU => BPF_ALU,
        Class::JMP => BPF_JMP,
        Class::JMP32 => BPF_JMP32,
        Class::ALU64 => BPF_ALU64,
    }
}

fn size_code(s: Size) -> (r: u32)
    ensures
        r == spec_size_code(s),
{
    match s {
        Size::W => BPF_W,
        Size::H => BPF_H,
        Size::B => BPF_B,
        Size::DW => BPF_DW,
    }
}

fn mode_code(m: Mode) -> (r: u32)
    ensures
        r == spec_mode_code(m),
{
    match m {
        Mode::IMM => BPF_IMM,
        Mode::ABS => BPF_ABS,
        Mode::IND => BPF_IND,
        Mode::MEM => BPF_MEM,
        Mode::LEN => BPF_LEN,
        Mode::MSH => BPF_MSH,
        Mode::XADD => BPF_XADD,
    }
}

fn src_code(s: Src) -> (r: u32)
    ensures
        r == spec_src_code(s),
{
    match s {
        Src::K => BPF_K,
        Src::X => BPF_X,
    }
}

fn op_code(o: Op) -> (r: u32)
    ensures
        r == spec_op_code(o),
{
    match o {
        Op::ADD => BPF_ADD,
        Op::SUB => BPF_SUB,
        Op::MUL => BPF_MUL,
        Op::DIV => BPF_DIV,
        Op::OR => BPF_OR,
        Op::AND => BPF_AND,
        Op::LSH => BPF_LSH,
        Op::RSH => BPF_RSH,
        Op::NEG => BPF_NEG,
        Op::MOD => BPF_MOD,
        Op::XOR => BPF_XOR,
        Op::MOV => BPF_MOV,
        Op::ARSH => BPF_ARSH,
        Op::END => BPF_END,
        Op::JA => BPF_JA,
        Op::JEQ => BPF_JEQ,
        Op::JGT => BPF_JGT,
        Op::JGE => BPF_JGE,
        Op::JSET => BPF_JSET,
        Op::JNE => BPF_JNE,
        Op::JSGT => BPF_JSGT,
        Op::JSGE => BPF_JSGE,
        Op::CALL => BPF_CALL,
        Op::EXIT => BPF_EXIT,
        Op::JLT => BPF_JLT,
        Op::JLE => BPF_JLE,
        Op::JSLT => BPF_JSLT,
        Op::JSLE => BPF_JSLE,
    }
}

/// Encode a well-formed instruction tuple into its 64-bit word. Decoding
/// the word gives the tuple back exactly.
pub fn encode(i: &Inst) -> (w: u64)
    requires
        i.wf(),
    ensures
        w == spec_encode(*i),
        spec_decode(w) == Ok::<Inst, Fault>(*i),
{
    proof {
        lemma_encode_decode(*i);
    }
    let opbyte: u64 = match i.class {
        None => 0,
        Some(c) => match c {
            Class::LD | Class::LDX | Class::ST | Class::STX => {
                let s = match i.size {
                    Some(s) => s,
                    None => Size::W,
                };
                let m = match i.mode {
                    Some(m) => m,
                    None => Mode::IMM,
                };
                (class_code(c) + size_code(s) + mode_code(m)) as u64
            },
            _ => {
                let o = match i.op {
                    Some(o) => o,
                    None => Op::ADD,
                };
                let k = match i.src {
                    Some(k) => k,
                    None => Src::K,
                };
                (class_code(c) + src_code(k) + op_code(o)) as u64
            },
        },
    };
    let immbits = (#[verifier::truncate] (i.imm as u32)) as u64;
    let offbits = (#[verifier::truncate] (i.off as u16)) as u64;
    (immbits << 32) | (offbits << 16) | ((i.srcreg as u64) << 12) | ((i.dstreg as u64) << 8)
        | opbyte
}

impl Default for Inst {
    /// The all-zero instruction skeleton: no class and no sub-fields.
    fn default() -> (r: Self)
        ensures
            r == (Inst {
                imm: 0,
                off: 0,
                srcreg: 0,
                dstreg: 0,
                class: None,
                size: None,
                mode: None,
                op: None,
                src: None,
            }),
    {
        Inst {
            imm: 0,
            off: 0,
            srcreg: 0,
            dstreg: 0,
            class: None,
            size: None,
            mode: None,
            op: None,
            src: None,
        }
    }
}

pub fn src(inst: u64, cls: Class) -> (r: Option<Src>)
    ensures
        r == spec_src(inst, cls),
{
    match cls {
        Class::ALU | Class::ALU64 | Class::JMP | Class::JMP32 => {
            let bits = #[verifier::truncate] ((inst & 0x08) as u32);
            if bits == BPF_K {
                Some(Src::K)
            } else if bits == BPF_X {
                Some(Src::X)
            } else {
                None
            }
        },
        _ => None,
    }
}

} // verus!
