use ebpf_vm::types::{
    class, dstreg, encode, immediate, mode, offset, op, size, src, srcreg, Class, Fault, Inst,
    Mode, Op, Size, Src, BPF_ADD, BPF_ALU, BPF_ALU64, BPF_DW, BPF_IMM, BPF_IND, BPF_JMP, BPF_JMP32,
    BPF_K, BPF_LD, BPF_LDX, BPF_MEM, BPF_MOV, BPF_ST, BPF_STX, BPF_W, BPF_X, BPF_XADD, BPF_XOR,
};

#[test]
fn inst() {
    let insts: [(u64, Inst); 9] = [
        (
            (BPF_ADD | BPF_X | BPF_ALU).into(),
            Inst {
                class: Some(Class::ALU),
                op: Some(Op::ADD),
                src: Some(Src::X),
                ..Inst::default()
            },
        ),
        (
            (BPF_XOR | BPF_K | BPF_ALU).into(),
            Inst {
                class: Some(Class::ALU),
                op: Some(Op::XOR),
                src: Some(Src::K),
                ..Inst::default()
            },
        ),
        (
            (BPF_MOV | BPF_X | BPF_ALU).into(),
            Inst {
                class: Some(Class::ALU),
                op: Some(Op::MOV),
                src: Some(Src::X),
                ..Inst::default()
            },
        ),
        (
            (BPF_ADD | BPF_X | BPF_ALU64).into(),
            Inst {
                class: Some(Class::ALU64),
                op: Some(Op::ADD),
                src: Some(Src::X),
                ..Inst::default()
            },
        ),
        (
            (BPF_IND | BPF_W | BPF_LD).into(),
            Inst {
                class: Some(Class::LD),
                size: Some(Size::W),
                mode: Some(Mode::IND),
                ..Inst::default()
            },
        ),
        (
            (BPF_XADD | BPF_W | BPF_STX).into(),
            Inst {
                class: Some(Class::STX),
                size: Some(Size::W),
                mode: Some(Mode::XADD),
                ..Inst::default()
            },
        ),
        (
            (BPF_XADD | BPF_DW | BPF_STX).into(),
            Inst {
                class: Some(Class::STX),
                size: Some(Size::DW),
                mode: Some(Mode::XADD),
                ..Inst::default()
            },
        ),
        (
            (BPF_LD | BPF_DW | BPF_IMM).into(),
            Inst {
                class: Some(Class::LD),
                size: Some(Size::DW),
                mode: Some(Mode::IMM),
                ..Inst::default()
            },
        ),
        (
            0x000000ff000001b4,
            Inst {
                imm: 0x000000ff,
                dstreg: 1,
                class: Some(Class::ALU),
                op: Some(Op::MOV),
                src: Some(Src::K),
                ..Inst::default()
            },
        ),
    ];
    for (inst, decoded) in insts {
        assert_eq!(Ok(decoded), Inst::decode(inst as u64));
    }
}

#[test]
fn field_extraction() {
    // MOV r1, 0xff again, field by field.
    let w: u64 = 0x000000ff000001b4;
    assert_eq!(immediate(w), 0xff);
    assert_eq!(offset(w), 0);
    assert_eq!(srcreg(w), 0);
    assert_eq!(dstreg(w), 1);
    assert_eq!(class(w), Some(Class::ALU));
    assert_eq!(op(w, Class::ALU), Some(Op::MOV));
    assert_eq!(src(w, Class::ALU), Some(Src::K));
    assert_eq!(size(w, Class::ALU), None);
    assert_eq!(mode(w, Class::ALU), None);

    // A store with a negative offset and all fields in use:
    // STX MEM DW [r10 - 8] = r2.
    let w2: u64 = ((0xfff8u64) << 16) | (2 << 12) | (10 << 8) | (BPF_STX | BPF_MEM | BPF_DW) as u64;
    assert_eq!(offset(w2), -8);
    assert_eq!(srcreg(w2), 2);
    assert_eq!(dstreg(w2), 10);
    assert_eq!(class(w2), Some(Class::STX));
    assert_eq!(size(w2, Class::STX), Some(Size::DW));
    assert_eq!(mode(w2, Class::STX), Some(Mode::MEM));
    assert_eq!(op(w2, Class::STX), None);
    assert_eq!(src(w2, Class::STX), None);

    // A negative immediate sign-extends.
    let w3: u64 = ((-7i32 as u32 as u64) << 32) | (BPF_MOV | BPF_K | BPF_ALU64) as u64;
    assert_eq!(immediate(w3), -7);
}

#[test]
fn decode_rejects_undefined_op() {
    // Op bits 0xe0 and 0xf0 name no operation in either family.
    assert_eq!(Inst::decode(0xe0 | BPF_ALU as u64), Err(Fault::Decode));
    assert_eq!(Inst::decode(0xf0 | BPF_ALU as u64), Err(Fault::Decode));
    assert_eq!(Inst::decode(0xe0 | BPF_ALU64 as u64), Err(Fault::Decode));
    assert_eq!(Inst::decode(0xe0 | BPF_JMP as u64), Err(Fault::Decode));
    assert_eq!(Inst::decode(0xf0 | BPF_JMP32 as u64), Err(Fault::Decode));
}

#[test]
fn decode_rejects_undefined_mode() {
    // Mode bits 0xe0 name no addressing mode.
    assert_eq!(Inst::decode(0xe0 | BPF_LD as u64), Err(Fault::Decode));
    assert_eq!(Inst::decode(0xe0 | BPF_LDX as u64), Err(Fault::Decode));
    assert_eq!(Inst::decode(0xe0 | BPF_ST as u64), Err(Fault::Decode));
    assert_eq!(Inst::decode(0xe0 | BPF_STX as u64), Err(Fault::Decode));
}

#[test]
fn decode_is_total_on_op_bytes() {
    // Every 8-bit op byte (the fields the decoder validates) either
    // decodes or faults; no third outcome and no panic.
    for b in 0u64..256 {
        match Inst::decode(b) {
            Ok(i) => {
                assert_eq!(i.imm, 0);
                assert_eq!(i.off, 0);
                assert!(i.class.is_some());
            }
            Err(f) => assert_eq!(f, Fault::Decode),
        }
    }
}

fn rt(i: Inst) {
    let w = encode(&i);
    assert_eq!(Inst::decode(w), Ok(i));
}

#[test]
fn round_trip_one_word_per_class() {
    rt(Inst {
        imm: -5,
        off: 0,
        srcreg: 0,
        dstreg: 3,
        class: Some(Class::ALU),
        op: Some(Op::ADD),
        src: Some(Src::K),
        ..Inst::default()
    });
    rt(Inst {
        imm: 0,
        off: 0,
        srcreg: 7,
        dstreg: 2,
        class: Some(Class::ALU64),
        op: Some(Op::XOR),
        src: Some(Src::X),
        ..Inst::default()
    });
    rt(Inst {
        imm: 100,
        off: -3,
        srcreg: 0,
        dstreg: 2,
        class: Some(Class::JMP),
        op: Some(Op::JLE),
        src: Some(Src::K),
        ..Inst::default()
    });
    rt(Inst {
        imm: 0,
        off: 12,
        srcreg: 9,
        dstreg: 8,
        class: Some(Class::JMP32),
        op: Some(Op::JSLE),
        src: Some(Src::X),
        ..Inst::default()
    });
    rt(Inst {
        imm: 0x7fffffff,
        off: 0,
        srcreg: 0,
        dstreg: 1,
        class: Some(Class::LD),
        size: Some(Size::DW),
        mode: Some(Mode::IMM),
        ..Inst::default()
    });
    rt(Inst {
        imm: 0,
        off: -4,
        srcreg: 10,
        dstreg: 0,
        class: Some(Class::LDX),
        size: Some(Size::W),
        mode: Some(Mode::MEM),
        ..Inst::default()
    });
    rt(Inst {
        imm: 0xff,
        off: -2,
        srcreg: 0,
        dstreg: 10,
        class: Some(Class::ST),
        size: Some(Size::H),
        mode: Some(Mode::MEM),
        ..Inst::default()
    });
    rt(Inst {
        imm: 0,
        off: -8,
        srcreg: 15,
        dstreg: 10,
        class: Some(Class::STX),
        size: Some(Size::DW),
        mode: Some(Mode::MEM),
        ..Inst::default()
    });
}

#[test]
fn jsle_uses_jump_table() {
    // The same op bits mean ARSH in the ALU family and JSLT in the JMP
    // family: the class picks the table.
    let bits: u64 = 0xc0;
    let alu = Inst::decode(bits | BPF_ALU as u64).unwrap();
    assert_eq!(alu.op, Some(Op::ARSH));
    let jmp = Inst::decode(bits | BPF_JMP as u64).unwrap();
    assert_eq!(jmp.op, Some(Op::JSLT));
}
