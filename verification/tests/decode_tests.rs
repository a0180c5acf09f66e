use universal_machine::decode::decode;
use universal_machine::decode::encode;
use universal_machine::decode::Op;

#[test]
fn decode_halt_word() {
    assert_eq!(decode(0x7000_0000), Op::Halt);
}

#[test]
fn decode_ignores_reserved_bits() {
    // Bits 27..9 are don't-care for the standard form.
    assert_eq!(decode(0x7FFF_FE00), Op::Halt);
    assert_eq!(decode(0x0000_0000), Op::CondMove { a: 0, b: 0, c: 0 });
    assert_eq!(decode(0x0FFF_FE53), Op::CondMove { a: 1, b: 2, c: 3 });
}

#[test]
fn decode_standard_fields() {
    // opcode 3 (Add), a = 7, b = 5, c = 2: bits 8..6, 5..3, 2..0.
    let w: u32 = (3 << 28) | (7 << 6) | (5 << 3) | 2;
    assert_eq!(decode(w), Op::Add { a: 7, b: 5, c: 2 });
}

#[test]
fn decode_orthography_fields() {
    // opcode 13, a = 2, value = 25-bit maximum.
    let w: u32 = (13 << 28) | (2 << 25) | 0x01FF_FFFF;
    assert_eq!(decode(w), Op::Orthography { a: 2, value: 0x01FF_FFFF });
    assert_eq!(decode(0xD000_0041), Op::Orthography { a: 0, value: 65 });
}

#[test]
fn decode_illegal_opcodes() {
    assert_eq!(decode(0xE000_0000), Op::Illegal { opcode: 14 });
    assert_eq!(decode(0xF123_4567), Op::Illegal { opcode: 15 });
}

#[test]
fn encode_exact_words() {
    assert_eq!(encode(Op::Halt), 0x7000_0000);
    assert_eq!(encode(Op::Orthography { a: 0, value: 65 }), 0xD000_0041);
    assert_eq!(encode(Op::Output { c: 0 }), 0xA000_0000);
    assert_eq!(encode(Op::Add { a: 1, b: 1, c: 1 }), (3 << 28) | (1 << 6) | (1 << 3) | 1);
}

#[test]
fn encode_decode_round_trip() {
    let samples = vec![
        Op::CondMove { a: 1, b: 2, c: 3 },
        Op::ArrayIndex { a: 7, b: 0, c: 4 },
        Op::ArrayAmend { a: 2, b: 6, c: 1 },
        Op::Add { a: 0, b: 7, c: 7 },
        Op::Mul { a: 3, b: 3, c: 3 },
        Op::Div { a: 5, b: 1, c: 2 },
        Op::Nand { a: 6, b: 4, c: 0 },
        Op::Halt,
        Op::Alloc { b: 2, c: 5 },
        Op::Dealloc { c: 3 },
        Op::Output { c: 6 },
        Op::Input { c: 7 },
        Op::LoadProgram { b: 0, c: 1 },
        Op::Orthography { a: 7, value: 0 },
        Op::Orthography { a: 4, value: 0x01FF_FFFF },
        Op::Illegal { opcode: 14 },
        Op::Illegal { opcode: 15 },
    ];
    for op in samples {
        assert_eq!(decode(encode(op)), op);
    }
}

#[test]
fn round_trip_every_register_combination() {
    for a in 0..8usize {
        for b in 0..8usize {
            for c in 0..8usize {
                let op = Op::Nand { a, b, c };
                assert_eq!(decode(encode(op)), op);
            }
        }
    }
}
