use vstd::prelude::*;

verus! {

/// A decoded instruction. The operand fields `a`, `b`, `c` are register
/// indices below 8; `value` is a 25-bit unsigned immediate, zero-extended
/// to a word.
#[derive(Clone, Copy, Debug, PartialEq, Eq, Structural)]
pub enum Op {
    /// Opcode 0: if `R[c] != 0` then `R[a] <- R[b]`.
    CondMove { a: usize, b: usize, c: usize },
    /// Opcode 1: `R[a] <- platter R[b] at offset R[c]`.
    ArrayIndex { a: usize, b: usize, c: usize },
    /// Opcode 2: `platter R[a] at offset R[b] <- R[c]`.
    ArrayAmend { a: usize, b: usize, c: usize },
    /// Opcode 3: `R[a] <- (R[b] + R[c]) mod 2^32`.
    Add { a: usize, b: usize, c: usize },
    /// Opcode 4: `R[a] <- (R[b] * R[c]) mod 2^32`.
    Mul { a: usize, b: usize, c: usize },
    /// Opcode 5: `R[a] <- R[b] / R[c]` (unsigned); faults when `R[c] = 0`.
    Div { a: usize, b: usize, c: usize },
    /// Opcode 6: `R[a] <- !(R[b] & R[c])`.
    Nand { a: usize, b: usize, c: usize },
    /// Opcode 7: stop the machine.
    Halt,
    /// Opcode 8: `R[b] <- ` a fresh identifier of a zeroed platter of
    /// `R[c]` words.
    Alloc { b: usize, c: usize },
    /// Opcode 9: release the platter at identifier `R[c]`.
    Dealloc { c: usize },
    /// Opcode 10: emit the byte `R[c]`; faults when `R[c] > 255`.
    Output { c: usize },
    /// Opcode 11: read one byte into `R[c]`; end of stream yields the
    /// sentinel `0xFFFFFFFF`.
    Input { c: usize },
    /// Opcode 12: replace the program segment with a copy of platter
    /// `R[b]` (unless `R[b] = 0`), then jump to offset `R[c]`.
    LoadProgram { b: usize, c: usize },
    /// Opcode 13: `R[a] <- value`.
    Orthography { a: usize, value: u32 },
    /// Opcode 14 or 15: a decode fault.
    Illegal { opcode: u32 },
}

impl Op {
    /// Well-formedness: register indices below 8, the immediate below
    /// 2^25, and an illegal opcode is one of the two unassigned ones.
    pub open spec fn wf(self) -> bool {
        match self {
            Op::CondMove { a, b, c } => a < 8 && b < 8 && c < 8,
            Op::ArrayIndex { a, b, c } => a < 8 && b < 8 && c < 8,
            Op::ArrayAmend { a, b, c } => a < 8 && b < 8 && c < 8,
            Op::Add { a, b, c } => a < 8 && b < 8 && c < 8,
            Op::Mul { a, b, c } => a < 8 && b < 8 && c < 8,
            Op::Div { a, b, c } => a < 8 && b < 8 && c < 8,
            Op::Nand { a, b, c } => a < 8 && b < 8 && c < 8,
            Op::Halt => true,
            Op::Alloc { b, c } => b < 8 && c < 8,
            Op::Dealloc { c } => c < 8,
            Op::Output { c } => c < 8,
            Op::Input { c } => c < 8,
            Op::LoadProgram { b, c } => b < 8 && c < 8,
            Op::Orthography { a, value } => a < 8 && value < 0x0200_0000,
            Op::Illegal { opcode } => 14 <= opcode <= 15,
        }
    }
}

/// Meaning of a 32-bit instruction word: bits 31..28 select the opcode;
/// the standard form packs `a`, `b`, `c` into bits 8..0; the immediate
/// form (opcode 13) packs `a` into bits 27..25 and a 25-bit value into
/// bits 24..0.
pub open spec fn decode_spec(w: u32) -> Op {
    let opc = w >> 28;
    let a = ((w >> 6) & 7) as usize;
    let b = ((w >> 3) & 7) as usize;
    let c = (w & 7) as usize;
    if opc == 0 {
        Op::CondMove { a, b, c }
    } else if opc == 1 {
        Op::ArrayIndex { a, b, c }
    } else if opc == 2 {
        Op::ArrayAmend { a, b, c }
    } else if opc == 3 {
        Op::Add { a, b, c }
    } else if opc == 4 {
        Op::Mul { a, b, c }
    } else if opc == 5 {
        Op::Div { a, b, c }
    } else if opc == 6 {
        Op::Nand { a, b, c }
    } else if opc == 7 {
        Op::Halt
    } else if opc == 8 {
        Op::Alloc { b, c }
    } else if opc == 9 {
        Op::Dealloc { c }
    } else if opc == 10 {
        Op::Output { c }
    } else if opc == 11 {
        Op::Input { c }
    } else if opc == 12 {
        Op::LoadProgram { b, c }
    } else if opc == 13 {
        Op::Orthography { a: ((w >> 25) & 7) as usize, value: w & 0x01FF_FFFF }
    } else {
        Op::Illegal { opcode: opc }
    }
}

/// Every word decodes to a well-formed operation: decoding is total.
pub proof fn lemma_decode_wf(w: u32)
    ensures
        decode_spec(w).wf(),
{
    assert(((w >> 6) & 7) < 8 && ((w >> 3) & 7) < 8 && (w & 7) < 8 && ((w >> 25) & 7) < 8
        && (w & 0x01FF_FFFF) < 0x0200_0000 && (w >> 28) <= 15) by (bit_vector);
}

/// Decode an instruction word.
pub fn decode(w: u32) -> (op: Op)
    ensures
        op == decode_spec(w),
        op.wf(),
{
    proof {
        lemma_decode_wf(w);
    }
    let opc = w >> 28;
    let a = ((w >> 6) & 7) as usize;
    let b = ((w >> 3) & 7) as usize;
    let c = (w & 7) as usize;
    match opc {
        0 => Op::CondMove { a, b, c },
        1 => Op::ArrayIndex { a, b, c },
        2 => Op::ArrayAmend { a, b, c },
        3 => Op::Add { a, b, c },
        4 => Op::Mul { a, b, c },
        5 => Op::Div { a, b, c },
        6 => Op::Nand { a, b, c },
        7 => Op::Halt,
        8 => Op::Alloc { b, c },
        9 => Op::Dealloc { c },
        10 => Op::Output { c },
        11 => Op::Input { c },
        12 => Op::LoadProgram { b, c },
        13 => Op::Orthography { a: ((w >> 25) & 7) as usize, value: w & 0x01FF_FFFF },
        _ => Op::Illegal { opcode: opc },
    }
}

/// The standard-form word: opcode in bits 31..28, `a`, `b`, `c` in
/// bits 8..0, reserved bits zero.
pub open spec fn encode_std(opc: u32, a: usize, b: usize, c: usize) -> u32 {
    (opc << 28) | ((a as u32) << 6) | ((b as u32) << 3) | (c as u32)
}

/// The canonical word for an operation: reserved bits and absent operand
/// fields are zero.
pub open spec fn encode_spec(op: Op) -> u32 {
    match op {
        Op::CondMove { a, b, c } => encode_std(0, a, b, c),
        Op::ArrayIndex { a, b, c } => encode_std(1, a, b, c),
        Op::ArrayAmend { a, b, c } => encode_std(2, a, b, c),
        Op::Add { a, b, c } => encode_std(3, a, b, c),
        Op::Mul { a, b, c } => encode_std(4, a, b, c),
        Op::Div { a, b, c } => encode_std(5, a, b, c),
        Op::Nand { a, b, c } => encode_std(6, a, b, c),
        Op::Halt => encode_std(7, 0, 0, 0),
        Op::Alloc { b, c } => encode_std(8, 0, b, c),
        Op::Dealloc { c } => encode_std(9, 0, 0, c),
        Op::Output { c } => encode_std(10, 0, 0, c),
        Op::Input { c } => encode_std(11, 0, 0, c),
        Op::LoadProgram { b, c } => encode_std(12, 0, b, c),
        Op::Orthography { a, value } => (13u32 << 28) | ((a as u32) << 25) | value,
        Op::Illegal { opcode } => opcode << 28,
    }
}

proof fn lemma_std_fields(opc: u32, a: usize, b: usize, c: usize)
    requires
        opc <= 12,
        a < 8,
        b < 8,
        c < 8,
    ensures
        encode_std(opc, a, b, c) >> 28 == opc,
        ((encode_std(opc, a, b, c) >> 6) & 7) as usize == a,
        ((encode_std(opc, a, b, c) >> 3) & 7) as usize == b,
        (encode_std(opc, a, b, c) & 7) as usize == c,
{
    let au = a as u32;
    let bu = b as u32;
    let cu = c as u32;
    let w = encode_std(opc, a, b, c);
    assert(w >> 28 == opc && (w >> 6) & 7 == au && (w >> 3) & 7 == bu && (w & 7) == cu)
        by (bit_vector)
        requires
            w == (opc << 28) | (au << 6) | (bu << 3) | cu,
            opc <= 12,
            au < 8,
            bu < 8,
            cu < 8,
    ;
}

proof fn lemma_ortho_fields(a: usize, value: u32)
    requires
        a < 8,
        value < 0x0200_0000,
    ensures
        encode_spec(Op::Orthography { a, value }) >> 28 == 13,
        ((encode_spec(Op::Orthography { a, value }) >> 25) & 7) as usize == a,
        encode_spec(Op::Orthography { a, value }) & 0x01FF_FFFF == value,
{
    let au = a as u32;
    let w = encode_spec(Op::Orthography { a, value });
    assert(w >> 28 == 13 && (w >> 25) & 7 == au && (w & 0x01FF_FFFF) == value)
        by (bit_vector)
        requires
            w == (13u32 << 28) | (au << 25) | value,
            au < 8,
            value < 0x0200_0000,
    ;
}

/// Decode inverts encode: re-encoding a well-formed operation to a word
/// and decoding that word yields the same operation. Reserved bits are
/// zero in the canonical word and ignored on decode.
pub proof fn lemma_decode_encode(op: Op)
    requires
        op.wf(),
    ensures
        decode_spec(encode_spec(op)) == op,
{
    match op {
        Op::CondMove { a, b, c } => lemma_std_fields(0, a, b, c),
        Op::ArrayIndex { a, b, c } => lemma_std_fields(1, a, b, c),
        Op::ArrayAmend { a, b, c } => lemma_std_fields(2, a, b, c),
        Op::Add { a, b, c } => lemma_std_fields(3, a, b, c),
        Op::Mul { a, b, c } => lemma_std_fields(4, a, b, c),
        Op::Div { a, b, c } => lemma_std_fields(5, a, b, c),
        Op::Nand { a, b, c } => lemma_std_fields(6, a, b, c),
        Op::Halt => lemma_std_fields(7, 0, 0, 0),
        Op::Alloc { b, c } => lemma_std_fields(8, 0, b, c),
        Op::Dealloc { c } => lemma_std_fields(9, 0, 0, c),
        Op::Output { c } => lemma_std_fields(10, 0, 0, c),
        Op::Input { c } => lemma_std_fields(11, 0, 0, c),
        Op::LoadProgram { b, c } => lemma_std_fields(12, 0, b, c),
        Op::Orthography { a, value } => lemma_ortho_fields(a, value),
        Op::Illegal { opcode } => {
            let w = encode_spec(op);
            assert(w >> 28 == opcode) by (bit_vector)
                requires
                    w == opcode << 28,
                    14 <= opcode <= 15,
            ;
        },
    }
}

/// Encode an operation to its canonical instruction word.
pub fn encode(op: Op) -> (w: u32)
    requires
        op.wf(),
    ensures
        w == encode_spec(op),
        decode_spec(w) == op,
{
    proof {
        lemma_decode_encode(op);
    }
    match op {
        Op::CondMove { a, b, c } => encode_std_word(0, a, b, c),
        Op::ArrayIndex { a, b, c } => encode_std_word(1, a, b, c),
        Op::ArrayAmend { a, b, c } => encode_std_word(2, a, b, c),
        Op::Add { a, b, c } => encode_std_word(3, a, b, c),
        Op::Mul { a, b, c } => encode_std_word(4, a, b, c),
        Op::Div { a, b, c } => encode_std_word(5, a, b, c),
        Op::Nand { a, b, c } => encode_std_word(6, a, b, c),
        Op::Halt => encode_std_word(7, 0, 0, 0),
        Op::Alloc { b, c } => encode_std_word(8, 0, b, c),
        Op::Dealloc { c } => encode_std_word(9, 0, 0, c),
        Op::Output { c } => encode_std_word(10, 0, 0, c),
        Op::Input { c } => encode_std_word(11, 0, 0, c),
        Op::LoadProgram { b, c } => encode_std_word(12, 0, b, c),
        Op::Orthography { a, value } => (13u32 << 28) | ((a as u32) << 25) | value,
        Op::Illegal { opcode } => opcode << 28,
    }
}

fn encode_std_word(opc: u32, a: usize, b: usize, c: usize) -> (w: u32)
    requires
        opc <= 12,
        a < 8,
        b < 8,
        c < 8,
    ensures
        w == encode_std(opc, a, b, c),
{
    (opc << 28) | ((a as u32) << 6) | ((b as u32) << 3) | (c as u32)
}

} // verus!
