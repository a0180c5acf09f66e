use vstd::prelude::*;

use crate::decode::decode;
use crate::decode::decode_spec;
use crate::decode::Op;
use crate::fault::Fault;
use crate::memory::alloc_post;
use crate::memory::can_issue;
use crate::memory::dealloc_post;
use crate::memory::load_program_post;
use crate::memory::write_post;
use crate::memory::Memory;
use crate::memory::MemoryView;

verus! {

/// `(x + y) mod 2^32`, the Add semantics.
pub open spec fn word_add(x: u32, y: u32) -> u32 {
    ((x + y) % 0x1_0000_0000) as u32
}

/// `(x * y) mod 2^32`, the Mul semantics.
pub open spec fn word_mul(x: u32, y: u32) -> u32 {
    ((x * y) % 0x1_0000_0000) as u32
}

/// Unsigned truncating division, the Div semantics; the divisor must not
/// be 0.
pub open spec fn word_div(x: u32, y: u32) -> u32
    recommends
        y != 0,
{
    (x as int / y as int) as u32
}

/// Bitwise not-and on the raw 32-bit patterns, the Nand semantics.
pub open spec fn word_nand(x: u32, y: u32) -> u32 {
    !(x & y)
}

/// Wrap-around addition of two words.
pub fn add_words(x: u32, y: u32) -> (r: u32)
    ensures
        r == word_add(x, y),
{
    let s: u64 = (x as u64) + (y as u64);
    (s % 0x1_0000_0000) as u32
}

/// Wrap-around multiplication of two words.
pub fn mul_words(x: u32, y: u32) -> (r: u32)
    ensures
        r == word_mul(x, y),
{
    proof {
        assert((x as int) * (y as int) <= 0xFFFF_FFFF * 0xFFFF_FFFF) by (nonlinear_arith)
            requires
                x <= 0xFFFF_FFFFu32,
                y <= 0xFFFF_FFFFu32,
        ;
    }
    let p: u64 = (x as u64) * (y as u64);
    (p % 0x1_0000_0000) as u32
}

/// Unsigned division of two words.
pub fn div_words(x: u32, y: u32) -> (r: u32)
    requires
        y != 0,
    ensures
        r == word_div(x, y),
{
    x / y
}

/// Bitwise not-and of two words.
pub fn nand_words(x: u32, y: u32) -> (r: u32)
    ensures
        r == word_nand(x, y),
{
    !(x & y)
}

/// What one dispatch step asks of the host.
#[derive(Clone, Copy, Debug, PartialEq, Eq, Structural)]
pub enum StepOutcome {
    /// The instruction completed; nothing to do.
    Continue,
    /// Emit this byte on the output sink, then continue.
    Output { byte: u8 },
    /// Read one byte (or end of stream) and hand it to `provide_input`,
    /// then continue.
    NeedInput,
    /// The program halted; the run succeeded.
    Halted,
    /// A terminal fault; the run failed.
    Fault { fault: Fault },
}

/// The mathematical model of the whole machine.
pub ghost struct MachineView {
    pub ip: int,
    pub regs: Seq<u32>,
    pub mem: MemoryView,
    pub pending: Option<int>,
}

impl MachineView {
    /// Exactly 8 registers, a well-formed address space, and a pending
    /// input destination (when one exists) that is a register index.
    pub open spec fn wf(self) -> bool {
        &&& self.regs.len() == 8
        &&& self.mem.wf()
        &&& 0 <= self.ip
        &&& match self.pending {
            Some(c) => 0 <= c < 8,
            None => true,
        }
    }
}

/// The execution core: registers, instruction pointer, address space, and
/// the destination register of an input instruction whose byte the host
/// has not yet delivered.
pub struct UniversalMachine {
    ip: usize,
    regs: Vec<u32>,
    mem: Memory,
    pending: Option<u8>,
}

impl View for UniversalMachine {
    type V = MachineView;

    closed spec fn view(&self) -> MachineView {
        MachineView {
            ip: self.ip as int,
            regs: self.regs@,
            mem: self.mem@,
            pending: match self.pending {
                Some(c) => Some(c as int),
                None => None,
            },
        }
    }
}

/// The meaning of one dispatch step: fetch at the instruction pointer,
/// decode, advance the pointer by one, execute. A fault leaves the
/// machine exactly as it stood before the step.
pub open spec fn step_post(pre: MachineView, post: MachineView, r: StepOutcome) -> bool {
    let seg0 = pre.mem.segs[0];
    if pre.ip >= seg0.len() {
        r == (StepOutcome::Fault { fault: Fault::OutOfBounds }) && post == pre
    } else {
        let op = decode_spec(seg0[pre.ip]);
        let ip1 = pre.ip + 1;
        match op {
            Op::CondMove { a, b, c } => {
                &&& r == StepOutcome::Continue
                &&& post == (MachineView {
                    ip: ip1,
                    regs: if pre.regs[c as int] != 0 {
                        pre.regs.update(a as int, pre.regs[b as int])
                    } else {
                        pre.regs
                    },
                    ..pre
                })
            },
            Op::ArrayIndex { a, b, c } => {
                let id = pre.regs[b as int];
                let off = pre.regs[c as int];
                if !pre.mem.live(id as int) {
                    r == (StepOutcome::Fault { fault: Fault::BadIdentifier }) && post == pre
                } else if off as int >= pre.mem.segs[id as int].len() {
                    r == (StepOutcome::Fault { fault: Fault::OutOfBounds }) && post == pre
                } else {
                    &&& r == StepOutcome::Continue
                    &&& post == (MachineView {
                        ip: ip1,
                        regs: pre.regs.update(a as int, pre.mem.segs[id as int][off as int]),
                        ..pre
                    })
                }
            },
            Op::ArrayAmend { a, b, c } => {
                let id = pre.regs[a as int];
                let off = pre.regs[b as int];
                let v = pre.regs[c as int];
                if !pre.mem.live(id as int) {
                    r == (StepOutcome::Fault { fault: Fault::BadIdentifier }) && post == pre
                } else if off as int >= pre.mem.segs[id as int].len() {
                    r == (StepOutcome::Fault { fault: Fault::OutOfBounds }) && post == pre
                } else {
                    &&& r == StepOutcome::Continue
                    &&& write_post(pre.mem, post.mem, id, off, v)
                    &&& post.ip == ip1
                    &&& post.regs == pre.regs
                    &&& post.pending == pre.pending
                }
            },
            Op::Add { a, b, c } => {
                &&& r == StepOutcome::Continue
                &&& post == (MachineView {
                    ip: ip1,
                    regs: pre.regs.update(
                        a as int,
                        word_add(pre.regs[b as int], pre.regs[c as int]),
                    ),
                    ..pre
                })
            },
            Op::Mul { a, b, c } => {
                &&& r == StepOutcome::Continue
                &&& post == (MachineView {
                    ip: ip1,
                    regs: pre.regs.update(
                        a as int,
                        word_mul(pre.regs[b as int], pre.regs[c as int]),
                    ),
                    ..pre
                })
            },
            Op::Div { a, b, c } => {
                if pre.regs[c as int] == 0 {
                    r == (StepOutcome::Fault { fault: Fault::DivByZero }) && post == pre
                } else {
                    &&& r == StepOutcome::Continue
                    &&& post == (MachineView {
                        ip: ip1,
                        regs: pre.regs.update(
                            a as int,
                            word_div(pre.regs[b as int], pre.regs[c as int]),
                        ),
                        ..pre
                    })
                }
            },
            Op::Nand { a, b, c } => {
                &&& r == StepOutcome::Continue
                &&& post == (MachineView {
                    ip: ip1,
                    regs: pre.regs.update(
                        a as int,
                        word_nand(pre.regs[b as int], pre.regs[c as int]),
                    ),
                    ..pre
                })
            },
            Op::Halt => {
                r == StepOutcome::Halted && post == (MachineView { ip: ip1, ..pre })
            },
            Op::Alloc { b, c } => {
                if !can_issue(pre.mem) {
                    r == (StepOutcome::Fault { fault: Fault::OutOfMemory }) && post == pre
                } else {
                    let id = if pre.mem.frees.len() > 0 {
                        pre.mem.frees.last()
                    } else {
                        pre.mem.fresh as u32
                    };
                    &&& r == StepOutcome::Continue
                    &&& alloc_post(pre.mem, post.mem, id, pre.regs[c as int] as nat)
                    &&& post.regs == pre.regs.update(b as int, id)
                    &&& post.ip == ip1
                    &&& post.pending == pre.pending
                }
            },
            Op::Dealloc { c } => {
                let id = pre.regs[c as int];
                if id == 0 || !pre.mem.live(id as int) {
                    r == (StepOutcome::Fault { fault: Fault::BadIdentifier }) && post == pre
                } else {
                    &&& r == StepOutcome::Continue
                    &&& dealloc_post(pre.mem, post.mem, id)
                    &&& post.ip == ip1
                    &&& post.regs == pre.regs
                    &&& post.pending == pre.pending
                }
            },
            Op::Output { c } => {
                if pre.regs[c as int] > 255 {
                    r == (StepOutcome::Fault { fault: Fault::BadOutput }) && post == pre
                } else {
                    &&& r == (StepOutcome::Output { byte: pre.regs[c as int] as u8 })
                    &&& post == (MachineView { ip: ip1, ..pre })
                }
            },
            Op::Input { c } => {
                &&& r == StepOutcome::NeedInput
                &&& post == (MachineView { ip: ip1, pending: Some(c as int), ..pre })
            },
            Op::LoadProgram { b, c } => {
                let src = pre.regs[b as int];
                if src == 0 {
                    &&& r == StepOutcome::Continue
                    &&& post == (MachineView { ip: pre.regs[c as int] as int, ..pre })
                } else if !pre.mem.live(src as int) {
                    r == (StepOutcome::Fault { fault: Fault::BadIdentifier }) && post == pre
                } else {
                    &&& r == StepOutcome::Continue
                    &&& load_program_post(pre.mem, post.mem, src)
                    &&& post.ip == pre.regs[c as int] as int
                    &&& post.regs == pre.regs
                    &&& post.pending == pre.pending
                }
            },
            Op::Orthography { a, value } => {
                &&& r == StepOutcome::Continue
                &&& post == (MachineView { ip: ip1, regs: pre.regs.update(a as int, value), ..pre })
            },
            Op::Illegal { .. } => {
                r == (StepOutcome::Fault { fault: Fault::IllegalOp }) && post == pre
            },
        }
    }
}

/// The meaning of delivering one input byte (or end of stream) to a
/// machine awaiting one: the destination register takes the byte,
/// zero-extended; end of stream yields the sentinel `0xFFFFFFFF`.
pub open spec fn input_post(pre: MachineView, post: MachineView, byte: Option<u8>) -> bool {
    pre.pending matches Some(c) ==> post == (MachineView {
        regs: pre.regs.update(
            c,
            match byte {
                Some(x) => x as u32,
                None => 0xFFFF_FFFFu32,
            },
        ),
        pending: None,
        ..pre
    })
}

impl UniversalMachine {
    /// Representation invariant, tied to the model.
    pub closed spec fn inv_rep(self) -> bool {
        &&& self.regs@.len() == 8
        &&& self.mem.inv()
        &&& match self.pending {
            Some(c) => c < 8,
            None => true,
        }
    }

    pub open spec fn inv(self) -> bool {
        self.inv_rep() && self@.wf()
    }

    /// A machine over a fresh image: registers and instruction pointer
    /// zero, the image as segment 0, nothing yet allocated or freed.
    pub fn new(program: Vec<u32>) -> (m: UniversalMachine)
        ensures
            m.inv(),
            m@.ip == 0,
            m@.regs == Seq::new(8, |i: int| 0u32),
            m@.mem.segs == map![0int => program@],
            m@.mem.frees == Seq::<u32>::empty(),
            m@.mem.fresh == 1,
            m@.pending is None,
    {
        let mut regs: Vec<u32> = Vec::new();
        let mut i: usize = 0;
        while i < 8
            invariant
                i <= 8,
                regs@.len() == i,
                forall|j: int| 0 <= j < i ==> regs@[j] == 0u32,
            decreases 8 - i,
        {
            regs.push(0);
            i = i + 1;
        }
        proof {
            assert(regs@ =~= Seq::new(8, |j: int| 0u32));
        }
        UniversalMachine { ip: 0, regs, mem: Memory::new(program), pending: None }
    }

    /// Register `i`.
    pub fn reg(&self, i: usize) -> (x: u32)
        requires
            self.inv(),
            i < 8,
        ensures
            x == self@.regs[i as int],
    {
        self.regs[i]
    }

    /// The current instruction pointer.
    pub fn current_ip(&self) -> (x: usize)
        ensures
            x as int == self@.ip,
    {
        self.ip
    }

    /// The instruction word under the instruction pointer, for
    /// diagnostics; `None` when the pointer is past the segment's end.
    pub fn current_word(&self) -> (r: Option<u32>)
        requires
            self.inv(),
        ensures
            match r {
                Some(w) => self@.ip < self@.mem.segs[0].len() && w == self@.mem.segs[0][self@.ip],
                None => self@.ip >= self@.mem.segs[0].len(),
            },
    {
        match self.mem.fetch(self.ip) {
            Ok(w) => Some(w),
            Err(_) => None,
        }
    }

    /// Whether the machine awaits an input byte before it can step again.
    pub fn needs_input(&self) -> (r: bool)
        ensures
            r == (self@.pending is Some),
    {
        self.pending.is_some()
    }

    /// One dispatch step: fetch, decode, advance, execute. I/O is asked
    /// of the caller through the outcome; a fault leaves the machine
    /// unchanged.
    pub fn step(&mut self) -> (r: StepOutcome)
        requires
            old(self).inv(),
            old(self)@.pending is None,
        ensures
            final(self).inv(),
            step_post(old(self)@, final(self)@, r),
    {
        let n0 = self.mem.seg0_len();
        if self.ip >= n0 {
            return StepOutcome::Fault { fault: Fault::OutOfBounds };
        }
        let w = self.mem.fetch_word(self.ip);
        let op = decode(w);
        let ip1 = self.ip + 1;
        match op {
            Op::CondMove { a, b, c } => {
                if self.regs[c] != 0 {
                    let x = self.regs[b];
                    self.regs[a] = x;
                }
                self.ip = ip1;
                StepOutcome::Continue
            },
            Op::ArrayIndex { a, b, c } => {
                let id = self.regs[b];
                let off = self.regs[c];
                match self.mem.read(id, off) {
                    Ok(x) => {
                        self.regs[a] = x;
                        self.ip = ip1;
                        StepOutcome::Continue
                    },
                    Err(f) => StepOutcome::Fault { fault: f },
                }
            },
            Op::ArrayAmend { a, b, c } => {
                let id = self.regs[a];
                let off = self.regs[b];
                let v = self.regs[c];
                match self.mem.write(id, off, v) {
                    Ok(_) => {
                        self.ip = ip1;
                        StepOutcome::Continue
                    },
                    Err(f) => StepOutcome::Fault { fault: f },
                }
            },
            Op::Add { a, b, c } => {
                let x = add_words(self.regs[b], self.regs[c]);
                self.regs[a] = x;
                self.ip = ip1;
                StepOutcome::Continue
            },
            Op::Mul { a, b, c } => {
                let x = mul_words(self.regs[b], self.regs[c]);
                self.regs[a] = x;
                self.ip = ip1;
                StepOutcome::Continue
            },
            Op::Div { a, b, c } => {
                let d = self.regs[c];
                if d == 0 {
                    StepOutcome::Fault { fault: Fault::DivByZero }
                } else {
                    let x = div_words(self.regs[b], d);
                    self.regs[a] = x;
                    self.ip = ip1;
                    StepOutcome::Continue
                }
            },
            Op::Nand { a, b, c } => {
                let x = nand_words(self.regs[b], self.regs[c]);
                self.regs[a] = x;
                self.ip = ip1;
                StepOutcome::Continue
            },
            Op::Halt => {
                self.ip = ip1;
                StepOutcome::Halted
            },
            Op::Alloc { b, c } => {
                if !self.mem.can_alloc() {
                    StepOutcome::Fault { fault: Fault::OutOfMemory }
                } else {
                    let n = self.regs[c];
                    let id = self.mem.allocate(n as usize);
                    self.regs[b] = id;
                    self.ip = ip1;
                    StepOutcome::Continue
                }
            },
            Op::Dealloc { c } => {
                let id = self.regs[c];
                match self.mem.deallocate(id) {
                    Ok(_) => {
                        self.ip = ip1;
                        StepOutcome::Continue
                    },
                    Err(f) => StepOutcome::Fault { fault: f },
                }
            },
            Op::Output { c } => {
                let x = self.regs[c];
                if x > 255 {
                    StepOutcome::Fault { fault: Fault::BadOutput }
                } else {
                    self.ip = ip1;
                    StepOutcome::Output { byte: x as u8 }
                }
            },
            Op::Input { c } => {
                self.pending = Some(c as u8);
                self.ip = ip1;
                StepOutcome::NeedInput
            },
            Op::LoadProgram { b, c } => {
                let src = self.regs[b];
                let target = self.regs[c];
                match self.mem.load_program(src) {
                    Ok(_) => {
                        self.ip = target as usize;
                        StepOutcome::Continue
                    },
                    Err(f) => StepOutcome::Fault { fault: f },
                }
            },
            Op::Orthography { a, value } => {
                self.regs[a] = value;
                self.ip = ip1;
                StepOutcome::Continue
            },
            Op::Illegal { .. } => StepOutcome::Fault { fault: Fault::IllegalOp },
        }
    }

    /// Deliver the byte an Input instruction asked for, or the end of
    /// the stream.
    pub fn provide_input(&mut self, byte: Option<u8>)
        requires
            old(self).inv(),
            old(self)@.pending is Some,
        ensures
            final(self).inv(),
            input_post(old(self)@, final(self)@, byte),
    {
        match self.pending {
            Some(c) => {
                let x: u32 = match byte {
                    Some(v) => v as u32,
                    None => 0xFFFF_FFFF,
                };
                self.regs[c as usize] = x;
                self.pending = None;
            },
            None => {
                proof {
                    assert(false);
                }
            },
        }
    }
}

} // verus!
