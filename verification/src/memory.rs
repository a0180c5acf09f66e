use vstd::prelude::*;

use crate::fault::Fault;

verus! {

/// The mathematical model of the address space: the live platters keyed
/// by identifier, the freed identifiers in order of deallocation (most
/// recently freed last), and the smallest identifier never yet issued.
pub ghost struct MemoryView {
    pub segs: Map<int, Seq<u32>>,
    pub frees: Seq<u32>,
    pub fresh: int,
}

impl MemoryView {
    /// An identifier currently associated with a platter.
    pub open spec fn live(self, id: int) -> bool {
        self.segs.dom().contains(id)
    }

    /// Model-level invariants: the program segment is always present;
    /// every live or freed identifier has been issued; freed identifiers
    /// are distinct, dead, and never 0.
    pub open spec fn wf(self) -> bool {
        &&& self.segs.dom().contains(0)
        &&& 1 <= self.fresh <= 0x1_0000_0000
        &&& forall|id: int| self.segs.dom().contains(id) ==> 0 <= id < self.fresh
        &&& forall|j: int|
            0 <= j < self.frees.len() ==> 1 <= self.frees[j] && (self.frees[j] as int) < self.fresh
        &&& forall|j: int|
            0 <= j < self.frees.len() ==> !self.segs.dom().contains(self.frees[j] as int)
        &&& forall|j: int, k: int| 0 <= j < k < self.frees.len() ==> self.frees[j] != self.frees[k]
    }
}

/// A fresh identifier can be issued: either a freed one awaits reuse or
/// the 2^32 identifiers are not yet exhausted.
pub open spec fn can_issue(v: MemoryView) -> bool {
    v.frees.len() > 0 || v.fresh < 0x1_0000_0000
}

/// What a successful allocation does: the returned identifier is the most
/// recently freed one when any is free, else the next fresh one; a zeroed
/// platter of `n` words is installed at it.
pub open spec fn alloc_post(pre: MemoryView, post: MemoryView, id: u32, n: nat) -> bool {
    &&& id != 0
    &&& !pre.live(id as int)
    &&& post.segs == pre.segs.insert(id as int, Seq::new(n, |j: int| 0u32))
    &&& if pre.frees.len() > 0 {
        &&& id == pre.frees.last()
        &&& post.frees == pre.frees.drop_last()
        &&& post.fresh == pre.fresh
    } else {
        &&& id as int == pre.fresh
        &&& post.frees == pre.frees
        &&& post.fresh == pre.fresh + 1
    }
}

/// What a successful deallocation does: the platter is dropped and the
/// identifier goes to the end of the free-list.
pub open spec fn dealloc_post(pre: MemoryView, post: MemoryView, id: u32) -> bool {
    &&& id != 0
    &&& pre.live(id as int)
    &&& post.segs == pre.segs.remove(id as int)
    &&& post.frees == pre.frees.push(id)
    &&& post.fresh == pre.fresh
}

/// What a successful write does: one word of one platter changes.
pub open spec fn write_post(pre: MemoryView, post: MemoryView, id: u32, off: u32, v: u32) -> bool {
    &&& pre.live(id as int)
    &&& (off as int) < pre.segs[id as int].len()
    &&& post.segs == pre.segs.insert(
        id as int,
        pre.segs[id as int].update(off as int, v),
    )
    &&& post.frees == pre.frees
    &&& post.fresh == pre.fresh
}

/// What a successful program load from a non-zero source does: a copy of
/// the source platter becomes segment 0; nothing else changes.
pub open spec fn load_program_post(pre: MemoryView, post: MemoryView, src: u32) -> bool {
    &&& src != 0
    &&& pre.live(src as int)
    &&& post.segs == pre.segs.insert(0, pre.segs[src as int])
    &&& post.frees == pre.frees
    &&& post.fresh == pre.fresh
}

/// The memory manager: a dense, identifier-indexed store of platters.
/// A deallocated slot keeps its index entry (emptied) so that identifier
/// reuse stays O(1); the free-list is a LIFO stack.
pub struct Memory {
    segs: Vec<Vec<u32>>,
    live: Vec<bool>,
    free: Vec<u32>,
}

impl View for Memory {
    type V = MemoryView;

    closed spec fn view(&self) -> MemoryView {
        MemoryView {
            segs: Map::new(
                |id: int| 0 <= id < self.segs@.len() && self.live@[id],
                |id: int| self.segs@[id]@,
            ),
            frees: self.free@,
            fresh: self.segs@.len() as int,
        }
    }
}

impl Memory {
    /// Representation invariant: one liveness flag per slot, slot 0 live,
    /// at most 2^32 slots ever issued, and a free-list that holds only
    /// dead, non-zero, in-range slots, each at most once.
    pub closed spec fn inv_rep(self) -> bool {
        &&& self.segs@.len() == self.live@.len()
        &&& 1 <= self.segs@.len() <= 0x1_0000_0000
        &&& self.live@[0]
        &&& forall|j: int|
            0 <= j < self.free@.len() ==> 1 <= self.free@[j] && (self.free@[j] as int)
                < self.segs@.len()
        &&& forall|j: int| 0 <= j < self.free@.len() ==> !self.live@[self.free@[j] as int]
        &&& forall|j: int, k: int| 0 <= j < k < self.free@.len() ==> self.free@[j] != self.free@[k]
    }

    pub open spec fn inv(self) -> bool {
        self.inv_rep() && self@.wf()
    }

    /// Install an image as segment 0 of a fresh address space.
    pub fn new(program: Vec<u32>) -> (m: Memory)
        ensures
            m.inv(),
            m@.segs == map![0int => program@],
            m@.frees == Seq::<u32>::empty(),
            m@.fresh == 1,
    {
        let ghost image = program@;
        let mut segs: Vec<Vec<u32>> = Vec::new();
        segs.push(program);
        let mut live: Vec<bool> = Vec::new();
        live.push(true);
        let m = Memory { segs, live, free: Vec::new() };
        proof {
            assert(m@.segs =~= map![0int => image]);
        }
        m
    }

    /// The word at `off` in the platter at `id`.
    pub fn read(&self, id: u32, off: u32) -> (r: Result<u32, Fault>)
        requires
            self.inv(),
        ensures
            !self@.live(id as int) ==> r == Err::<u32, Fault>(Fault::BadIdentifier),
            self@.live(id as int) && off as int >= self@.segs[id as int].len() ==> r == Err::<
                u32,
                Fault,
            >(Fault::OutOfBounds),
            self@.live(id as int) && (off as int) < self@.segs[id as int].len() ==> r == Ok::<
                u32,
                Fault,
            >(self@.segs[id as int][off as int]),
    {
        let idx = id as usize;
        if idx >= self.live.len() || !self.live[idx] {
            return Err(Fault::BadIdentifier);
        }
        let row: &Vec<u32> = &self.segs[idx];
        let o = off as usize;
        if o >= row.len() {
            return Err(Fault::OutOfBounds);
        }
        Ok(row[o])
    }

    /// Store `v` at `off` in the platter at `id`.
    pub fn write(&mut self, id: u32, off: u32, v: u32) -> (r: Result<(), Fault>)
        requires
            old(self).inv(),
        ensures
            final(self).inv(),
            match r {
                Ok(_) => write_post(old(self)@, final(self)@, id, off, v),
                Err(f) => {
                    &&& final(self)@ == old(self)@
                    &&& if !old(self)@.live(id as int) {
                        f == Fault::BadIdentifier
                    } else {
                        f == Fault::OutOfBounds && off as int >= old(self)@.segs[id as int].len()
                    }
                },
            },
    {
        let idx = id as usize;
        if idx >= self.live.len() || !self.live[idx] {
            return Err(Fault::BadIdentifier);
        }
        let o = off as usize;
        if o >= self.segs[idx].len() {
            return Err(Fault::OutOfBounds);
        }
        self.segs[idx][o] = v;
        proof {
            assert(self@.segs =~= old(self)@.segs.insert(
                id as int,
                old(self)@.segs[id as int].update(off as int, v),
            ));
        }
        Ok(())
    }

    /// A fresh identifier with a zeroed platter of `n` words.
    pub fn allocate(&mut self, n: usize) -> (id: u32)
        requires
            old(self).inv(),
            can_issue(old(self)@),
        ensures
            final(self).inv(),
            alloc_post(old(self)@, final(self)@, id, n as nat),
    {
        let platter = zero_platter(n);
        match self.free.pop() {
            Some(id) => {
                let idx = id as usize;
                self.segs[idx] = platter;
                self.live[idx] = true;
                proof {
                    assert(self@.segs =~= old(self)@.segs.insert(
                        id as int,
                        Seq::new(n as nat, |j: int| 0u32),
                    ));
                    assert(self@.frees =~= old(self)@.frees.drop_last());
                }
                id
            },
            None => {
                let id = self.segs.len() as u32;
                self.segs.push(platter);
                self.live.push(true);
                proof {
                    assert(self@.segs =~= old(self)@.segs.insert(
                        id as int,
                        Seq::new(n as nat, |j: int| 0u32),
                    ));
                }
                id
            },
        }
    }

    /// Release the platter at `id` and queue the identifier for reuse.
    pub fn deallocate(&mut self, id: u32) -> (r: Result<(), Fault>)
        requires
            old(self).inv(),
        ensures
            final(self).inv(),
            match r {
                Ok(_) => dealloc_post(old(self)@, final(self)@, id),
                Err(f) => {
                    &&& f == Fault::BadIdentifier
                    &&& final(self)@ == old(self)@
                    &&& (id == 0 || !old(self)@.live(id as int))
                },
            },
    {
        let idx = id as usize;
        if id == 0 || idx >= self.live.len() || !self.live[idx] {
            return Err(Fault::BadIdentifier);
        }
        self.live[idx] = false;
        self.segs[idx] = Vec::new();
        self.free.push(id);
        proof {
            assert(self@.segs =~= old(self)@.segs.remove(id as int));
        }
        Ok(())
    }

    /// Replace segment 0 with a copy of the platter at `src`; `src = 0`
    /// is the jump primitive and changes nothing.
    pub fn load_program(&mut self, src: u32) -> (r: Result<(), Fault>)
        requires
            old(self).inv(),
        ensures
            final(self).inv(),
            match r {
                Ok(_) => if src == 0 {
                    final(self)@ == old(self)@
                } else {
                    load_program_post(old(self)@, final(self)@, src)
                },
                Err(f) => {
                    &&& f == Fault::BadIdentifier
                    &&& final(self)@ == old(self)@
                    &&& src != 0
                    &&& !old(self)@.live(src as int)
                },
            },
    {
        if src == 0 {
            return Ok(());
        }
        let idx = src as usize;
        if idx >= self.live.len() || !self.live[idx] {
            return Err(Fault::BadIdentifier);
        }
        let copy = copy_platter(&self.segs[idx]);
        self.segs[0] = copy;
        proof {
            assert(self@.segs =~= old(self)@.segs.insert(0, old(self)@.segs[src as int]));
        }
        Ok(())
    }

    /// The word at `ip` in segment 0.
    pub fn fetch(&self, ip: usize) -> (r: Result<u32, Fault>)
        requires
            self.inv(),
        ensures
            match r {
                Ok(w) => ip < self@.segs[0].len() && w == self@.segs[0][ip as int],
                Err(f) => f == Fault::OutOfBounds && ip >= self@.segs[0].len(),
            },
    {
        let row: &Vec<u32> = &self.segs[0];
        if ip >= row.len() {
            return Err(Fault::OutOfBounds);
        }
        Ok(row[ip])
    }

    /// The word at `ip` in segment 0, for a caller that has already
    /// checked the bound.
    pub fn fetch_word(&self, ip: usize) -> (w: u32)
        requires
            self.inv(),
            ip < self@.segs[0].len(),
        ensures
            w == self@.segs[0][ip as int],
    {
        let row: &Vec<u32> = &self.segs[0];
        row[ip]
    }

    /// The current length of segment 0, in words.
    pub fn seg0_len(&self) -> (n: usize)
        requires
            self.inv(),
        ensures
            n == self@.segs[0].len(),
    {
        self.segs[0].len()
    }

    /// Whether an allocation can currently be served.
    pub fn can_alloc(&self) -> (r: bool)
        requires
            self.inv(),
        ensures
            r == can_issue(self@),
    {
        self.free.len() > 0 || self.segs.len() <= (u32::MAX as usize)
    }
}

fn zero_platter(n: usize) -> (p: Vec<u32>)
    ensures
        p@ == Seq::new(n as nat, |j: int| 0u32),
{
    let mut p: Vec<u32> = Vec::new();
    let mut i: usize = 0;
    while i < n
        invariant
            i <= n,
            p@.len() == i,
            forall|j: int| 0 <= j < i ==> p@[j] == 0u32,
        decreases n - i,
    {
        p.push(0);
        i = i + 1;
    }
    proof {
        assert(p@ =~= Seq::new(n as nat, |j: int| 0u32));
    }
    p
}

fn copy_platter(src: &Vec<u32>) -> (p: Vec<u32>)
    ensures
        p@ == src@,
{
    let mut p: Vec<u32> = Vec::new();
    let mut i: usize = 0;
    while i < src.len()
        invariant
            i <= src@.len(),
            p@.len() == i,
            forall|j: int| 0 <= j < i ==> p@[j] == src@[j],
        decreases src@.len() - i,
    {
        p.push(src[i]);
        i = i + 1;
    }
    proof {
        assert(p@ =~= src@);
    }
    p
}

/// Identifier stability: an allocation leaves every platter that was live
/// before it untouched, and never returns an identifier that was live.
pub proof fn lemma_alloc_preserves_others(
    pre: MemoryView,
    post: MemoryView,
    id: u32,
    n: nat,
    other: int,
)
    requires
        alloc_post(pre, post, id, n),
        pre.live(other),
    ensures
        other != id as int,
        post.live(other),
        post.segs[other] == pre.segs[other],
{
}

/// Identifier stability: a deallocation leaves every other live platter
/// untouched.
pub proof fn lemma_dealloc_preserves_others(pre: MemoryView, post: MemoryView, id: u32, other: int)
    requires
        dealloc_post(pre, post, id),
        pre.live(other),
        other != id as int,
    ensures
        post.live(other),
        post.segs[other] == pre.segs[other],
{
}

/// Identifier stability: a write to one platter leaves every other live
/// platter untouched.
pub proof fn lemma_write_preserves_others(
    pre: MemoryView,
    post: MemoryView,
    id: u32,
    off: u32,
    v: u32,
    other: int,
)
    requires
        write_post(pre, post, id, off, v),
        pre.live(other),
        other != id as int,
    ensures
        post.live(other),
        post.segs[other] == pre.segs[other],
{
}

/// Identifier reuse: allocating, deallocating the result, and allocating
/// again yields the same identifier, whatever the platter sizes.
pub proof fn lemma_identifier_reuse(
    m0: MemoryView,
    m1: MemoryView,
    m2: MemoryView,
    m3: MemoryView,
    id1: u32,
    id2: u32,
    n: nat,
    k: nat,
)
    requires
        alloc_post(m0, m1, id1, n),
        dealloc_post(m1, m2, id1),
        alloc_post(m2, m3, id2, k),
    ensures
        id2 == id1,
{
    assert(m2.frees == m1.frees.push(id1));
    assert(m2.frees.len() > 0);
    assert(m2.frees.last() == id1);
}

/// A program load from a non-zero source installs an element-wise equal
/// copy of the source platter as segment 0 and leaves the source platter
/// itself unchanged.
pub proof fn lemma_load_program_copy(pre: MemoryView, post: MemoryView, src: u32)
    requires
        load_program_post(pre, post, src),
    ensures
        post.segs[0] == pre.segs[src as int],
        post.live(src as int),
        post.segs[src as int] == pre.segs[src as int],
{
}

} // verus!
