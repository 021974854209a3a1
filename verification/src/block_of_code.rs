//! The code buffer that instructions are assembled into.
//!
//! A `BlockOfCode` is a fixed-capacity array of 32-bit instruction slots
//! with an append cursor. Mnemonics append at the cursor; label binding
//! rewrites slots that were emitted earlier. The buffer also records the
//! address at which its first byte executes, which PC-relative encodings
//! need; making the memory executable is the host's concern.

use vstd::prelude::*;

verus! {

/// Fixed-capacity instruction buffer with an append cursor.
pub struct BlockOfCode {
    mem: Vec<u32>,
    len: usize,
    base: usize,
}

/// The state after appending `ws` to `before`, as far as they fit: the
/// slots from the cursor on are overwritten in order, the cursor advances
/// by the number written, and success means that all of them fitted.
pub open spec fn writes(before: BlockOfCode, after: BlockOfCode, ws: Seq<u32>, ok: bool) -> bool {
    let n = if ws.len() <= before.room() { ws.len() as int } else { before.room() };
    &&& ok <==> ws.len() <= before.room()
    &&& after.len() == before.len() + n
    &&& after.capacity() == before.capacity()
    &&& after.base() == before.base()
    &&& after.mem() == before.mem().take(before.len() as int) + ws.take(n) + before.mem().skip(
        before.len() + n,
    )
}

/// The error a write into a full buffer reports.
pub open spec fn full_message() -> Seq<char> {
    "ARM64 code buffer is full"@
}

/// `after` holds the same slots, cursor and base address as `before`.
pub open spec fn same(before: BlockOfCode, after: BlockOfCode) -> bool {
    &&& after.mem() == before.mem()
    &&& after.len() == before.len()
    &&& after.base() == before.base()
}

/// `writes` of the single instruction `word`.
pub open spec fn emits(before: BlockOfCode, after: BlockOfCode, word: u32, ok: bool) -> bool {
    writes(before, after, seq![word], ok)
}

/// Appending `ws` and then `vs` is appending `ws + vs`: when all of `ws`
/// fitted, the outcome of `vs` decides; when not, nothing more is written.
pub proof fn lemma_writes_concat(
    c0: BlockOfCode,
    c1: BlockOfCode,
    c2: BlockOfCode,
    ws: Seq<u32>,
    vs: Seq<u32>,
    ok1: bool,
    ok2: bool,
)
    requires
        writes(c0, c1, ws, ok1),
        ok1 ==> writes(c1, c2, vs, ok2),
        !ok1 ==> c2 == c1,
        c0.len() <= c0.capacity(),
    ensures
        writes(c0, c2, ws + vs, ok1 && ok2),
{
    let all = ws + vs;
    let n0 = if all.len() <= c0.room() {
        all.len() as int
    } else {
        c0.room()
    };
    if ok1 {
        let n1 = if vs.len() <= c1.room() {
            vs.len() as int
        } else {
            c1.room()
        };
        assert(ws.take(ws.len() as int) =~= ws);
        assert(all.take(n0) =~= ws + vs.take(n1));
        assert(c2.mem() =~= c0.mem().take(c0.len() as int) + all.take(n0) + c0.mem().skip(
            c0.len() + n0,
        ));
    } else {
        assert(all.take(n0) =~= ws.take(n0));
    }
}

/// A failed append of a prefix of `ws` is a failed append of `ws`: the
/// same slots get written.
pub proof fn lemma_writes_prefix_fails(c0: BlockOfCode, c1: BlockOfCode, ws: Seq<u32>, i: int)
    requires
        0 <= i <= ws.len(),
        writes(c0, c1, ws.take(i), false),
        c0.len() <= c0.capacity(),
    ensures
        writes(c0, c1, ws, false),
{
    let n = c0.room();
    assert(ws.take(i).take(n) =~= ws.take(n));
}

/// Appending nothing succeeds and changes nothing.
pub proof fn lemma_writes_empty(c0: BlockOfCode)
    requires
        c0.len() <= c0.capacity(),
    ensures
        writes(c0, c0, Seq::<u32>::empty(), true),
{
    assert(c0.mem() =~= c0.mem().take(c0.len() as int) + Seq::<u32>::empty().take(0) + c0.mem().skip(
        c0.len() as int,
    ));
}

impl BlockOfCode {
    #[verifier::type_invariant]
    spec fn inv(&self) -> bool {
        &&& self.len <= self.mem.len()
        &&& self.mem.len() <= usize::MAX / 4
    }

    /// Every slot of the buffer, emitted or not.
    pub closed spec fn mem(&self) -> Seq<u32> {
        self.mem@
    }

    /// Number of instruction slots emitted so far.
    pub closed spec fn len(&self) -> nat {
        self.len as nat
    }

    /// Address of the first byte.
    pub closed spec fn base(&self) -> nat {
        self.base as nat
    }

    /// Number of instruction slots in the buffer.
    pub open spec fn capacity(&self) -> nat {
        self.mem().len()
    }

    /// Slots still free after the cursor.
    pub open spec fn room(&self) -> int {
        self.capacity() - self.len()
    }

    /// The instructions emitted so far, in order.
    pub open spec fn code(&self) -> Seq<u32> {
        self.mem().take(self.len() as int)
    }

    /// A buffer of `size` bytes (rounded down to whole instructions) whose
    /// first byte executes at address 0, every slot zero.
    pub fn with_size(size: usize) -> (r: Result<BlockOfCode, String>)
        ensures
            r is Ok,
            r->Ok_0.capacity() == size / 4,
            r->Ok_0.len() == 0,
            r->Ok_0.base() == 0,
            forall|i: int| 0 <= i < size / 4 ==> r->Ok_0.mem()[i] == 0,
    {
        Ok(Self::with_base(0, size))
    }

    /// A buffer of `size` bytes (rounded down to whole instructions) whose
    /// first byte executes at address `base`, every slot zero.
    pub fn with_base(base: usize, size: usize) -> (r: BlockOfCode)
        ensures
            r.capacity() == size / 4,
            r.len() == 0,
            r.base() == base,
            forall|i: int| 0 <= i < size / 4 ==> r.mem()[i] == 0,
    {
        let n = size / 4;
        let mut mem: Vec<u32> = Vec::new();
        let mut i: usize = 0;
        while i < n
            invariant
                i <= n,
                n == size / 4,
                mem@.len() == i,
                forall|j: int| 0 <= j < i ==> mem@[j] == 0,
            decreases n - i,
        {
            mem.push(0);
            i = i + 1;
        }
        BlockOfCode { mem, len: 0, base }
    }

    /// Bytes emitted so far.
    pub fn code_size(&self) -> (r: usize)
        ensures
            r == 4 * self.len(),
            self.len() <= self.capacity(),
            self.capacity() <= usize::MAX / 4,
    {
        proof { use_type_invariant(self); }
        4 * self.len
    }

    /// Bytes the buffer can hold.
    pub fn total_size(&self) -> (r: usize)
        ensures
            r == 4 * self.capacity(),
    {
        proof { use_type_invariant(self); }
        4 * self.mem.len()
    }

    /// Address at which the first byte executes.
    pub fn code_base_ptr(&self) -> (r: usize)
        ensures
            r == self.base(),
    {
        self.base
    }

    /// The instruction in the slot at byte `offset`.
    pub fn word_at(&self, offset: usize) -> (r: u32)
        requires
            offset % 4 == 0,
            offset / 4 < self.capacity(),
        ensures
            r == self.mem()[(offset / 4) as int],
    {
        self.mem[offset / 4]
    }

    /// Appends `word` at the cursor; `Err` when the buffer is full. `Ok`
    /// carries the byte offset of the new instruction.
    pub fn write_u32(&mut self, word: u32) -> (r: Result<usize, String>)
        ensures
            writes(*old(self), *final(self), seq![word], r is Ok),
            r is Ok ==> r->Ok_0 == 4 * old(self).len(),
            r is Err ==> r->Err_0@ == full_message(),
    {
        proof { use_type_invariant(&*self); }
        if self.len < self.mem.len() {
            let at = self.len;
            assert(seq![word].take(1) =~= seq![word]);
            self.mem[at] = word;
            self.len = at + 1;
            assert(self.mem@ =~= old(self).mem().take(at as int) + seq![word] + old(self).mem().skip(
                at + 1int,
            ));
            Ok(4 * at)
        } else {
            assert(self.mem@ =~= old(self).mem().take(self.len as int) + seq![word].take(0)
                + old(self).mem().skip(self.len as int));
            Err(String::from_str("ARM64 code buffer is full"))
        }
    }

    /// Rewrites the already emitted instruction in slot `index`.
    pub(crate) fn set_word(&mut self, index: usize, word: u32)
        requires
            index < old(self).len(),
        ensures
            final(self).mem() == old(self).mem().update(index as int, word),
            final(self).len() == old(self).len(),
            final(self).base() == old(self).base(),
    {
        proof { use_type_invariant(&*self); }
        self.mem[index] = word;
    }
}

} // verus!
