//! The storages that a compiled program reads and writes at run time:
//! twenty-eight containers of 32-bit words, addressed by the index that a
//! final consonant names. Storage 21 is a queue, storage 27 is reserved and
//! refuses every access, and all others are stacks.
use vstd::prelude::*;

verus! {

/// The number of storage indices.
pub const STORAGE_COUNT: usize = 28;

/// The index of the storage that is a queue.
pub const QUEUE_INDEX: u8 = 21;

/// The index that is reserved and refuses every access.
pub const RESERVED_INDEX: u8 = 27;

/// Why a storage access failed. Either ends the program.
#[derive(Debug, Clone, Copy, PartialEq, Eq, Structural)]
pub enum StorageError {
    /// The index is the reserved one, or past the last storage.
    Unsupported(u8),
    /// The storage holds too few words for the access.
    Underflow(u8),
}

/// Whether `idx` names a storage that can be used.
pub open spec fn usable(idx: u8) -> bool {
    idx < RESERVED_INDEX
}

/// The words of one storage after a pop, and the word popped: the head of
/// the queue, or the top of a stack.
pub open spec fn popped(idx: u8, s: Seq<i32>) -> (i32, Seq<i32>) {
    if idx == QUEUE_INDEX {
        (s[0], s.drop_first())
    } else {
        (s.last(), s.drop_last())
    }
}

/// The words of one storage after the word at its front is duplicated.
pub open spec fn duplicated(idx: u8, s: Seq<i32>) -> Seq<i32> {
    if idx == QUEUE_INDEX {
        seq![s[0]] + s
    } else {
        s.push(s.last())
    }
}

/// The words of one storage after its two front words are exchanged.
pub open spec fn swapped(idx: u8, s: Seq<i32>) -> Seq<i32> {
    if idx == QUEUE_INDEX {
        s.update(0, s[1]).update(1, s[0])
    } else {
        let n = s.len() - 1;
        s.update(n - 1, s[n]).update(n, s[n - 1])
    }
}

/// The queue gives words back in the order they came, a stack in the
/// reverse order: after pushing `v` onto storage `idx` that holds `s`, a pop
/// returns the oldest word of the queue and `v` from a stack.
pub proof fn lemma_queue_fifo_stack_lifo(idx: u8, s: Seq<i32>, v: i32)
    requires
        usable(idx),
    ensures
        idx == QUEUE_INDEX && s.len() > 0 ==> popped(idx, s.push(v)) == (s[0], s.drop_first().push(
            v,
        )),
        idx == QUEUE_INDEX && s.len() == 0 ==> popped(idx, s.push(v)) == (v, s),
        idx != QUEUE_INDEX ==> popped(idx, s.push(v)) == (v, s),
{
    assert(s.push(v).drop_last() =~= s);
    if s.len() > 0 {
        assert(s.push(v).drop_first() =~= s.drop_first().push(v));
    } else {
        assert(s.push(v).drop_first() =~= s);
    }
}

/// The run-time storages of one program.
pub struct AheuiRt {
    dqs: Vec<Vec<i32>>,
}

impl View for AheuiRt {
    type V = Seq<Seq<i32>>;

    closed spec fn view(&self) -> Seq<Seq<i32>> {
        self.dqs@.map_values(|q: Vec<i32>| q@)
    }
}

/// Fresh storages: all empty.
pub fn rt_init() -> (r: AheuiRt)
    ensures
        r.wf(),
        forall|i: int| 0 <= i < STORAGE_COUNT ==> #[trigger] r@[i] == Seq::<i32>::empty(),
{
    AheuiRt::new()
}

impl AheuiRt {
    /// There is one container for each index.
    pub open spec fn wf(&self) -> bool {
        self@.len() == STORAGE_COUNT
    }

    /// Fresh storages: all empty.
    pub fn new() -> (r: AheuiRt)
        ensures
            r.wf(),
            forall|i: int| 0 <= i < STORAGE_COUNT ==> #[trigger] r@[i] == Seq::<i32>::empty(),
    {
        let mut dqs: Vec<Vec<i32>> = Vec::new();
        let mut i: usize = 0;
        while i < STORAGE_COUNT
            invariant
                0 <= i <= STORAGE_COUNT,
                dqs@.len() == i,
                forall|j: int| 0 <= j < i ==> (#[trigger] dqs@[j])@ == Seq::<i32>::empty(),
            decreases STORAGE_COUNT - i,
        {
            dqs.push(Vec::new());
            i = i + 1;
        }
        AheuiRt { dqs }
    }

    /// The words in storage `idx`, front first for the queue and bottom first
    /// for a stack.
    pub fn words(&self, idx: u8) -> (r: &Vec<i32>)
        requires
            self.wf(),
            idx < STORAGE_COUNT,
        ensures
            r@ == self@[idx as int],
    {
        &self.dqs[idx as usize]
    }

    /// Adds `v` to storage `idx`: at the back of the queue, on top of a stack.
    pub fn push(&mut self, idx: u8, v: i32) -> (r: Result<(), StorageError>)
        requires
            old(self).wf(),
        ensures
            final(self).wf(),
            usable(idx) ==> r is Ok && final(self)@ == old(self)@.update(
                idx as int,
                old(self)@[idx as int].push(v),
            ),
            !usable(idx) ==> r == Err::<(), StorageError>(StorageError::Unsupported(idx))
                && final(self)@ == old(self)@,
    {
        if idx >= RESERVED_INDEX {
            return Err(StorageError::Unsupported(idx));
        }
        let i = idx as usize;
        self.dqs[i].push(v);
        proof {
            assert(self@ =~= old(self)@.update(idx as int, old(self)@[idx as int].push(v)));
        }
        Ok(())
    }

    /// Removes a word from storage `idx`: the head of the queue, the top of
    /// a stack.
    pub fn pop(&mut self, idx: u8) -> (r: Result<i32, StorageError>)
        requires
            old(self).wf(),
        ensures
            final(self).wf(),
            !usable(idx) ==> r == Err::<i32, StorageError>(StorageError::Unsupported(idx))
                && final(self)@ == old(self)@,
            usable(idx) && old(self)@[idx as int].len() == 0 ==> r == Err::<i32, StorageError>(
                StorageError::Underflow(idx),
            ) && final(self)@ == old(self)@,
            usable(idx) && old(self)@[idx as int].len() > 0 ==> r == Ok::<i32, StorageError>(
                popped(idx, old(self)@[idx as int]).0,
            ) && final(self)@ == old(self)@.update(
                idx as int,
                popped(idx, old(self)@[idx as int]).1,
            ),
    {
        if idx >= RESERVED_INDEX {
            return Err(StorageError::Unsupported(idx));
        }
        let i = idx as usize;
        if self.dqs[i].len() == 0 {
            return Err(StorageError::Underflow(idx));
        }
        let v = if idx == QUEUE_INDEX {
            self.dqs[i].remove(0)
        } else {
            self.dqs[i].pop().unwrap()
        };
        proof {
            assert(self@ =~= old(self)@.update(idx as int, popped(idx, old(self)@[idx as int]).1));
        }
        Ok(v)
    }

    /// Duplicates the word at the front of storage `idx`: the head of the
    /// queue, the top of a stack.
    pub fn dup(&mut self, idx: u8) -> (r: Result<(), StorageError>)
        requires
            old(self).wf(),
        ensures
            final(self).wf(),
            !usable(idx) ==> r == Err::<(), StorageError>(StorageError::Unsupported(idx))
                && final(self)@ == old(self)@,
            usable(idx) && old(self)@[idx as int].len() == 0 ==> r == Err::<(), StorageError>(
                StorageError::Underflow(idx),
            ) && final(self)@ == old(self)@,
            usable(idx) && old(self)@[idx as int].len() > 0 ==> r is Ok && final(self)@ == old(
                self,
            )@.update(idx as int, duplicated(idx, old(self)@[idx as int])),
    {
        if idx >= RESERVED_INDEX {
            return Err(StorageError::Unsupported(idx));
        }
        let i = idx as usize;
        let len = self.dqs[i].len();
        if len == 0 {
            return Err(StorageError::Underflow(idx));
        }
        if idx == QUEUE_INDEX {
            let n = self.dqs[i][0];
            self.dqs[i].insert(0, n);
        } else {
            let n = self.dqs[i][len - 1];
            self.dqs[i].push(n);
        }
        proof {
            assert(self@[idx as int] =~= duplicated(idx, old(self)@[idx as int]));
            assert(self@ =~= old(self)@.update(idx as int, duplicated(idx, old(self)@[idx as int])));
        }
        Ok(())
    }

    /// Exchanges the two words at the front of storage `idx`: the two at the
    /// head of the queue, the two on top of a stack.
    pub fn swap(&mut self, idx: u8) -> (r: Result<(), StorageError>)
        requires
            old(self).wf(),
        ensures
            final(self).wf(),
            !usable(idx) ==> r == Err::<(), StorageError>(StorageError::Unsupported(idx))
                && final(self)@ == old(self)@,
            usable(idx) && old(self)@[idx as int].len() < 2 ==> r == Err::<(), StorageError>(
                StorageError::Underflow(idx),
            ) && final(self)@ == old(self)@,
            usable(idx) && old(self)@[idx as int].len() >= 2 ==> r is Ok && final(self)@ == old(
                self,
            )@.update(idx as int, swapped(idx, old(self)@[idx as int])),
    {
        if idx >= RESERVED_INDEX {
            return Err(StorageError::Unsupported(idx));
        }
        let i = idx as usize;
        let len = self.dqs[i].len();
        if len < 2 {
            return Err(StorageError::Underflow(idx));
        }
        let (a, b) = if idx == QUEUE_INDEX {
            (0, 1)
        } else {
            (len - 2, len - 1)
        };
        let m = self.dqs[i][a];
        let n = self.dqs[i][b];
        self.dqs[i].set(a, n);
        self.dqs[i].set(b, m);
        proof {
            assert(self@[idx as int] =~= swapped(idx, old(self)@[idx as int]));
            assert(self@ =~= old(self)@.update(idx as int, swapped(idx, old(self)@[idx as int])));
        }
        Ok(())
    }
}

} // verus!
