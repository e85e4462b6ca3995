//! Stack pool allocator for thread stacks.
//!
//! Stacks come in four size classes.  The pool keeps a free list per class so
//! that stacks released by finished threads are reused, and counts
//! allocations for statistics.  The free lists sit behind short-held spin
//! locks; the pool holds each lock only within a single call, so under the
//! exclusive access the borrow checker enforces, every operation succeeds.

use vstd::prelude::*;
use vstd::arithmetic::div_mod::lemma_small_mod;
use crate::sync::AtomicUsizeCell;

verus! {

/// Canary word installed at the lowest address of a stack when overflow
/// checking is requested.
pub const DEFAULT_STACK_CANARY: u64 = 0xDEAD_BEEF_CAFE_BABE;

/// Stack size classes for the pool allocator.
#[derive(Debug, Clone, Copy, PartialEq, Eq, Structural)]
pub enum StackSizeClass {
    /// Small stack: 4 KiB
    Small,
    /// Medium stack: 16 KiB
    Medium,
    /// Large stack: 64 KiB
    Large,
    /// Extra large stack: 256 KiB
    ExtraLarge,
}

/// Bytes granted by each size class.
pub open spec fn class_size_spec(c: StackSizeClass) -> usize {
    match c {
        StackSizeClass::Small => 4096usize,
        StackSizeClass::Medium => 16384usize,
        StackSizeClass::Large => 65536usize,
        StackSizeClass::ExtraLarge => 262144usize,
    }
}

/// The smallest size class that can hold `requested_size` bytes, if any.
pub open spec fn class_for_size_spec(requested_size: usize) -> Option<StackSizeClass> {
    if requested_size <= 4096 {
        Some(StackSizeClass::Small)
    } else if requested_size <= 16384 {
        Some(StackSizeClass::Medium)
    } else if requested_size <= 65536 {
        Some(StackSizeClass::Large)
    } else if requested_size <= 262144 {
        Some(StackSizeClass::ExtraLarge)
    } else {
        None
    }
}

impl StackSizeClass {
    /// Get the size in bytes for this stack class.
    pub fn size(self) -> (r: usize)
        ensures
            r == class_size_spec(self),
    {
        match self {
            StackSizeClass::Small => 4096,
            StackSizeClass::Medium => 16384,
            StackSizeClass::Large => 65536,
            StackSizeClass::ExtraLarge => 262144,
        }
    }

    /// Choose the smallest size class that can accommodate the requested
    /// size, or `None` when the request exceeds the largest class.
    pub fn for_size(requested_size: usize) -> (r: Option<Self>)
        ensures
            r == class_for_size_spec(requested_size),
    {
        if requested_size <= 4096 {
            Some(StackSizeClass::Small)
        } else if requested_size <= 16384 {
            Some(StackSizeClass::Medium)
        } else if requested_size <= 65536 {
            Some(StackSizeClass::Large)
        } else if requested_size <= 262144 {
            Some(StackSizeClass::ExtraLarge)
        } else {
            None
        }
    }
}

/// Little-endian word formed by the eight bytes at the top (lowest
/// addresses) of a stack's memory, where the canary lives.
pub open spec fn word_at_top(s: Seq<u8>) -> int
    recommends
        s.len() >= 8,
{
    s[0] as int + 256 * (s[1] as int + 256 * (s[2] as int + 256 * (s[3] as int + 256 * (
    s[4] as int + 256 * (s[5] as int + 256 * (s[6] as int + 256 * (s[7] as int)))))))
}

/// A thread stack: a contiguous byte region of one of the four size classes.
///
/// `stack_top` is the lowest offset and `stack_bottom` the highest 16-byte
/// aligned offset, which serves as the initial stack pointer.
pub struct Stack {
    /// The stack memory itself (index 0 is the lowest address).
    pub memory: Vec<u8>,
    /// Size class this stack belongs to.
    pub size_class: StackSizeClass,
    /// Whether this stack has guard pages (unused without an MMU).
    pub has_guard_pages: bool,
}

impl Stack {
    /// Well-formedness: the memory matches the size class exactly and there
    /// are no guard pages on this target.
    pub open spec fn wf(&self) -> bool {
        &&& self.memory@.len() == class_size_spec(self.size_class)
        &&& !self.has_guard_pages
        &&& self.memory@.len() >= 4096
    }

    /// Get the usable stack size in bytes.
    pub fn size(&self) -> (r: usize)
        ensures
            r == self.memory@.len(),
    {
        self.memory.len()
    }

    /// Get the stack size class.
    pub fn size_class(&self) -> (r: StackSizeClass)
        ensures
            r == self.size_class,
    {
        self.size_class
    }

    /// Offset of the bottom of the stack (highest address, rounded down to a
    /// 16-byte boundary): the initial stack pointer.
    pub fn stack_bottom(&self) -> (r: usize)
        ensures
            r == self.memory@.len() - (self.memory@.len() % 16),
            r % 16 == 0,
            r <= self.memory@.len(),
    {
        let len = self.memory.len();
        len - (len % 16)
    }

    /// Offset of the top of the stack (lowest usable address).
    pub fn stack_top(&self) -> (r: usize)
        ensures
            r == (if self.has_guard_pages {
                4096int
            } else {
                0int
            }),
    {
        if self.has_guard_pages {
            4096
        } else {
            0
        }
    }

    /// Bottom offset (alias of `stack_bottom`).
    pub fn bottom(&self) -> (r: usize)
        ensures
            r == self.memory@.len() - (self.memory@.len() % 16),
            r % 16 == 0,
    {
        self.stack_bottom()
    }

    /// Top offset (alias of `stack_top`).
    pub fn top(&self) -> (r: usize)
        ensures
            r == (if self.has_guard_pages {
                4096int
            } else {
                0int
            }),
    {
        self.stack_top()
    }

    /// Whether guard pages protect this stack.
    pub fn has_guard_pages(&self) -> (r: bool)
        ensures
            r == self.has_guard_pages,
    {
        self.has_guard_pages
    }

    /// Install a canary value at the top of the stack for overflow
    /// detection.
    pub fn install_canary(&mut self, canary: u64)
        requires
            old(self).memory@.len() >= 8,
        ensures
            final(self).memory@.len() == old(self).memory@.len(),
            word_at_top(final(self).memory@) == canary,
            forall|i: int| 8 <= i < old(self).memory@.len() ==> final(self).memory@[i] == old(self).memory@[i],
            final(self).size_class == old(self).size_class,
            final(self).has_guard_pages == old(self).has_guard_pages,
    {
        let b0: u8 = (canary % 256) as u8;
        let r1: u64 = canary / 256;
        let b1: u8 = (r1 % 256) as u8;
        let r2: u64 = r1 / 256;
        let b2: u8 = (r2 % 256) as u8;
        let r3: u64 = r2 / 256;
        let b3: u8 = (r3 % 256) as u8;
        let r4: u64 = r3 / 256;
        let b4: u8 = (r4 % 256) as u8;
        let r5: u64 = r4 / 256;
        let b5: u8 = (r5 % 256) as u8;
        let r6: u64 = r5 / 256;
        let b6: u8 = (r6 % 256) as u8;
        let r7: u64 = r6 / 256;
        let b7: u8 = (r7 % 256) as u8;
        assert(r7 < 256);
        self.memory.set(0, b0);
        self.memory.set(1, b1);
        self.memory.set(2, b2);
        self.memory.set(3, b3);
        self.memory.set(4, b4);
        self.memory.set(5, b5);
        self.memory.set(6, b6);
        self.memory.set(7, b7);
    }

    /// Check whether the stack canary is still intact.
    pub fn check_canary(&self, expected_canary: u64) -> (r: bool)
        requires
            self.memory@.len() >= 8,
        ensures
            r == (word_at_top(self.memory@) == expected_canary),
    {
        let b0: u64 = self.memory[0] as u64;
        let b1: u64 = self.memory[1] as u64;
        let b2: u64 = self.memory[2] as u64;
        let b3: u64 = self.memory[3] as u64;
        let b4: u64 = self.memory[4] as u64;
        let b5: u64 = self.memory[5] as u64;
        let b6: u64 = self.memory[6] as u64;
        let b7: u64 = self.memory[7] as u64;
        let w7: u64 = b7;
        let w6: u64 = b6 + 256 * w7;
        let w5: u64 = b5 + 256 * w6;
        let w4: u64 = b4 + 256 * w5;
        let w3: u64 = b3 + 256 * w4;
        let w2: u64 = b2 + 256 * w3;
        let w1: u64 = b1 + 256 * w2;
        let word: u64 = b0 + 256 * w1;
        word == expected_canary
    }
}

/// The canary word stays the installed sentinel for as long as nothing
/// writes the top eight bytes of the stack: a thread that never overflows
/// its stack leaves the canary intact for its whole lifetime.
pub proof fn lemma_canary_persists(s0: Seq<u8>, s1: Seq<u8>, canary: u64)
    requires
        s0.len() >= 8,
        s1.len() >= 8,
        word_at_top(s0) == canary,
        forall|i: int| 0 <= i < 8 ==> s1[i] == s0[i],
    ensures
        word_at_top(s1) == canary,
{
}

/// A free list of stacks of one size class, behind a short-held spin lock.
///
/// The lock is private to the list and held only within a single call, so
/// under the exclusive `&mut` access the borrow checker enforces, the
/// try-lock in each operation is certain to succeed.
pub struct FreeList {
    inner: spin::Mutex<Vec<Stack>>,
    contents: Ghost<Seq<Stack>>,
}

impl View for FreeList {
    type V = Seq<Stack>;

    closed spec fn view(&self) -> Seq<Stack> {
        self.contents@
    }
}

impl FreeList {
    /// Relies on spin::Mutex::new: the lock starts out holding the given
    /// (empty) list.
    #[verifier::external_body]
    pub fn new() -> (r: Self)
        ensures
            r@ == Seq::<Stack>::empty(),
    {
        FreeList { inner: spin::Mutex::new(Vec::new()), contents: Ghost(Seq::empty()) }
    }

    /// Relies on spin::Mutex::try_lock and Vec::pop: the last stack leaves
    /// the list when one is parked.  The lock is private to this list and
    /// every operation releases it before returning, so under the exclusive
    /// `&mut` access Rust enforces the try-lock always succeeds and only the
    /// list's own emptiness decides the result.
    #[verifier::external_body]
    pub fn try_pop(&mut self) -> (r: Option<Stack>)
        ensures
            match r {
                Some(s) => old(self)@.len() > 0 && s == old(self)@.last() && final(self)@ == old(self)@.drop_last(),
                None => old(self)@.len() == 0 && final(self)@ == old(self)@,
            },
    {
        match self.inner.try_lock() {
            Some(mut guard) => guard.pop(),
            None => None,
        }
    }

    /// Relies on spin::Mutex::try_lock and Vec::push: the stack joins the
    /// end of the list.  As with `try_pop`, the exclusive `&mut` access
    /// makes the try-lock certain to succeed.
    #[verifier::external_body]
    pub fn try_push(&mut self, s: Stack) -> (r: bool)
        ensures
            r,
            final(self)@ == old(self)@.push(s),
    {
        match self.inner.try_lock() {
            Some(mut guard) => {
                guard.push(s);
                true
            },
            None => false,
        }
    }
}

/// Every stack in a free list is well formed and belongs to the class the
/// list serves.
pub open spec fn list_wf(s: Seq<Stack>, c: StackSizeClass) -> bool {
    forall|i: int| 0 <= i < s.len() ==> (#[trigger] s[i]).wf() && s[i].size_class == c
}

proof fn lemma_list_wf_drop_last(s: Seq<Stack>, c: StackSizeClass)
    requires
        list_wf(s, c),
        s.len() > 0,
    ensures
        list_wf(s.drop_last(), c),
        s.last().wf(),
        s.last().size_class == c,
{
    assert forall|i: int| 0 <= i < s.drop_last().len() implies (#[trigger] s.drop_last()[i]).wf()
        && s.drop_last()[i].size_class == c by {
        assert(s.drop_last()[i] == s[i]);
    }
}

proof fn lemma_list_wf_push(s: Seq<Stack>, c: StackSizeClass, x: Stack)
    requires
        list_wf(s, c),
        x.wf(),
        x.size_class == c,
    ensures
        list_wf(s.push(x), c),
{
    assert forall|i: int| 0 <= i < s.push(x).len() implies (#[trigger] s.push(x)[i]).wf() && s.push(
        x,
    )[i].size_class == c by {
        if i < s.len() {
            assert(s.push(x)[i] == s[i]);
        } else {
            assert(s.push(x)[i] == x);
        }
    }
}

/// Pool-based allocator for thread stacks, with one free list per size
/// class and usage statistics.
pub struct StackPool {
    pub free_small: FreeList,
    pub free_medium: FreeList,
    pub free_large: FreeList,
    pub free_xlarge: FreeList,
    pub allocated: AtomicUsizeCell,
    pub deallocated: AtomicUsizeCell,
    pub in_use: AtomicUsizeCell,
    pub capacity: usize,
}

impl StackPool {
    /// The free list serving the given class.
    pub open spec fn free_seq(&self, c: StackSizeClass) -> Seq<Stack> {
        match c {
            StackSizeClass::Small => self.free_small@,
            StackSizeClass::Medium => self.free_medium@,
            StackSizeClass::Large => self.free_large@,
            StackSizeClass::ExtraLarge => self.free_xlarge@,
        }
    }

    /// Well-formedness: every parked stack is well formed and lies in the
    /// list of its own class.
    pub open spec fn wf(&self) -> bool {
        &&& list_wf(self.free_small@, StackSizeClass::Small)
        &&& list_wf(self.free_medium@, StackSizeClass::Medium)
        &&& list_wf(self.free_large@, StackSizeClass::Large)
        &&& list_wf(self.free_xlarge@, StackSizeClass::ExtraLarge)
    }

    /// Create an empty pool without a stack limit.
    pub fn new() -> (r: Self)
        ensures
            r.wf(),
            forall|c: StackSizeClass| #[trigger] r.free_seq(c) == Seq::<Stack>::empty(),
            r.allocated@ == 0,
            r.deallocated@ == 0,
            r.in_use@ == 0,
            r.capacity == usize::MAX,
    {
        StackPool {
            free_small: FreeList::new(),
            free_medium: FreeList::new(),
            free_large: FreeList::new(),
            free_xlarge: FreeList::new(),
            allocated: AtomicUsizeCell::new(0),
            deallocated: AtomicUsizeCell::new(0),
            in_use: AtomicUsizeCell::new(0),
            capacity: usize::MAX,
        }
    }

    /// Create an empty pool that will never hand out more than `capacity`
    /// stacks at a time.
    pub fn with_capacity(capacity: usize) -> (r: Self)
        ensures
            r.wf(),
            forall|c: StackSizeClass| #[trigger] r.free_seq(c) == Seq::<Stack>::empty(),
            r.allocated@ == 0,
            r.deallocated@ == 0,
            r.in_use@ == 0,
            r.capacity == capacity,
    {
        StackPool {
            free_small: FreeList::new(),
            free_medium: FreeList::new(),
            free_large: FreeList::new(),
            free_xlarge: FreeList::new(),
            allocated: AtomicUsizeCell::new(0),
            deallocated: AtomicUsizeCell::new(0),
            in_use: AtomicUsizeCell::new(0),
            capacity,
        }
    }

    /// Allocate a stack of the given size class, reusing the most recently
    /// parked stack of that class when one is free, and allocating fresh
    /// zeroed memory only when the free list is empty.  Fails exactly when
    /// the pool is at capacity, and then changes nothing.
    pub fn allocate(&mut self, size_class: StackSizeClass) -> (r: Option<Stack>)
        requires
            old(self).wf(),
        ensures
            final(self).wf(),
            final(self).capacity == old(self).capacity,
            r.is_some() <==> old(self).in_use@ < old(self).capacity,
            match r {
                Some(s) => {
                    &&& s.wf()
                    &&& s.size_class == size_class
                    &&& final(self).in_use@ == old(self).in_use@ + 1
                    &&& final(self).deallocated@ == old(self).deallocated@
                    &&& (old(self).free_seq(size_class).len() > 0 ==> s == old(self).free_seq(
                        size_class,
                    ).last() && final(self).free_seq(size_class) == old(self).free_seq(
                        size_class,
                    ).drop_last() && final(self).allocated@ == old(self).allocated@)
                    &&& (old(self).free_seq(size_class).len() == 0 ==> final(self).free_seq(
                        size_class,
                    ) == old(self).free_seq(size_class) && (forall|i: int|
                        0 <= i < s.memory@.len() ==> s.memory@[i] == 0) && (old(self).allocated@
                        < usize::MAX ==> final(self).allocated@ == old(self).allocated@ + 1))
                },
                None => *final(self) == *old(self),
            },
            forall|c: StackSizeClass|
                c != size_class ==> #[trigger] final(self).free_seq(c) == old(self).free_seq(c),
    {
        if self.in_use.load() >= self.capacity {
            return None;
        }
        let reused: Option<Stack> = match size_class {
            StackSizeClass::Small => self.free_small.try_pop(),
            StackSizeClass::Medium => self.free_medium.try_pop(),
            StackSizeClass::Large => self.free_large.try_pop(),
            StackSizeClass::ExtraLarge => self.free_xlarge.try_pop(),
        };
        match reused {
            Some(stack) => {
                proof {
                    match size_class {
                        StackSizeClass::Small => lemma_list_wf_drop_last(
                            old(self).free_small@,
                            StackSizeClass::Small,
                        ),
                        StackSizeClass::Medium => lemma_list_wf_drop_last(
                            old(self).free_medium@,
                            StackSizeClass::Medium,
                        ),
                        StackSizeClass::Large => lemma_list_wf_drop_last(
                            old(self).free_large@,
                            StackSizeClass::Large,
                        ),
                        StackSizeClass::ExtraLarge => lemma_list_wf_drop_last(
                            old(self).free_xlarge@,
                            StackSizeClass::ExtraLarge,
                        ),
                    }
                    assert(old(self).free_seq(size_class) =~= self.free_seq(size_class).push(
                        stack,
                    ));
                }
                let _ = self.in_use.fetch_add(1);
                proof {
                    lemma_small_mod((old(self).in_use@ + 1) as nat, (usize::MAX as nat + 1) as nat);
                }
                Some(stack)
            },
            None => self.allocate_new_stack(size_class),
        }
    }

    /// Return a stack to the free list of its class for reuse.
    pub fn deallocate(&mut self, stack: Stack)
        requires
            old(self).wf(),
            stack.wf(),
        ensures
            final(self).wf(),
            final(self).capacity == old(self).capacity,
            final(self).allocated@ == old(self).allocated@,
            final(self).free_seq(stack.size_class) == old(self).free_seq(stack.size_class).push(
                stack,
            ),
            old(self).in_use@ > 0 ==> final(self).in_use@ == old(self).in_use@ - 1,
            old(self).deallocated@ < usize::MAX ==> final(self).deallocated@ == old(self).deallocated@ + 1,
            forall|c: StackSizeClass|
                c != stack.size_class ==> #[trigger] final(self).free_seq(c) == old(self).free_seq(
                    c,
                ),
    {
        let class = stack.size_class;
        let pushed: bool = match class {
            StackSizeClass::Small => self.free_small.try_push(stack),
            StackSizeClass::Medium => self.free_medium.try_push(stack),
            StackSizeClass::Large => self.free_large.try_push(stack),
            StackSizeClass::ExtraLarge => self.free_xlarge.try_push(stack),
        };
        proof {
            if pushed {
                match class {
                    StackSizeClass::Small => lemma_list_wf_push(
                        old(self).free_small@,
                        StackSizeClass::Small,
                        stack,
                    ),
                    StackSizeClass::Medium => lemma_list_wf_push(
                        old(self).free_medium@,
                        StackSizeClass::Medium,
                        stack,
                    ),
                    StackSizeClass::Large => lemma_list_wf_push(
                        old(self).free_large@,
                        StackSizeClass::Large,
                        stack,
                    ),
                    StackSizeClass::ExtraLarge => lemma_list_wf_push(
                        old(self).free_xlarge@,
                        StackSizeClass::ExtraLarge,
                        stack,
                    ),
                }
            }
        }
        if pushed {
            let _ = self.in_use.fetch_sub(1);
            let _ = self.deallocated.fetch_add(1);
            proof {
                if old(self).in_use@ > 0 {
                    lemma_small_mod((old(self).in_use@ - 1) as nat, (usize::MAX as nat + 1) as nat);
                }
                if old(self).deallocated@ < usize::MAX {
                    lemma_small_mod(
                        (old(self).deallocated@ + 1) as nat,
                        (usize::MAX as nat + 1) as nat,
                    );
                }
            }
        }
    }

    /// Get statistics about the pool: stacks allocated fresh, stacks
    /// returned, and stacks currently in use.
    pub fn stats(&self) -> (r: (usize, usize, usize))
        ensures
            r.0 == self.allocated@,
            r.1 == self.deallocated@,
            r.2 == self.in_use@,
    {
        (self.allocated.load(), self.deallocated.load(), self.in_use.load())
    }

    fn allocate_new_stack(&mut self, size_class: StackSizeClass) -> (r: Option<Stack>)
        requires
            old(self).wf(),
            old(self).in_use@ < old(self).capacity,
        ensures
            final(self).wf(),
            final(self).capacity == old(self).capacity,
            r.is_some(),
            match r {
                Some(s) => {
                    &&& s.wf()
                    &&& s.size_class == size_class
                    &&& final(self).in_use@ == old(self).in_use@ + 1
                    &&& final(self).deallocated@ == old(self).deallocated@
                    &&& (forall|i: int| 0 <= i < s.memory@.len() ==> s.memory@[i] == 0)
                    &&& (old(self).allocated@ < usize::MAX ==> final(self).allocated@ == old(self).allocated@ + 1)
                    &&& forall|c: StackSizeClass| #[trigger]
                        final(self).free_seq(c) == old(self).free_seq(c)
                },
                None => false,
            },
    {
        let usable_size = size_class.size();
        let memory = zeroed_vec(usable_size);
        let stack = Stack { memory, size_class, has_guard_pages: false };
        let _ = self.allocated.fetch_add(1);
        let _ = self.in_use.fetch_add(1);
        proof {
            lemma_small_mod((old(self).in_use@ + 1) as nat, (usize::MAX as nat + 1) as nat);
            if old(self).allocated@ < usize::MAX {
                lemma_small_mod((old(self).allocated@ + 1) as nat, (usize::MAX as nat + 1) as nat);
            }
        }
        Some(stack)
    }
}

/// A vector of `n` zero bytes.
fn zeroed_vec(n: usize) -> (r: Vec<u8>)
    ensures
        r@.len() == n,
        forall|i: int| 0 <= i < n ==> r@[i] == 0,
{
    let mut v: Vec<u8> = Vec::new();
    while v.len() < n
        invariant
            v@.len() <= n,
            forall|i: int| 0 <= i < v@.len() ==> v@[i] == 0,
        decreases n - v@.len(),
    {
        v.push(0);
    }
    v
}

} // verus!
