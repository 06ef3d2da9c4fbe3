use vstd::prelude::*;

verus! {

/// Stack size used when the spawn options name none.
pub const DEFAULT_STACK_SIZE: usize = 65536;

/// An execution stack: its size class and the serial number of the
/// allocation that produced it. Only a pool makes one, and it cannot be
/// copied, so one stack has one owner at a time.
#[derive(Debug, PartialEq, Eq, Structural)]
pub struct Stack {
    size: usize,
    serial: u64,
}

impl Stack {
    /// Usable size of the stack in bytes.
    pub closed spec fn spec_size(&self) -> usize {
        self.size
    }

    /// Serial number of the allocation that produced the stack.
    pub closed spec fn spec_serial(&self) -> u64 {
        self.serial
    }

    /// Usable size of the stack in bytes.
    pub fn size(&self) -> (r: usize)
        ensures
            r == self.spec_size(),
    {
        self.size
    }

    /// Serial number of the allocation that produced the stack.
    pub fn serial(&self) -> (r: u64)
        ensures
            r == self.spec_serial(),
    {
        self.serial
    }
}

/// A cache of idle stacks, with a count of the fresh allocations made.
pub struct StackPool {
    free: Vec<Stack>,
    allocations: u64,
}

/// Position of the first stack of size class `size` in `free` at or after
/// position `i`, or -1 when there is none.
pub open spec fn fit_from(free: Seq<Stack>, size: usize, i: int) -> int
    decreases free.len() - i,
{
    if i < 0 || i >= free.len() {
        -1
    } else if free[i].spec_size() == size {
        i
    } else {
        fit_from(free, size, i + 1)
    }
}

/// Position of the first idle stack of size class `size`, or -1.
pub open spec fn first_fit(free: Seq<Stack>, size: usize) -> int {
    fit_from(free, size, 0)
}

impl View for StackPool {
    type V = Seq<Stack>;

    closed spec fn view(&self) -> Seq<Stack> {
        self.free@
    }
}

impl StackPool {
    /// Number of stacks allocated fresh so far.
    pub closed spec fn spec_allocations(&self) -> u64 {
        self.allocations
    }

    /// `post` is `pre` after handing out `r` for a request of size class
    /// `size`: the first idle stack of that class, taken out of the cache, or,
    /// when there is none, a fresh allocation numbered by the count so far.
    pub open spec fn took(pre: &StackPool, post: &StackPool, size: usize, r: Stack) -> bool {
        &&& r.spec_size() == size
        &&& first_fit(pre@, size) >= 0 ==> {
            let k = first_fit(pre@, size);
            &&& r == pre@[k]
            &&& post@ == pre@.remove(k)
            &&& post.spec_allocations() == pre.spec_allocations()
        }
        &&& first_fit(pre@, size) < 0 ==> {
            &&& r.spec_serial() == pre.spec_allocations()
            &&& post@ == pre@
            &&& post.spec_allocations() == pre.spec_allocations() + 1
        }
    }

    /// An empty pool that has allocated nothing.
    pub fn new() -> (r: StackPool)
        ensures
            r@ == Seq::<Stack>::empty(),
            r.spec_allocations() == 0,
    {
        StackPool { free: Vec::new(), allocations: 0 }
    }

    /// Number of stacks allocated fresh so far.
    pub fn allocations(&self) -> (r: u64)
        ensures
            r == self.spec_allocations(),
    {
        self.allocations
    }

    /// Number of idle stacks held.
    pub fn idle(&self) -> (r: usize)
        ensures
            r == self@.len(),
    {
        self.free.len()
    }

    /// Hands out a stack of size class `size`: the first idle one of that
    /// class if there is one, else a fresh allocation.
    pub fn take_stack(&mut self, size: usize) -> (r: Stack)
        requires
            old(self).spec_allocations() < u64::MAX,
        ensures
            StackPool::took(old(self), final(self), size, r),
    {
        let mut i: usize = 0;
        while i < self.free.len()
            invariant
                self.free@ == old(self).free@,
                self.allocations == old(self).allocations,
                0 <= i <= self.free@.len(),
                fit_from(self.free@, size, i as int) == first_fit(self.free@, size),
            decreases self.free@.len() - i,
        {
            if self.free[i].size == size {
                return self.free.remove(i);
            }
            i = i + 1;
        }
        let s = Stack { size, serial: self.allocations };
        self.allocations = self.allocations + 1;
        s
    }

    /// Makes `stack` available again to later calls of `take_stack`. Only
    /// the release of the coroutine that owns it gives a stack back.
    pub(crate) fn return_stack(&mut self, stack: Stack)
        ensures
            final(self)@ == old(self)@.push(stack),
            final(self).spec_allocations() == old(self).spec_allocations(),
    {
        self.free.push(stack);
    }
}

/// A stack of size class `size` at or after position `i` is found there.
proof fn lemma_fit_found(free: Seq<Stack>, size: usize, i: int, k: int)
    requires
        0 <= i <= k < free.len(),
        free[k].spec_size() == size,
    ensures
        i <= fit_from(free, size, i) <= k,
    decreases k - i,
{
    if free[i].spec_size() != size {
        lemma_fit_found(free, size, i + 1, k);
    }
}

/// Once a stack of size class `size` has been returned to a pool, the next
/// request for that size class is served from the cache: it allocates
/// nothing and hands out an idle stack of that class.
pub proof fn lemma_returned_stack_is_reused(
    returned: StackPool,
    after: StackPool,
    earlier: Seq<Stack>,
    stack: Stack,
    r: Stack,
)
    requires
        returned@ == earlier.push(stack),
        StackPool::took(&returned, &after, stack.spec_size(), r),
    ensures
        after.spec_allocations() == returned.spec_allocations(),
        after@.len() == returned@.len() - 1,
        returned@.contains(r),
{
    lemma_fit_found(returned@, stack.spec_size(), 0, earlier.len() as int);
    assert(returned@[first_fit(returned@, stack.spec_size())] == r);
}

} // verus!
