//! Deferred call scheduler: bounded follow-up work for restricted contexts.
//!
//! Code running in interrupt context may not do arbitrary work; instead it
//! sets the pending bit of a previously created call site, and the kernel's
//! main loop later services pending sites one at a time, lowest index first.
//!
//! The scheduler is a fixed-capacity table: a site is created once, given
//! the next sequential index, and registers exactly one handler. All
//! mutable state — the creation counter, the handler table and the pending
//! bitmask — lives in one owned [`DeferredCallScheduler`] value threaded
//! through the kernel's main loop, which makes the single-threaded mutation
//! discipline explicit in the types.

use vstd::prelude::*;
use vstd::std_specs::bits::u32_trailing_zeros;
use vstd::std_specs::bits::axiom_u32_trailing_zeros;

verus! {

/// Number of deferred call sites the table can hold.
pub const DEFERRED_CALL_CAPACITY: usize = 32;

/// True iff bit `j` of `mask` is set.
pub open spec fn bit_is_set(mask: u32, j: u32) -> bool {
    (mask >> j) & 1u32 == 1u32
}

/// A handle to one created call site; its index is stable for its lifetime.
#[derive(Clone, Copy, PartialEq, Eq, Structural, Debug)]
pub struct DeferredCall {
    index: usize,
}

impl DeferredCall {
    /// The site's index in the scheduler's table.
    pub closed spec fn spec_index(&self) -> usize {
        self.index
    }

    #[verifier::when_used_as_spec(spec_index)]
    pub fn index(&self) -> (r: usize)
        ensures
            r == self.spec_index(),
    {
        self.index
    }
}

/// Number of registered handlers among the first `n` table entries.
pub open spec fn count_registered<H>(handlers: Seq<Option<H>>, n: int) -> int
    decreases n,
{
    if n <= 0 {
        0
    } else {
        count_registered(handlers, n - 1) + if handlers[n - 1] is Some {
            1int
        } else {
            0int
        }
    }
}

/// Scheduler state: creation counter, handler table and pending bitmask.
///
/// `H` is the callback reference a site registers — in the kernel it is a
/// context-plus-function pair; the scheduler only stores and returns it.
pub struct DeferredCallScheduler<H> {
    /// How many sites have been created so far. May transiently exceed the
    /// capacity; that configuration error is caught by [`Self::verify_setup`].
    counter: usize,
    /// One handler slot per site index.
    handlers: Vec<Option<H>>,
    /// Bit `i` set means site `i` has work pending.
    bitmask: u32,
}

impl<H: Copy> DeferredCallScheduler<H> {
    /// The table always holds exactly one slot per possible index.
    pub closed spec fn wf(&self) -> bool {
        self.handlers@.len() == DEFERRED_CALL_CAPACITY
    }

    /// How many sites have been created.
    pub closed spec fn created(&self) -> usize {
        self.counter
    }

    /// The handler table.
    pub closed spec fn handler_table(&self) -> Seq<Option<H>> {
        self.handlers@
    }

    /// The pending bitmask.
    pub closed spec fn pending(&self) -> u32 {
        self.bitmask
    }

    /// An empty scheduler: no sites, no handlers, nothing pending.
    pub fn new() -> (r: DeferredCallScheduler<H>)
        ensures
            r.wf(),
            r.created() == 0,
            r.pending() == 0,
            forall|i: int|
                0 <= i < DEFERRED_CALL_CAPACITY ==> r.handler_table()[i] is None,
    {
        let mut handlers: Vec<Option<H>> = Vec::new();
        let mut i: usize = 0;
        while i < DEFERRED_CALL_CAPACITY
            invariant
                i <= DEFERRED_CALL_CAPACITY,
                handlers@.len() == i,
                forall|j: int| 0 <= j < i ==> handlers@[j] is None,
            decreases DEFERRED_CALL_CAPACITY - i,
        {
            handlers.push(None);
            i = i + 1;
        }
        DeferredCallScheduler { counter: 0, handlers, bitmask: 0 }
    }

    /// Create a new call site with the next sequential index.
    ///
    /// Creation never fails on the spot: exceeding the capacity is detected
    /// once at boot by [`Self::verify_setup`], so that diagnostic output is
    /// available when the error is reported.
    pub fn create(&mut self) -> (r: DeferredCall)
        requires
            old(self).created() < usize::MAX,
        ensures
            final(self).wf() == old(self).wf(),
            r.index() == old(self).created(),
            final(self).created() == old(self).created() + 1,
            final(self).handler_table() == old(self).handler_table(),
            final(self).pending() == old(self).pending(),
    {
        let index = self.counter;
        self.counter = self.counter + 1;
        DeferredCall { index }
    }

    /// Associate a callback reference with a created site.
    ///
    /// At most one handler is live per site: registering again overwrites
    /// the earlier handler silently.
    pub fn register(&mut self, call: &DeferredCall, handler: H)
        requires
            old(self).wf(),
            call.index() < DEFERRED_CALL_CAPACITY,
        ensures
            final(self).wf(),
            final(self).created() == old(self).created(),
            final(self).pending() == old(self).pending(),
            final(self).handler_table()
                == old(self).handler_table().update(call.index() as int, Some(handler)),
    {
        self.handlers.set(call.index, Some(handler));
    }

    /// Set the pending bit for a site's index.
    ///
    /// Idempotent: scheduling an already-pending site leaves the bitmask
    /// unchanged, so the site will be serviced exactly once.
    pub fn set(&mut self, call: &DeferredCall)
        requires
            call.index() < DEFERRED_CALL_CAPACITY,
        ensures
            final(self).wf() == old(self).wf(),
            final(self).created() == old(self).created(),
            final(self).handler_table() == old(self).handler_table(),
            final(self).pending() == old(self).pending() | (1u32 << (call.index() as u32)),
            forall|j: u32|
                j < 32 ==> (bit_is_set(final(self).pending(), j) <==> (bit_is_set(
                    old(self).pending(),
                    j,
                ) || j == call.index())),
    {
        let idx = call.index;
        self.bitmask = self.bitmask | (1u32 << (idx as u32));
        proof {
            lemma_set_bit(old(self).bitmask, idx as u32);
        }
    }

    /// True iff any site has work pending.
    pub fn has_tasks(&self) -> (r: bool)
        ensures
            r == (self.pending() != 0),
    {
        self.bitmask != 0
    }

    /// Service and clear the next pending site.
    ///
    /// If no work is pending, nothing changes and `None` comes back.
    /// Otherwise the lowest-indexed set bit — lowest index means highest
    /// priority — is cleared, and the serviced index comes back together
    /// with the handler registered there (`None` inside the pair marks a
    /// created-but-unregistered site, the silent-drop bug that
    /// [`Self::verify_setup`] exists to rule out at boot). One site per
    /// call: the kernel loop keeps calling while [`Self::has_tasks`] holds,
    /// interleaved with its other duties.
    pub fn service_next_pending(&mut self) -> (r: Option<(usize, Option<H>)>)
        requires
            old(self).wf(),
        ensures
            final(self).wf(),
            final(self).created() == old(self).created(),
            final(self).handler_table() == old(self).handler_table(),
            old(self).pending() == 0 ==> r is None && final(self).pending() == 0,
            old(self).pending() != 0 ==> {
                &&& r matches Some((index, handler))
                &&& index < DEFERRED_CALL_CAPACITY
                &&& bit_is_set(old(self).pending(), index as u32)
                &&& forall|j: u32| j < index ==> !bit_is_set(old(self).pending(), j)
                &&& handler == old(self).handler_table()[index as int]
                &&& forall|j: u32|
                    j < 32 ==> (bit_is_set(final(self).pending(), j) <==> (bit_is_set(
                        old(self).pending(),
                        j,
                    ) && j != index))
            },
    {
        if self.bitmask == 0 {
            return None;
        }
        let index = self.bitmask.trailing_zeros() as usize;
        proof {
            axiom_u32_trailing_zeros(self.bitmask);
            assert(u32_trailing_zeros(self.bitmask) < 32);
            lemma_clear_bit(self.bitmask, index as u32);
        }
        self.bitmask = self.bitmask & !(1u32 << (index as u32));
        let handler = self.handlers[index];
        Some((index, handler))
    }

    /// Boot-time configuration check.
    ///
    /// Succeeds iff the number of created sites does not exceed the
    /// capacity and every created site has a registered handler — counted
    /// over the whole table, so a handler registered outside the created
    /// range is detected too. A violation is fatal to the system: the
    /// caller halts with a diagnostic, because an unregistered but
    /// schedulable site would drop its work silently at run time.
    pub fn verify_setup(&self) -> (r: bool)
        requires
            self.wf(),
        ensures
            r == (self.created() <= DEFERRED_CALL_CAPACITY && count_registered(
                self.handler_table(),
                DEFERRED_CALL_CAPACITY as int,
            ) == self.created()),
    {
        if self.counter > DEFERRED_CALL_CAPACITY {
            return false;
        }
        let mut registered: usize = 0;
        let mut i: usize = 0;
        while i < DEFERRED_CALL_CAPACITY
            invariant
                self.wf(),
                i <= DEFERRED_CALL_CAPACITY,
                registered == count_registered(self.handler_table(), i as int),
                registered <= i,
            decreases DEFERRED_CALL_CAPACITY - i,
        {
            if self.handlers[i].is_some() {
                registered = registered + 1;
            }
            i = i + 1;
        }
        registered == self.counter
    }
}

/// Setting a bit touches that bit alone.
proof fn lemma_set_bit(mask: u32, idx: u32)
    by (bit_vector)
    requires
        idx < 32,
    ensures
        forall|j: u32|
            j < 32 ==> (bit_is_set(mask | (1u32 << idx), j) <==> (bit_is_set(mask, j) || j
                == idx)),
{
}

/// Clearing a bit touches that bit alone.
proof fn lemma_clear_bit(mask: u32, idx: u32)
    by (bit_vector)
    requires
        idx < 32,
    ensures
        forall|j: u32|
            j < 32 ==> (bit_is_set(mask & !(1u32 << idx), j) <==> (bit_is_set(mask, j) && j
                != idx)),
{
}

/// Scheduling a site is idempotent: a second `set` without an intervening
/// service leaves the pending bitmask exactly as the first left it, so the
/// site is serviced once, not twice.
pub proof fn lemma_set_idempotent(mask: u32, idx: u32)
    by (bit_vector)
    requires
        idx < 32,
    ensures
        (mask | (1u32 << idx)) | (1u32 << idx) == mask | (1u32 << idx),
{
}

/// A table in which exactly the first `created` slots are registered counts
/// `created` registered handlers, so [`DeferredCallScheduler::verify_setup`]
/// accepts it; and if any created slot is missing its handler while no slot
/// beyond the created range is registered, the count falls short and
/// `verify_setup` rejects it.
pub proof fn lemma_verify_setup_counts<H>(handlers: Seq<Option<H>>, created: int)
    requires
        handlers.len() == DEFERRED_CALL_CAPACITY,
        0 <= created <= DEFERRED_CALL_CAPACITY,
        forall|i: int| created <= i < DEFERRED_CALL_CAPACITY ==> handlers[i] is None,
    ensures
        (forall|i: int| 0 <= i < created ==> handlers[i] is Some) ==> count_registered(
            handlers,
            DEFERRED_CALL_CAPACITY as int,
        ) == created,
        (exists|i: int| 0 <= i < created && handlers[i] is None) ==> count_registered(
            handlers,
            DEFERRED_CALL_CAPACITY as int,
        ) < created,
{
    lemma_count_registered_bounds(handlers, created, DEFERRED_CALL_CAPACITY as int);
}

/// Counting helper: the count over a prefix bounds and determines the count
/// over the whole table when the tail is unregistered.
proof fn lemma_count_registered_bounds<H>(handlers: Seq<Option<H>>, created: int, n: int)
    requires
        0 <= created <= n <= handlers.len(),
        forall|i: int| created <= i < n ==> handlers[i] is None,
    ensures
        count_registered(handlers, n) == count_registered(handlers, created),
        count_registered(handlers, created) <= created,
        (forall|i: int| 0 <= i < created ==> handlers[i] is Some) ==> count_registered(
            handlers,
            created,
        ) == created,
        (exists|i: int| 0 <= i < created && handlers[i] is None) ==> count_registered(
            handlers,
            created,
        ) < created,
    decreases n,
{
    if n > created {
        lemma_count_registered_bounds(handlers, created, n - 1);
    } else if created > 0 {
        lemma_count_registered_bounds(handlers, created - 1, created - 1);
        if handlers[created - 1] is None {
            assert(forall|i: int|
                0 <= i < created - 1 && handlers[i] is None ==> count_registered(
                    handlers,
                    created - 1,
                ) < created - 1);
        }
    }
}

} // verus!
