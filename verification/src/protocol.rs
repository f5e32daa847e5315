//! The control block's counter protocol, as a verified state machine.
//!
//! One heap allocation serves every handle derived from one construction. Its
//! bookkeeping is two counters: `strong`, the number of live strong handles,
//! and `alloc`, the number of live weak handles plus one extra unit that
//! stands for the aggregate of all strong handles. The payload is destroyed
//! by whichever strong-handle drop observes `strong` go from one to zero; the
//! allocation itself is freed by whichever drop observes `alloc` go from one
//! to zero, which can only happen once the payload is gone.
//!
//! This module states those transition rules exactly and proves the teardown
//! protocol over every admissible sequence of operations: the payload is
//! destroyed exactly once, the allocation is freed exactly once and only
//! after the payload, and once the strong count has reached zero nothing
//! ever revives it.

use vstd::prelude::*;

verus! {

/// A counter past this bound is treated as corruption: the operation that
/// would cross it refuses to add a unit, where the running process aborts
/// rather than risk aliasing two logically distinct handles onto one unit.
pub const HALF_RANGE: usize = usize::MAX / 2;

/// One bookkeeping operation on the control block, named for the handle
/// operation whose counter update it is.
pub enum Event {
    /// A strong handle is cloned: one more strong unit.
    CloneStrong,
    /// A strong handle is dropped: one strong unit released, with the
    /// two-phase teardown on the last one.
    DropStrong,
    /// A weak handle is derived from a strong one: one more allocation unit.
    Downgrade,
    /// A weak handle is cloned: one more allocation unit.
    CloneWeak,
    /// A weak handle is dropped: one allocation unit released, freeing the
    /// allocation when it was the last.
    DropWeak,
    /// A weak handle attempts to become strong: one more strong unit, but
    /// only when at least one strong handle still exists.
    Upgrade,
}

/// The state of one control block: the two counters, whether the payload has
/// not yet been destroyed, and whether the allocation has not yet been freed.
pub struct Block {
    /// Number of live strong handles.
    pub strong: usize,
    /// Number of live weak handles, plus one unit while any strong handle
    /// exists.
    pub alloc: usize,
    /// The payload has not been destroyed yet.
    pub payload_live: bool,
    /// The allocation has not been freed yet.
    pub block_live: bool,
}

impl Block {
    /// Number of live weak handles: `alloc` minus the unit that stands for
    /// the strong handles while any exist.
    pub open spec fn weak_units(self) -> int {
        self.alloc - (if self.strong > 0 { 1int } else { 0int })
    }

    /// The invariant every reachable state satisfies: the payload lives
    /// exactly as long as a strong handle does, the allocation outlives every
    /// handle, and a freed block has no units left at all.
    pub open spec fn wf(self) -> bool {
        &&& self.payload_live <==> self.strong > 0
        &&& self.block_live ==> self.alloc >= 1
        &&& self.strong > 0 ==> self.block_live
        &&& !self.block_live ==> self.alloc == 0 && self.strong == 0
        &&& self.weak_units() >= 0
    }

    /// The state right after construction: one strong handle, and the one
    /// allocation unit that stands for the aggregate of strong handles.
    pub open spec fn init() -> Block {
        Block { strong: 1, alloc: 1, payload_live: true, block_live: true }
    }

    /// Whether an operation can happen in this state: the caller must hold a
    /// handle of the right kind, and the counter it adds to must not cross
    /// the corruption bound.
    pub open spec fn enabled(self, e: Event) -> bool {
        match e {
            Event::CloneStrong => self.strong >= 1 && self.strong <= HALF_RANGE,
            Event::DropStrong => self.strong >= 1,
            Event::Downgrade => self.strong >= 1 && self.alloc < usize::MAX,
            Event::CloneWeak => self.weak_units() >= 1 && self.alloc <= HALF_RANGE,
            Event::DropWeak => self.weak_units() >= 1,
            Event::Upgrade => self.weak_units() >= 1 && self.strong <= HALF_RANGE,
        }
    }

    /// The state after an enabled operation.
    pub open spec fn step(self, e: Event) -> Block {
        match e {
            Event::CloneStrong => Block { strong: (self.strong + 1) as usize, ..self },
            Event::DropStrong => if self.strong == 1 {
                Block {
                    strong: 0,
                    alloc: (self.alloc - 1) as usize,
                    payload_live: false,
                    block_live: self.block_live && self.alloc != 1,
                }
            } else {
                Block { strong: (self.strong - 1) as usize, ..self }
            },
            Event::Downgrade => Block { alloc: (self.alloc + 1) as usize, ..self },
            Event::CloneWeak => Block { alloc: (self.alloc + 1) as usize, ..self },
            Event::DropWeak => Block {
                alloc: (self.alloc - 1) as usize,
                block_live: self.block_live && self.alloc != 1,
                ..self
            },
            Event::Upgrade => if self.strong >= 1 {
                Block { strong: (self.strong + 1) as usize, ..self }
            } else {
                self
            },
        }
    }

    /// Whether this operation, taken in this state, destroys the payload:
    /// exactly the drop of the last strong handle.
    pub open spec fn destroys_payload(self, e: Event) -> bool {
        e is DropStrong && self.strong == 1
    }

    /// Whether this operation, taken in this state, frees the allocation:
    /// exactly the release of the last allocation unit.
    pub open spec fn frees_block(self, e: Event) -> bool {
        ||| e is DropStrong && self.strong == 1 && self.alloc == 1
        ||| e is DropWeak && self.alloc == 1
    }

    /// Every operation of the sequence is enabled in the state it meets.
    pub open spec fn valid_from(self, es: Seq<Event>) -> bool
        decreases es.len(),
    {
        es.len() == 0 || (self.enabled(es[0]) && self.step(es[0]).valid_from(es.drop_first()))
    }

    /// The state after the whole sequence.
    pub open spec fn run(self, es: Seq<Event>) -> Block
        decreases es.len(),
    {
        if es.len() == 0 {
            self
        } else {
            self.step(es[0]).run(es.drop_first())
        }
    }

    /// How many operations of the sequence destroy the payload.
    pub open spec fn destroy_count(self, es: Seq<Event>) -> nat
        decreases es.len(),
    {
        if es.len() == 0 {
            0
        } else {
            (if self.destroys_payload(es[0]) {
                1nat
            } else {
                0nat
            }) + self.step(es[0]).destroy_count(es.drop_first())
        }
    }

    /// How many operations of the sequence free the allocation.
    pub open spec fn free_count(self, es: Seq<Event>) -> nat
        decreases es.len(),
    {
        if es.len() == 0 {
            0
        } else {
            (if self.frees_block(es[0]) {
                1nat
            } else {
                0nat
            }) + self.step(es[0]).free_count(es.drop_first())
        }
    }
}

/// What the drop of a strong handle did: whether it was the last one and so
/// destroyed the payload, and whether it also released the last allocation
/// unit and so freed the allocation.
pub struct DropStrongOutcome {
    pub destroyed_payload: bool,
    pub freed_block: bool,
}

impl Block {
    /// The bookkeeping of constructing a handle from a value: a fresh block
    /// in the initial state.
    pub fn construct() -> (b: Block)
        ensures
            b == Block::init(),
            b.wf(),
    {
        Block { strong: 1, alloc: 1, payload_live: true, block_live: true }
    }

    /// The bookkeeping of cloning a strong handle: one more strong unit.
    /// Returns `false` exactly where the running process aborts instead, the
    /// fail-fast against a counter past half the representable range.
    pub fn clone_strong(&mut self) -> (ok: bool)
        requires
            old(self).wf(),
            old(self).strong >= 1,
        ensures
            ok == (old(self).strong <= HALF_RANGE),
            ok ==> old(self).enabled(Event::CloneStrong),
            ok ==> *final(self) == old(self).step(Event::CloneStrong),
            ok ==> final(self).wf(),
            !ok ==> *final(self) == *old(self),
    {
        if self.strong <= HALF_RANGE {
            self.strong = self.strong + 1;
            true
        } else {
            false
        }
    }

    /// The bookkeeping of dropping a strong handle. The drop that observes
    /// the count go from one to zero destroys the payload, and then releases
    /// the allocation unit that stood for the aggregate of strong handles;
    /// where that unit was the last, the allocation is freed too.
    pub fn drop_strong(&mut self) -> (r: DropStrongOutcome)
        requires
            old(self).wf(),
            old(self).strong >= 1,
        ensures
            *final(self) == old(self).step(Event::DropStrong),
            final(self).wf(),
            r.destroyed_payload == old(self).destroys_payload(Event::DropStrong),
            r.freed_block == old(self).frees_block(Event::DropStrong),
    {
        if self.strong == 1 {
            self.strong = 0;
            self.payload_live = false;
            let freed: bool = self.alloc == 1;
            self.alloc = self.alloc - 1;
            if freed {
                self.block_live = false;
            }
            DropStrongOutcome { destroyed_payload: true, freed_block: freed }
        } else {
            self.strong = self.strong - 1;
            DropStrongOutcome { destroyed_payload: false, freed_block: false }
        }
    }

    /// The bookkeeping of deriving a weak handle from a strong one: one more
    /// allocation unit.
    pub fn downgrade(&mut self)
        requires
            old(self).wf(),
            old(self).strong >= 1,
            old(self).alloc < usize::MAX,
        ensures
            *final(self) == old(self).step(Event::Downgrade),
            final(self).wf(),
    {
        self.alloc = self.alloc + 1;
    }

    /// The bookkeeping of cloning a weak handle: one more allocation unit.
    /// Returns `false` exactly where the running process aborts instead,
    /// the same fail-fast as for strong clones.
    pub fn clone_weak(&mut self) -> (ok: bool)
        requires
            old(self).wf(),
            old(self).weak_units() >= 1,
        ensures
            ok == (old(self).alloc <= HALF_RANGE),
            ok ==> old(self).enabled(Event::CloneWeak),
            ok ==> *final(self) == old(self).step(Event::CloneWeak),
            ok ==> final(self).wf(),
            !ok ==> *final(self) == *old(self),
    {
        if self.alloc <= HALF_RANGE {
            self.alloc = self.alloc + 1;
            true
        } else {
            false
        }
    }

    /// The bookkeeping of dropping a weak handle: one allocation unit
    /// released. The drop that observes the count go from one to zero frees
    /// the allocation; the payload is already gone by then, because the unit
    /// standing for the strong handles is only released after its
    /// destruction.
    pub fn drop_weak(&mut self) -> (freed: bool)
        requires
            old(self).wf(),
            old(self).weak_units() >= 1,
        ensures
            *final(self) == old(self).step(Event::DropWeak),
            final(self).wf(),
            freed == old(self).frees_block(Event::DropWeak),
            freed ==> !old(self).payload_live,
    {
        let freed: bool = self.alloc == 1;
        self.alloc = self.alloc - 1;
        if freed {
            self.block_live = false;
        }
        freed
    }

    /// The bookkeeping of an upgrade attempt: succeeds, adding one strong
    /// unit, exactly when at least one strong handle still exists; returns
    /// `false`, leaving the state unchanged, exactly when the payload is
    /// gone or going. A fresh strong unit is never minted from a zero count:
    /// that is the race the compare-and-swap loop of the running code closes.
    pub fn try_upgrade(&mut self) -> (ok: bool)
        requires
            old(self).wf(),
            old(self).weak_units() >= 1,
            old(self).strong <= HALF_RANGE,
        ensures
            ok == (old(self).strong >= 1),
            *final(self) == old(self).step(Event::Upgrade),
            final(self).wf(),
    {
        if self.strong == 0 {
            false
        } else {
            self.strong = self.strong + 1;
            true
        }
    }
}

/// Every enabled operation preserves the invariant.
pub proof fn lemma_step_preserves_wf(b: Block, e: Event)
    requires
        b.wf(),
        b.enabled(e),
    ensures
        b.step(e).wf(),
{
}

/// The invariant holds after any admissible sequence of operations.
pub proof fn lemma_run_preserves_wf(b: Block, es: Seq<Event>)
    requires
        b.wf(),
        b.valid_from(es),
    ensures
        b.run(es).wf(),
    decreases es.len(),
{
    if es.len() > 0 {
        lemma_step_preserves_wf(b, es[0]);
        lemma_run_preserves_wf(b.step(es[0]), es.drop_first());
    }
}

/// Once the strong count has reached zero, no admissible sequence of
/// operations revives it: the count stays zero, the payload stays destroyed,
/// and no later operation destroys it again. In particular an upgrade racing
/// against the final strong-handle drop can only lose once the count is
/// gone, and it never observes a payload whose destruction has begun.
pub proof fn lemma_strong_zero_is_final(b: Block, es: Seq<Event>)
    requires
        b.wf(),
        b.strong == 0,
        b.valid_from(es),
    ensures
        b.run(es).strong == 0,
        !b.run(es).payload_live,
        b.destroy_count(es) == 0,
    decreases es.len(),
{
    if es.len() > 0 {
        lemma_step_preserves_wf(b, es[0]);
        lemma_strong_zero_is_final(b.step(es[0]), es.drop_first());
    }
}

/// From any reachable state that still has a strong handle, every admissible
/// sequence of operations destroys the payload at most once, and exactly
/// once when and only when it ends with the strong count at zero — that is,
/// only the drop of the last strong handle destroys it.
pub proof fn lemma_payload_destroyed_exactly_once(b: Block, es: Seq<Event>)
    requires
        b.wf(),
        b.strong >= 1,
        b.valid_from(es),
    ensures
        b.destroy_count(es) == if b.run(es).strong == 0 {
            1int
        } else {
            0int
        },
    decreases es.len(),
{
    if es.len() > 0 {
        lemma_step_preserves_wf(b, es[0]);
        if b.destroys_payload(es[0]) {
            lemma_strong_zero_is_final(b.step(es[0]), es.drop_first());
        } else {
            lemma_payload_destroyed_exactly_once(b.step(es[0]), es.drop_first());
        }
    }
}

/// Once the allocation has been freed, nothing further is admissible: no
/// handle of either kind is left to operate with.
pub proof fn lemma_freed_is_terminal(b: Block, es: Seq<Event>)
    requires
        b.wf(),
        !b.block_live,
        b.valid_from(es),
    ensures
        es.len() == 0,
{
    if es.len() > 0 {
        assert(!b.enabled(es[0]));
    }
}

/// An operation that frees the allocation leaves the payload destroyed and
/// the strong count at zero: the memory is only ever released after the
/// payload, never under a live strong handle.
pub proof fn lemma_free_follows_destruction(b: Block, e: Event)
    requires
        b.wf(),
        b.enabled(e),
        b.frees_block(e),
    ensures
        !b.step(e).payload_live,
        b.step(e).strong == 0,
        !b.step(e).block_live,
{
}

/// From any reachable state whose allocation is still live, every admissible
/// sequence of operations frees the allocation at most once, and exactly
/// once when and only when it ends with the allocation gone.
pub proof fn lemma_block_freed_exactly_once(b: Block, es: Seq<Event>)
    requires
        b.wf(),
        b.block_live,
        b.valid_from(es),
    ensures
        b.free_count(es) == if b.run(es).block_live {
            0int
        } else {
            1int
        },
    decreases es.len(),
{
    if es.len() > 0 {
        lemma_step_preserves_wf(b, es[0]);
        if b.frees_block(es[0]) {
            lemma_free_follows_destruction(b, es[0]);
            lemma_freed_is_terminal(b.step(es[0]), es.drop_first());
            assert(b.step(es[0]).run(es.drop_first()) == b.step(es[0]));
            assert(b.step(es[0]).free_count(es.drop_first()) == 0);
            assert(b.free_count(es) == 1);
        } else {
            lemma_block_freed_exactly_once(b.step(es[0]), es.drop_first());
        }
    }
}

/// The two teardown laws, read from the initial state: over any admissible
/// sequence of operations on a freshly constructed block, the payload is
/// destroyed exactly once if the last strong handle is ever dropped and not
/// at all otherwise, and the allocation is freed exactly once if the last
/// allocation unit is ever released and not at all otherwise.
pub proof fn lemma_teardown_from_init(es: Seq<Event>)
    requires
        Block::init().valid_from(es),
    ensures
        Block::init().destroy_count(es) <= 1,
        Block::init().destroy_count(es) == 1 <==> Block::init().run(es).strong == 0,
        Block::init().free_count(es) <= 1,
        Block::init().free_count(es) == 1 <==> !Block::init().run(es).block_live,
{
    lemma_payload_destroyed_exactly_once(Block::init(), es);
    lemma_block_freed_exactly_once(Block::init(), es);
}

} // verus!
