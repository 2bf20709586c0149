//! Fixed-capacity bump-allocated pools, reset once per frame.
//!
//! Each pool hands out contiguous index ranges by advancing a `used` cursor;
//! `reset` is the only operation that moves the cursor back, and it moves it
//! to zero. Exhaustion is reported by returning `None`, never by falling back
//! to heap allocation.

use vstd::prelude::*;

verus! {

/// Mathematical state of a bump pool: a fixed capacity and a cursor.
pub struct PoolModel {
    pub capacity: nat,
    pub used: nat,
}

/// One operation applied to a pool during a frame.
pub enum PoolOp {
    Allocate(nat),
    Reset,
}

/// A pool is well formed when its cursor has not run past its capacity.
pub open spec fn pool_wf(m: PoolModel) -> bool {
    m.used <= m.capacity
}

/// An allocation of `count` units succeeds exactly when it fits in the
/// remaining capacity.
pub open spec fn alloc_succeeds(m: PoolModel, count: nat) -> bool {
    m.used + count <= m.capacity
}

/// The pool state after one operation: a successful allocation advances the
/// cursor by the requested count, a failed one leaves the pool unchanged,
/// and a reset moves the cursor to zero.
pub open spec fn pool_step(m: PoolModel, op: PoolOp) -> PoolModel {
    match op {
        PoolOp::Allocate(count) => {
            if alloc_succeeds(m, count) {
                PoolModel { capacity: m.capacity, used: m.used + count }
            } else {
                m
            }
        },
        PoolOp::Reset => PoolModel { capacity: m.capacity, used: 0 },
    }
}

/// The pool state after a whole sequence of operations.
pub open spec fn pool_run(m: PoolModel, ops: Seq<PoolOp>) -> PoolModel
    decreases ops.len(),
{
    if ops.len() == 0 {
        m
    } else {
        pool_step(pool_run(m, ops.drop_last()), ops.last())
    }
}

/// The sum of the counts of the allocations that succeeded after the last
/// reset in `ops` (after the start, if `ops` holds no reset).
pub open spec fn granted_since_reset(m: PoolModel, ops: Seq<PoolOp>) -> nat
    decreases ops.len(),
{
    if ops.len() == 0 {
        0
    } else {
        match ops.last() {
            PoolOp::Allocate(count) => {
                granted_since_reset(m, ops.drop_last()) + if alloc_succeeds(
                    pool_run(m, ops.drop_last()),
                    count,
                ) {
                    count
                } else {
                    0 as nat
                }
            },
            PoolOp::Reset => 0,
        }
    }
}

/// The cursor value the run started from, as seen by the tail of `ops`:
/// zero once a reset has happened, the initial cursor before that.
pub open spec fn base_since_reset(m: PoolModel, ops: Seq<PoolOp>) -> nat
    decreases ops.len(),
{
    if ops.len() == 0 {
        m.used
    } else {
        match ops.last() {
            PoolOp::Allocate(_) => base_since_reset(m, ops.drop_last()),
            PoolOp::Reset => 0,
        }
    }
}

/// Pool conservation: however allocations and resets are interleaved, the
/// cursor equals the sum of the successfully granted counts since the last
/// reset (plus the starting cursor if no reset has happened), and it never
/// runs past the capacity.
pub proof fn lemma_pool_conservation(m: PoolModel, ops: Seq<PoolOp>)
    requires
        pool_wf(m),
    ensures
        pool_run(m, ops).used == base_since_reset(m, ops) + granted_since_reset(m, ops),
        pool_run(m, ops).capacity == m.capacity,
        pool_wf(pool_run(m, ops)),
    decreases ops.len(),
{
    if ops.len() > 0 {
        lemma_pool_conservation(m, ops.drop_last());
    }
}

/// Pool exhaustion boundary: allocating exactly the remaining capacity
/// succeeds, and allocating one unit more fails and leaves the cursor
/// unchanged.
pub proof fn lemma_pool_exhaustion_boundary(m: PoolModel)
    requires
        pool_wf(m),
    ensures
        alloc_succeeds(m, (m.capacity - m.used) as nat),
        !alloc_succeeds(m, (m.capacity - m.used + 1) as nat),
        pool_step(m, PoolOp::Allocate((m.capacity - m.used + 1) as nat)) == m,
{
}

/// Reset idempotence: one reset moves the cursor to zero and a second one
/// leaves it there.
pub proof fn lemma_pool_reset_idempotent(m: PoolModel)
    ensures
        pool_step(m, PoolOp::Reset).used == 0,
        pool_step(pool_step(m, PoolOp::Reset), PoolOp::Reset).used == 0,
        pool_step(pool_step(m, PoolOp::Reset), PoolOp::Reset) == pool_step(m, PoolOp::Reset),
{
}

/// Pre-allocated pool of entity slots.
pub struct EntityPool {
    pub capacity: usize,
    pub used: usize,
}

impl View for EntityPool {
    type V = PoolModel;

    open spec fn view(&self) -> PoolModel {
        PoolModel { capacity: self.capacity as nat, used: self.used as nat }
    }
}

impl EntityPool {
    /// Reserves `count` entity slots, returning the base index of the
    /// reserved range, or `None` when the request does not fit.
    pub fn allocate(&mut self, count: usize) -> (r: Option<usize>)
        requires
            pool_wf(old(self)@),
        ensures
            final(self)@ == pool_step(old(self)@, PoolOp::Allocate(count as nat)),
            pool_wf(final(self)@),
            alloc_succeeds(old(self)@, count as nat) ==> r == Some(old(self).used),
            !alloc_succeeds(old(self)@, count as nat) ==> r is None && *final(self) == *old(self),
    {
        if count <= self.capacity - self.used {
            let start_index = self.used;
            self.used += count;
            Some(start_index)
        } else {
            None
        }
    }

    /// Makes the whole pool available again for the next frame.
    pub fn reset(&mut self)
        ensures
            final(self)@ == pool_step(old(self)@, PoolOp::Reset),
            final(self).used == 0,
            final(self).capacity == old(self).capacity,
    {
        self.used = 0;
    }
}

/// Pre-allocated pool of transform slots.
pub struct TransformPool {
    pub capacity: usize,
    pub used: usize,
}

impl View for TransformPool {
    type V = PoolModel;

    open spec fn view(&self) -> PoolModel {
        PoolModel { capacity: self.capacity as nat, used: self.used as nat }
    }
}

impl TransformPool {
    /// Reserves `count` transform slots, returning the base index of the
    /// reserved range, or `None` when the request does not fit.
    pub fn allocate(&mut self, count: usize) -> (r: Option<usize>)
        requires
            pool_wf(old(self)@),
        ensures
            final(self)@ == pool_step(old(self)@, PoolOp::Allocate(count as nat)),
            pool_wf(final(self)@),
            alloc_succeeds(old(self)@, count as nat) ==> r == Some(old(self).used),
            !alloc_succeeds(old(self)@, count as nat) ==> r is None && *final(self) == *old(self),
    {
        if count <= self.capacity - self.used {
            let start_index = self.used;
            self.used += count;
            Some(start_index)
        } else {
            None
        }
    }

    /// Makes the whole pool available again for the next frame.
    pub fn reset(&mut self)
        ensures
            final(self)@ == pool_step(old(self)@, PoolOp::Reset),
            final(self).used == 0,
            final(self).capacity == old(self).capacity,
    {
        self.used = 0;
    }
}

/// Pre-allocated pool of render command slots.
pub struct RenderCommandPool {
    pub capacity: usize,
    pub used: usize,
}

impl View for RenderCommandPool {
    type V = PoolModel;

    open spec fn view(&self) -> PoolModel {
        PoolModel { capacity: self.capacity as nat, used: self.used as nat }
    }
}

impl RenderCommandPool {
    /// Reserves `count` render command slots, returning the base index of the
    /// reserved range, or `None` when the request does not fit.
    pub fn allocate(&mut self, count: usize) -> (r: Option<usize>)
        requires
            pool_wf(old(self)@),
        ensures
            final(self)@ == pool_step(old(self)@, PoolOp::Allocate(count as nat)),
            pool_wf(final(self)@),
            alloc_succeeds(old(self)@, count as nat) ==> r == Some(old(self).used),
            !alloc_succeeds(old(self)@, count as nat) ==> r is None && *final(self) == *old(self),
    {
        if count <= self.capacity - self.used {
            let start_index = self.used;
            self.used += count;
            Some(start_index)
        } else {
            None
        }
    }

    /// Makes the whole pool available again for the next frame.
    pub fn reset(&mut self)
        ensures
            final(self)@ == pool_step(old(self)@, PoolOp::Reset),
            final(self).used == 0,
            final(self).capacity == old(self).capacity,
    {
        self.used = 0;
    }
}

/// Pre-allocated pool of input event slots.
pub struct InputEventPool {
    pub capacity: usize,
    pub used: usize,
}

impl View for InputEventPool {
    type V = PoolModel;

    open spec fn view(&self) -> PoolModel {
        PoolModel { capacity: self.capacity as nat, used: self.used as nat }
    }
}

impl InputEventPool {
    /// Reserves `count` input event slots, returning the base index of the
    /// reserved range, or `None` when the request does not fit.
    pub fn allocate(&mut self, count: usize) -> (r: Option<usize>)
        requires
            pool_wf(old(self)@),
        ensures
            final(self)@ == pool_step(old(self)@, PoolOp::Allocate(count as nat)),
            pool_wf(final(self)@),
            alloc_succeeds(old(self)@, count as nat) ==> r == Some(old(self).used),
            !alloc_succeeds(old(self)@, count as nat) ==> r is None && *final(self) == *old(self),
    {
        if count <= self.capacity - self.used {
            let start_index = self.used;
            self.used += count;
            Some(start_index)
        } else {
            None
        }
    }

    /// Makes the whole pool available again for the next frame.
    pub fn reset(&mut self)
        ensures
            final(self)@ == pool_step(old(self)@, PoolOp::Reset),
            final(self).used == 0,
            final(self).capacity == old(self).capacity,
    {
        self.used = 0;
    }
}

/// The four independent pools drawn from during one frame. They share the
/// same contract but never share storage.
pub struct MemoryPools {
    pub entity_pool: EntityPool,
    pub transform_pool: TransformPool,
    pub render_command_pool: RenderCommandPool,
    pub input_event_pool: InputEventPool,
}

/// All four pools are well formed.
pub open spec fn pools_wf(p: MemoryPools) -> bool {
    &&& pool_wf(p.entity_pool@)
    &&& pool_wf(p.transform_pool@)
    &&& pool_wf(p.render_command_pool@)
    &&& pool_wf(p.input_event_pool@)
}

impl MemoryPools {
    /// Remaining capacity of the entity pool.
    pub fn entity_pool_available(&self) -> (r: usize)
        requires
            pool_wf(self.entity_pool@),
        ensures
            r == self.entity_pool@.capacity - self.entity_pool@.used,
    {
        self.entity_pool.capacity - self.entity_pool.used
    }

    /// Remaining capacity of the transform pool.
    pub fn transform_pool_available(&self) -> (r: usize)
        requires
            pool_wf(self.transform_pool@),
        ensures
            r == self.transform_pool@.capacity - self.transform_pool@.used,
    {
        self.transform_pool.capacity - self.transform_pool.used
    }

    /// Pre-flight admission check: true exactly when every one of the four
    /// pools has at least the requested remaining capacity. Callers that need
    /// a batch of allocations to succeed together check this first, since no
    /// rollback exists once an allocation has succeeded.
    pub fn has_sufficient_capacity(
        &self,
        entities: usize,
        transforms: usize,
        render_commands: usize,
        input_events: usize,
    ) -> (r: bool)
        requires
            pools_wf(*self),
        ensures
            r == {
                &&& alloc_succeeds(self.entity_pool@, entities as nat)
                &&& alloc_succeeds(self.transform_pool@, transforms as nat)
                &&& alloc_succeeds(self.render_command_pool@, render_commands as nat)
                &&& alloc_succeeds(self.input_event_pool@, input_events as nat)
            },
    {
        entities <= self.entity_pool.capacity - self.entity_pool.used
            && transforms <= self.transform_pool.capacity - self.transform_pool.used
            && render_commands <= self.render_command_pool.capacity - self.render_command_pool.used
            && input_events <= self.input_event_pool.capacity - self.input_event_pool.used
    }

    /// Resets all four pools at a frame boundary.
    pub fn reset_all(&mut self)
        ensures
            final(self).entity_pool@ == pool_step(old(self).entity_pool@, PoolOp::Reset),
            final(self).transform_pool@ == pool_step(old(self).transform_pool@, PoolOp::Reset),
            final(self).render_command_pool@ == pool_step(
                old(self).render_command_pool@,
                PoolOp::Reset,
            ),
            final(self).input_event_pool@ == pool_step(old(self).input_event_pool@, PoolOp::Reset),
            pools_wf(*final(self)),
    {
        self.entity_pool.reset();
        self.transform_pool.reset();
        self.render_command_pool.reset();
        self.input_event_pool.reset();
    }
}

} // verus!
