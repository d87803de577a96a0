use crate::constants::DESCRIPTOR_TYPE_STORAGE_IMAGE;
use crate::constants::DESCRIPTOR_TYPE_UNIFORM_BUFFER;
use crate::constants::ERROR_FRAGMENTED_POOL;
use crate::constants::ERROR_OUT_OF_POOL_MEMORY;
use crate::constants::IMAGE_LAYOUT_GENERAL;
use vstd::prelude::*;

verus! {

/// The sets-per-pool target never grows past this.
pub const MAX_SETS_PER_POOL: u32 = 4092;

/// How many descriptors of one type a pool holds per descriptor set, in
/// thousandths: 3000 stands for three descriptors per set.
#[derive(Clone, Copy, Debug, PartialEq, Eq, Structural)]
pub struct PoolSizeRatio {
    pub descriptor_type: i32,
    pub ratio_milli: u32,
}

/// The number of descriptors of one type that a pool is created with.
#[derive(Clone, Copy, Debug, PartialEq, Eq, Structural)]
pub struct DescriptorPoolSize {
    pub ty: i32,
    pub descriptor_count: u32,
}

/// What a descriptor pool is created with.
#[derive(Debug)]
pub struct DescriptorPoolCreateInfo {
    pub max_sets: u32,
    pub pool_sizes: Vec<DescriptorPoolSize>,
}

/// The mathematical content of a `DescriptorPoolCreateInfo`.
pub struct PoolCreateModel {
    pub max_sets: u32,
    pub pool_sizes: Seq<DescriptorPoolSize>,
}

impl View for DescriptorPoolCreateInfo {
    type V = PoolCreateModel;

    open spec fn view(&self) -> PoolCreateModel {
        PoolCreateModel { max_sets: self.max_sets, pool_sizes: self.pool_sizes@ }
    }
}

/// A request for one descriptor set of a layout from a pool.
#[derive(Clone, Copy, Debug, PartialEq, Eq, Structural)]
pub struct DescriptorSetAllocateInfo {
    pub descriptor_pool: u64,
    pub set_layout: u64,
    pub descriptor_set_count: u32,
}

/// `set_count` times the ratio, rounded down, and held to the range of `u32`.
pub open spec fn scaled_count(set_count: u32, ratio_milli: u32) -> u32 {
    let exact = (set_count as int * ratio_milli as int) / 1000;
    if exact > u32::MAX {
        u32::MAX
    } else {
        exact as u32
    }
}

/// One and a half times `target`, rounded down, and held to the range of `u32`.
pub open spec fn grown_target(target: u32) -> u32 {
    let exact = (target as int * 3) / 2;
    if exact > u32::MAX {
        u32::MAX
    } else {
        exact as u32
    }
}

/// The grown target, capped at `MAX_SETS_PER_POOL`.
pub open spec fn capped_target(target: u32) -> u32 {
    if grown_target(target) > MAX_SETS_PER_POOL {
        MAX_SETS_PER_POOL
    } else {
        grown_target(target)
    }
}

/// The size entries of a pool for `set_count` sets: one per ratio, in order.
pub open spec fn pool_sizes_for(set_count: u32, ratios: Seq<PoolSizeRatio>) -> Seq<
    DescriptorPoolSize,
> {
    Seq::new(
        ratios.len(),
        |i: int|
            DescriptorPoolSize {
                ty: ratios[i].descriptor_type,
                descriptor_count: scaled_count(set_count, ratios[i].ratio_milli),
            },
    )
}

/// What a pool for `set_count` sets is created with.
pub open spec fn pool_create_model(set_count: u32, ratios: Seq<PoolSizeRatio>) -> PoolCreateModel {
    PoolCreateModel { max_sets: set_count, pool_sizes: pool_sizes_for(set_count, ratios) }
}

/// Whether a result code reports an exhausted pool.
pub open spec fn is_pool_exhaustion(code: i32) -> bool {
    code == ERROR_OUT_OF_POOL_MEMORY || code == ERROR_FRAGMENTED_POOL
}

pub fn scale_count(set_count: u32, ratio_milli: u32) -> (count: u32)
    ensures
        count == scaled_count(set_count, ratio_milli),
{
    assert(set_count as u64 * ratio_milli as u64 <= 0xFFFF_FFFF * 0xFFFF_FFFF)
        by (nonlinear_arith)
        requires
            set_count <= 0xFFFF_FFFF,
            ratio_milli <= 0xFFFF_FFFF,
    ;
    let exact: u64 = (set_count as u64) * (ratio_milli as u64) / 1000;
    if exact > u32::MAX as u64 {
        u32::MAX
    } else {
        exact as u32
    }
}

pub fn grow_target(target: u32) -> (grown: u32)
    ensures
        grown == grown_target(target),
{
    let exact: u64 = (target as u64) * 3 / 2;
    if exact > u32::MAX as u64 {
        u32::MAX
    } else {
        exact as u32
    }
}

pub fn cap_target(target: u32) -> (capped: u32)
    ensures
        capped == capped_target(target),
{
    let grown: u32 = grow_target(target);
    if grown > MAX_SETS_PER_POOL {
        MAX_SETS_PER_POOL
    } else {
        grown
    }
}

pub fn pool_exhausted(code: i32) -> (exhausted: bool)
    ensures
        exhausted == is_pool_exhaustion(code),
{
    code == ERROR_OUT_OF_POOL_MEMORY || code == ERROR_FRAGMENTED_POOL
}

/// Describes a pool for `set_count` sets: `max_sets` is `set_count`, and each
/// ratio gives one size entry, in the order of `ratios`.
pub fn pool_create_info(set_count: u32, ratios: &[PoolSizeRatio]) -> (info:
    DescriptorPoolCreateInfo)
    ensures
        info@ == pool_create_model(set_count, ratios@),
{
    let mut pool_sizes: Vec<DescriptorPoolSize> = Vec::new();
    let mut i: usize = 0;
    while i < ratios.len()
        invariant
            i <= ratios.len(),
            pool_sizes@ == pool_sizes_for(set_count, ratios@.take(i as int)),
        decreases ratios.len() - i,
    {
        let ratio = ratios[i];
        pool_sizes.push(
            DescriptorPoolSize {
                ty: ratio.descriptor_type,
                descriptor_count: scale_count(set_count, ratio.ratio_milli),
            },
        );
        i += 1;
    }
    assert(ratios@.take(i as int) == ratios@);
    DescriptorPoolCreateInfo { max_sets: set_count, pool_sizes }
}

/// One binding of a descriptor set layout.
#[derive(Clone, Copy, Debug, PartialEq, Eq, Structural)]
pub struct DescriptorSetLayoutBinding {
    pub binding: u32,
    pub descriptor_type: i32,
    pub descriptor_count: u32,
    pub stage_flags: u32,
}

/// What a descriptor set layout is created with.
#[derive(Debug)]
pub struct DescriptorSetLayoutCreateInfo {
    pub flags: u32,
    pub bindings: Vec<DescriptorSetLayoutBinding>,
}

/// The handle of a created descriptor set layout.
#[derive(Clone, Copy, Debug, PartialEq, Eq, Structural)]
pub struct DescriptorSetLayout {
    layout: u64,
}

impl DescriptorSetLayout {
    pub closed spec fn handle(self) -> u64 {
        self.layout
    }

    pub fn new(layout: u64) -> (created: Self)
        ensures
            created.handle() == layout,
    {
        Self { layout }
    }

    pub fn layout(&self) -> (layout: u64)
        ensures
            layout == self.handle(),
    {
        self.layout
    }
}

/// Collects the bindings of a descriptor set layout, in the order added.
#[derive(Debug)]
pub struct DescriptorLayoutBuilder {
    bindings: Vec<DescriptorSetLayoutBinding>,
}

impl View for DescriptorLayoutBuilder {
    type V = Seq<DescriptorSetLayoutBinding>;

    closed spec fn view(&self) -> Seq<DescriptorSetLayoutBinding> {
        self.bindings@
    }
}

impl DescriptorLayoutBuilder {
    pub fn new() -> (builder: Self)
        ensures
            builder@ == Seq::<DescriptorSetLayoutBinding>::empty(),
    {
        DescriptorLayoutBuilder { bindings: Vec::new() }
    }

    /// Adds a binding of one descriptor.
    pub fn add_binding(&mut self, binding_idx: u32, descriptor_type: i32, stage_flags: u32)
        ensures
            final(self)@ == old(self)@.push(
                DescriptorSetLayoutBinding {
                    binding: binding_idx,
                    descriptor_type,
                    descriptor_count: 1,
                    stage_flags,
                },
            ),
    {
        self.bindings.push(
            DescriptorSetLayoutBinding {
                binding: binding_idx,
                descriptor_type,
                descriptor_count: 1,
                stage_flags,
            },
        );
    }

    pub fn clear(&mut self)
        ensures
            final(self)@ == Seq::<DescriptorSetLayoutBinding>::empty(),
    {
        self.bindings.clear();
    }

    /// Describes the layout of the bindings added so far.
    pub fn build(&self, flags: u32) -> (info: DescriptorSetLayoutCreateInfo)
        ensures
            info.flags == flags,
            info.bindings@ == self@,
    {
        DescriptorSetLayoutCreateInfo { flags, bindings: self.bindings.clone() }
    }
}

/// A descriptor allocator over one pool of fixed size.
#[derive(Debug)]
pub struct DescriptorAllocator {
    pool: Option<u64>,
}

impl DescriptorAllocator {
    /// The pool of the allocator, if it has one.
    pub closed spec fn pool(&self) -> Option<u64> {
        self.pool
    }

    pub fn new() -> (allocator: Self)
        ensures
            allocator.pool() is None,
    {
        Self { pool: None }
    }

    /// Takes in `pool`, which the caller created as `pool_create_info`
    /// describes. A pool held before is forgotten, not destroyed.
    pub fn init_pool(&mut self, pool: u64)
        ensures
            final(self).pool() == Some(pool),
    {
        self.pool = Some(pool);
    }

    /// The pool that the caller resets; `None` where no pool was taken in.
    pub fn clear_descriptors(&self) -> (to_reset: Option<u64>)
        ensures
            to_reset == self.pool(),
    {
        self.pool
    }

    /// Gives up the pool and returns it for the caller to destroy; `None`
    /// where no pool was taken in.
    pub fn destroy_pool(&mut self) -> (to_destroy: Option<u64>)
        ensures
            to_destroy == old(self).pool(),
            final(self).pool() is None,
    {
        self.pool.take()
    }

    /// The request for one set of `layout` from the pool; `None` where no
    /// pool was taken in.
    pub fn allocate(&self, layout: u64) -> (request: Option<DescriptorSetAllocateInfo>)
        ensures
            request == match self.pool() {
                Some(pool) => Some(
                    DescriptorSetAllocateInfo {
                        descriptor_pool: pool,
                        set_layout: layout,
                        descriptor_set_count: 1,
                    },
                ),
                None => None,
            },
    {
        match self.pool {
            Some(pool) => Some(
                DescriptorSetAllocateInfo {
                    descriptor_pool: pool,
                    set_layout: layout,
                    descriptor_set_count: 1,
                },
            ),
            None => None,
        }
    }
}

/// What a descriptor write points its binding at.
#[derive(Clone, Copy, Debug, PartialEq, Eq, Structural)]
pub enum DescriptorInfo {
    Buffer { buffer: u64, offset: u64, range: u64 },
    Image { sampler: u64, image_view: u64, image_layout: i32 },
}

/// One update of one binding of a descriptor set.
#[derive(Clone, Copy, Debug, PartialEq, Eq, Structural)]
pub struct WriteDescriptorSet {
    pub dst_set: u64,
    pub dst_binding: u32,
    pub dst_array_element: u32,
    pub descriptor_count: u32,
    pub descriptor_type: i32,
    pub info: DescriptorInfo,
}

/// The write that `add_buffer` records, before a set is named.
pub open spec fn buffer_write(
    binding: i32,
    buffer: u64,
    size: u64,
    offset: u64,
    descriptor_type: i32,
) -> WriteDescriptorSet {
    WriteDescriptorSet {
        dst_set: 0,
        dst_binding: binding as u32,
        dst_array_element: 0,
        descriptor_count: 1,
        descriptor_type,
        info: DescriptorInfo::Buffer { buffer, offset, range: size },
    }
}

/// The write that `add_image` records, before a set is named.
pub open spec fn image_write(
    binding: i32,
    image_view: u64,
    sampler: u64,
    image_layout: i32,
    descriptor_type: i32,
) -> WriteDescriptorSet {
    WriteDescriptorSet {
        dst_set: 0,
        dst_binding: binding as u32,
        dst_array_element: 0,
        descriptor_count: 1,
        descriptor_type,
        info: DescriptorInfo::Image { sampler, image_view, image_layout },
    }
}

/// The writes `writes`, each aimed at `set`.
pub open spec fn aimed_at(writes: Seq<WriteDescriptorSet>, set: u64) -> Seq<WriteDescriptorSet> {
    Seq::new(writes.len(), |i: int| WriteDescriptorSet { dst_set: set, ..writes[i] })
}

/// Collects descriptor writes and aims them at a set.
#[derive(Debug)]
pub struct DescriptorWriter {
    writes: Vec<WriteDescriptorSet>,
}

impl View for DescriptorWriter {
    type V = Seq<WriteDescriptorSet>;

    closed spec fn view(&self) -> Seq<WriteDescriptorSet> {
        self.writes@
    }
}

impl DescriptorWriter {
    pub fn new() -> (writer: Self)
        ensures
            writer@ == Seq::<WriteDescriptorSet>::empty(),
    {
        DescriptorWriter { writes: Vec::new() }
    }

    /// The writes recorded so far, in order.
    pub fn writes(&self) -> (writes: &Vec<WriteDescriptorSet>)
        ensures
            writes@ == self@,
    {
        &self.writes
    }

    pub fn add_uniform_buffer(&mut self, binding: i32, buffer: u64, size: u64, offset: u64)
        ensures
            final(self)@ == old(self)@.push(
                buffer_write(binding, buffer, size, offset, DESCRIPTOR_TYPE_UNIFORM_BUFFER),
            ),
    {
        self.add_buffer(binding, buffer, size, offset, DESCRIPTOR_TYPE_UNIFORM_BUFFER);
    }

    pub fn add_buffer(
        &mut self,
        binding: i32,
        buffer: u64,
        size: u64,
        offset: u64,
        descriptor_type: i32,
    )
        ensures
            final(self)@ == old(self)@.push(
                buffer_write(binding, buffer, size, offset, descriptor_type),
            ),
    {
        self.writes.push(
            WriteDescriptorSet {
                dst_set: 0,
                dst_binding: #[verifier::truncate]
                (binding as u32),
                dst_array_element: 0,
                descriptor_count: 1,
                descriptor_type,
                info: DescriptorInfo::Buffer { buffer, offset, range: size },
            },
        );
    }

    pub fn add_image(
        &mut self,
        binding: i32,
        image_view: u64,
        sampler: u64,
        image_layout: i32,
        descriptor_type: i32,
    )
        ensures
            final(self)@ == old(self)@.push(
                image_write(binding, image_view, sampler, image_layout, descriptor_type),
            ),
    {
        self.writes.push(
            WriteDescriptorSet {
                dst_set: 0,
                dst_binding: #[verifier::truncate]
                (binding as u32),
                dst_array_element: 0,
                descriptor_count: 1,
                descriptor_type,
                info: DescriptorInfo::Image { sampler, image_view, image_layout },
            },
        );
    }

    /// Adds a storage image: no sampler, in the general layout.
    pub fn add_storage_image(&mut self, binding: i32, image_view: u64)
        ensures
            final(self)@ == old(self)@.push(
                image_write(
                    binding,
                    image_view,
                    0,
                    IMAGE_LAYOUT_GENERAL,
                    DESCRIPTOR_TYPE_STORAGE_IMAGE,
                ),
            ),
    {
        self.add_image(
            binding,
            image_view,
            0,
            IMAGE_LAYOUT_GENERAL,
            DESCRIPTOR_TYPE_STORAGE_IMAGE,
        );
    }

    pub fn clear(&mut self)
        ensures
            final(self)@ == Seq::<WriteDescriptorSet>::empty(),
    {
        self.writes.clear();
    }

    /// Aims every recorded write at `set`; the caller then hands `writes`
    /// to the device.
    pub fn update_descriptor_set(&mut self, set: u64)
        ensures
            final(self)@ == aimed_at(old(self)@, set),
    {
        let mut i: usize = 0;
        while i < self.writes.len()
            invariant
                i <= self.writes.len(),
                self.writes.len() == old(self).writes.len(),
                forall|j: int|
                    0 <= j < i ==> self.writes@[j] == (WriteDescriptorSet {
                        dst_set: set,
                        ..old(self).writes@[j]
                    }),
                forall|j: int| i <= j < self.writes.len() ==> self.writes@[j] == old(self).writes@[j],
            decreases self.writes.len() - i,
        {
            let write = self.writes[i];
            self.writes.set(i, WriteDescriptorSet { dst_set: set, ..write });
            i += 1;
        }
        assert(self@ =~= aimed_at(old(self)@, set));
    }
}

/// Where a growable allocator stands in serving one allocation.
#[derive(Clone, Copy, Debug, PartialEq, Eq, Structural)]
pub enum AllocationPhase {
    /// No allocation is under way.
    Idle,
    /// A pool was asked for and not yet created.
    AwaitingPool { layout: u64, retry: bool },
    /// A set was asked for from the last ready pool and the answer is open.
    AwaitingSet { layout: u64, retry: bool },
}

/// What the caller does next for the allocation under way.
#[derive(Debug)]
pub enum AllocationStep {
    /// Create a pool as described and hand it to `pool_created`.
    CreatePool(DescriptorPoolCreateInfo),
    /// Ask the device for the set and hand the answer to `allocation_result`.
    AllocateSet(DescriptorSetAllocateInfo),
    /// The allocation ended with this descriptor set.
    Done(u64),
    /// The allocation failed for good, with this result code.
    Fatal(i32),
}

/// The mathematical content of an `AllocationStep`.
pub enum StepModel {
    CreatePool(PoolCreateModel),
    AllocateSet(DescriptorSetAllocateInfo),
    Done(u64),
    Fatal(i32),
}

impl View for AllocationStep {
    type V = StepModel;

    open spec fn view(&self) -> StepModel {
        match *self {
            AllocationStep::CreatePool(info) => StepModel::CreatePool(info@),
            AllocationStep::AllocateSet(info) => StepModel::AllocateSet(info),
            AllocationStep::Done(set) => StepModel::Done(set),
            AllocationStep::Fatal(code) => StepModel::Fatal(code),
        }
    }
}

/// `pools` without `pool`, the others in their order.
pub open spec fn without(pools: Seq<u64>, pool: u64) -> Seq<u64>
    decreases pools.len(),
{
    if pools.len() == 0 {
        pools
    } else if pools.last() == pool {
        without(pools.drop_last(), pool)
    } else {
        without(pools.drop_last(), pool).push(pools.last())
    }
}

/// The state of a growable allocator as mathematics: two ordered collections
/// of pool handles, the sets-per-pool target, and the allocation under way.
pub struct AllocatorState {
    pub ratios: Seq<PoolSizeRatio>,
    pub ready: Seq<u64>,
    pub full: Seq<u64>,
    pub sets_per_pool: u32,
    pub phase: AllocationPhase,
}

impl AllocatorState {
    /// No handle occurs twice, neither within a collection nor across the
    /// two; and while a set is awaited there is a ready pool to take it from.
    pub open spec fn wf(self) -> bool {
        &&& (self.ready + self.full).no_duplicates()
        &&& self.phase is AwaitingSet ==> self.ready.len() > 0
    }

    pub open spec fn owns(self, pool: u64) -> bool {
        self.ready.contains(pool) || self.full.contains(pool)
    }

    pub open spec fn pool_count(self) -> nat {
        self.ready.len() + self.full.len()
    }

    /// The state after asking for a pool to allocate from: the last ready
    /// pool serves if there is one, else a new pool is awaited.
    pub open spec fn with_pool_requested(self, layout: u64, retry: bool) -> AllocatorState {
        if self.ready.len() > 0 {
            AllocatorState { phase: AllocationPhase::AwaitingSet { layout, retry }, ..self }
        } else {
            AllocatorState { phase: AllocationPhase::AwaitingPool { layout, retry }, ..self }
        }
    }

    /// The step that goes with `with_pool_requested`.
    pub open spec fn pool_request(self, layout: u64) -> StepModel {
        if self.ready.len() > 0 {
            StepModel::AllocateSet(
                DescriptorSetAllocateInfo {
                    descriptor_pool: self.ready.last(),
                    set_layout: layout,
                    descriptor_set_count: 1,
                },
            )
        } else {
            StepModel::CreatePool(pool_create_model(self.sets_per_pool, self.ratios))
        }
    }

    pub open spec fn after_new(ratios: Seq<PoolSizeRatio>, max_sets: u32) -> AllocatorState {
        AllocatorState {
            ratios,
            ready: Seq::empty(),
            full: Seq::empty(),
            sets_per_pool: max_sets,
            phase: AllocationPhase::Idle,
        }
    }

    /// The state with `pool` as the last ready pool. A handle that the
    /// allocator holds already is not held twice: it moves to the end of
    /// the ready ones.
    pub open spec fn with_pool(self, pool: u64) -> AllocatorState {
        AllocatorState {
            ready: without(self.ready, pool).push(pool),
            full: without(self.full, pool),
            ..self
        }
    }

    pub open spec fn after_init_pool(self, pool: u64) -> AllocatorState {
        AllocatorState { sets_per_pool: capped_target(self.sets_per_pool), ..self.with_pool(pool) }
    }

    pub open spec fn after_clear_pools(self) -> AllocatorState {
        AllocatorState { ready: self.ready + self.full, full: Seq::empty(), ..self }
    }

    pub open spec fn after_destroy_pools(self) -> AllocatorState {
        AllocatorState {
            ready: Seq::empty(),
            full: Seq::empty(),
            phase: AllocationPhase::Idle,
            ..self
        }
    }

    pub open spec fn after_allocate(self, layout: u64) -> AllocatorState {
        self.with_pool_requested(layout, false)
    }

    pub open spec fn allocate_step(self, layout: u64) -> StepModel {
        self.pool_request(layout)
    }

    pub open spec fn after_pool_created(self, pool: u64) -> AllocatorState {
        match self.phase {
            AllocationPhase::AwaitingPool { layout, retry } => AllocatorState {
                sets_per_pool: capped_target(self.sets_per_pool),
                phase: AllocationPhase::AwaitingSet { layout, retry },
                ..self.with_pool(pool)
            },
            _ => self,
        }
    }

    pub open spec fn pool_created_step(self, pool: u64) -> StepModel {
        match self.phase {
            AllocationPhase::AwaitingPool { layout, retry } => StepModel::AllocateSet(
                DescriptorSetAllocateInfo {
                    descriptor_pool: pool,
                    set_layout: layout,
                    descriptor_set_count: 1,
                },
            ),
            _ => StepModel::Fatal(0),
        }
    }

    /// Whether the answer `result` to the set awaited in this state sends the
    /// allocation into its one retry.
    pub open spec fn retries_on(self, result: Result<u64, i32>) -> bool {
        &&& self.phase matches AllocationPhase::AwaitingSet { retry, .. }
        &&& !retry
        &&& result matches Err(code)
        &&& is_pool_exhaustion(code)
    }

    /// The state with the last ready pool moved to the end of the full ones.
    pub open spec fn with_last_pool_full(self) -> AllocatorState {
        AllocatorState {
            ready: self.ready.drop_last(),
            full: self.full.push(self.ready.last()),
            ..self
        }
    }

    pub open spec fn after_result(self, result: Result<u64, i32>) -> AllocatorState {
        match self.phase {
            AllocationPhase::AwaitingSet { layout, retry } => {
                if self.retries_on(result) {
                    self.with_last_pool_full().with_pool_requested(layout, true)
                } else {
                    AllocatorState { phase: AllocationPhase::Idle, ..self }
                }
            },
            _ => self,
        }
    }

    pub open spec fn result_step(self, result: Result<u64, i32>) -> StepModel {
        match self.phase {
            AllocationPhase::AwaitingSet { layout, retry } => {
                if self.retries_on(result) {
                    self.with_last_pool_full().pool_request(layout)
                } else {
                    match result {
                        Ok(set) => StepModel::Done(set),
                        Err(code) => StepModel::Fatal(code),
                    }
                }
            },
            _ => StepModel::Fatal(0),
        }
    }
}

/// A descriptor allocator that grows: it keeps the pools that can still
/// serve (*ready*) apart from those found exhausted (*full*), creates a
/// larger pool when none is ready, and retries an allocation once when a
/// pool turns out to be exhausted.
///
/// The allocator decides; the caller talks to the device. `allocate` starts
/// an allocation and returns the first `AllocationStep`; the caller performs
/// each step and reports back through `pool_created` and `allocation_result`
/// until the step is `Done` or `Fatal`.
#[derive(Debug)]
pub struct DescriptorAllocatorGrowable {
    ratios: Vec<PoolSizeRatio>,
    full_pools: Vec<u64>,
    ready_pools: Vec<u64>,
    sets_per_pool: u32,
    phase: AllocationPhase,
}

impl View for DescriptorAllocatorGrowable {
    type V = AllocatorState;

    closed spec fn view(&self) -> AllocatorState {
        AllocatorState {
            ratios: self.ratios@,
            ready: self.ready_pools@,
            full: self.full_pools@,
            sets_per_pool: self.sets_per_pool,
            phase: self.phase,
        }
    }
}

fn contains_pool(pools: &Vec<u64>, pool: u64) -> (found: bool)
    ensures
        found == pools@.contains(pool),
{
    let mut i: usize = 0;
    while i < pools.len()
        invariant
            i <= pools.len(),
            forall|j: int| 0 <= j < i ==> pools@[j] != pool,
        decreases pools.len() - i,
    {
        if pools[i] == pool {
            return true;
        }
        i += 1;
    }
    false
}

fn take_out(pools: &mut Vec<u64>, pool: u64)
    ensures
        final(pools)@ == without(old(pools)@, pool),
{
    let mut kept: Vec<u64> = Vec::new();
    let mut i: usize = 0;
    while i < pools.len()
        invariant
            i <= pools.len(),
            pools@ == old(pools)@,
            kept@ == without(pools@.subrange(0, i as int), pool),
        decreases pools.len() - i,
    {
        let ghost seen = pools@.subrange(0, i + 1);
        assert(seen.drop_last() =~= pools@.subrange(0, i as int));
        assert(seen.last() == pools@[i as int]);
        if pools[i] != pool {
            kept.push(pools[i]);
        }
        i += 1;
    }
    assert(pools@.subrange(0, i as int) =~= pools@);
    *pools = kept;
}

impl DescriptorAllocatorGrowable {
    /// An allocator without pools whose first pool will hold `max_sets` sets.
    pub fn new(ratios: Vec<PoolSizeRatio>, max_sets: u32) -> (allocator: Self)
        ensures
            allocator@ == AllocatorState::after_new(ratios@, max_sets),
            allocator@.wf(),
    {
        let allocator = Self {
            ratios,
            full_pools: Vec::new(),
            ready_pools: Vec::new(),
            sets_per_pool: max_sets,
            phase: AllocationPhase::Idle,
        };
        assert((allocator@.ready + allocator@.full) =~= Seq::<u64>::empty());
        allocator
    }

    pub fn ready_pools(&self) -> (pools: &Vec<u64>)
        ensures
            pools@ == self@.ready,
    {
        &self.ready_pools
    }

    pub fn full_pools(&self) -> (pools: &Vec<u64>)
        ensures
            pools@ == self@.full,
    {
        &self.full_pools
    }

    pub fn sets_per_pool(&self) -> (target: u32)
        ensures
            target == self@.sets_per_pool,
    {
        self.sets_per_pool
    }

    pub fn phase(&self) -> (phase: AllocationPhase)
        ensures
            phase == self@.phase,
    {
        self.phase
    }

    /// Whether `pool` is one of this allocator's pools.
    pub fn owns(&self, pool: u64) -> (owned: bool)
        ensures
            owned == self@.owns(pool),
    {
        contains_pool(&self.ready_pools, pool) || contains_pool(&self.full_pools, pool)
    }

    /// Describes the pool that would be created now: one for the current
    /// sets-per-pool target.
    pub fn create_new_pool(&self) -> (info: DescriptorPoolCreateInfo)
        ensures
            info@ == pool_create_model(self@.sets_per_pool, self@.ratios),
    {
        pool_create_info(self.sets_per_pool, self.ratios.as_slice())
    }

    /// Takes in `pool`, which the caller created as `create_new_pool`
    /// describes: it becomes the last ready pool, and the target grows by
    /// half, up to `MAX_SETS_PER_POOL`. A handle that the allocator holds
    /// already is not held twice: it moves to the end of the ready pools.
    pub fn init_pool(&mut self, pool: u64)
        requires
            old(self)@.wf(),
            old(self)@.phase is Idle,
        ensures
            final(self)@ == old(self)@.after_init_pool(pool),
            !old(self)@.owns(pool) ==> final(self)@.ready == old(self)@.ready.push(pool)
                && final(self)@.full == old(self)@.full,
            final(self)@.wf(),
    {
        proof {
            lemma_with_pool(self@.ready, self@.full, pool);
        }
        take_out(&mut self.ready_pools, pool);
        take_out(&mut self.full_pools, pool);
        self.ready_pools.push(pool);
        self.sets_per_pool = cap_target(self.sets_per_pool);
    }

    /// Makes every pool ready again and returns them in the order in which
    /// the caller resets them: the ready ones, then the formerly full ones.
    pub fn clear_pools(&mut self) -> (to_reset: Vec<u64>)
        requires
            old(self)@.wf(),
            old(self)@.phase is Idle,
        ensures
            final(self)@ == old(self)@.after_clear_pools(),
            final(self)@.wf(),
            to_reset@ == old(self)@.ready + old(self)@.full,
    {
        self.ready_pools.append(&mut self.full_pools);
        assert(self@.ready + self@.full =~= self@.ready);
        self.ready_pools.clone()
    }

    /// Gives up every pool and returns them in the order in which the caller
    /// destroys them: the ready ones, then the full ones.
    pub fn destroy_pools(&mut self) -> (to_destroy: Vec<u64>)
        ensures
            final(self)@ == old(self)@.after_destroy_pools(),
            final(self)@.wf(),
            to_destroy@ == old(self)@.ready + old(self)@.full,
    {
        let mut to_destroy: Vec<u64> = Vec::new();
        to_destroy.append(&mut self.ready_pools);
        to_destroy.append(&mut self.full_pools);
        self.phase = AllocationPhase::Idle;
        assert(self@.ready + self@.full =~= Seq::<u64>::empty());
        to_destroy
    }

    fn get_pool(&mut self, layout: u64, retry: bool) -> (step: AllocationStep)
        requires
            (old(self)@.ready + old(self)@.full).no_duplicates(),
        ensures
            final(self)@ == old(self)@.with_pool_requested(layout, retry),
            step@ == old(self)@.pool_request(layout),
            final(self)@.wf(),
    {
        let ready: usize = self.ready_pools.len();
        if ready > 0 {
            self.phase = AllocationPhase::AwaitingSet { layout, retry };
            AllocationStep::AllocateSet(
                DescriptorSetAllocateInfo {
                    descriptor_pool: self.ready_pools[ready - 1],
                    set_layout: layout,
                    descriptor_set_count: 1,
                },
            )
        } else {
            self.phase = AllocationPhase::AwaitingPool { layout, retry };
            AllocationStep::CreatePool(self.create_new_pool())
        }
    }

    /// Starts the allocation of one descriptor set of `layout`. The last
    /// ready pool is tried if there is one; else a pool for the current
    /// target is to be created.
    pub fn allocate(&mut self, layout: u64) -> (step: AllocationStep)
        requires
            old(self)@.wf(),
            old(self)@.phase is Idle,
        ensures
            final(self)@ == old(self)@.after_allocate(layout),
            step@ == old(self)@.allocate_step(layout),
            final(self)@.wf(),
    {
        self.get_pool(layout, false)
    }

    /// Takes in the pool that the caller created on a `CreatePool` step: it
    /// becomes the last ready pool and is tried next, and the target grows
    /// by half, up to `MAX_SETS_PER_POOL`. A handle that the allocator holds
    /// already is not held twice: it moves to the end of the ready pools.
    pub fn pool_created(&mut self, pool: u64) -> (step: AllocationStep)
        requires
            old(self)@.wf(),
            old(self)@.phase is AwaitingPool,
        ensures
            final(self)@ == old(self)@.after_pool_created(pool),
            !old(self)@.owns(pool) ==> final(self)@.ready == old(self)@.ready.push(pool)
                && final(self)@.full == old(self)@.full,
            step@ == old(self)@.pool_created_step(pool),
            final(self)@.wf(),
    {
        proof {
            lemma_with_pool(self@.ready, self@.full, pool);
        }
        match self.phase {
            AllocationPhase::AwaitingPool { layout, retry } => {
                take_out(&mut self.ready_pools, pool);
                take_out(&mut self.full_pools, pool);
                self.ready_pools.push(pool);
                self.sets_per_pool = cap_target(self.sets_per_pool);
                self.phase = AllocationPhase::AwaitingSet { layout, retry };
                AllocationStep::AllocateSet(
                    DescriptorSetAllocateInfo {
                        descriptor_pool: pool,
                        set_layout: layout,
                        descriptor_set_count: 1,
                    },
                )
            },
            _ => AllocationStep::Fatal(0),
        }
    }

    /// Takes in the device's answer to an `AllocateSet` step.
    ///
    /// A set ends the allocation with `Done`. On the first attempt, a code
    /// that reports an exhausted pool moves the tried pool to the full ones
    /// and starts the one retry with another pool. Every other failure, and
    /// every failure of the retry, ends the allocation with `Fatal`.
    pub fn allocation_result(&mut self, result: Result<u64, i32>) -> (step: AllocationStep)
        requires
            old(self)@.wf(),
            old(self)@.phase is AwaitingSet,
        ensures
            final(self)@ == old(self)@.after_result(result),
            step@ == old(self)@.result_step(result),
            final(self)@.wf(),
    {
        match self.phase {
            AllocationPhase::AwaitingSet { layout, retry } => {
                match result {
                    Ok(set) => {
                        self.phase = AllocationPhase::Idle;
                        AllocationStep::Done(set)
                    },
                    Err(code) => {
                        if !retry && pool_exhausted(code) {
                            proof {
                                lemma_move_last(self@.ready, self@.full);
                            }
                            let exhausted = self.ready_pools.pop().unwrap();
                            self.full_pools.push(exhausted);
                            self.get_pool(layout, true)
                        } else {
                            self.phase = AllocationPhase::Idle;
                            AllocationStep::Fatal(code)
                        }
                    },
                }
            },
            _ => AllocationStep::Fatal(0),
        }
    }
}

/// A handle is among `pools` with `pool` at their end exactly when it is
/// among `pools` or is `pool`.
proof fn lemma_push_contains_exactly(pools: Seq<u64>, pool: u64, other: u64)
    ensures
        pools.push(pool).contains(other) <==> pools.contains(other) || other == pool,
{
    lemma_push_contains(pools, pool, other);
    if pools.push(pool).contains(other) {
        let i = choose|i: int| 0 <= i < pools.push(pool).len() && pools.push(pool)[i] == other;
        if i < pools.len() {
            assert(pools[i] == other);
        }
    }
}

/// Two collections joined hold no handle twice exactly when neither does
/// and they share none.
proof fn lemma_concat_no_duplicates(ready: Seq<u64>, full: Seq<u64>)
    ensures
        (ready + full).no_duplicates() <==> ready.no_duplicates() && full.no_duplicates()
            && forall|pool: u64| !(#[trigger] ready.contains(pool) && full.contains(pool)),
{
    let all = ready + full;
    let n = ready.len() as int;
    if all.no_duplicates() {
        assert forall|i: int, j: int|
            0 <= i < ready.len() && 0 <= j < ready.len() && i != j implies ready[i]
            != ready[j] by {
            assert(all[i] == ready[i]);
            assert(all[j] == ready[j]);
        }
        assert forall|i: int, j: int|
            0 <= i < full.len() && 0 <= j < full.len() && i != j implies full[i] != full[j] by {
            assert(all[n + i] == full[i]);
            assert(all[n + j] == full[j]);
        }
        assert forall|pool: u64| !(#[trigger] ready.contains(pool) && full.contains(pool)) by {
            if ready.contains(pool) && full.contains(pool) {
                let i = choose|i: int| 0 <= i < ready.len() && ready[i] == pool;
                let j = choose|j: int| 0 <= j < full.len() && full[j] == pool;
                assert(all[i] == pool);
                assert(all[n + j] == pool);
            }
        }
    }
    if ready.no_duplicates() && full.no_duplicates() && forall|pool: u64|
        !(#[trigger] ready.contains(pool) && full.contains(pool)) {
        assert forall|i: int, j: int| 0 <= i < all.len() && 0 <= j < all.len() && i != j implies all[i]
            != all[j] by {
            if i < n && j >= n {
                assert(ready.contains(ready[i]));
                assert(full[j - n] == all[j]);
                assert(full.contains(full[j - n]));
            } else if j < n && i >= n {
                assert(ready.contains(ready[j]));
                assert(full[i - n] == all[i]);
                assert(full.contains(full[i - n]));
            } else if i < n {
                assert(all[i] == ready[i] && all[j] == ready[j]);
            } else {
                assert(all[i] == full[i - n] && all[j] == full[j - n]);
            }
        }
    }
}

/// Taking a handle out of a collection leaves every other handle, in its
/// order; where no handle occurred twice, none does after, and at most one
/// handle is gone.
pub proof fn lemma_without(pools: Seq<u64>, pool: u64)
    ensures
        !without(pools, pool).contains(pool),
        forall|other: u64|
            other != pool ==> (#[trigger] without(pools, pool).contains(other) <==> pools.contains(
                other,
            )),
        pools.no_duplicates() ==> without(pools, pool).no_duplicates(),
        !pools.contains(pool) ==> without(pools, pool) == pools,
        without(pools, pool).len() <= pools.len(),
        pools.no_duplicates() ==> without(pools, pool).len() + 1 >= pools.len(),
    decreases pools.len(),
{
    if pools.len() > 0 {
        let rest = pools.drop_last();
        let last = pools.last();
        let kept = without(rest, pool);
        lemma_without(rest, pool);
        assert(pools =~= rest.push(last));
        assert forall|other: u64| other != pool implies (#[trigger] without(pools, pool).contains(
            other,
        ) <==> pools.contains(other)) by {
            lemma_push_contains_exactly(rest, last, other);
            lemma_push_contains_exactly(kept, last, other);
        }
        lemma_push_contains_exactly(rest, last, pool);
        lemma_push_contains_exactly(rest, last, last);
        lemma_push_contains_exactly(kept, last, pool);
        if pools.no_duplicates() {
            assert(rest.no_duplicates());
            if rest.contains(last) {
                let i = choose|i: int| 0 <= i < rest.len() && rest[i] == last;
                assert(pools[i] == pools[pools.len() - 1]);
            }
            if last != pool {
                assert(!kept.contains(last));
                lemma_push_keeps_apart(kept, last);
            }
        }
        if !pools.contains(pool) {
            assert(without(pools, pool) =~= pools);
        }
    } else {
        assert(!pools.contains(pool));
    }
}

/// A handle that is not in a collection without duplicates can join it.
proof fn lemma_push_keeps_apart(pools: Seq<u64>, pool: u64)
    requires
        pools.no_duplicates(),
        !pools.contains(pool),
    ensures
        pools.push(pool).no_duplicates(),
{
    let after = pools.push(pool);
    assert forall|i: int, j: int| 0 <= i < after.len() && 0 <= j < after.len() && i != j implies after[i]
        != after[j] by {
        if i < pools.len() {
            assert(pools.contains(pools[i]));
        }
        if j < pools.len() {
            assert(pools.contains(pools[j]));
        }
    }
}

/// Taking a pool in keeps every handle in exactly one collection, loses
/// none and never lowers their number; a handle that was not held just
/// joins the ready ones.
pub proof fn lemma_with_pool(ready: Seq<u64>, full: Seq<u64>, pool: u64)
    requires
        (ready + full).no_duplicates(),
    ensures
        (without(ready, pool).push(pool) + without(full, pool)).no_duplicates(),
        without(ready, pool).push(pool).len() + without(full, pool).len() >= ready.len()
            + full.len(),
        forall|other: u64|
            ready.contains(other) || full.contains(other) ==> #[trigger] without(
                ready,
                pool,
            ).push(pool).contains(other) || without(full, pool).contains(other),
        without(ready, pool).push(pool).contains(pool),
        !ready.contains(pool) && !full.contains(pool) ==> without(ready, pool).push(pool)
            == ready.push(pool) && without(full, pool) == full,
{
    let kept = without(ready, pool);
    let taken = kept.push(pool);
    let rest = without(full, pool);
    lemma_concat_no_duplicates(ready, full);
    lemma_without(ready, pool);
    lemma_without(full, pool);
    lemma_push_keeps_apart(kept, pool);
    assert forall|other: u64| !(#[trigger] taken.contains(other) && rest.contains(other)) by {
        lemma_push_contains_exactly(kept, pool, other);
        if other != pool && taken.contains(other) && rest.contains(other) {
            assert(kept.contains(other));
            assert(ready.contains(other));
            assert(full.contains(other));
        }
    }
    lemma_concat_no_duplicates(taken, rest);
    assert forall|other: u64| ready.contains(other) || full.contains(other) implies #[trigger] taken.contains(
        other,
    ) || rest.contains(other) by {
        lemma_push_contains_exactly(kept, pool, other);
        if other != pool {
            if ready.contains(other) {
                assert(kept.contains(other));
            } else {
                assert(rest.contains(other));
            }
        }
    }
    lemma_push_contains_exactly(kept, pool, pool);
    assert(!(ready.contains(pool) && full.contains(pool)));
}

/// The last ready handle can move to the end of the full ones.
pub proof fn lemma_move_last(ready: Seq<u64>, full: Seq<u64>)
    requires
        (ready + full).no_duplicates(),
        ready.len() > 0,
    ensures
        (ready.drop_last() + full.push(ready.last())).no_duplicates(),
{
    let before = ready + full;
    let after = ready.drop_last() + full.push(ready.last());
    let n = ready.len() as int;
    assert forall|i: int, j: int| 0 <= i < after.len() && 0 <= j < after.len() && i != j implies after[i]
        != after[j] by {
        let bi = if i < n - 1 { i } else if i == after.len() - 1 { n - 1 } else { i + 1 };
        let bj = if j < n - 1 { j } else if j == after.len() - 1 { n - 1 } else { j + 1 };
        assert(before[bi] == after[i]);
        assert(before[bj] == after[j]);
    }
}

/// One call on a growable allocator, with what the device handed in.
pub enum AllocatorEvent {
    InitPool(u64),
    ClearPools,
    DestroyPools,
    Allocate(u64),
    PoolCreated(u64),
    AllocationResult(Result<u64, i32>),
}

impl AllocatorState {
    /// Whether the call `event` may be made in this state.
    pub open spec fn accepts(self, event: AllocatorEvent) -> bool {
        match event {
            AllocatorEvent::InitPool(_) => self.phase is Idle,
            AllocatorEvent::ClearPools => self.phase is Idle,
            AllocatorEvent::DestroyPools => true,
            AllocatorEvent::Allocate(_) => self.phase is Idle,
            AllocatorEvent::PoolCreated(_) => self.phase is AwaitingPool,
            AllocatorEvent::AllocationResult(_) => self.phase is AwaitingSet,
        }
    }

    /// The state after the call `event`.
    pub open spec fn apply(self, event: AllocatorEvent) -> AllocatorState {
        match event {
            AllocatorEvent::InitPool(pool) => self.after_init_pool(pool),
            AllocatorEvent::ClearPools => self.after_clear_pools(),
            AllocatorEvent::DestroyPools => self.after_destroy_pools(),
            AllocatorEvent::Allocate(layout) => self.after_allocate(layout),
            AllocatorEvent::PoolCreated(pool) => self.after_pool_created(pool),
            AllocatorEvent::AllocationResult(result) => self.after_result(result),
        }
    }

    /// Whether the calls `events` may be made one after the other.
    pub open spec fn accepts_all(self, events: Seq<AllocatorEvent>) -> bool
        decreases events.len(),
    {
        if events.len() == 0 {
            true
        } else {
            self.accepts(events[0]) && self.apply(events[0]).accepts_all(events.drop_first())
        }
    }

    /// The state after the calls `events`.
    pub open spec fn apply_all(self, events: Seq<AllocatorEvent>) -> AllocatorState
        decreases events.len(),
    {
        if events.len() == 0 {
            self
        } else {
            self.apply(events[0]).apply_all(events.drop_first())
        }
    }

    /// How many answers to a set request the allocation under way can still
    /// take in.
    pub open spec fn attempts_left(self) -> nat {
        match self.phase {
            AllocationPhase::Idle => 0,
            AllocationPhase::AwaitingPool { retry, .. } => if retry { 1 } else { 2 },
            AllocationPhase::AwaitingSet { retry, .. } => if retry { 1 } else { 2 },
        }
    }
}

/// A pool handle of a well-formed allocator is in exactly one of the two
/// collections, and there only once.
pub proof fn lemma_pool_in_one_collection(state: AllocatorState, pool: u64)
    requires
        state.wf(),
        state.owns(pool),
    ensures
        state.ready.contains(pool) != state.full.contains(pool),
        state.ready.no_duplicates(),
        state.full.no_duplicates(),
{
    let all = state.ready + state.full;
    let n = state.ready.len() as int;
    if state.ready.contains(pool) && state.full.contains(pool) {
        let i = choose|i: int| 0 <= i < state.ready.len() && state.ready[i] == pool;
        let j = choose|j: int| 0 <= j < state.full.len() && state.full[j] == pool;
        assert(all[i] == pool);
        assert(all[n + j] == pool);
    }
    assert forall|i: int, j: int|
        0 <= i < state.ready.len() && 0 <= j < state.ready.len() && i != j implies state.ready[i]
        != state.ready[j] by {
        assert(all[i] == state.ready[i]);
        assert(all[j] == state.ready[j]);
    }
    assert forall|i: int, j: int|
        0 <= i < state.full.len() && 0 <= j < state.full.len() && i != j implies state.full[i]
        != state.full[j] by {
        assert(all[n + i] == state.full[i]);
        assert(all[n + j] == state.full[j]);
    }
}

/// Every call keeps the allocator well formed, whatever handle the device
/// hands in, and every call but `destroy_pools` keeps each pool and never
/// lowers the number of pools.
pub proof fn lemma_call_keeps_pools(state: AllocatorState, event: AllocatorEvent)
    requires
        state.wf(),
        state.accepts(event),
    ensures
        state.apply(event).wf(),
        !(event is DestroyPools) ==> state.apply(event).pool_count() >= state.pool_count(),
        !(event is DestroyPools) ==> forall|pool: u64|
            state.owns(pool) ==> #[trigger] state.apply(event).owns(pool),
        event is DestroyPools ==> state.apply(event).pool_count() == 0,
{
    let next = state.apply(event);
    match event {
        AllocatorEvent::InitPool(pool) => {
            lemma_with_pool(state.ready, state.full, pool);
        },
        AllocatorEvent::ClearPools => {
            assert(next.ready + next.full =~= state.ready + state.full);
            assert forall|p: u64| state.owns(p) implies #[trigger] next.owns(p) by {
                lemma_concat_contains(state.ready, state.full, p);
            }
        },
        AllocatorEvent::DestroyPools => {
            assert(next.ready + next.full =~= Seq::<u64>::empty());
        },
        AllocatorEvent::Allocate(_) => {},
        AllocatorEvent::PoolCreated(pool) => {
            lemma_with_pool(state.ready, state.full, pool);
        },
        AllocatorEvent::AllocationResult(result) => {
            if state.retries_on(result) {
                lemma_move_last(state.ready, state.full);
                let moved = state.with_last_pool_full();
                assert forall|p: u64| state.owns(p) implies #[trigger] next.owns(p) by {
                    lemma_move_last_contains(state.ready, state.full, p);
                }
            }
        },
    }
}

/// Over any run of calls the allocator stays well formed, so that each of
/// its pools is in exactly one of the two collections; and a run without
/// `destroy_pools` keeps each pool and never lowers the number of pools.
pub proof fn lemma_pool_invariant(state: AllocatorState, events: Seq<AllocatorEvent>)
    requires
        state.wf(),
        state.accepts_all(events),
    ensures
        state.apply_all(events).wf(),
        (forall|i: int| 0 <= i < events.len() ==> !(#[trigger] events[i] is DestroyPools))
            ==> state.apply_all(events).pool_count() >= state.pool_count(),
        (forall|i: int| 0 <= i < events.len() ==> !(#[trigger] events[i] is DestroyPools))
            ==> forall|pool: u64|
            state.owns(pool) ==> #[trigger] state.apply_all(events).owns(pool),
    decreases events.len(),
{
    if events.len() > 0 {
        let next = state.apply(events[0]);
        let rest = events.drop_first();
        lemma_call_keeps_pools(state, events[0]);
        lemma_pool_invariant(next, rest);
        if forall|i: int| 0 <= i < events.len() ==> !(#[trigger] events[i] is DestroyPools) {
            assert forall|i: int| 0 <= i < rest.len() implies !(#[trigger] rest[i]
                is DestroyPools) by {
                assert(rest[i] == events[i + 1]);
            }
            assert forall|pool: u64| state.owns(pool) implies #[trigger] state.apply_all(
                events,
            ).owns(pool) by {
                assert(next.owns(pool));
            }
        }
    }
}

proof fn lemma_push_contains(pools: Seq<u64>, pool: u64, other: u64)
    ensures
        pools.contains(other) ==> pools.push(pool).contains(other),
        pools.push(pool).contains(pool),
{
    if pools.contains(other) {
        let i = choose|i: int| 0 <= i < pools.len() && pools[i] == other;
        assert(pools.push(pool)[i] == other);
    }
    assert(pools.push(pool)[pools.len() as int] == pool);
}

proof fn lemma_concat_contains(ready: Seq<u64>, full: Seq<u64>, pool: u64)
    ensures
        (ready + full).contains(pool) <==> ready.contains(pool) || full.contains(pool),
{
    let all = ready + full;
    if ready.contains(pool) {
        let i = choose|i: int| 0 <= i < ready.len() && ready[i] == pool;
        assert(all[i] == pool);
    }
    if full.contains(pool) {
        let i = choose|i: int| 0 <= i < full.len() && full[i] == pool;
        assert(all[ready.len() + i] == pool);
    }
    if all.contains(pool) {
        let i = choose|i: int| 0 <= i < all.len() && all[i] == pool;
        if i < ready.len() {
            assert(ready[i] == pool);
        } else {
            assert(full[i - ready.len()] == pool);
        }
    }
}

proof fn lemma_move_last_contains(ready: Seq<u64>, full: Seq<u64>, pool: u64)
    requires
        ready.len() > 0,
        ready.contains(pool) || full.contains(pool),
    ensures
        ready.drop_last().contains(pool) || full.push(ready.last()).contains(pool),
{
    lemma_push_contains(full, ready.last(), pool);
    if ready.contains(pool) {
        let i = choose|i: int| 0 <= i < ready.len() && ready[i] == pool;
        if i < ready.len() - 1 {
            assert(ready.drop_last()[i] == pool);
        }
    }
}

/// One growth step multiplies the target by exactly one and a half and
/// rounds down, as far as `u32` and the cap allow, and never lowers a
/// target that is within the cap.
pub proof fn lemma_growth_step(target: u32)
    ensures
        grown_target(target) >= target,
        target as int * 3 / 2 <= u32::MAX ==> grown_target(target) == target as int * 3 / 2,
        capped_target(target) <= MAX_SETS_PER_POOL,
        target as int * 3 / 2 <= MAX_SETS_PER_POOL ==> capped_target(target) == target as int * 3
            / 2,
        target <= MAX_SETS_PER_POOL ==> capped_target(target) >= target,
{
}

/// Over any run of calls, a target that starts within the cap never falls
/// and never leaves the cap.
pub proof fn lemma_target_monotone(state: AllocatorState, events: Seq<AllocatorEvent>)
    requires
        state.sets_per_pool <= MAX_SETS_PER_POOL,
    ensures
        state.sets_per_pool <= state.apply_all(events).sets_per_pool <= MAX_SETS_PER_POOL,
    decreases events.len(),
{
    if events.len() > 0 {
        lemma_growth_step(state.sets_per_pool);
        lemma_target_monotone(state.apply(events[0]), events.drop_first());
    }
}

/// No call adds to the answers that the allocation under way can take in,
/// and every answer to a set request uses one up: an allocation asks the
/// device for a set at most twice. The answer that uses the last one up
/// ends the allocation, with the set or for good.
pub proof fn lemma_retry_bound(state: AllocatorState, event: AllocatorEvent)
    requires
        state.wf(),
        state.accepts(event),
    ensures
        state.attempts_left() <= 2,
        event is Allocate ==> state.apply(event).attempts_left() == 2,
        event is PoolCreated ==> state.apply(event).attempts_left() == state.attempts_left(),
        event is AllocationResult ==> state.apply(event).attempts_left() < state.attempts_left(),
        event matches AllocatorEvent::AllocationResult(result) ==> (state.apply(
            event,
        ).attempts_left() == 0 <==> !state.retries_on(result)),
        event matches AllocatorEvent::AllocationResult(result) ==> (state.result_step(result)
            is Done || state.result_step(result) is Fatal <==> !state.retries_on(result)),
{
}

/// An allocation that the device answers with an exhausted pool every time
/// asks for a set exactly twice and then fails for good: the first answer
/// starts the retry, on whichever pool comes next, and the second ends the
/// allocation with `Fatal`.
pub proof fn lemma_exhausted_twice_is_fatal(
    state: AllocatorState,
    layout: u64,
    first_pool: u64,
    second_pool: u64,
    first_code: i32,
    second_code: i32,
)
    requires
        state.wf(),
        state.phase is Idle,
        is_pool_exhaustion(first_code),
        is_pool_exhaustion(second_code),
    ensures
        ({
            let begun = state.after_allocate(layout);
            let first = if begun.phase is AwaitingPool {
                begun.after_pool_created(first_pool)
            } else {
                begun
            };
            let failed = first.after_result(Err(first_code));
            let second = if failed.phase is AwaitingPool {
                failed.after_pool_created(second_pool)
            } else {
                failed
            };
            &&& first.phase == (AllocationPhase::AwaitingSet { layout, retry: false })
            &&& !(first.result_step(Err(first_code)) is Fatal)
            &&& second.phase == (AllocationPhase::AwaitingSet { layout, retry: true })
            &&& second.result_step(Err(second_code)) == StepModel::Fatal(second_code)
            &&& second.after_result(Err(second_code)).phase is Idle
        }),
{
}

} // verus!
