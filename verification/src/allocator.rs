//! Allocation of the exportable buffers, one step at a time, and the teardown
//! bookkeeping that guarantees nothing leaks on any exit path.
//!
//! Creating one buffer is a fixed sequence of driver calls: create the image,
//! query its memory requirements, select a memory type, allocate exportable
//! memory, bind it, export the allocation's OS handle; after all buffers, one
//! export-capable semaphore pair per buffer. The driver calls are made by the
//! unverified shell; this machine records each outcome, decides the next
//! step, maps each failure to its error kind, and on any failure produces a
//! cleanup plan that releases everything created so far — newest first, and
//! always semaphores before memory before image — so a partial setup never
//! leaks.

use vstd::prelude::*;

use crate::ExternalSurfaceError;
use crate::memory::{MEMORY_PROPERTY_DEVICE_LOCAL, MAX_MEMORY_TYPES, find_memory_type,
    memory_type_qualifies};

verus! {

/// The handles of one fully allocated buffer: the image, its bound
/// device-memory allocation, and the exported OS handle of that allocation.
#[derive(Clone, Copy, Debug, PartialEq, Eq, Structural)]
pub struct BufferResources {
    /// GPU image handle.
    pub image: u64,
    /// Device-memory allocation handle bound to the image.
    pub memory: u64,
    /// Exported OS handle of the allocation.
    pub memory_fd: i32,
}

/// The two export-capable semaphores of one buffer: one signaled by the
/// producer when rendering finishes, one signaled by the consumer when it is
/// done reading.
#[derive(Clone, Copy, Debug, PartialEq, Eq, Structural)]
pub struct SemaphorePair {
    /// Signaled by the producer when rendering into the buffer finishes.
    pub render_finished: u64,
    /// Signaled by the consumer when it is done reading the buffer.
    pub consumer_ready: u64,
}

/// One release step of a teardown or cleanup plan, for the shell to execute
/// in the order given.
#[derive(Clone, Copy, Debug, PartialEq, Eq, Structural)]
pub enum TeardownAction {
    /// Destroy this semaphore handle.
    DestroySemaphore(u64),
    /// Free this device-memory allocation.
    FreeMemory(u64),
    /// Destroy this image handle.
    DestroyImage(u64),
}

/// Which driver call the batch allocator expects an outcome for next.
#[derive(Clone, Copy, Debug, PartialEq, Eq, Structural)]
pub enum AllocPhase {
    /// Waiting for the next buffer's image to be created.
    CreateImage,
    /// Image created; waiting for its memory requirements.
    QueryRequirements,
    /// Memory type selected; waiting for the exportable allocation.
    AllocateMemory,
    /// Memory allocated; waiting for it to be bound to the image.
    BindMemory,
    /// Memory bound; waiting for the allocation's exported OS handle.
    ExportHandle,
    /// All buffers complete; waiting for the next semaphore pair.
    CreateSemaphores,
    /// Everything allocated; the results can be taken.
    Complete,
    /// A step failed; only the cleanup plan remains.
    Failed,
}

/// Releasing one semaphore pair, newest handle first: the consumer-ready
/// semaphore was created after the render-finished one.
pub open spec fn spec_pair_teardown(p: SemaphorePair) -> Seq<TeardownAction> {
    seq![
        TeardownAction::DestroySemaphore(p.consumer_ready),
        TeardownAction::DestroySemaphore(p.render_finished),
    ]
}

/// Releasing semaphore pairs in reverse creation order: every pair after the
/// first is released before it.
pub open spec fn spec_pairs_teardown(pairs: Seq<SemaphorePair>) -> Seq<TeardownAction>
    decreases pairs.len(),
{
    if pairs.len() == 0 {
        Seq::empty()
    } else {
        spec_pairs_teardown(pairs.drop_first()) + spec_pair_teardown(pairs.first())
    }
}

/// Releasing one completed buffer: its memory before its image, the reverse
/// of their creation order.
pub open spec fn spec_buffer_teardown(b: BufferResources) -> Seq<TeardownAction> {
    seq![TeardownAction::FreeMemory(b.memory), TeardownAction::DestroyImage(b.image)]
}

/// Releasing completed buffers in reverse creation order: every buffer after
/// the first is released before it.
pub open spec fn spec_buffers_teardown(buffers: Seq<BufferResources>) -> Seq<TeardownAction>
    decreases buffers.len(),
{
    if buffers.len() == 0 {
        Seq::empty()
    } else {
        spec_buffers_teardown(buffers.drop_first()) + spec_buffer_teardown(buffers.first())
    }
}

/// The batch allocator: what has been created so far, and which driver-call
/// outcome it expects next.
pub struct BatchAllocator {
    /// How many buffers the batch is to produce.
    pub target_count: usize,
    /// The buffers completed so far, in creation order.
    pub completed: Vec<BufferResources>,
    /// The image of the buffer under construction, once created.
    pub pending_image: Option<u64>,
    /// The memory of the buffer under construction, once allocated.
    pub pending_memory: Option<u64>,
    /// The semaphore pairs created so far, in creation order.
    pub semaphore_pairs: Vec<SemaphorePair>,
    /// Which driver-call outcome is expected next.
    pub phase: AllocPhase,
    /// The error the batch failed with, exactly while failed.
    pub failure: Option<ExternalSurfaceError>,
}

impl BatchAllocator {
    /// Well-formedness: what is pending and what is counted matches the
    /// phase, buffers never exceed the target, and semaphores only exist once
    /// every buffer does.
    pub open spec fn wf(self) -> bool {
        &&& self.target_count >= 1
        &&& self.completed@.len() <= self.target_count
        &&& self.semaphore_pairs@.len() <= self.target_count
        &&& match self.phase {
            AllocPhase::CreateImage => {
                &&& self.completed@.len() < self.target_count
                &&& self.pending_image is None
                &&& self.pending_memory is None
                &&& self.semaphore_pairs@.len() == 0
                &&& self.failure is None
            },
            AllocPhase::QueryRequirements | AllocPhase::AllocateMemory => {
                &&& self.completed@.len() < self.target_count
                &&& self.pending_image is Some
                &&& self.pending_memory is None
                &&& self.semaphore_pairs@.len() == 0
                &&& self.failure is None
            },
            AllocPhase::BindMemory | AllocPhase::ExportHandle => {
                &&& self.completed@.len() < self.target_count
                &&& self.pending_image is Some
                &&& self.pending_memory is Some
                &&& self.semaphore_pairs@.len() == 0
                &&& self.failure is None
            },
            AllocPhase::CreateSemaphores => {
                &&& self.completed@.len() == self.target_count
                &&& self.semaphore_pairs@.len() < self.target_count
                &&& self.pending_image is None
                &&& self.pending_memory is None
                &&& self.failure is None
            },
            AllocPhase::Complete => {
                &&& self.completed@.len() == self.target_count
                &&& self.semaphore_pairs@.len() == self.target_count
                &&& self.pending_image is None
                &&& self.pending_memory is None
                &&& self.failure is None
            },
            AllocPhase::Failed => self.failure is Some,
        }
    }

    /// A fresh batch for `target_count` buffers, expecting the first image.
    pub fn new(target_count: usize) -> (r: Self)
        requires
            target_count >= 1,
        ensures
            r.wf(),
            r.phase == AllocPhase::CreateImage,
            r.target_count == target_count,
            r.completed@.len() == 0,
            r.semaphore_pairs@.len() == 0,
    {
        BatchAllocator {
            target_count,
            completed: Vec::new(),
            pending_image: None,
            pending_memory: None,
            semaphore_pairs: Vec::new(),
            phase: AllocPhase::CreateImage,
            failure: None,
        }
    }

    /// Records the outcome of creating the next buffer's image. A failed
    /// creation fails the batch with `SurfaceCreationFailed`.
    pub fn on_image_created(&mut self, result: Option<u64>) -> (r: Result<
        (),
        ExternalSurfaceError,
    >)
        requires
            old(self).wf(),
            old(self).phase == AllocPhase::CreateImage,
        ensures
            final(self).wf(),
            final(self).target_count == old(self).target_count,
            final(self).completed == old(self).completed,
            final(self).semaphore_pairs == old(self).semaphore_pairs,
            match result {
                Some(image) => {
                    &&& r is Ok
                    &&& final(self).phase == AllocPhase::QueryRequirements
                    &&& final(self).pending_image == Some(image)
                    &&& final(self).pending_memory is None
                },
                None => {
                    &&& r == Err::<(), _>(ExternalSurfaceError::SurfaceCreationFailed)
                    &&& final(self).phase == AllocPhase::Failed
                    &&& final(self).failure == Some(ExternalSurfaceError::SurfaceCreationFailed)
                    &&& final(self).pending_image == old(self).pending_image
                    &&& final(self).pending_memory == old(self).pending_memory
                },
            },
    {
        match result {
            Some(image) => {
                self.pending_image = Some(image);
                self.phase = AllocPhase::QueryRequirements;
                Ok(())
            },
            None => {
                self.phase = AllocPhase::Failed;
                self.failure = Some(ExternalSurfaceError::SurfaceCreationFailed);
                Err(ExternalSurfaceError::SurfaceCreationFailed)
            },
        }
    }

    /// Selects the memory type for the image just created, from its reported
    /// requirement bitmask and the device's memory-type property table: the
    /// smallest index the bitmask admits whose properties include
    /// device-local. Fails the batch with `MemoryExportFailed` when no index
    /// qualifies.
    pub fn on_memory_requirements(&mut self, memory_type_flags: &Vec<u32>, type_filter: u32) -> (r:
        Result<u32, ExternalSurfaceError>)
        requires
            old(self).wf(),
            old(self).phase == AllocPhase::QueryRequirements,
            memory_type_flags@.len() <= MAX_MEMORY_TYPES,
        ensures
            final(self).wf(),
            final(self).target_count == old(self).target_count,
            final(self).completed == old(self).completed,
            final(self).semaphore_pairs == old(self).semaphore_pairs,
            final(self).pending_image == old(self).pending_image,
            final(self).pending_memory == old(self).pending_memory,
            match r {
                Ok(i) => {
                    &&& memory_type_qualifies(
                        memory_type_flags@,
                        type_filter,
                        MEMORY_PROPERTY_DEVICE_LOCAL,
                        i as int,
                    )
                    &&& forall|j: int|
                        0 <= j < i ==> !memory_type_qualifies(
                            memory_type_flags@,
                            type_filter,
                            MEMORY_PROPERTY_DEVICE_LOCAL,
                            j,
                        )
                    &&& final(self).phase == AllocPhase::AllocateMemory
                },
                Err(e) => {
                    &&& e == ExternalSurfaceError::MemoryExportFailed
                    &&& forall|j: int|
                        !memory_type_qualifies(
                            memory_type_flags@,
                            type_filter,
                            MEMORY_PROPERTY_DEVICE_LOCAL,
                            j,
                        )
                    &&& final(self).phase == AllocPhase::Failed
                    &&& final(self).failure == Some(ExternalSurfaceError::MemoryExportFailed)
                },
            },
    {
        match find_memory_type(memory_type_flags, type_filter, MEMORY_PROPERTY_DEVICE_LOCAL) {
            Ok(i) => {
                self.phase = AllocPhase::AllocateMemory;
                Ok(i)
            },
            Err(e) => {
                self.phase = AllocPhase::Failed;
                self.failure = Some(e);
                Err(e)
            },
        }
    }

    /// Records the outcome of allocating exportable memory of the selected
    /// type. A failed allocation fails the batch with `MemoryExportFailed`.
    pub fn on_memory_allocated(&mut self, result: Option<u64>) -> (r: Result<
        (),
        ExternalSurfaceError,
    >)
        requires
            old(self).wf(),
            old(self).phase == AllocPhase::AllocateMemory,
        ensures
            final(self).wf(),
            final(self).target_count == old(self).target_count,
            final(self).completed == old(self).completed,
            final(self).semaphore_pairs == old(self).semaphore_pairs,
            final(self).pending_image == old(self).pending_image,
            match result {
                Some(memory) => {
                    &&& r is Ok
                    &&& final(self).phase == AllocPhase::BindMemory
                    &&& final(self).pending_memory == Some(memory)
                },
                None => {
                    &&& r == Err::<(), _>(ExternalSurfaceError::MemoryExportFailed)
                    &&& final(self).phase == AllocPhase::Failed
                    &&& final(self).failure == Some(ExternalSurfaceError::MemoryExportFailed)
                    &&& final(self).pending_memory == old(self).pending_memory
                },
            },
    {
        match result {
            Some(memory) => {
                self.pending_memory = Some(memory);
                self.phase = AllocPhase::BindMemory;
                Ok(())
            },
            None => {
                self.phase = AllocPhase::Failed;
                self.failure = Some(ExternalSurfaceError::MemoryExportFailed);
                Err(ExternalSurfaceError::MemoryExportFailed)
            },
        }
    }

    /// Records the outcome of binding the allocation to the image. A failed
    /// bind fails the batch with `SurfaceCreationFailed`.
    pub fn on_memory_bound(&mut self, success: bool) -> (r: Result<(), ExternalSurfaceError>)
        requires
            old(self).wf(),
            old(self).phase == AllocPhase::BindMemory,
        ensures
            final(self).wf(),
            final(self).target_count == old(self).target_count,
            final(self).completed == old(self).completed,
            final(self).semaphore_pairs == old(self).semaphore_pairs,
            final(self).pending_image == old(self).pending_image,
            final(self).pending_memory == old(self).pending_memory,
            success ==> r is Ok && final(self).phase == AllocPhase::ExportHandle,
            !success ==> {
                &&& r == Err::<(), _>(ExternalSurfaceError::SurfaceCreationFailed)
                &&& final(self).phase == AllocPhase::Failed
                &&& final(self).failure == Some(ExternalSurfaceError::SurfaceCreationFailed)
            },
    {
        if success {
            self.phase = AllocPhase::ExportHandle;
            Ok(())
        } else {
            self.phase = AllocPhase::Failed;
            self.failure = Some(ExternalSurfaceError::SurfaceCreationFailed);
            Err(ExternalSurfaceError::SurfaceCreationFailed)
        }
    }

    /// Records the outcome of exporting the allocation's OS handle. On
    /// success the buffer under construction is complete and the batch moves
    /// on to the next buffer, or to the semaphores once every buffer is done.
    /// A refused export fails the batch with `MemoryExportFailed`.
    pub fn on_handle_exported(&mut self, result: Option<i32>) -> (r: Result<
        (),
        ExternalSurfaceError,
    >)
        requires
            old(self).wf(),
            old(self).phase == AllocPhase::ExportHandle,
        ensures
            final(self).wf(),
            final(self).target_count == old(self).target_count,
            final(self).semaphore_pairs == old(self).semaphore_pairs,
            match result {
                Some(fd) => {
                    &&& r is Ok
                    &&& final(self).completed@ == old(self).completed@.push(
                        BufferResources {
                            image: old(self).pending_image.unwrap(),
                            memory: old(self).pending_memory.unwrap(),
                            memory_fd: fd,
                        },
                    )
                    &&& final(self).pending_image is None
                    &&& final(self).pending_memory is None
                    &&& final(self).phase == if final(self).completed@.len() == old(
                        self,
                    ).target_count {
                        AllocPhase::CreateSemaphores
                    } else {
                        AllocPhase::CreateImage
                    }
                },
                None => {
                    &&& r == Err::<(), _>(ExternalSurfaceError::MemoryExportFailed)
                    &&& final(self).phase == AllocPhase::Failed
                    &&& final(self).failure == Some(ExternalSurfaceError::MemoryExportFailed)
                    &&& final(self).completed == old(self).completed
                    &&& final(self).pending_image == old(self).pending_image
                    &&& final(self).pending_memory == old(self).pending_memory
                },
            },
    {
        match result {
            Some(fd) => {
                let image = self.pending_image.unwrap();
                let memory = self.pending_memory.unwrap();
                self.completed.push(BufferResources { image, memory, memory_fd: fd });
                self.pending_image = None;
                self.pending_memory = None;
                if self.completed.len() == self.target_count {
                    self.phase = AllocPhase::CreateSemaphores;
                } else {
                    self.phase = AllocPhase::CreateImage;
                }
                Ok(())
            },
            None => {
                self.phase = AllocPhase::Failed;
                self.failure = Some(ExternalSurfaceError::MemoryExportFailed);
                Err(ExternalSurfaceError::MemoryExportFailed)
            },
        }
    }

    /// Records the outcome of creating the next buffer's semaphore pair. A
    /// failed creation fails the batch with `SurfaceCreationFailed`, exactly
    /// as a failed image creation does.
    pub fn on_semaphores_created(&mut self, result: Option<SemaphorePair>) -> (r: Result<
        (),
        ExternalSurfaceError,
    >)
        requires
            old(self).wf(),
            old(self).phase == AllocPhase::CreateSemaphores,
        ensures
            final(self).wf(),
            final(self).target_count == old(self).target_count,
            final(self).completed == old(self).completed,
            final(self).pending_image == old(self).pending_image,
            final(self).pending_memory == old(self).pending_memory,
            match result {
                Some(pair) => {
                    &&& r is Ok
                    &&& final(self).semaphore_pairs@ == old(self).semaphore_pairs@.push(pair)
                    &&& final(self).phase == if final(self).semaphore_pairs@.len() == old(
                        self,
                    ).target_count {
                        AllocPhase::Complete
                    } else {
                        AllocPhase::CreateSemaphores
                    }
                },
                None => {
                    &&& r == Err::<(), _>(ExternalSurfaceError::SurfaceCreationFailed)
                    &&& final(self).phase == AllocPhase::Failed
                    &&& final(self).failure == Some(ExternalSurfaceError::SurfaceCreationFailed)
                    &&& final(self).semaphore_pairs == old(self).semaphore_pairs
                },
            },
    {
        match result {
            Some(pair) => {
                self.semaphore_pairs.push(pair);
                if self.semaphore_pairs.len() == self.target_count {
                    self.phase = AllocPhase::Complete;
                } else {
                    self.phase = AllocPhase::CreateSemaphores;
                }
                Ok(())
            },
            None => {
                self.phase = AllocPhase::Failed;
                self.failure = Some(ExternalSurfaceError::SurfaceCreationFailed);
                Err(ExternalSurfaceError::SurfaceCreationFailed)
            },
        }
    }

    /// Takes the results of a complete batch: one buffer and one semaphore
    /// pair per requested buffer, in creation order.
    pub fn finish(self) -> (r: (Vec<BufferResources>, Vec<SemaphorePair>))
        requires
            self.wf(),
            self.phase == AllocPhase::Complete,
        ensures
            r.0@ == self.completed@,
            r.1@ == self.semaphore_pairs@,
            r.0@.len() == self.target_count,
            r.1@.len() == self.target_count,
    {
        (self.completed, self.semaphore_pairs)
    }

    /// Everything a cleanup of this batch must release, in order: the
    /// semaphore pairs newest first, then the memory and image still under
    /// construction, then the completed buffers newest first — each buffer's
    /// memory before its image. This is the exact reverse of creation order.
    pub open spec fn spec_cleanup_plan(self) -> Seq<TeardownAction> {
        spec_pairs_teardown(self.semaphore_pairs@) + (match self.pending_memory {
            Some(m) => seq![TeardownAction::FreeMemory(m)],
            None => Seq::empty(),
        }) + (match self.pending_image {
            Some(i) => seq![TeardownAction::DestroyImage(i)],
            None => Seq::empty(),
        }) + spec_buffers_teardown(self.completed@)
    }

    /// The cleanup plan for whatever this batch has created so far, for the
    /// shell to execute step by step. Releasing in this order unwinds a
    /// partial batch without leaking anything, whichever step failed.
    pub fn cleanup_plan(&self) -> (plan: Vec<TeardownAction>)
        ensures
            plan@ == self.spec_cleanup_plan(),
    {
        let mut plan: Vec<TeardownAction> = Vec::new();
        let pair_count = self.semaphore_pairs.len();
        let mut i: usize = pair_count;
        while i > 0
            invariant
                i <= pair_count,
                pair_count == self.semaphore_pairs@.len(),
                plan@ == spec_pairs_teardown(self.semaphore_pairs@.skip(i as int)),
            decreases i,
        {
            let pair = self.semaphore_pairs[i - 1];
            plan.push(TeardownAction::DestroySemaphore(pair.consumer_ready));
            plan.push(TeardownAction::DestroySemaphore(pair.render_finished));
            proof {
                let s = self.semaphore_pairs@;
                assert(s.skip(i - 1).drop_first() =~= s.skip(i as int));
                assert(s.skip(i - 1).first() == s[i - 1]);
                assert(plan@ =~= spec_pairs_teardown(s.skip(i - 1)));
            }
            i = i - 1;
        }
        proof {
            assert(self.semaphore_pairs@.skip(0) =~= self.semaphore_pairs@);
        }
        if let Some(m) = self.pending_memory {
            plan.push(TeardownAction::FreeMemory(m));
        }
        if let Some(img) = self.pending_image {
            plan.push(TeardownAction::DestroyImage(img));
        }
        let ghost front = plan@;
        let buffer_count = self.completed.len();
        let mut j: usize = buffer_count;
        while j > 0
            invariant
                j <= buffer_count,
                buffer_count == self.completed@.len(),
                plan@ == front + spec_buffers_teardown(self.completed@.skip(j as int)),
            decreases j,
        {
            let b = self.completed[j - 1];
            plan.push(TeardownAction::FreeMemory(b.memory));
            plan.push(TeardownAction::DestroyImage(b.image));
            proof {
                let s = self.completed@;
                assert(s.skip(j - 1).drop_first() =~= s.skip(j as int));
                assert(s.skip(j - 1).first() == s[j - 1]);
                assert(plan@ =~= front + spec_buffers_teardown(s.skip(j - 1)));
            }
            j = j - 1;
        }
        proof {
            assert(self.completed@.skip(0) =~= self.completed@);
            assert(plan@ =~= self.spec_cleanup_plan());
        }
        plan
    }
}

} // verus!
