//! The buffer ring: the allocated buffers, their exported handles, and the
//! index of the buffer currently being rendered into.
//!
//! The ring holds one buffer when double buffering is off and two when it is
//! on. A swap advances the index modulo the ring length in double mode and
//! leaves it untouched in single mode, so the producer can render into one
//! buffer while the consumer still reads the other.

use vstd::prelude::*;

use crate::allocator::{BufferResources, SemaphorePair, TeardownAction};
use crate::config::VulkanSharingConfig;

verus! {

/// All state of the sharing subsystem that the producer thread owns: the
/// configuration, the per-buffer GPU handles and exported OS handles, the
/// per-buffer semaphore pairs, and the ring index.
///
/// GPU and OS handles are carried as the plain integer values the driver
/// reported; the driver calls that created them live outside this library.
pub struct SharedVulkanResources {
    /// The configuration the subsystem was set up with.
    pub config: VulkanSharingConfig,
    /// One texture-view handle per buffer, by ring slot.
    pub texture_handles: Vec<u32>,
    /// One image handle per buffer, by ring slot.
    pub vulkan_images: Vec<u64>,
    /// One device-memory handle per buffer, by ring slot.
    pub vulkan_memory: Vec<u64>,
    /// One exported memory OS handle per buffer, by ring slot.
    pub memory_fds: Vec<i32>,
    /// One render-finished semaphore handle per buffer, by ring slot.
    pub render_finished_semaphores: Vec<u64>,
    /// One consumer-ready semaphore handle per buffer, by ring slot.
    pub consumer_ready_semaphores: Vec<u64>,
    /// The ring slot currently being rendered into.
    pub current_buffer_index: usize,
}

impl SharedVulkanResources {
    /// The buffers have been allocated and installed: the ring has exactly as
    /// many slots as the configuration asks for.
    pub open spec fn is_populated(self) -> bool {
        self.texture_handles@.len() == self.config.spec_buffer_count()
    }

    /// Well-formedness: the per-buffer tables are equally long, and they are
    /// either all empty (before setup) or hold one entry per configured
    /// buffer; the ring index always stays inside the ring once it exists.
    pub open spec fn wf(self) -> bool {
        &&& self.vulkan_images@.len() == self.texture_handles@.len()
        &&& self.vulkan_memory@.len() == self.texture_handles@.len()
        &&& self.memory_fds@.len() == self.texture_handles@.len()
        &&& self.render_finished_semaphores@.len() == self.texture_handles@.len()
        &&& self.consumer_ready_semaphores@.len() == self.texture_handles@.len()
        &&& self.texture_handles@.len() == 0 || self.is_populated()
        &&& if self.is_populated() {
            self.current_buffer_index < self.texture_handles@.len()
        } else {
            self.current_buffer_index == 0
        }
    }

    /// A fresh, not yet populated resource set for the given configuration.
    pub fn new(config: VulkanSharingConfig) -> (r: Self)
        ensures
            r.wf(),
            !r.is_populated(),
            r.config == config,
            r.current_buffer_index == 0,
    {
        SharedVulkanResources {
            config,
            texture_handles: Vec::new(),
            vulkan_images: Vec::new(),
            vulkan_memory: Vec::new(),
            memory_fds: Vec::new(),
            render_finished_semaphores: Vec::new(),
            consumer_ready_semaphores: Vec::new(),
            current_buffer_index: 0,
        }
    }

    /// Installs the allocated buffers and semaphore pairs into the ring, one
    /// entry per configured buffer, and assigns each slot the texture-view
    /// handle equal to its slot number. The ring starts at slot 0.
    pub fn install_buffers(
        &mut self,
        buffers: Vec<BufferResources>,
        semaphores: Vec<SemaphorePair>,
    )
        requires
            old(self).wf(),
            !old(self).is_populated(),
            buffers@.len() == old(self).config.spec_buffer_count(),
            semaphores@.len() == old(self).config.spec_buffer_count(),
        ensures
            final(self).wf(),
            final(self).is_populated(),
            final(self).config == old(self).config,
            final(self).current_buffer_index == 0,
            final(self).texture_handles@ == Seq::new(
                buffers@.len(),
                |i: int| i as u32,
            ),
            final(self).vulkan_images@ == buffers@.map_values(|b: BufferResources| b.image),
            final(self).vulkan_memory@ == buffers@.map_values(|b: BufferResources| b.memory),
            final(self).memory_fds@ == buffers@.map_values(|b: BufferResources| b.memory_fd),
            final(self).render_finished_semaphores@ == semaphores@.map_values(
                |p: SemaphorePair| p.render_finished,
            ),
            final(self).consumer_ready_semaphores@ == semaphores@.map_values(
                |p: SemaphorePair| p.consumer_ready,
            ),
    {
        let count = buffers.len();
        let mut i: usize = 0;
        while i < count
            invariant
                i <= count,
                count == buffers@.len(),
                count == semaphores@.len(),
                self.config == old(self).config,
                self.current_buffer_index == 0,
                self.texture_handles@ == Seq::new(i as nat, |j: int| j as u32),
                self.vulkan_images@ == buffers@.take(i as int).map_values(
                    |b: BufferResources| b.image,
                ),
                self.vulkan_memory@ == buffers@.take(i as int).map_values(
                    |b: BufferResources| b.memory,
                ),
                self.memory_fds@ == buffers@.take(i as int).map_values(
                    |b: BufferResources| b.memory_fd,
                ),
                self.render_finished_semaphores@ == semaphores@.take(i as int).map_values(
                    |p: SemaphorePair| p.render_finished,
                ),
                self.consumer_ready_semaphores@ == semaphores@.take(i as int).map_values(
                    |p: SemaphorePair| p.consumer_ready,
                ),
            decreases count - i,
        {
            proof {
                assert(buffers@.take(i + 1).drop_last() == buffers@.take(i as int));
                assert(semaphores@.take(i + 1).drop_last() == semaphores@.take(i as int));
                assert(buffers@.take(i + 1).last() == buffers@[i as int]);
                assert(semaphores@.take(i + 1).last() == semaphores@[i as int]);
            }
            self.texture_handles.push(i as u32);
            self.vulkan_images.push(buffers[i].image);
            self.vulkan_memory.push(buffers[i].memory);
            self.memory_fds.push(buffers[i].memory_fd);
            self.render_finished_semaphores.push(semaphores[i].render_finished);
            self.consumer_ready_semaphores.push(semaphores[i].consumer_ready);
            proof {
                assert(self.texture_handles@ =~= Seq::new((i + 1) as nat, |j: int| j as u32));
                assert(self.vulkan_images@ =~= buffers@.take(i + 1).map_values(
                    |b: BufferResources| b.image,
                ));
                assert(self.vulkan_memory@ =~= buffers@.take(i + 1).map_values(
                    |b: BufferResources| b.memory,
                ));
                assert(self.memory_fds@ =~= buffers@.take(i + 1).map_values(
                    |b: BufferResources| b.memory_fd,
                ));
                assert(self.render_finished_semaphores@ =~= semaphores@.take(i + 1).map_values(
                    |p: SemaphorePair| p.render_finished,
                ));
                assert(self.consumer_ready_semaphores@ =~= semaphores@.take(i + 1).map_values(
                    |p: SemaphorePair| p.consumer_ready,
                ));
            }
            i = i + 1;
        }
        proof {
            assert(buffers@.take(count as int) == buffers@);
            assert(semaphores@.take(count as int) == semaphores@);
        }
    }

    /// The texture-view handle of the buffer currently being rendered into,
    /// or nothing while the ring is still empty. Read-only.
    pub fn get_current_texture_handle(&self) -> (r: Option<u32>)
        ensures
            r == if self.current_buffer_index < self.texture_handles@.len() {
                Some(self.texture_handles@[self.current_buffer_index as int])
            } else {
                Option::<u32>::None
            },
    {
        if self.current_buffer_index < self.texture_handles.len() {
            Some(self.texture_handles[self.current_buffer_index])
        } else {
            None
        }
    }

    /// The ring index one swap after `index`: the next slot modulo the ring
    /// length in double mode, the same slot in single mode.
    pub open spec fn spec_swapped_index(self) -> nat {
        if self.config.enable_double_buffering && self.texture_handles@.len() > 1 {
            ((self.current_buffer_index + 1) as nat) % self.texture_handles@.len()
        } else {
            self.current_buffer_index as nat
        }
    }

    /// Advances the ring to the buffer the producer should render into next.
    /// With double buffering the index moves to the other slot; with single
    /// buffering the index never changes. Everything else is untouched.
    pub fn swap_buffers(&mut self)
        requires
            old(self).wf(),
        ensures
            final(self).wf(),
            final(self).current_buffer_index == old(self).spec_swapped_index(),
            final(self).config == old(self).config,
            final(self).texture_handles == old(self).texture_handles,
            final(self).vulkan_images == old(self).vulkan_images,
            final(self).vulkan_memory == old(self).vulkan_memory,
            final(self).memory_fds == old(self).memory_fds,
            final(self).render_finished_semaphores == old(self).render_finished_semaphores,
            final(self).consumer_ready_semaphores == old(self).consumer_ready_semaphores,
            !old(self).config.enable_double_buffering ==> final(self).current_buffer_index == old(
                self,
            ).current_buffer_index,
            final(self).current_buffer_index == Self::spec_index_after_swaps(
                old(self).config.enable_double_buffering,
                old(self).texture_handles@.len(),
                old(self).current_buffer_index as nat,
                1,
            ),
    {
        proof {
            assert(Self::spec_index_after_swaps(
                self.config.enable_double_buffering,
                self.texture_handles@.len(),
                self.current_buffer_index as nat,
                0,
            ) == self.current_buffer_index as nat);
        }
        if self.config.enable_double_buffering && self.texture_handles.len() > 1 {
            self.current_buffer_index = (self.current_buffer_index + 1) % self.texture_handles.len();
        }
    }

    /// The ring index after `n` swaps of a populated ring that starts at
    /// `start`.
    pub open spec fn spec_index_after_swaps(double: bool, len: nat, start: nat, n: nat) -> nat
        decreases n,
    {
        if n == 0 {
            start
        } else {
            let prev = Self::spec_index_after_swaps(double, len, start, (n - 1) as nat);
            if double && len > 1 {
                ((prev + 1) as nat) % len
            } else {
                prev
            }
        }
    }

    /// With double buffering off the ring has exactly one buffer, and no
    /// number of swaps ever moves the index.
    pub proof fn lemma_single_buffer_index_constant(self, n: nat)
        requires
            self.wf(),
            self.is_populated(),
            !self.config.enable_double_buffering,
        ensures
            self.texture_handles@.len() == 1,
            Self::spec_index_after_swaps(
                false,
                self.texture_handles@.len(),
                self.current_buffer_index as nat,
                n,
            ) == self.current_buffer_index,
        decreases n,
    {
        if n > 0 {
            self.lemma_single_buffer_index_constant((n - 1) as nat);
        }
    }

    /// Everything a shutdown must release, in order: all semaphores first
    /// (render-finished, then consumer-ready), then every memory allocation,
    /// then every image — semaphores before memory before image, the reverse
    /// of the order the categories were created in.
    pub open spec fn spec_teardown_plan(self) -> Seq<TeardownAction> {
        self.render_finished_semaphores@.map_values(
            |h: u64| TeardownAction::DestroySemaphore(h),
        ) + self.consumer_ready_semaphores@.map_values(
            |h: u64| TeardownAction::DestroySemaphore(h),
        ) + self.vulkan_memory@.map_values(|h: u64| TeardownAction::FreeMemory(h))
            + self.vulkan_images@.map_values(|h: u64| TeardownAction::DestroyImage(h))
    }

    /// The release plan for shutting the subsystem down, for the shell to
    /// execute step by step on its single teardown path.
    pub fn teardown_plan(&self) -> (plan: Vec<TeardownAction>)
        ensures
            plan@ == self.spec_teardown_plan(),
    {
        let mut plan: Vec<TeardownAction> = Vec::new();
        let mut i: usize = 0;
        let n_rf = self.render_finished_semaphores.len();
        while i < n_rf
            invariant
                i <= n_rf,
                n_rf == self.render_finished_semaphores@.len(),
                plan@ == self.render_finished_semaphores@.take(i as int).map_values(
                    |h: u64| TeardownAction::DestroySemaphore(h),
                ),
            decreases n_rf - i,
        {
            plan.push(TeardownAction::DestroySemaphore(self.render_finished_semaphores[i]));
            proof {
                let s = self.render_finished_semaphores@;
                assert(s.take(i + 1).drop_last() == s.take(i as int));
                assert(s.take(i + 1).last() == s[i as int]);
                assert(plan@ =~= s.take(i + 1).map_values(
                    |h: u64| TeardownAction::DestroySemaphore(h),
                ));
            }
            i = i + 1;
        }
        let ghost front1 = plan@;
        proof {
            assert(self.render_finished_semaphores@.take(n_rf as int)
                =~= self.render_finished_semaphores@);
        }
        let mut i: usize = 0;
        let n_cr = self.consumer_ready_semaphores.len();
        while i < n_cr
            invariant
                i <= n_cr,
                n_cr == self.consumer_ready_semaphores@.len(),
                plan@ == front1 + self.consumer_ready_semaphores@.take(i as int).map_values(
                    |h: u64| TeardownAction::DestroySemaphore(h),
                ),
            decreases n_cr - i,
        {
            plan.push(TeardownAction::DestroySemaphore(self.consumer_ready_semaphores[i]));
            proof {
                let s = self.consumer_ready_semaphores@;
                assert(s.take(i + 1).drop_last() == s.take(i as int));
                assert(s.take(i + 1).last() == s[i as int]);
                assert(plan@ =~= front1 + s.take(i + 1).map_values(
                    |h: u64| TeardownAction::DestroySemaphore(h),
                ));
            }
            i = i + 1;
        }
        let ghost front2 = plan@;
        proof {
            assert(self.consumer_ready_semaphores@.take(n_cr as int)
                =~= self.consumer_ready_semaphores@);
        }
        let mut i: usize = 0;
        let n_mem = self.vulkan_memory.len();
        while i < n_mem
            invariant
                i <= n_mem,
                n_mem == self.vulkan_memory@.len(),
                plan@ == front2 + self.vulkan_memory@.take(i as int).map_values(
                    |h: u64| TeardownAction::FreeMemory(h),
                ),
            decreases n_mem - i,
        {
            plan.push(TeardownAction::FreeMemory(self.vulkan_memory[i]));
            proof {
                let s = self.vulkan_memory@;
                assert(s.take(i + 1).drop_last() == s.take(i as int));
                assert(s.take(i + 1).last() == s[i as int]);
                assert(plan@ =~= front2 + s.take(i + 1).map_values(
                    |h: u64| TeardownAction::FreeMemory(h),
                ));
            }
            i = i + 1;
        }
        let ghost front3 = plan@;
        proof {
            assert(self.vulkan_memory@.take(n_mem as int) =~= self.vulkan_memory@);
        }
        let mut i: usize = 0;
        let n_img = self.vulkan_images.len();
        while i < n_img
            invariant
                i <= n_img,
                n_img == self.vulkan_images@.len(),
                plan@ == front3 + self.vulkan_images@.take(i as int).map_values(
                    |h: u64| TeardownAction::DestroyImage(h),
                ),
            decreases n_img - i,
        {
            plan.push(TeardownAction::DestroyImage(self.vulkan_images[i]));
            proof {
                let s = self.vulkan_images@;
                assert(s.take(i + 1).drop_last() == s.take(i as int));
                assert(s.take(i + 1).last() == s[i as int]);
                assert(plan@ =~= front3 + s.take(i + 1).map_values(
                    |h: u64| TeardownAction::DestroyImage(h),
                ));
            }
            i = i + 1;
        }
        proof {
            assert(self.vulkan_images@.take(n_img as int) =~= self.vulkan_images@);
            assert(plan@ =~= self.spec_teardown_plan());
        }
        plan
    }

    /// With double buffering on the ring has exactly two buffers, and
    /// repeated swaps starting from slot 0 visit the slots 0, 1, 0, 1, ...:
    /// after `n` swaps the index is `n % 2`.
    pub proof fn lemma_double_buffer_alternates(n: nat)
        ensures
            Self::spec_index_after_swaps(true, 2, 0, n) == n % 2,
        decreases n,
    {
        if n > 0 {
            Self::lemma_double_buffer_alternates((n - 1) as nat);
        }
    }
}

} // verus!
