use frame_sharing::allocator::{BufferResources, SemaphorePair, TeardownAction};
use frame_sharing::config::VulkanSharingConfig;
use frame_sharing::format::PixelFormat;
use frame_sharing::ring::SharedVulkanResources;

fn config(double: bool) -> VulkanSharingConfig {
    VulkanSharingConfig {
        width: 1920,
        height: 1080,
        format: PixelFormat::Bgra8Srgb,
        ipc_socket_path: None,
        enable_double_buffering: double,
    }
}

fn buffer(n: u64) -> BufferResources {
    BufferResources {
        image: n,
        memory: n + 100,
        memory_fd: (n + 200) as i32,
    }
}

fn pair(n: u64) -> SemaphorePair {
    SemaphorePair {
        render_finished: n,
        consumer_ready: n + 1000,
    }
}

fn populated(double: bool) -> SharedVulkanResources {
    let cfg = config(double);
    let count = cfg.buffer_count();
    let mut r = SharedVulkanResources::new(cfg);
    let mut buffers = Vec::new();
    let mut pairs = Vec::new();
    for i in 0..count {
        buffers.push(buffer(i as u64 + 1));
        pairs.push(pair(i as u64 + 1));
    }
    r.install_buffers(buffers, pairs);
    r
}

#[test]
fn single_buffering_has_one_buffer() {
    let r = populated(false);
    assert_eq!(r.texture_handles.len(), 1);
    assert_eq!(r.vulkan_images.len(), 1);
    assert_eq!(r.current_buffer_index, 0);
}

#[test]
fn single_buffering_swap_never_moves_index() {
    let mut r = populated(false);
    for _ in 0..5 {
        r.swap_buffers();
        assert_eq!(r.current_buffer_index, 0);
    }
}

#[test]
fn double_buffering_alternates_zero_one() {
    let mut r = populated(true);
    assert_eq!(r.texture_handles.len(), 2);
    assert_eq!(r.current_buffer_index, 0);
    // After n swaps from slot 0 the ring stands at slot n % 2.
    for n in 1..=6usize {
        r.swap_buffers();
        assert_eq!(r.current_buffer_index, n % 2);
    }
}

#[test]
fn scenario_full_hd_double_buffered_ring() {
    // config {1920, 1080, BGRA8-sRGB, double_buffering = true}
    let mut r = populated(true);
    assert_eq!(r.config.width, 1920);
    assert_eq!(r.config.height, 1080);
    assert_eq!(r.config.format, PixelFormat::Bgra8Srgb);
    assert_eq!(r.texture_handles.len(), 2);
    assert_eq!(r.current_buffer_index, 0);
    r.swap_buffers();
    assert_eq!(r.current_buffer_index, 1);
    r.swap_buffers();
    assert_eq!(r.current_buffer_index, 0);
}

#[test]
fn current_texture_handle_follows_index() {
    let mut r = populated(true);
    assert_eq!(r.get_current_texture_handle(), Some(0));
    r.swap_buffers();
    assert_eq!(r.get_current_texture_handle(), Some(1));
}

#[test]
fn current_texture_handle_empty_ring() {
    let r = SharedVulkanResources::new(config(true));
    assert_eq!(r.get_current_texture_handle(), None);
}

#[test]
fn install_buffers_lays_out_tables_by_slot() {
    let r = populated(true);
    assert_eq!(r.texture_handles, vec![0, 1]);
    assert_eq!(r.vulkan_images, vec![1, 2]);
    assert_eq!(r.vulkan_memory, vec![101, 102]);
    assert_eq!(r.memory_fds, vec![201, 202]);
    assert_eq!(r.render_finished_semaphores, vec![1, 2]);
    assert_eq!(r.consumer_ready_semaphores, vec![1001, 1002]);
}

#[test]
fn teardown_plan_releases_semaphores_then_memory_then_images() {
    let r = populated(true);
    let plan = r.teardown_plan();
    assert_eq!(
        plan,
        vec![
            TeardownAction::DestroySemaphore(1),
            TeardownAction::DestroySemaphore(2),
            TeardownAction::DestroySemaphore(1001),
            TeardownAction::DestroySemaphore(1002),
            TeardownAction::FreeMemory(101),
            TeardownAction::FreeMemory(102),
            TeardownAction::DestroyImage(1),
            TeardownAction::DestroyImage(2),
        ]
    );
}
