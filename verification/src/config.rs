//! Configuration of the sharing subsystem, fixed once at setup.

use vstd::prelude::*;

use crate::format::PixelFormat;

verus! {

/// The configuration surface the core consumes. Immutable once the subsystem
/// is configured.
#[derive(Clone, Debug)]
pub struct VulkanSharingConfig {
    /// Width of each shared image, in pixels.
    pub width: u32,
    /// Height of each shared image, in pixels.
    pub height: u32,
    /// Pixel format of each shared image.
    pub format: PixelFormat,
    /// Filesystem address of the local listening socket, if interprocess
    /// sharing is wanted at all.
    pub ipc_socket_path: Option<String>,
    /// With double buffering the ring holds two buffers and the producer
    /// alternates between them; with single buffering it holds one.
    pub enable_double_buffering: bool,
}

impl VulkanSharingConfig {
    /// How many buffers the ring holds under this configuration: two when
    /// double buffering is enabled, one otherwise.
    pub open spec fn spec_buffer_count(self) -> nat {
        if self.enable_double_buffering {
            2
        } else {
            1
        }
    }

    /// How many buffers the ring holds under this configuration.
    pub fn buffer_count(&self) -> (n: usize)
        ensures
            n == self.spec_buffer_count(),
            1 <= n <= 2,
    {
        if self.enable_double_buffering {
            2
        } else {
            1
        }
    }
}

impl Default for VulkanSharingConfig {
    /// 1920 x 1080 BGRA8-sRGB frames, double buffered, shared over a socket
    /// at a fixed path under /tmp.
    fn default() -> (c: Self)
        ensures
            c.width == 1920,
            c.height == 1080,
            c.format == PixelFormat::Bgra8Srgb,
            c.ipc_socket_path is Some,
            c.enable_double_buffering,
    {
        VulkanSharingConfig {
            width: 1920,
            height: 1080,
            format: PixelFormat::Bgra8Srgb,
            ipc_socket_path: Some("/tmp/bevy_vulkan_sharing.sock".to_owned()),
            enable_double_buffering: true,
        }
    }
}

} // verus!
