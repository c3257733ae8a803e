//! Zero-copy sharing of GPU-rendered frames between a producer process and a
//! single consumer process.
//!
//! The producer renders into one or two exportable GPU images whose backing
//! memory and synchronization semaphores are exported as OS handles; the
//! consumer imports those handles and reads the same memory. This crate holds
//! the verified core of that subsystem: the buffer ring and its swap policy,
//! memory-type selection against the device's capability bitmasks, the binary
//! wire format of the interprocess messages, the interprocess session state
//! machine, and the bookkeeping that guarantees resources are released in
//! reverse creation order on every exit path. The GPU driver calls and the
//! socket I/O themselves are performed by a thin unverified shell around this
//! library.

use vstd::prelude::*;

pub mod allocator;
pub mod codec;
pub mod config;
pub mod format;
pub mod ipc;
pub mod memory;
pub mod probe;
pub mod ring;

pub use config::VulkanSharingConfig;
pub use ring::SharedVulkanResources;

verus! {

/// Failure kinds of the sharing subsystem.
///
/// Setup failures abort only the sharing subsystem; the host application is
/// expected to keep running without frame sharing.
#[derive(Clone, Copy, Debug, PartialEq, Eq, Structural)]
pub enum ExternalSurfaceError {
    /// Creating a surface, image, socket or semaphore failed.
    SurfaceCreationFailed,
    /// A required external-memory or external-semaphore extension is missing.
    ExtensionNotAvailable,
    /// No exportable memory type exists, or exporting an OS handle failed.
    MemoryExportFailed,
    /// The active GPU backend cannot export handles at all.
    UnsupportedBackend,
    /// A pixel format code outside the supported set.
    InvalidFormat,
}

/// An exported OS-level reference to GPU memory or a synchronization
/// primitive, which a second process can import to operate on the same
/// underlying kernel object. On this platform handles are opaque file
/// descriptors.
#[derive(Clone, Copy, Debug, PartialEq, Eq, Structural)]
pub enum ExternalMemoryHandle {
    /// An opaque file descriptor, as exported by the driver.
    OpaqueFd(i32),
}

} // verus!
