//! The capability probe: decides, from what the shell reports about the
//! active GPU backend, whether frame sharing can work at all. Runs once at
//! setup, before any allocation.

use vstd::prelude::*;

use crate::ExternalSurfaceError;

verus! {

/// Whether the backend can export GPU memory and semaphores as OS handles:
/// it must be a Vulkan-class backend exposing both the external-memory-by-fd
/// and the external-semaphore-by-fd capability. A non-Vulkan backend fails
/// with `UnsupportedBackend`; a Vulkan backend missing either capability
/// fails with `ExtensionNotAvailable`. No side effect beyond the answer.
pub fn probe_capabilities(
    backend_is_vulkan: bool,
    has_external_memory_fd: bool,
    has_external_semaphore_fd: bool,
) -> (r: Result<(), ExternalSurfaceError>)
    ensures
        match r {
            Ok(()) => backend_is_vulkan && has_external_memory_fd && has_external_semaphore_fd,
            Err(e) => {
                &&& !(backend_is_vulkan && has_external_memory_fd && has_external_semaphore_fd)
                &&& e == if !backend_is_vulkan {
                    ExternalSurfaceError::UnsupportedBackend
                } else {
                    ExternalSurfaceError::ExtensionNotAvailable
                }
            },
        },
{
    if !backend_is_vulkan {
        Err(ExternalSurfaceError::UnsupportedBackend)
    } else if !has_external_memory_fd || !has_external_semaphore_fd {
        Err(ExternalSurfaceError::ExtensionNotAvailable)
    } else {
        Ok(())
    }
}

} // verus!
