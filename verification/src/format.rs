//! The enumerated pixel formats a shared frame may use, and their wire codes.
//!
//! The wire code of each format is the raw Vulkan `VkFormat` value, so a
//! consumer can hand the code straight back to its own GPU driver.

use vstd::prelude::*;

use crate::ExternalSurfaceError;

verus! {

/// Wire code of `VK_FORMAT_B8G8R8A8_SRGB`.
pub const FORMAT_CODE_BGRA8_SRGB: u32 = 50;

/// Wire code of `VK_FORMAT_B8G8R8A8_UNORM`.
pub const FORMAT_CODE_BGRA8_UNORM: u32 = 44;

/// Wire code of `VK_FORMAT_R8G8B8A8_SRGB`.
pub const FORMAT_CODE_RGBA8_SRGB: u32 = 43;

/// Wire code of `VK_FORMAT_R8G8B8A8_UNORM`.
pub const FORMAT_CODE_RGBA8_UNORM: u32 = 37;

/// The pixel formats supported for shared frames.
#[derive(Clone, Copy, Debug, PartialEq, Eq, Structural)]
pub enum PixelFormat {
    Bgra8Srgb,
    Bgra8Unorm,
    Rgba8Srgb,
    Rgba8Unorm,
}

impl PixelFormat {
    /// The wire code of this format.
    pub open spec fn spec_code(self) -> u32 {
        match self {
            PixelFormat::Bgra8Srgb => FORMAT_CODE_BGRA8_SRGB,
            PixelFormat::Bgra8Unorm => FORMAT_CODE_BGRA8_UNORM,
            PixelFormat::Rgba8Srgb => FORMAT_CODE_RGBA8_SRGB,
            PixelFormat::Rgba8Unorm => FORMAT_CODE_RGBA8_UNORM,
        }
    }

    /// The format a wire code denotes, if any.
    pub open spec fn spec_from_code(code: u32) -> Option<PixelFormat> {
        if code == FORMAT_CODE_BGRA8_SRGB {
            Some(PixelFormat::Bgra8Srgb)
        } else if code == FORMAT_CODE_BGRA8_UNORM {
            Some(PixelFormat::Bgra8Unorm)
        } else if code == FORMAT_CODE_RGBA8_SRGB {
            Some(PixelFormat::Rgba8Srgb)
        } else if code == FORMAT_CODE_RGBA8_UNORM {
            Some(PixelFormat::Rgba8Unorm)
        } else {
            None
        }
    }

    /// The wire code of this format.
    pub fn code(&self) -> (c: u32)
        ensures
            c == self.spec_code(),
    {
        match self {
            PixelFormat::Bgra8Srgb => FORMAT_CODE_BGRA8_SRGB,
            PixelFormat::Bgra8Unorm => FORMAT_CODE_BGRA8_UNORM,
            PixelFormat::Rgba8Srgb => FORMAT_CODE_RGBA8_SRGB,
            PixelFormat::Rgba8Unorm => FORMAT_CODE_RGBA8_UNORM,
        }
    }

    /// Decodes a wire code, rejecting any code outside the supported set.
    pub fn from_code(code: u32) -> (r: Result<PixelFormat, ExternalSurfaceError>)
        ensures
            match r {
                Ok(f) => Self::spec_from_code(code) == Some(f),
                Err(e) => Self::spec_from_code(code) is None && e
                    == ExternalSurfaceError::InvalidFormat,
            },
    {
        if code == FORMAT_CODE_BGRA8_SRGB {
            Ok(PixelFormat::Bgra8Srgb)
        } else if code == FORMAT_CODE_BGRA8_UNORM {
            Ok(PixelFormat::Bgra8Unorm)
        } else if code == FORMAT_CODE_RGBA8_SRGB {
            Ok(PixelFormat::Rgba8Srgb)
        } else if code == FORMAT_CODE_RGBA8_UNORM {
            Ok(PixelFormat::Rgba8Unorm)
        } else {
            Err(ExternalSurfaceError::InvalidFormat)
        }
    }

    /// A format's code always decodes back to the same format.
    pub proof fn lemma_code_round_trip(self)
        ensures
            Self::spec_from_code(self.spec_code()) == Some(self),
    {
    }
}

} // verus!
