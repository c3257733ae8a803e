use frame_sharing::config::VulkanSharingConfig;
use frame_sharing::format::{
    PixelFormat, FORMAT_CODE_BGRA8_SRGB, FORMAT_CODE_BGRA8_UNORM, FORMAT_CODE_RGBA8_SRGB,
    FORMAT_CODE_RGBA8_UNORM,
};
use frame_sharing::ExternalSurfaceError;

#[test]
fn format_codes_are_the_vulkan_format_values() {
    assert_eq!(PixelFormat::Bgra8Srgb.code(), 50);
    assert_eq!(PixelFormat::Bgra8Unorm.code(), 44);
    assert_eq!(PixelFormat::Rgba8Srgb.code(), 43);
    assert_eq!(PixelFormat::Rgba8Unorm.code(), 37);
}

#[test]
fn format_code_round_trips() {
    for f in [
        PixelFormat::Bgra8Srgb,
        PixelFormat::Bgra8Unorm,
        PixelFormat::Rgba8Srgb,
        PixelFormat::Rgba8Unorm,
    ] {
        assert_eq!(PixelFormat::from_code(f.code()), Ok(f));
    }
}

#[test]
fn unknown_code_is_invalid_format() {
    assert_eq!(
        PixelFormat::from_code(0),
        Err(ExternalSurfaceError::InvalidFormat)
    );
    assert_eq!(
        PixelFormat::from_code(51),
        Err(ExternalSurfaceError::InvalidFormat)
    );
}

#[test]
fn named_code_constants_match_methods() {
    assert_eq!(FORMAT_CODE_BGRA8_SRGB, PixelFormat::Bgra8Srgb.code());
    assert_eq!(FORMAT_CODE_BGRA8_UNORM, PixelFormat::Bgra8Unorm.code());
    assert_eq!(FORMAT_CODE_RGBA8_SRGB, PixelFormat::Rgba8Srgb.code());
    assert_eq!(FORMAT_CODE_RGBA8_UNORM, PixelFormat::Rgba8Unorm.code());
}

#[test]
fn default_configuration() {
    let c = VulkanSharingConfig::default();
    assert_eq!(c.width, 1920);
    assert_eq!(c.height, 1080);
    assert_eq!(c.format, PixelFormat::Bgra8Srgb);
    assert!(c.ipc_socket_path.is_some());
    assert!(c.enable_double_buffering);
    assert_eq!(c.buffer_count(), 2);
}

#[test]
fn buffer_count_follows_buffering_mode() {
    let mut c = VulkanSharingConfig::default();
    c.enable_double_buffering = false;
    assert_eq!(c.buffer_count(), 1);
}
