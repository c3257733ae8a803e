use frame_sharing::codec::{encode_frame, encode_metadata, FrameMessage, MetadataMessage};
use frame_sharing::ipc::{
    build_metadata, on_frame_rendered, FrameStep, IPCHandler, IpcSessionState, MetadataStep,
};
use frame_sharing::allocator::{BufferResources, SemaphorePair};
use frame_sharing::config::VulkanSharingConfig;
use frame_sharing::format::{PixelFormat, FORMAT_CODE_BGRA8_SRGB};
use frame_sharing::ring::SharedVulkanResources;
use frame_sharing::ExternalSurfaceError;

fn metadata() -> MetadataMessage {
    MetadataMessage {
        width: 640,
        height: 480,
        format: FORMAT_CODE_BGRA8_SRGB,
        memory_fds: vec![41, 42],
    }
}

fn frame() -> FrameMessage {
    FrameMessage {
        buffer_index: 0,
        render_finished_fd: None,
        consumer_ready_fd: None,
    }
}

#[test]
fn no_client_metadata_attempt_succeeds_as_noop() {
    let mut s = IPCHandler::new_session();
    let r = s.attempt_metadata(None, &metadata());
    assert!(matches!(r, Ok(MetadataStep::NoClient)));
    assert_eq!(s.state, IpcSessionState::Listening);
    assert_eq!(s.client_fd, None);
}

#[test]
fn no_client_frame_notification_succeeds_as_noop() {
    let mut s = IPCHandler::new_session();
    let r = s.notify_frame_ready(&frame());
    assert!(matches!(r, Ok(FrameStep::NoClient)));
    assert_eq!(s.state, IpcSessionState::Listening);
}

#[test]
fn first_accept_transmits_metadata_once() {
    let mut s = IPCHandler::new_session();
    let m = metadata();
    let r = s.attempt_metadata(Some(7), &m);
    match r {
        Ok(MetadataStep::Transmit(pkt)) => {
            assert_eq!(pkt.client_fd, 7);
            assert_eq!(pkt.payload, encode_metadata(&m));
            assert_eq!(pkt.fds, m.memory_fds);
        }
        other => panic!("expected a metadata packet, got {:?}", other.is_ok()),
    }
    assert_eq!(s.state, IpcSessionState::Connected);
    assert_eq!(s.client_fd, Some(7));
}

#[test]
fn scenario_late_client_gets_exactly_one_metadata_message() {
    // Two attempts with no client waiting, then a client connects: the first
    // successful accept triggers exactly one metadata send, not a backlog.
    let mut s = IPCHandler::new_session();
    let m = metadata();
    assert!(matches!(s.attempt_metadata(None, &m), Ok(MetadataStep::NoClient)));
    assert!(matches!(s.attempt_metadata(None, &m), Ok(MetadataStep::NoClient)));
    let mut transmissions = 0;
    if let Ok(MetadataStep::Transmit(_)) = s.attempt_metadata(Some(3), &m) {
        transmissions += 1;
    }
    // Later attempts add nothing.
    if let Ok(MetadataStep::Transmit(_)) = s.attempt_metadata(None, &m) {
        transmissions += 1;
    }
    if let Ok(MetadataStep::Transmit(_)) = s.attempt_metadata(Some(9), &m) {
        transmissions += 1;
    }
    assert_eq!(transmissions, 1);
    assert_eq!(s.client_fd, Some(3));
}

#[test]
fn connected_session_transmits_frames() {
    let mut s = IPCHandler::new_session();
    let m = metadata();
    s.attempt_metadata(Some(7), &m).unwrap();
    let f = FrameMessage {
        buffer_index: 1,
        render_finished_fd: Some(51),
        consumer_ready_fd: Some(52),
    };
    match s.notify_frame_ready(&f) {
        Ok(FrameStep::Transmit(pkt)) => {
            assert_eq!(pkt.client_fd, 7);
            assert_eq!(pkt.payload, encode_frame(&f));
            assert_eq!(pkt.fds, vec![51, 52]);
        }
        _ => panic!("expected a frame packet"),
    }
}

#[test]
fn send_failure_breaks_session_and_repeats_error() {
    let mut s = IPCHandler::new_session();
    s.attempt_metadata(Some(7), &metadata()).unwrap();
    s.record_send_result(false);
    assert_eq!(s.state, IpcSessionState::Broken);
    match s.notify_frame_ready(&frame()) {
        Err(e) => assert_eq!(e, ExternalSurfaceError::SurfaceCreationFailed),
        Ok(_) => panic!("a broken session must repeat its error"),
    }
    match s.attempt_metadata(None, &metadata()) {
        Err(e) => assert_eq!(e, ExternalSurfaceError::SurfaceCreationFailed),
        Ok(_) => panic!("a broken session must repeat its error"),
    }
}

#[test]
fn successful_send_keeps_session_connected() {
    let mut s = IPCHandler::new_session();
    s.attempt_metadata(Some(7), &metadata()).unwrap();
    s.record_send_result(true);
    assert_eq!(s.state, IpcSessionState::Connected);
    assert_eq!(s.client_fd, Some(7));
}

fn populated_resources() -> SharedVulkanResources {
    let cfg = VulkanSharingConfig {
        width: 640,
        height: 480,
        format: PixelFormat::Bgra8Srgb,
        ipc_socket_path: None,
        enable_double_buffering: true,
    };
    let mut r = SharedVulkanResources::new(cfg);
    r.install_buffers(
        vec![
            BufferResources { image: 1, memory: 11, memory_fd: 41 },
            BufferResources { image: 2, memory: 12, memory_fd: 42 },
        ],
        vec![
            SemaphorePair { render_finished: 21, consumer_ready: 31 },
            SemaphorePair { render_finished: 22, consumer_ready: 32 },
        ],
    );
    r
}

#[test]
fn build_metadata_mirrors_configuration_and_handles() {
    let r = populated_resources();
    let m = build_metadata(&r);
    assert_eq!(m.width, 640);
    assert_eq!(m.height, 480);
    assert_eq!(m.format, FORMAT_CODE_BGRA8_SRGB);
    assert_eq!(m.memory_fds, vec![41, 42]);
}

#[test]
fn frame_hook_announces_current_buffer_then_advances_ring() {
    let mut r = populated_resources();
    let mut s = IPCHandler::new_session();
    s.attempt_metadata(Some(7), &build_metadata(&r)).unwrap();
    let step = on_frame_rendered(&mut r, &mut s, Some(61), None).unwrap();
    match step {
        FrameStep::Transmit(pkt) => {
            let announced = FrameMessage {
                buffer_index: 0,
                render_finished_fd: Some(61),
                consumer_ready_fd: None,
            };
            assert_eq!(pkt.payload, encode_frame(&announced));
            assert_eq!(pkt.fds, vec![61]);
        }
        FrameStep::NoClient => panic!("a client is connected"),
    }
    assert_eq!(r.current_buffer_index, 1);
}

#[test]
fn frame_hook_without_client_still_advances_ring() {
    let mut r = populated_resources();
    let mut s = IPCHandler::new_session();
    let step = on_frame_rendered(&mut r, &mut s, None, None).unwrap();
    assert!(matches!(step, FrameStep::NoClient));
    assert_eq!(r.current_buffer_index, 1);
}
