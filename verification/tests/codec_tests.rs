use frame_sharing::codec::{
    decode_frame, decode_metadata, encode_frame, encode_metadata, frame_ancillary_fds,
    FrameMessage, MetadataMessage,
};
use frame_sharing::format::FORMAT_CODE_BGRA8_SRGB;

fn metadata() -> MetadataMessage {
    MetadataMessage {
        width: 1920,
        height: 1080,
        format: FORMAT_CODE_BGRA8_SRGB,
        memory_fds: vec![5, 6],
    }
}

#[test]
fn metadata_payload_exact_bytes() {
    let payload = encode_metadata(&metadata());
    assert_eq!(
        payload,
        vec![
            0x80, 0x07, 0x00, 0x00, // width 1920
            0x38, 0x04, 0x00, 0x00, // height 1080
            0x32, 0x00, 0x00, 0x00, // format code 50
            0x02, 0x00, 0x00, 0x00, // handle count 2
        ]
    );
}

#[test]
fn metadata_round_trip_preserves_fields_and_handle_count() {
    let m = metadata();
    let payload = encode_metadata(&m);
    let fds = m.memory_fds.clone();
    let decoded = decode_metadata(&payload, &fds).expect("well-formed payload must decode");
    assert_eq!(decoded.width, m.width);
    assert_eq!(decoded.height, m.height);
    assert_eq!(decoded.format, m.format);
    assert_eq!(decoded.memory_fds, m.memory_fds);
    assert_eq!(decoded.memory_fds.len(), 2);
}

#[test]
fn metadata_decode_rejects_wrong_length() {
    let mut payload = encode_metadata(&metadata());
    payload.push(0);
    assert!(decode_metadata(&payload, &vec![5, 6]).is_none());
}

#[test]
fn metadata_decode_rejects_handle_count_mismatch() {
    let payload = encode_metadata(&metadata());
    assert!(decode_metadata(&payload, &vec![5]).is_none());
}

#[test]
fn metadata_decode_rejects_unknown_format_code() {
    let mut m = metadata();
    m.format = 7;
    let payload = encode_metadata(&m);
    assert!(decode_metadata(&payload, &vec![5, 6]).is_none());
}

#[test]
fn frame_payload_exact_bytes() {
    let f = FrameMessage {
        buffer_index: 1,
        render_finished_fd: Some(9),
        consumer_ready_fd: None,
    };
    let payload = encode_frame(&f);
    assert_eq!(
        payload,
        vec![0x01, 0, 0, 0, 0, 0, 0, 0, 1, 0] // index 1, flags: render-finished only
    );
    assert_eq!(frame_ancillary_fds(&f), vec![9]);
}

#[test]
fn frame_round_trip_both_handles() {
    let f = FrameMessage {
        buffer_index: 1,
        render_finished_fd: Some(11),
        consumer_ready_fd: Some(12),
    };
    let payload = encode_frame(&f);
    let fds = frame_ancillary_fds(&f);
    assert_eq!(fds, vec![11, 12]);
    assert_eq!(decode_frame(&payload, &fds), Some(f));
}

#[test]
fn frame_round_trip_no_handles() {
    let f = FrameMessage {
        buffer_index: 0,
        render_finished_fd: None,
        consumer_ready_fd: None,
    };
    let payload = encode_frame(&f);
    let fds = frame_ancillary_fds(&f);
    assert!(fds.is_empty());
    assert_eq!(decode_frame(&payload, &fds), Some(f));
}

#[test]
fn frame_round_trip_consumer_handle_only() {
    let f = FrameMessage {
        buffer_index: 7,
        render_finished_fd: None,
        consumer_ready_fd: Some(33),
    };
    let payload = encode_frame(&f);
    let fds = frame_ancillary_fds(&f);
    assert_eq!(fds, vec![33]);
    assert_eq!(decode_frame(&payload, &fds), Some(f));
}

#[test]
fn frame_decode_rejects_bad_flag() {
    let mut payload = encode_frame(&FrameMessage {
        buffer_index: 0,
        render_finished_fd: None,
        consumer_ready_fd: None,
    });
    payload[8] = 2;
    assert_eq!(decode_frame(&payload, &Vec::new()), None);
}

#[test]
fn frame_decode_rejects_handle_count_mismatch() {
    let payload = encode_frame(&FrameMessage {
        buffer_index: 0,
        render_finished_fd: Some(4),
        consumer_ready_fd: None,
    });
    assert_eq!(decode_frame(&payload, &Vec::new()), None);
    assert_eq!(decode_frame(&payload, &vec![4, 5]), None);
}

#[test]
fn frame_round_trip_largest_index() {
    let f = FrameMessage {
        buffer_index: usize::MAX,
        render_finished_fd: None,
        consumer_ready_fd: None,
    };
    let payload = encode_frame(&f);
    assert_eq!(decode_frame(&payload, &Vec::new()), Some(f));
}

#[test]
fn frame_decode_rejects_wrong_length() {
    let payload = vec![0u8; 9];
    assert_eq!(decode_frame(&payload, &Vec::new()), None);
}
