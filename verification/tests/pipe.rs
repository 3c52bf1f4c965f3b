use relay::codec::RelayError;
use relay::pipe::{run_pipe, Direction};

#[test]
fn relays_one_client_frame_verbatim() {
    let input = vec![0x05, 0x00, 0x00, 0x00, 0x2A, 0xAA, 0xBB, 0xCC, 0xDD];
    let run = run_pipe(&input, Direction::ClientToUpstream);
    assert_eq!(run.observations.len(), 1);
    assert_eq!(run.observations[0].direction, Direction::ClientToUpstream);
    assert_eq!(run.observations[0].packet.packet_length, 5);
    assert_eq!(run.observations[0].packet.packet_id, 42);
    assert_eq!(run.observations[0].packet.packet_data_bytes, vec![0xAA, 0xBB, 0xCC, 0xDD]);
    assert_eq!(run.output, input);
    assert_eq!(run.consumed, 9);
    assert_eq!(run.stop, RelayError::ConnectionClosed);
}

#[test]
fn relays_back_to_back_frames_in_arrival_order() {
    let mut input = vec![0x02, 0x00, 0x00, 0x00, 0x01, 0xFF];
    input.extend_from_slice(&[0x03, 0x00, 0x00, 0x00, 0x02, 0x11, 0x22]);
    let run = run_pipe(&input, Direction::UpstreamToClient);
    assert_eq!(run.observations.len(), 2);
    assert_eq!(run.observations[0].packet.packet_id, 0x01);
    assert_eq!(run.observations[0].packet.packet_data_bytes, vec![0xFF]);
    assert_eq!(run.observations[1].packet.packet_id, 0x02);
    assert_eq!(run.observations[1].packet.packet_data_bytes, vec![0x11, 0x22]);
    assert_eq!(run.observations[0].direction, Direction::UpstreamToClient);
    assert_eq!(run.observations[1].direction, Direction::UpstreamToClient);
    assert_eq!(run.output, input);
    assert_eq!(run.consumed, input.len());
    assert_eq!(run.stop, RelayError::ConnectionClosed);
}

#[test]
fn empty_stream_forwards_nothing() {
    let input: Vec<u8> = vec![];
    let run = run_pipe(&input, Direction::UpstreamToClient);
    assert_eq!(run.observations.len(), 0);
    assert!(run.output.is_empty());
    assert_eq!(run.consumed, 0);
    assert_eq!(run.stop, RelayError::ConnectionClosed);
}

#[test]
fn truncated_tail_is_not_forwarded() {
    let mut input = vec![0x02, 0x00, 0x00, 0x00, 0x01, 0xFF];
    input.extend_from_slice(&[0x05, 0x00, 0x00, 0x00, 0x2A]);
    let run = run_pipe(&input, Direction::ClientToUpstream);
    assert_eq!(run.observations.len(), 1);
    assert_eq!(run.output, vec![0x02, 0x00, 0x00, 0x00, 0x01, 0xFF]);
    assert_eq!(run.consumed, 6);
    assert_eq!(run.stop, RelayError::ConnectionClosed);
}

#[test]
fn zero_length_frame_poisons_the_stream() {
    let mut input = vec![0x02, 0x00, 0x00, 0x00, 0x01, 0xFF];
    input.extend_from_slice(&[0x00, 0x00, 0x00, 0x00, 0x07]);
    let run = run_pipe(&input, Direction::ClientToUpstream);
    assert_eq!(run.observations.len(), 1);
    assert_eq!(run.output, vec![0x02, 0x00, 0x00, 0x00, 0x01, 0xFF]);
    assert_eq!(run.consumed, 6);
    assert_eq!(run.stop, RelayError::MalformedFrame);
}
