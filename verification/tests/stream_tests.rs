use itmdump::packet::DecodeOutcome;
use itmdump::stream::LoopAction;
use itmdump::stream::LoopState;
use itmdump::stream::after_pause;
use itmdump::stream::drain_from;
use itmdump::stream::run_buffer;
use itmdump::stream::step;

#[test]
fn finite_stream_emits_each_routed_packet() {
    // Three packets for port 1, one for port 2, one unknown header in
    // between: the run writes exactly the three payloads, in order.
    let data: Vec<u8> = vec![
        0x09, 0xA1, // port 1, one byte
        0x0A, 0xB1, 0xB2, // port 1, two bytes
        0x04, // unknown, skipped
        0x11, 0xC1, // port 2, one byte
        0x0B, 0xD1, 0xD2, 0xD3, 0xD4, // port 1, four bytes
    ];
    let writes = run_buffer(&data, 1);
    assert_eq!(writes.len(), 3);
    assert_eq!(writes[0], vec![0xA1]);
    assert_eq!(writes[1], vec![0xB1, 0xB2]);
    assert_eq!(writes[2], vec![0xD1, 0xD2, 0xD3, 0xD4]);
}

#[test]
fn port_filtering_discards_foreign_packets() {
    // A packet with header 0b00001001 (port 1, size 1) is not written when
    // the target port is 0.
    let data: Vec<u8> = vec![0b0000_1001, 0xFF];
    let writes = run_buffer(&data, 0);
    assert!(writes.is_empty());
    let writes = run_buffer(&data, 1);
    assert_eq!(writes, vec![vec![0xFF]]);
}

#[test]
fn drain_stops_on_partial_packet() {
    // The last packet lacks two of its four payload bytes: the drain emits
    // everything before it and stops on its header.
    let data: Vec<u8> = vec![0x09, 0xA1, 0x0B, 0x01, 0x02];
    let (writes, pos) = drain_from(&data, 0, 1);
    assert_eq!(writes, vec![vec![0xA1]]);
    assert_eq!(pos, 2);
}

#[test]
fn follow_resumes_without_losing_bytes() {
    // First round: only a header is available, so nothing is emitted and
    // the drain stops on it.
    let mut data: Vec<u8> = vec![0x09];
    let (writes, pos) = drain_from(&data, 0, 1);
    assert!(writes.is_empty());
    assert_eq!(pos, 0);
    // The source grows; a retry from the saved position emits the packet
    // that was only partially available before the append.
    data.push(0xEE);
    data.push(0x09);
    data.push(0xDD);
    let (writes, pos) = drain_from(&data, pos, 1);
    assert_eq!(writes, vec![vec![0xEE], vec![0xDD]]);
    assert_eq!(pos, 4);
}

#[test]
fn follow_resumes_mid_payload() {
    // Two of four payload bytes are available: the drain holds back the
    // whole packet, and the retry after the append emits it in full.
    let mut data: Vec<u8> = vec![0x0B, 0x01, 0x02];
    let (writes, pos) = drain_from(&data, 0, 1);
    assert!(writes.is_empty());
    assert_eq!(pos, 0);
    data.push(0x03);
    data.push(0x04);
    let (writes, pos) = drain_from(&data, pos, 1);
    assert_eq!(writes, vec![vec![0x01, 0x02, 0x03, 0x04]]);
    assert_eq!(pos, 5);
}

#[test]
fn step_emits_matching_packet() {
    let data: Vec<u8> = vec![0x09, 0x7E];
    let (outcome, _) = itmdump::decoder::decode(&data, 0);
    let (state, action) = step(outcome, 1, false);
    assert!(matches!(state, LoopState::Reading));
    match action {
        LoopAction::Emit(bytes) => assert_eq!(bytes, vec![0x7E]),
        _ => panic!("expected an emit"),
    }
}

#[test]
fn step_discards_foreign_packet() {
    let data: Vec<u8> = vec![0x09, 0x7E];
    let (outcome, _) = itmdump::decoder::decode(&data, 0);
    let (state, action) = step(outcome, 0, false);
    assert!(matches!(state, LoopState::Reading));
    assert!(matches!(action, LoopAction::Discard));
}

#[test]
fn step_logs_unknown_header_and_continues() {
    let (state, action) = step(DecodeOutcome::UnknownHeader(0x04), 0, true);
    assert!(matches!(state, LoopState::Reading));
    assert!(matches!(action, LoopAction::LogUnknown(0x04)));
}

#[test]
fn step_end_of_input_retries_when_following() {
    let (state, action) = step(DecodeOutcome::EndOfInput, 0, true);
    assert!(matches!(state, LoopState::Retrying));
    assert!(matches!(action, LoopAction::Pause));
    assert!(matches!(after_pause(state), LoopState::Reading));
}

#[test]
fn step_end_of_input_terminates_when_not_following() {
    let (state, action) = step(DecodeOutcome::EndOfInput, 0, false);
    assert!(matches!(state, LoopState::DoneSuccess));
    assert!(matches!(action, LoopAction::StopSuccess));
}

#[test]
fn step_io_failure_is_fatal() {
    let (state, action) = step(DecodeOutcome::IoFailure, 0, true);
    assert!(matches!(state, LoopState::DoneFailure));
    assert!(matches!(action, LoopAction::StopFailure));
}

#[test]
fn target_port_above_thirty_one_never_matches() {
    // Ports are five bits wide, so a configured port above 31 matches no
    // packet at all.
    let data: Vec<u8> = vec![0xF9, 0x01, 0x09, 0x02];
    let writes = run_buffer(&data, 200);
    assert!(writes.is_empty());
}

#[test]
fn empty_buffer_emits_nothing() {
    let data: Vec<u8> = Vec::new();
    let (writes, pos) = drain_from(&data, 0, 0);
    assert!(writes.is_empty());
    assert_eq!(pos, 0);
}
