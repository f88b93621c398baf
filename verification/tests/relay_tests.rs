use terminoda::relay::{
    relay_step, ReadOutcome, RelayEnd, RelayStep, POLL_INTERVAL_MS, RELAY_BUFFER_SIZE,
    TERMINAL_OUTPUT_EVENT,
};

#[test]
fn relay_constants() {
    assert_eq!(RELAY_BUFFER_SIZE, 4096);
    assert_eq!(POLL_INTERVAL_MS, 10);
    assert_eq!(TERMINAL_OUTPUT_EVENT, "terminal-output");
}

#[test]
fn bytes_are_emitted_as_read() {
    let buffer = [b'l', b's', b'\n', 0, 0];
    assert_eq!(relay_step(&buffer, ReadOutcome::Bytes(3)), RelayStep::Emit(b"ls\n"));
    assert_eq!(relay_step(&buffer, ReadOutcome::Bytes(5)), RelayStep::Emit(&buffer));
    assert_eq!(relay_step(&buffer, ReadOutcome::Bytes(1)), RelayStep::Emit(b"l"));
}

#[test]
fn empty_read_means_stream_closed() {
    let buffer = [1u8; 8];
    assert_eq!(
        relay_step(&buffer, ReadOutcome::Bytes(0)),
        RelayStep::Stop(RelayEnd::StreamClosed)
    );
}

#[test]
fn would_block_pauses() {
    assert_eq!(relay_step(&[], ReadOutcome::WouldBlock), RelayStep::Pause(10));
}

#[test]
fn other_failures_end_the_relay() {
    assert_eq!(
        relay_step(&[], ReadOutcome::Failed("reset".to_string())),
        RelayStep::Stop(RelayEnd::ReadFailed("reset".to_string()))
    );
}

#[test]
fn output_keeps_the_order_of_the_reads() {
    let reads: Vec<(Vec<u8>, ReadOutcome)> = vec![
        (b"hello ".to_vec(), ReadOutcome::Bytes(6)),
        (Vec::new(), ReadOutcome::WouldBlock),
        (b"world!!".to_vec(), ReadOutcome::Bytes(5)),
        (Vec::new(), ReadOutcome::Bytes(0)),
        (b"late".to_vec(), ReadOutcome::Bytes(4)),
    ];
    let mut output = Vec::new();
    let mut pauses = 0;
    for (buffer, outcome) in reads {
        match relay_step(&buffer, outcome) {
            RelayStep::Emit(data) => output.extend_from_slice(data),
            RelayStep::Pause(_) => pauses += 1,
            RelayStep::Stop(_) => break,
        }
    }
    assert_eq!(output, b"hello world");
    assert_eq!(pauses, 1);
}
