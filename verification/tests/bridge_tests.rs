use stdio_bridge::bridge::{Bridge, Phase};
use stdio_bridge::codec::Endian;
use stdio_bridge::transport::read_buffer;

fn echo(payload: &[u8]) -> (Vec<u8>, Option<usize>) {
    let mut buf = read_buffer();
    buf[..payload.len()].copy_from_slice(payload);
    (buf, Some(payload.len()))
}

#[test]
fn new_bridge_is_idle_and_empty() {
    let mut bridge = Bridge::new(Endian::Big);
    assert_eq!(bridge.phase(), Phase::Idle);
    assert_eq!(bridge.order(), Endian::Big);
    assert_eq!(bridge.take_request(), None);
    assert!(!bridge.take_signal());
    assert_eq!(bridge.take_stdout_frame(), None);
    assert_eq!(bridge.take_log_entry(), None);
    assert_eq!(bridge.phase(), Phase::Idle);
}

#[test]
fn round_trip_through_an_echoing_transport() {
    let mut bridge = Bridge::new(Endian::Little);
    assert!(bridge.accept_stdin(&[0x03, 0x00, 0x00, 0x00, 0x01, 0x02, 0x03]));

    let request = bridge.take_request().unwrap();
    assert_eq!(request, vec![0x01, 0x02, 0x03]);
    assert_eq!(bridge.phase(), Phase::Writing);
    assert!(bridge.complete_write(Some(request.len()), true));
    assert_eq!(bridge.phase(), Phase::Signalled);

    assert!(bridge.take_signal());
    assert_eq!(bridge.phase(), Phase::Reading);
    let (buf, outcome) = echo(&request);
    assert!(bridge.complete_read(&buf, outcome));
    assert_eq!(bridge.phase(), Phase::Idle);

    assert_eq!(
        bridge.take_stdout_frame(),
        Some(vec![0x03, 0x00, 0x00, 0x00, 0x01, 0x02, 0x03])
    );
    assert_eq!(bridge.take_stdout_frame(), None);
}

#[test]
fn round_trip_in_big_endian() {
    let mut bridge = Bridge::new(Endian::Big);
    assert!(bridge.accept_stdin(&[0, 0, 0, 2, 0xca, 0xfe]));
    let request = bridge.take_request().unwrap();
    assert!(bridge.complete_write(Some(2), true));
    assert!(bridge.take_signal());
    let (buf, outcome) = echo(&request);
    assert!(bridge.complete_read(&buf, outcome));
    assert_eq!(bridge.take_stdout_frame(), Some(vec![0, 0, 0, 2, 0xca, 0xfe]));
}

#[test]
fn zero_length_frame_is_not_forwarded() {
    let mut bridge = Bridge::new(Endian::Little);
    assert!(!bridge.accept_stdin(&[0x00, 0x00, 0x00, 0x00]));
    assert_eq!(bridge.take_request(), None);
    assert_eq!(bridge.take_log_entry(), None);
    assert_eq!(bridge.take_stdout_frame(), None);
    assert_eq!(bridge.phase(), Phase::Idle);
}

#[test]
fn oversize_frame_is_not_forwarded() {
    let mut stream = 16385u32.to_le_bytes().to_vec();
    stream.extend_from_slice(&vec![1u8; 16385]);
    let mut bridge = Bridge::new(Endian::Little);
    assert!(!bridge.accept_stdin(&stream));
    assert_eq!(bridge.take_request(), None);
    assert_eq!(bridge.take_log_entry(), None);
    assert_eq!(bridge.take_stdout_frame(), None);
}

#[test]
fn truncated_frame_is_not_forwarded() {
    let mut bridge = Bridge::new(Endian::Little);
    assert!(!bridge.accept_stdin(&[5, 0, 0, 0, 1, 2]));
    assert!(!bridge.accept_stdin(&[5, 0]));
    assert_eq!(bridge.take_request(), None);
    assert_eq!(bridge.take_log_entry(), None);
}

#[test]
fn back_to_back_frames_take_turns_on_the_transport() {
    let mut bridge = Bridge::new(Endian::Little);
    assert!(bridge.accept_stdin(&[1, 0, 0, 0, 0x11]));
    assert!(bridge.accept_stdin(&[1, 0, 0, 0, 0x22]));
    assert!(bridge.accept_stdin(&[1, 0, 0, 0, 0x33]));

    for expected in [0x11u8, 0x22, 0x33] {
        // No read before the write has gone through.
        assert!(!bridge.take_signal());
        assert_eq!(bridge.take_request(), Some(vec![expected]));
        // No second write while the first is under way.
        assert_eq!(bridge.take_request(), None);
        assert!(!bridge.take_signal());
        assert!(bridge.complete_write(Some(1), true));
        // No second write before the paired read.
        assert_eq!(bridge.take_request(), None);
        assert!(bridge.take_signal());
        // The signal is taken once.
        assert!(!bridge.take_signal());
        assert_eq!(bridge.take_request(), None);
        let (buf, outcome) = echo(&[expected]);
        assert!(bridge.complete_read(&buf, outcome));
        assert_eq!(bridge.phase(), Phase::Idle);
    }
    assert_eq!(bridge.take_request(), None);
    assert_eq!(bridge.take_stdout_frame(), Some(vec![1, 0, 0, 0, 0x11]));
    assert_eq!(bridge.take_stdout_frame(), Some(vec![1, 0, 0, 0, 0x22]));
    assert_eq!(bridge.take_stdout_frame(), Some(vec![1, 0, 0, 0, 0x33]));
    assert_eq!(bridge.take_stdout_frame(), None);
}

#[test]
fn failed_write_sends_no_signal_and_no_response() {
    let mut bridge = Bridge::new(Endian::Little);
    assert!(bridge.accept_stdin(&[2, 0, 0, 0, 7, 8]));
    assert_eq!(bridge.take_request(), Some(vec![7, 8]));
    assert!(!bridge.complete_write(None, false));
    assert_eq!(bridge.phase(), Phase::Idle);
    assert!(!bridge.take_signal());
    let (buf, outcome) = echo(&[7, 8]);
    assert!(!bridge.complete_read(&buf, outcome));
    assert_eq!(bridge.take_stdout_frame(), None);
}

#[test]
fn failed_flush_sends_no_signal() {
    let mut bridge = Bridge::new(Endian::Little);
    assert!(bridge.accept_stdin(&[2, 0, 0, 0, 7, 8]));
    assert_eq!(bridge.take_request(), Some(vec![7, 8]));
    assert!(!bridge.complete_write(Some(2), false));
    assert!(!bridge.take_signal());
    assert_eq!(bridge.take_stdout_frame(), None);
}

#[test]
fn next_request_goes_out_after_a_failed_write() {
    let mut bridge = Bridge::new(Endian::Little);
    assert!(bridge.accept_stdin(&[1, 0, 0, 0, 1]));
    assert!(bridge.accept_stdin(&[1, 0, 0, 0, 2]));
    assert_eq!(bridge.take_request(), Some(vec![1]));
    assert!(!bridge.complete_write(None, false));
    assert_eq!(bridge.take_request(), Some(vec![2]));
    assert!(bridge.complete_write(Some(1), true));
    assert!(bridge.take_signal());
    let (buf, outcome) = echo(&[2]);
    assert!(bridge.complete_read(&buf, outcome));
    assert_eq!(bridge.take_stdout_frame(), Some(vec![1, 0, 0, 0, 2]));
    assert_eq!(bridge.take_stdout_frame(), None);
}

#[test]
fn failed_or_empty_read_is_dropped() {
    let mut bridge = Bridge::new(Endian::Little);
    assert!(bridge.accept_stdin(&[1, 0, 0, 0, 1]));
    assert!(bridge.accept_stdin(&[1, 0, 0, 0, 2]));

    assert_eq!(bridge.take_request(), Some(vec![1]));
    assert!(bridge.complete_write(Some(1), true));
    assert!(bridge.take_signal());
    assert!(!bridge.complete_read(&read_buffer(), None));
    assert_eq!(bridge.phase(), Phase::Idle);
    assert_eq!(bridge.take_stdout_frame(), None);

    assert_eq!(bridge.take_request(), Some(vec![2]));
    assert!(bridge.complete_write(Some(1), true));
    assert!(bridge.take_signal());
    assert!(!bridge.complete_read(&read_buffer(), Some(0)));
    assert_eq!(bridge.phase(), Phase::Idle);
    assert_eq!(bridge.take_stdout_frame(), None);
}

#[test]
fn reports_out_of_turn_change_nothing() {
    let mut bridge = Bridge::new(Endian::Little);
    assert!(!bridge.complete_write(Some(1), true));
    assert_eq!(bridge.phase(), Phase::Idle);
    let (buf, outcome) = echo(&[1]);
    assert!(!bridge.complete_read(&buf, outcome));
    assert_eq!(bridge.phase(), Phase::Idle);
    assert_eq!(bridge.take_stdout_frame(), None);
    assert_eq!(bridge.take_log_entry(), None);

    assert!(bridge.accept_stdin(&[1, 0, 0, 0, 1]));
    assert_eq!(bridge.take_request(), Some(vec![1]));
    assert!(!bridge.complete_read(&buf, outcome));
    assert_eq!(bridge.phase(), Phase::Writing);
    assert!(bridge.complete_write(Some(1), true));
    assert!(!bridge.complete_write(Some(1), true));
    assert_eq!(bridge.phase(), Phase::Signalled);
}

#[test]
fn log_holds_every_forwarded_payload_in_order() {
    let mut bridge = Bridge::new(Endian::Little);
    assert!(bridge.accept_stdin(&[2, 0, 0, 0, b'h', b'i']));
    assert!(!bridge.accept_stdin(&[0, 0, 0, 0]));
    assert!(bridge.accept_stdin(&[1, 0, 0, 0, b'x']));

    let request = bridge.take_request().unwrap();
    assert!(bridge.complete_write(Some(2), true));
    assert!(bridge.take_signal());
    let (buf, outcome) = echo(b"yo");
    assert!(bridge.complete_read(&buf, outcome));
    assert_eq!(request, b"hi".to_vec());

    assert_eq!(bridge.take_log_entry(), Some(b"\nread_stdin:\nhi\n".to_vec()));
    assert_eq!(bridge.take_log_entry(), Some(b"\nread_stdin:\nx\n".to_vec()));
    assert_eq!(bridge.take_log_entry(), Some(b"\nread_socket:\nyo\n".to_vec()));
    assert_eq!(bridge.take_log_entry(), None);
    assert_eq!(bridge.take_stdout_frame(), Some(vec![2, 0, 0, 0, b'y', b'o']));
}

#[test]
fn dropped_cycles_leave_no_log_entry() {
    let mut bridge = Bridge::new(Endian::Little);
    assert!(bridge.accept_stdin(&[1, 0, 0, 0, 9]));
    assert_eq!(bridge.take_log_entry(), Some(b"\nread_stdin:\n\x09\n".to_vec()));
    assert_eq!(bridge.take_request(), Some(vec![9]));
    assert!(bridge.complete_write(Some(1), true));
    assert!(bridge.take_signal());
    assert!(!bridge.complete_read(&read_buffer(), None));
    assert_eq!(bridge.take_log_entry(), None);
}

#[test]
fn short_response_is_forwarded_as_read() {
    let mut bridge = Bridge::new(Endian::Little);
    assert!(bridge.accept_stdin(&[3, 0, 0, 0, 1, 2, 3]));
    assert_eq!(bridge.take_request(), Some(vec![1, 2, 3]));
    assert!(bridge.complete_write(Some(3), true));
    assert!(bridge.take_signal());
    let (buf, _) = echo(&[1, 2, 3]);
    assert!(bridge.complete_read(&buf, Some(2)));
    assert_eq!(bridge.take_stdout_frame(), Some(vec![2, 0, 0, 0, 1, 2]));
}
