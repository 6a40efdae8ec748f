use netpipe::addr::{Endpoint, FamilyPreference, IpAddress};
use netpipe::error::SessionError;
use netpipe::pipe::{
    session_verdict, InputDirective, InputEvent, InputLoop, LoopTermination, OutputDirective,
    OutputEvent, OutputLoop, BUFFER_SIZE,
};
use netpipe::session::{Socket, UdpConnection};

fn tcp_sock() -> Socket {
    Socket::TCP { peer: Endpoint { ip: IpAddress::V4 { bits: 0x7f000001 }, port: 4000 } }
}

fn udp_sock() -> Socket {
    Socket::UDP {
        conn: UdpConnection { peer: Endpoint { ip: IpAddress::V4 { bits: 0x0a000001 }, port: 53 } },
    }
}

#[test]
fn buffer_is_eight_kib() {
    assert_eq!(BUFFER_SIZE, 8192);
}

#[test]
fn input_loop_relays_stdin_blocks_exactly() {
    let mut input = InputLoop::new(tcp_sock());
    let first = b"hello".to_vec();
    let second = b" world".to_vec();

    let d = input.step(InputEvent::StdinChunk { bytes: first.clone() });
    assert_eq!(d, InputDirective::Transmit { bytes: first });
    let d = input.step(InputEvent::SocketAccepted);
    assert_eq!(d, InputDirective::AwaitStdin);

    let d = input.step(InputEvent::StdinChunk { bytes: second.clone() });
    assert_eq!(d, InputDirective::Transmit { bytes: second });
    let d = input.step(InputEvent::SocketAccepted);
    assert_eq!(d, InputDirective::AwaitStdin);

    let d = input.step(InputEvent::StdinEof);
    assert_eq!(d, InputDirective::Halt { result: LoopTermination::CleanEof });
}

#[test]
fn stdin_eof_ends_the_session_cleanly_without_the_socket() {
    // The output loop is mid-read with nothing pending; stdin EOF alone
    // decides the session.
    let output = OutputLoop::new(tcp_sock());
    let mut input = InputLoop::new(tcp_sock());

    let d = input.step(InputEvent::StdinEof);
    let InputDirective::Halt { result } = d else {
        panic!("stdin EOF must halt the input loop");
    };
    assert_eq!(result, LoopTermination::CleanEof);
    assert_eq!(session_verdict(result), Ok(()));
    // The output loop was never consulted.
    drop(output);
}

#[test]
fn stdin_read_error_halts_with_an_error() {
    let mut input = InputLoop::new(tcp_sock());
    let d = input.step(InputEvent::StdinFailed);
    assert_eq!(d, InputDirective::Halt { result: LoopTermination::Failed });
    assert_eq!(session_verdict(LoopTermination::Failed), Err(SessionError::Io));
}

#[test]
fn socket_write_error_halts_the_input_loop() {
    let mut input = InputLoop::new(tcp_sock());
    let d = input.step(InputEvent::StdinChunk { bytes: vec![9] });
    assert_eq!(d, InputDirective::Transmit { bytes: vec![9] });
    let d = input.step(InputEvent::SocketFailed);
    assert_eq!(d, InputDirective::Halt { result: LoopTermination::Failed });
}

#[test]
fn output_loop_relays_socket_blocks_and_flushes_each() {
    let mut output = OutputLoop::new(tcp_sock());
    let block = b"reply".to_vec();
    let d = output.step(OutputEvent::SocketChunk { bytes: block.clone() });
    assert_eq!(d, OutputDirective::Deliver { bytes: block });
    let d = output.step(OutputEvent::StdoutAccepted);
    assert_eq!(d, OutputDirective::AwaitSocket);
}

#[test]
fn zero_byte_read_on_a_stream_is_clean_eof() {
    for sock in [tcp_sock(), Socket::UnixSocketStream] {
        let mut output = OutputLoop::new(sock);
        let d = output.step(OutputEvent::SocketChunk { bytes: Vec::new() });
        assert_eq!(d, OutputDirective::Halt { result: LoopTermination::CleanEof });
        assert_eq!(session_verdict(LoopTermination::CleanEof), Ok(()));
    }
}

#[test]
fn zero_byte_udp_datagram_is_data_not_eof() {
    let mut output = OutputLoop::new(udp_sock());
    let d = output.step(OutputEvent::SocketChunk { bytes: Vec::new() });
    assert_eq!(d, OutputDirective::Deliver { bytes: Vec::new() });
    // The loop goes on: the next stdout acknowledgement is accepted.
    let d = output.step(OutputEvent::StdoutAccepted);
    assert_eq!(d, OutputDirective::AwaitSocket);
}

#[test]
fn udp_datagrams_are_delivered_in_order_with_no_framing() {
    let mut output = OutputLoop::new(udp_sock());
    let d1 = b"D1".to_vec();
    let d2 = b"D2".to_vec();

    let d = output.step(OutputEvent::SocketChunk { bytes: d1.clone() });
    assert_eq!(d, OutputDirective::Deliver { bytes: d1 });
    let d = output.step(OutputEvent::StdoutAccepted);
    assert_eq!(d, OutputDirective::AwaitSocket);

    let d = output.step(OutputEvent::SocketChunk { bytes: d2.clone() });
    assert_eq!(d, OutputDirective::Deliver { bytes: d2 });
    let d = output.step(OutputEvent::StdoutAccepted);
    assert_eq!(d, OutputDirective::AwaitSocket);
}

#[test]
fn udp_peer_stays_pinned_through_the_session() {
    // A datagram from another sender is relayed like any other and does not
    // end the session or change the pinned peer.
    let sock = udp_sock();
    let mut output = OutputLoop::new(sock);
    let from_other_peer = b"stray".to_vec();
    let d = output.step(OutputEvent::SocketChunk { bytes: from_other_peer.clone() });
    assert_eq!(d, OutputDirective::Deliver { bytes: from_other_peer });
    let d = output.step(OutputEvent::StdoutAccepted);
    assert_eq!(d, OutputDirective::AwaitSocket);
    assert_eq!(output.sock, sock);
    assert_eq!(
        output.sock.peer_endpoint(),
        Some(Endpoint { ip: IpAddress::V4 { bits: 0x0a000001 }, port: 53 })
    );
}

#[test]
fn socket_read_error_halts_the_output_loop() {
    let mut output = OutputLoop::new(udp_sock());
    let d = output.step(OutputEvent::SocketFailed);
    assert_eq!(d, OutputDirective::Halt { result: LoopTermination::Failed });
}

#[test]
fn stdout_write_error_halts_the_output_loop() {
    let mut output = OutputLoop::new(tcp_sock());
    let d = output.step(OutputEvent::SocketChunk { bytes: vec![1] });
    assert_eq!(d, OutputDirective::Deliver { bytes: vec![1] });
    let d = output.step(OutputEvent::StdoutFailed);
    assert_eq!(d, OutputDirective::Halt { result: LoopTermination::Failed });
}

#[test]
fn done_loops_accept_no_further_events() {
    let mut input = InputLoop::new(tcp_sock());
    input.step(InputEvent::StdinEof);
    assert!(!input.accepts(&InputEvent::StdinEof));
    assert!(!input.accepts(&InputEvent::SocketAccepted));

    let mut output = OutputLoop::new(tcp_sock());
    output.step(OutputEvent::SocketFailed);
    assert!(!output.accepts(&OutputEvent::StdoutAccepted));
}

#[test]
fn largest_block_is_accepted() {
    let mut input = InputLoop::new(tcp_sock());
    let block = vec![0xabu8; BUFFER_SIZE];
    let d = input.step(InputEvent::StdinChunk { bytes: block.clone() });
    assert_eq!(d, InputDirective::Transmit { bytes: block });
}

#[test]
fn eof_signal_depends_on_the_socket_kind() {
    assert!(tcp_sock().eof_on_empty_read());
    assert!(Socket::UnixSocketStream.eof_on_empty_read());
    assert!(!udp_sock().eof_on_empty_read());
}
