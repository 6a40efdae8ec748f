//! The duplex pipe driver: two copy loops and their termination race.
//!
//! Each direction of the pipe is a small state machine. The caller owns the
//! blocking reads and writes; it reports each observed event and performs
//! the directive handed back, so every decision the loops make is verified
//! here while the I/O stays outside. A session runs both machines over two
//! duplicated handles of one socket and ends the instant either loop halts.

use vstd::prelude::*;

use crate::error::SessionError;
use crate::session::Socket;

verus! {

/// Size of each loop's block buffer: reads hand over at most this many
/// bytes at a time.
pub const BUFFER_SIZE: usize = 8192;

/// How one copy loop ended.
#[derive(Clone, Copy, Debug, PartialEq, Eq, Structural)]
pub enum LoopTermination {
    /// The loop saw end-of-stream: stdin EOF, or a stream peer closing its
    /// write side.
    CleanEof,
    /// A read or write failed.
    Failed,
}

/// The input loop's control state (stdin to socket).
#[derive(Clone, Copy, Debug, PartialEq, Eq, Structural)]
pub enum InputState {
    /// Waiting on the next stdin block.
    Reading,
    /// A block has been handed to the socket; waiting for the write to
    /// finish.
    Sending,
    /// The loop has terminated.
    Done { result: LoopTermination },
}

/// The output loop's control state (socket to stdout).
#[derive(Clone, Copy, Debug, PartialEq, Eq, Structural)]
pub enum OutputState {
    /// Waiting on the next socket read.
    Reading,
    /// A block has been handed to stdout; waiting for the write and flush
    /// to finish.
    Delivering,
    /// The loop has terminated.
    Done { result: LoopTermination },
}

/// What the caller observed for the input loop.
#[derive(Debug, PartialEq, Eq)]
pub enum InputEvent {
    /// A stdin read returned these bytes (at least one).
    StdinChunk { bytes: Vec<u8> },
    /// A stdin read returned zero bytes.
    StdinEof,
    /// A stdin read failed.
    StdinFailed,
    /// The socket accepted the whole transmitted block.
    SocketAccepted,
    /// The socket write failed.
    SocketFailed,
}

/// `InputEvent` with its payload as a sequence, for contracts.
pub enum InputEventModel {
    StdinChunk { bytes: Seq<u8> },
    StdinEof,
    StdinFailed,
    SocketAccepted,
    SocketFailed,
}

impl View for InputEvent {
    type V = InputEventModel;

    open spec fn view(&self) -> InputEventModel {
        match self {
            InputEvent::StdinChunk { bytes } => InputEventModel::StdinChunk { bytes: bytes@ },
            InputEvent::StdinEof => InputEventModel::StdinEof,
            InputEvent::StdinFailed => InputEventModel::StdinFailed,
            InputEvent::SocketAccepted => InputEventModel::SocketAccepted,
            InputEvent::SocketFailed => InputEventModel::SocketFailed,
        }
    }
}

/// What the caller must do next for the input loop.
#[derive(Debug, PartialEq, Eq)]
pub enum InputDirective {
    /// Read the next block from stdin.
    AwaitStdin,
    /// Write exactly these bytes to the socket.
    Transmit { bytes: Vec<u8> },
    /// Stop this loop; the session ends now with this result.
    Halt { result: LoopTermination },
}

/// `InputDirective` with its payload as a sequence, for contracts.
pub enum InputDirectiveModel {
    AwaitStdin,
    Transmit { bytes: Seq<u8> },
    Halt { result: LoopTermination },
}

impl View for InputDirective {
    type V = InputDirectiveModel;

    open spec fn view(&self) -> InputDirectiveModel {
        match self {
            InputDirective::AwaitStdin => InputDirectiveModel::AwaitStdin,
            InputDirective::Transmit { bytes } => InputDirectiveModel::Transmit { bytes: bytes@ },
            InputDirective::Halt { result } => InputDirectiveModel::Halt { result: *result },
        }
    }
}

/// Which events each input state can take.
pub open spec fn input_accepts(s: InputState, ev: InputEventModel) -> bool {
    match s {
        InputState::Reading => ev is StdinChunk || ev is StdinEof || ev is StdinFailed,
        InputState::Sending => ev is SocketAccepted || ev is SocketFailed,
        InputState::Done { .. } => false,
    }
}

/// A stdin block is never empty and never larger than the buffer.
pub open spec fn input_event_wf(ev: InputEventModel) -> bool {
    ev matches InputEventModel::StdinChunk { bytes } ==> 1 <= bytes.len() <= BUFFER_SIZE
}

/// The input loop's transition: a stdin block is transmitted unchanged;
/// stdin EOF halts the loop cleanly; a failed read or write halts it with
/// an error. Events a state does not accept (see `input_accepts`) leave
/// the state unchanged; callers never send them.
pub open spec fn spec_input_step(s: InputState, ev: InputEventModel) -> (
    InputState,
    InputDirectiveModel,
) {
    match (s, ev) {
        (InputState::Reading, InputEventModel::StdinChunk { bytes }) => (
            InputState::Sending,
            InputDirectiveModel::Transmit { bytes },
        ),
        (InputState::Reading, InputEventModel::StdinEof) => (
            InputState::Done { result: LoopTermination::CleanEof },
            InputDirectiveModel::Halt { result: LoopTermination::CleanEof },
        ),
        (InputState::Reading, InputEventModel::StdinFailed) => (
            InputState::Done { result: LoopTermination::Failed },
            InputDirectiveModel::Halt { result: LoopTermination::Failed },
        ),
        (InputState::Sending, InputEventModel::SocketAccepted) => (
            InputState::Reading,
            InputDirectiveModel::AwaitStdin,
        ),
        (InputState::Sending, InputEventModel::SocketFailed) => (
            InputState::Done { result: LoopTermination::Failed },
            InputDirectiveModel::Halt { result: LoopTermination::Failed },
        ),
        (_, _) => (s, InputDirectiveModel::AwaitStdin),
    }
}

/// The stdin-to-socket copy loop, bound to one handle of the session's
/// socket. The handle is pinned: no step changes it.
pub struct InputLoop {
    pub sock: Socket,
    pub state: InputState,
}

impl InputLoop {
    /// A live loop drives a socket that establishment can produce.
    pub open spec fn wf(self) -> bool {
        self.sock.usable()
    }

    /// Start the loop on one handle of the session's socket, ready for the
    /// first stdin read.
    pub fn new(sock: Socket) -> (m: InputLoop)
        requires
            sock.usable(),
        ensures
            m.wf(),
            m.sock == sock,
            m.state == InputState::Reading,
    {
        InputLoop { sock, state: InputState::Reading }
    }

    /// Whether the current state takes this event.
    pub fn accepts(&self, ev: &InputEvent) -> (b: bool)
        ensures
            b == input_accepts(self.state, ev@),
    {
        match self.state {
            InputState::Reading => matches!(
                ev,
                InputEvent::StdinChunk { .. } | InputEvent::StdinEof | InputEvent::StdinFailed
            ),
            InputState::Sending => matches!(
                ev,
                InputEvent::SocketAccepted | InputEvent::SocketFailed
            ),
            InputState::Done { .. } => false,
        }
    }

    /// Feed one observed event; the directive says what to do next. The
    /// socket handle never changes, so a pinned UDP peer stays pinned for
    /// the whole session.
    pub fn step(&mut self, ev: InputEvent) -> (d: InputDirective)
        requires
            old(self).wf(),
            input_accepts(old(self).state, ev@),
            input_event_wf(ev@),
        ensures
            final(self).wf(),
            final(self).sock == old(self).sock,
            (final(self).state, d@) == spec_input_step(old(self).state, ev@),
    {
        match ev {
            InputEvent::StdinChunk { bytes } => {
                self.state = InputState::Sending;
                InputDirective::Transmit { bytes }
            },
            InputEvent::StdinEof => {
                self.state = InputState::Done { result: LoopTermination::CleanEof };
                InputDirective::Halt { result: LoopTermination::CleanEof }
            },
            InputEvent::StdinFailed => {
                self.state = InputState::Done { result: LoopTermination::Failed };
                InputDirective::Halt { result: LoopTermination::Failed }
            },
            InputEvent::SocketAccepted => {
                self.state = InputState::Reading;
                InputDirective::AwaitStdin
            },
            InputEvent::SocketFailed => {
                self.state = InputState::Done { result: LoopTermination::Failed };
                InputDirective::Halt { result: LoopTermination::Failed }
            },
        }
    }
}

/// What the caller observed for the output loop.
#[derive(Debug, PartialEq, Eq)]
pub enum OutputEvent {
    /// A socket read returned these bytes; zero bytes is a stream EOF or a
    /// legal empty datagram, by the socket's kind.
    SocketChunk { bytes: Vec<u8> },
    /// The socket read failed.
    SocketFailed,
    /// Stdout accepted and flushed the whole delivered block.
    StdoutAccepted,
    /// The stdout write or flush failed.
    StdoutFailed,
}

/// `OutputEvent` with its payload as a sequence, for contracts.
pub enum OutputEventModel {
    SocketChunk { bytes: Seq<u8> },
    SocketFailed,
    StdoutAccepted,
    StdoutFailed,
}

impl View for OutputEvent {
    type V = OutputEventModel;

    open spec fn view(&self) -> OutputEventModel {
        match self {
            OutputEvent::SocketChunk { bytes } => OutputEventModel::SocketChunk { bytes: bytes@ },
            OutputEvent::SocketFailed => OutputEventModel::SocketFailed,
            OutputEvent::StdoutAccepted => OutputEventModel::StdoutAccepted,
            OutputEvent::StdoutFailed => OutputEventModel::StdoutFailed,
        }
    }
}

/// What the caller must do next for the output loop.
#[derive(Debug, PartialEq, Eq)]
pub enum OutputDirective {
    /// Read the next block from the socket.
    AwaitSocket,
    /// Write exactly these bytes to stdout, then flush at once so the pipe
    /// stays interactive.
    Deliver { bytes: Vec<u8> },
    /// Stop this loop; the session ends now with this result.
    Halt { result: LoopTermination },
}

/// `OutputDirective` with its payload as a sequence, for contracts.
pub enum OutputDirectiveModel {
    AwaitSocket,
    Deliver { bytes: Seq<u8> },
    Halt { result: LoopTermination },
}

impl View for OutputDirective {
    type V = OutputDirectiveModel;

    open spec fn view(&self) -> OutputDirectiveModel {
        match self {
            OutputDirective::AwaitSocket => OutputDirectiveModel::AwaitSocket,
            OutputDirective::Deliver { bytes } => OutputDirectiveModel::Deliver { bytes: bytes@ },
            OutputDirective::Halt { result } => OutputDirectiveModel::Halt { result: *result },
        }
    }
}

/// Which events each output state can take.
pub open spec fn output_accepts(s: OutputState, ev: OutputEventModel) -> bool {
    match s {
        OutputState::Reading => ev is SocketChunk || ev is SocketFailed,
        OutputState::Delivering => ev is StdoutAccepted || ev is StdoutFailed,
        OutputState::Done { .. } => false,
    }
}

/// A socket block fits the buffer; zero bytes is allowed and meaningful.
pub open spec fn output_event_wf(ev: OutputEventModel) -> bool {
    ev matches OutputEventModel::SocketChunk { bytes } ==> bytes.len() <= BUFFER_SIZE
}

/// The output loop's transition, parameterised by whether a 0-byte read on
/// this socket means the peer closed (streams) or is a legal empty
/// datagram (UDP). Received bytes are delivered unchanged; a stream EOF
/// halts the loop cleanly; a failed read or write halts it with an error.
/// Events a state does not accept (see `output_accepts`) leave the state
/// unchanged; callers never send them.
pub open spec fn spec_output_step(
    eof_on_empty: bool,
    s: OutputState,
    ev: OutputEventModel,
) -> (OutputState, OutputDirectiveModel) {
    match (s, ev) {
        (OutputState::Reading, OutputEventModel::SocketChunk { bytes }) => if eof_on_empty
            && bytes.len() == 0 {
            (
                OutputState::Done { result: LoopTermination::CleanEof },
                OutputDirectiveModel::Halt { result: LoopTermination::CleanEof },
            )
        } else {
            (OutputState::Delivering, OutputDirectiveModel::Deliver { bytes })
        },
        (OutputState::Reading, OutputEventModel::SocketFailed) => (
            OutputState::Done { result: LoopTermination::Failed },
            OutputDirectiveModel::Halt { result: LoopTermination::Failed },
        ),
        (OutputState::Delivering, OutputEventModel::StdoutAccepted) => (
            OutputState::Reading,
            OutputDirectiveModel::AwaitSocket,
        ),
        (OutputState::Delivering, OutputEventModel::StdoutFailed) => (
            OutputState::Done { result: LoopTermination::Failed },
            OutputDirectiveModel::Halt { result: LoopTermination::Failed },
        ),
        (_, _) => (s, OutputDirectiveModel::AwaitSocket),
    }
}

/// The socket-to-stdout copy loop, bound to one handle of the session's
/// socket. The handle is pinned: no step changes it.
pub struct OutputLoop {
    pub sock: Socket,
    pub state: OutputState,
}

impl OutputLoop {
    /// A live loop drives a socket that establishment can produce.
    pub open spec fn wf(self) -> bool {
        self.sock.usable()
    }

    /// Start the loop on one handle of the session's socket, ready for the
    /// first socket read.
    pub fn new(sock: Socket) -> (m: OutputLoop)
        requires
            sock.usable(),
        ensures
            m.wf(),
            m.sock == sock,
            m.state == OutputState::Reading,
    {
        OutputLoop { sock, state: OutputState::Reading }
    }

    /// Whether the current state takes this event.
    pub fn accepts(&self, ev: &OutputEvent) -> (b: bool)
        ensures
            b == output_accepts(self.state, ev@),
    {
        match self.state {
            OutputState::Reading => matches!(
                ev,
                OutputEvent::SocketChunk { .. } | OutputEvent::SocketFailed
            ),
            OutputState::Delivering => matches!(
                ev,
                OutputEvent::StdoutAccepted | OutputEvent::StdoutFailed
            ),
            OutputState::Done { .. } => false,
        }
    }

    /// Feed one observed event; the directive says what to do next. The
    /// socket handle never changes, so a pinned UDP peer stays pinned for
    /// the whole session.
    pub fn step(&mut self, ev: OutputEvent) -> (d: OutputDirective)
        requires
            old(self).wf(),
            output_accepts(old(self).state, ev@),
            output_event_wf(ev@),
        ensures
            final(self).wf(),
            final(self).sock == old(self).sock,
            (final(self).state, d@) == spec_output_step(
                old(self).sock.spec_eof_on_empty_read(),
                old(self).state,
                ev@,
            ),
    {
        match ev {
            OutputEvent::SocketChunk { bytes } => {
                if bytes.len() == 0 && self.sock.eof_on_empty_read() {
                    self.state = OutputState::Done { result: LoopTermination::CleanEof };
                    OutputDirective::Halt { result: LoopTermination::CleanEof }
                } else {
                    self.state = OutputState::Delivering;
                    OutputDirective::Deliver { bytes }
                }
            },
            OutputEvent::SocketFailed => {
                self.state = OutputState::Done { result: LoopTermination::Failed };
                OutputDirective::Halt { result: LoopTermination::Failed }
            },
            OutputEvent::StdoutAccepted => {
                self.state = OutputState::Reading;
                OutputDirective::AwaitSocket
            },
            OutputEvent::StdoutFailed => {
                self.state = OutputState::Done { result: LoopTermination::Failed };
                OutputDirective::Halt { result: LoopTermination::Failed }
            },
        }
    }
}

/// The session verdict a loop ending maps to: a clean EOF is success, a
/// failed read or write is an I/O error.
pub open spec fn loop_result(t: LoopTermination) -> Result<(), SessionError> {
    match t {
        LoopTermination::CleanEof => Ok(()),
        LoopTermination::Failed => Err(SessionError::Io),
    }
}

/// Map the ending of whichever loop halted first to the session's verdict.
pub fn session_verdict(t: LoopTermination) -> (r: Result<(), SessionError>)
    ensures
        r == loop_result(t),
{
    match t {
        LoopTermination::CleanEof => Ok(()),
        LoopTermination::Failed => Err(SessionError::Io),
    }
}

/// The session is over as soon as either loop is done; the other loop is
/// abandoned without being drained.
pub open spec fn session_over(inp: InputState, out: OutputState) -> bool {
    inp is Done || out is Done
}

/// First-exit-wins at stdin EOF: in its reading state the input loop
/// answers EOF with an immediate clean halt, the session is then over
/// whatever state the output loop is in — it is not waited for — and the
/// verdict is success.
pub proof fn lemma_stdin_eof_ends_session(out: OutputState)
    ensures
        ({
            let step = spec_input_step(InputState::Reading, InputEventModel::StdinEof);
            &&& step.1 == (InputDirectiveModel::Halt { result: LoopTermination::CleanEof })
            &&& session_over(step.0, out)
            &&& loop_result(LoopTermination::CleanEof) == Ok::<(), SessionError>(())
        }),
{
}

/// What a 0-byte read means: on a stream socket it is a graceful EOF that
/// ends the output loop cleanly, not an error; on a datagram socket it is
/// a legal empty datagram, still delivered to stdout, and the loop goes
/// on.
pub proof fn lemma_empty_read_semantics(sock: Socket)
    ensures
        sock.spec_eof_on_empty_read() ==> spec_output_step(
            sock.spec_eof_on_empty_read(),
            OutputState::Reading,
            OutputEventModel::SocketChunk { bytes: Seq::empty() },
        ) == (
            OutputState::Done { result: LoopTermination::CleanEof },
            OutputDirectiveModel::Halt { result: LoopTermination::CleanEof },
        ),
        !sock.spec_eof_on_empty_read() ==> spec_output_step(
            sock.spec_eof_on_empty_read(),
            OutputState::Reading,
            OutputEventModel::SocketChunk { bytes: Seq::empty() },
        ) == (
            OutputState::Delivering,
            OutputDirectiveModel::Deliver { bytes: Seq::<u8>::empty() },
        ),
{
}

/// The event trace of an input session: each stdin block is read and then
/// accepted by the socket, and stdin ends with EOF.
pub open spec fn input_session_events(chunks: Seq<Seq<u8>>) -> Seq<InputEventModel>
    decreases chunks.len(),
{
    if chunks.len() == 0 {
        seq![InputEventModel::StdinEof]
    } else {
        seq![
            InputEventModel::StdinChunk { bytes: chunks[0] },
            InputEventModel::SocketAccepted,
        ] + input_session_events(chunks.drop_first())
    }
}

/// Run the input machine over an event trace, collecting the blocks it
/// transmits, in order.
pub open spec fn input_run(s: InputState, events: Seq<InputEventModel>) -> (
    InputState,
    Seq<Seq<u8>>,
)
    decreases events.len(),
{
    if events.len() == 0 {
        (s, Seq::empty())
    } else {
        let step = spec_input_step(s, events[0]);
        let rest = input_run(step.0, events.drop_first());
        match step.1 {
            InputDirectiveModel::Transmit { bytes } => (rest.0, seq![bytes] + rest.1),
            _ => rest,
        }
    }
}

/// The input loop relays stdin exactly: over any session in which stdin
/// yields a sequence of blocks and then EOF, the loop transmits exactly
/// those blocks to the socket, in order and unsplit beyond block
/// boundaries, and then halts cleanly.
pub proof fn lemma_input_relays_exactly(chunks: Seq<Seq<u8>>)
    ensures
        input_run(InputState::Reading, input_session_events(chunks)).1 == chunks,
        input_run(InputState::Reading, input_session_events(chunks)).0 == (InputState::Done {
            result: LoopTermination::CleanEof,
        }),
    decreases chunks.len(),
{
    reveal_with_fuel(input_run, 3);
    let events = input_session_events(chunks);
    if chunks.len() == 0 {
        assert(events =~= seq![InputEventModel::StdinEof]);
        assert(events.drop_first() =~= Seq::<InputEventModel>::empty());
        assert(input_run(InputState::Reading, events).1 =~= chunks);
    } else {
        let rest_events = input_session_events(chunks.drop_first());
        let first = InputEventModel::StdinChunk { bytes: chunks[0] };
        assert(events[0] == first);
        assert(events.drop_first() =~= seq![InputEventModel::SocketAccepted] + rest_events);
        let after_send = events.drop_first();
        assert(after_send[0] == InputEventModel::SocketAccepted);
        assert(after_send.drop_first() =~= rest_events);
        lemma_input_relays_exactly(chunks.drop_first());
        assert(input_run(InputState::Reading, events).1 =~= seq![chunks[0]] + chunks.drop_first());
        assert(seq![chunks[0]] + chunks.drop_first() =~= chunks);
    }
}

/// The event trace of received traffic: each block read from the socket is
/// accepted by stdout. A stream session appends a final 0-byte read when
/// the peer closes; a UDP session has no such terminator.
pub open spec fn output_session_events(blocks: Seq<Seq<u8>>) -> Seq<OutputEventModel>
    decreases blocks.len(),
{
    if blocks.len() == 0 {
        Seq::empty()
    } else {
        seq![
            OutputEventModel::SocketChunk { bytes: blocks[0] },
            OutputEventModel::StdoutAccepted,
        ] + output_session_events(blocks.drop_first())
    }
}

/// Run the output machine over an event trace, collecting the blocks it
/// delivers to stdout, in order.
pub open spec fn output_run(eof_on_empty: bool, s: OutputState, events: Seq<OutputEventModel>) -> (
    OutputState,
    Seq<Seq<u8>>,
)
    decreases events.len(),
{
    if events.len() == 0 {
        (s, Seq::empty())
    } else {
        let step = spec_output_step(eof_on_empty, s, events[0]);
        let rest = output_run(eof_on_empty, step.0, events.drop_first());
        match step.1 {
            OutputDirectiveModel::Deliver { bytes } => (rest.0, seq![bytes] + rest.1),
            _ => rest,
        }
    }
}

/// A stream session's output loop relays the peer exactly: every block the
/// peer sends before closing — each nonempty, since a stream read only
/// returns zero bytes at EOF — appears on stdout, in order and unsplit,
/// and the closing 0-byte read ends the loop cleanly.
pub proof fn lemma_stream_output_relays_exactly(blocks: Seq<Seq<u8>>)
    requires
        forall|i: int| 0 <= i < blocks.len() ==> #[trigger] blocks[i].len() > 0,
    ensures
        ({
            let events = output_session_events(blocks) + seq![
                OutputEventModel::SocketChunk { bytes: Seq::<u8>::empty() },
            ];
            &&& output_run(true, OutputState::Reading, events).1 == blocks
            &&& output_run(true, OutputState::Reading, events).0 == (OutputState::Done {
                result: LoopTermination::CleanEof,
            })
        }),
    decreases blocks.len(),
{
    reveal_with_fuel(output_run, 3);
    let terminator = seq![OutputEventModel::SocketChunk { bytes: Seq::<u8>::empty() }];
    let events = output_session_events(blocks) + terminator;
    if blocks.len() == 0 {
        assert(events =~= terminator);
        assert(events.drop_first() =~= Seq::<OutputEventModel>::empty());
        assert(output_run(true, OutputState::Reading, events).1 =~= blocks);
    } else {
        let rest_events = output_session_events(blocks.drop_first()) + terminator;
        assert(events[0] == (OutputEventModel::SocketChunk { bytes: blocks[0] }));
        assert(events.drop_first() =~= seq![OutputEventModel::StdoutAccepted] + rest_events);
        let after_deliver = events.drop_first();
        assert(after_deliver[0] == OutputEventModel::StdoutAccepted);
        assert(after_deliver.drop_first() =~= rest_events);
        lemma_stream_output_relays_exactly(blocks.drop_first());
        assert(output_run(true, OutputState::Reading, events).1 =~= seq![blocks[0]]
            + blocks.drop_first());
        assert(seq![blocks[0]] + blocks.drop_first() =~= blocks);
    }
}

/// Echo round trip: when the peer echoes back exactly the blocks the
/// input loop transmitted to it, the session's stdout relay delivers
/// exactly the bytes stdin provided, in order and chunked as they were
/// read.
pub proof fn lemma_echo_round_trip(chunks: Seq<Seq<u8>>)
    requires
        forall|i: int| 0 <= i < chunks.len() ==> #[trigger] chunks[i].len() > 0,
    ensures
        ({
            let transmitted = input_run(InputState::Reading, input_session_events(chunks)).1;
            let echoed = output_session_events(transmitted) + seq![
                OutputEventModel::SocketChunk { bytes: Seq::<u8>::empty() },
            ];
            output_run(true, OutputState::Reading, echoed).1 == chunks
        }),
{
    lemma_input_relays_exactly(chunks);
    lemma_stream_output_relays_exactly(chunks);
}

/// A UDP session's output loop delivers every received datagram — empty
/// ones included — to stdout, in order, with no framing added, and no
/// datagram ends the session: whoever a datagram came from, the loop is
/// still running afterwards, with the pinned peer unchanged.
pub proof fn lemma_udp_output_relays_exactly(datagrams: Seq<Seq<u8>>)
    ensures
        output_run(false, OutputState::Reading, output_session_events(datagrams)).1 == datagrams,
        output_run(false, OutputState::Reading, output_session_events(datagrams)).0
            == OutputState::Reading,
    decreases datagrams.len(),
{
    reveal_with_fuel(output_run, 3);
    let events = output_session_events(datagrams);
    if datagrams.len() == 0 {
        assert(output_run(false, OutputState::Reading, events).1 =~= datagrams);
    } else {
        let rest_events = output_session_events(datagrams.drop_first());
        assert(events[0] == (OutputEventModel::SocketChunk { bytes: datagrams[0] }));
        assert(events.drop_first() =~= seq![OutputEventModel::StdoutAccepted] + rest_events);
        let after_deliver = events.drop_first();
        assert(after_deliver[0] == OutputEventModel::StdoutAccepted);
        assert(after_deliver.drop_first() =~= rest_events);
        lemma_udp_output_relays_exactly(datagrams.drop_first());
        assert(output_run(false, OutputState::Reading, events).1 =~= seq![datagrams[0]]
            + datagrams.drop_first());
        assert(seq![datagrams[0]] + datagrams.drop_first() =~= datagrams);
    }
}

} // verus!
