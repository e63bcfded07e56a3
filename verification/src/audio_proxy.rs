//! Decisions of the audio proxy daemon: what to answer to a command of the
//! Eruption daemon, when to send status updates, how to react to the
//! outcome of socket operations, and the queue of outgoing packets.
//!
//! The caller owns the socket and the audio backend: it performs the
//! operations that these functions choose and hands back their outcome.

use vstd::prelude::*;

use crate::text::{ascii_lowercase, is_ascii_text, lowercase, text_is, to_lowercase};

verus! {

/// Errors of the audio proxy's start up.
#[derive(Debug, Clone)]
pub enum MainError {
    SyslogLevelError {},
    UnknownError { description: String },
}

impl MainError {
    /// The text of the error.
    pub open spec fn spec_message(self) -> Seq<char> {
        match self {
            MainError::SyslogLevelError {} => "Could not parse syslog log-level"@,
            MainError::UnknownError { description } => "Unknown error: "@ + description@,
        }
    }

    /// The text of the error.
    pub fn message(&self) -> (r: String)
        ensures
            r@ == self.spec_message(),
    {
        match self {
            MainError::SyslogLevelError {} => String::from_str("Could not parse syslog log-level"),
            MainError::UnknownError { description } => {
                let mut text = String::from_str("Unknown error: ");
                text.append(description.as_str());
                text
            },
        }
    }
}

// ---------------------------------------------------------------------------
// Logging
// ---------------------------------------------------------------------------

/// The level up to which messages are logged.
#[derive(Debug, Clone, Copy, PartialEq, Eq, Structural)]
pub enum LogLevel {
    Off,
    Error,
    Warn,
    Info,
    Debug,
    Trace,
}

/// The level for a lowercase level name, and whether the name was not one
/// of the known ones (then the level is `Info`).
pub open spec fn spec_log_level(name: Seq<char>) -> (LogLevel, bool) {
    if name == "off"@ {
        (LogLevel::Off, false)
    } else if name == "error"@ {
        (LogLevel::Error, false)
    } else if name == "warn"@ {
        (LogLevel::Warn, false)
    } else if name == "info"@ {
        (LogLevel::Info, false)
    } else if name == "debug"@ {
        (LogLevel::Debug, false)
    } else if name == "trace"@ {
        (LogLevel::Trace, false)
    } else {
        (LogLevel::Info, true)
    }
}

/// The level for a level name that is already lowercase, and whether the
/// name could not be parsed.
pub fn log_level_from_lowercase(name: &String) -> (r: (LogLevel, bool))
    ensures
        r == spec_log_level(name@),
{
    if text_is(name, "off") {
        (LogLevel::Off, false)
    } else if text_is(name, "error") {
        (LogLevel::Error, false)
    } else if text_is(name, "warn") {
        (LogLevel::Warn, false)
    } else if text_is(name, "info") {
        (LogLevel::Info, false)
    } else if text_is(name, "debug") {
        (LogLevel::Debug, false)
    } else if text_is(name, "trace") {
        (LogLevel::Trace, false)
    } else {
        (LogLevel::Info, true)
    }
}

/// The syslog level for the value of `RUST_LOG`, compared without regard
/// to case, and whether it could not be parsed; where it is not set, the
/// level is `info`.
pub fn syslog_level_filter(rust_log: Option<&str>) -> (r: (LogLevel, bool))
    ensures
        match rust_log {
            Some(value) => r == spec_log_level(lowercase(value@))
                && (is_ascii_text(value@) ==> r == spec_log_level(ascii_lowercase(value@))),
            None => r == (LogLevel::Info, false),
        },
{
    match rust_log {
        Some(value) => {
            let name = to_lowercase(value);
            log_level_from_lowercase(&name)
        },
        None => (LogLevel::Info, false),
    }
}

/// Whether log messages go to the console (the daemon runs on a terminal)
/// rather than to syslog.
pub fn logs_to_console(stdin_is_tty: bool, daemon: bool) -> (r: bool)
    ensures
        r == (stdin_is_tty && daemon),
{
    stdin_is_tty && daemon
}

/// Each known level name sets its own level without a parse error, `info`
/// setting what an unset `RUST_LOG` sets; any other name sets `Info` and
/// reports the parse error.
pub proof fn lemma_log_level_names(name: Seq<char>)
    ensures
        spec_log_level("off"@) == (LogLevel::Off, false),
        spec_log_level("error"@) == (LogLevel::Error, false),
        spec_log_level("warn"@) == (LogLevel::Warn, false),
        spec_log_level("info"@) == (LogLevel::Info, false),
        spec_log_level("debug"@) == (LogLevel::Debug, false),
        spec_log_level("trace"@) == (LogLevel::Trace, false),
        name != "off"@ && name != "error"@ && name != "warn"@ && name != "info"@ && name != "debug"@
            && name != "trace"@ ==> spec_log_level(name) == (LogLevel::Info, true),
{
    reveal_strlit("off");
    reveal_strlit("error");
    reveal_strlit("warn");
    reveal_strlit("info");
    reveal_strlit("debug");
    reveal_strlit("trace");
    assert("off"@[0] != "error"@[0] && "off"@ != "error"@);
    assert("off"@[0] != "warn"@[0] && "off"@ != "warn"@);
    assert("off"@[0] != "info"@[0] && "off"@ != "info"@);
    assert("off"@[0] != "debug"@[0] && "off"@ != "debug"@);
    assert("off"@[0] != "trace"@[0] && "off"@ != "trace"@);
    assert("error"@[0] != "warn"@[0] && "error"@ != "warn"@);
    assert("error"@[0] != "info"@[0] && "error"@ != "info"@);
    assert("error"@[0] != "debug"@[0] && "error"@ != "debug"@);
    assert("error"@[0] != "trace"@[0] && "error"@ != "trace"@);
    assert("warn"@[0] != "info"@[0] && "warn"@ != "info"@);
    assert("warn"@[0] != "debug"@[0] && "warn"@ != "debug"@);
    assert("warn"@[0] != "trace"@[0] && "warn"@ != "trace"@);
    assert("info"@[0] != "debug"@[0] && "info"@ != "debug"@);
    assert("info"@[0] != "trace"@[0] && "info"@ != "trace"@);
    assert("debug"@[0] != "trace"@[0] && "debug"@ != "trace"@);
}

// ---------------------------------------------------------------------------
// Commands and responses
// ---------------------------------------------------------------------------

/// The command and response types of the audio proxy protocol.
#[derive(Debug, Clone, Copy, PartialEq, Eq, Structural)]
pub enum CommandType {
    Noop,
    StartRecording,
    StopRecording,
    AudioVolume,
    AudioMutedState,
    AudioData,
    PlaySfx,
}

/// What the audio backend has to do for a command.
#[derive(Debug, Clone, Copy, PartialEq, Eq, Structural)]
pub enum BackendAction {
    Nothing,
    OpenAudio,
    CloseAudio,
    QueryVolume,
    QueryMutedState,
}

/// The answer to a command: the backend action, the type of the response
/// (`None`: a default response), and the new recording state, if it
/// changes once the action succeeded.
#[derive(Debug, Clone, Copy, PartialEq, Eq, Structural)]
pub struct CommandReply {
    pub action: BackendAction,
    pub response_type: Option<CommandType>,
    pub recording: Option<bool>,
}

/// The answer to each command.
pub open spec fn spec_command_reply(command: CommandType) -> CommandReply {
    match command {
        CommandType::StartRecording => CommandReply {
            action: BackendAction::OpenAudio,
            response_type: Some(CommandType::Noop),
            recording: Some(true),
        },
        CommandType::StopRecording => CommandReply {
            action: BackendAction::CloseAudio,
            response_type: Some(CommandType::Noop),
            recording: Some(false),
        },
        CommandType::AudioVolume => CommandReply {
            action: BackendAction::QueryVolume,
            response_type: Some(CommandType::AudioVolume),
            recording: None,
        },
        CommandType::AudioMutedState => CommandReply {
            action: BackendAction::QueryMutedState,
            response_type: Some(CommandType::AudioMutedState),
            recording: None,
        },
        _ => CommandReply { action: BackendAction::Nothing, response_type: None, recording: None },
    }
}

/// Answers a command of the Eruption daemon: recording starts and stops
/// with the audio device, volume and muted state are queried and reported
/// back; other commands are a protocol error and get a default response.
pub fn reply_to_command(command: CommandType) -> (r: CommandReply)
    ensures
        r == spec_command_reply(command),
{
    match command {
        CommandType::StartRecording => CommandReply {
            action: BackendAction::OpenAudio,
            response_type: Some(CommandType::Noop),
            recording: Some(true),
        },
        CommandType::StopRecording => CommandReply {
            action: BackendAction::CloseAudio,
            response_type: Some(CommandType::Noop),
            recording: Some(false),
        },
        CommandType::AudioVolume => CommandReply {
            action: BackendAction::QueryVolume,
            response_type: Some(CommandType::AudioVolume),
            recording: None,
        },
        CommandType::AudioMutedState => CommandReply {
            action: BackendAction::QueryMutedState,
            response_type: Some(CommandType::AudioMutedState),
            recording: None,
        },
        _ => CommandReply { action: BackendAction::Nothing, response_type: None, recording: None },
    }
}

/// Interval of the unsolicited status updates, in milliseconds.
pub const STATUS_UPDATE_INTERVAL_MILLIS: u64 = 100;

/// The updates sent without being asked for while the socket is writable:
/// the audio samples while recording, then, when a status update is due,
/// the volume and the muted state.
pub open spec fn spec_unsolicited_updates(recording: bool, elapsed_millis: u64) -> Seq<CommandType> {
    (if recording { seq![CommandType::AudioData] } else { Seq::empty() })
        + (if elapsed_millis >= STATUS_UPDATE_INTERVAL_MILLIS {
        seq![CommandType::AudioVolume, CommandType::AudioMutedState]
    } else {
        Seq::empty()
    })
}

/// The unsolicited updates to enqueue, in order.
pub fn unsolicited_updates(recording: bool, elapsed_millis: u64) -> (r: Vec<CommandType>)
    ensures
        r@ == spec_unsolicited_updates(recording, elapsed_millis),
{
    let mut updates: Vec<CommandType> = Vec::new();
    if recording {
        updates.push(CommandType::AudioData);
    }
    if elapsed_millis >= STATUS_UPDATE_INTERVAL_MILLIS {
        updates.push(CommandType::AudioVolume);
        updates.push(CommandType::AudioMutedState);
    }
    assert(updates@ =~= spec_unsolicited_updates(recording, elapsed_millis));
    updates
}

/// While recording, the updates always begin with the audio samples,
/// whatever the time since the last status update; the volume and then the
/// muted state follow exactly when a status update is due (100 ms or
/// more); nothing else is sent.
pub proof fn lemma_unsolicited_update_order(recording: bool, elapsed_millis: u64)
    ensures
        ({
            let u = spec_unsolicited_updates(recording, elapsed_millis);
            let due = elapsed_millis >= 100;
            let first = if recording { 1int } else { 0int };
            &&& u.len() == first + (if due { 2int } else { 0int })
            &&& recording ==> u[0] == CommandType::AudioData
            &&& due ==> u[first] == CommandType::AudioVolume && u[first + 1] == CommandType::AudioMutedState
            &&& !due ==> !u.contains(CommandType::AudioVolume) && !u.contains(CommandType::AudioMutedState)
            &&& !recording ==> !u.contains(CommandType::AudioData)
        }),
{
    let u = spec_unsolicited_updates(recording, elapsed_millis);
    if !recording {
        assert forall|i: int| 0 <= i < u.len() implies u[i] != CommandType::AudioData by {}
    }
    if elapsed_millis < 100 {
        assert forall|i: int| 0 <= i < u.len() implies u[i] != CommandType::AudioVolume && u[i] != CommandType::AudioMutedState by {}
    }
}

// ---------------------------------------------------------------------------
// Socket outcomes
// ---------------------------------------------------------------------------

/// Why connecting to the daemon's socket failed.
#[derive(Debug, Clone, Copy, PartialEq, Eq, Structural)]
pub enum ConnectError {
    NotFound,
    ConnectionRefused,
    Other,
}

/// How long to wait before the next connection attempt.
#[derive(Debug, Clone, Copy, PartialEq, Eq, Structural)]
pub enum RetryDelay {
    /// The socket is not there (yet): the daemon is not running.
    WhileDisconnected,
    /// Any other failure.
    AfterTimeout,
}

/// The wait after a failed connection attempt.
pub fn connect_retry_delay(error: ConnectError) -> (r: RetryDelay)
    ensures
        r == (match error {
            ConnectError::NotFound | ConnectError::ConnectionRefused => RetryDelay::WhileDisconnected,
            ConnectError::Other => RetryDelay::AfterTimeout,
        }),
{
    match error {
        ConnectError::NotFound | ConnectError::ConnectionRefused => RetryDelay::WhileDisconnected,
        ConnectError::Other => RetryDelay::AfterTimeout,
    }
}

/// What to do after a failed connection attempt.
#[derive(Debug, Clone, Copy, PartialEq, Eq, Structural)]
pub enum ConnectStep {
    /// Quit was requested: leave the main loop.
    Exit,
    /// Wait, then try again.
    Retry(RetryDelay),
}

/// Decides after a failed connection attempt: a pending quit request ends
/// the loop, otherwise the proxy waits as the failure asks and tries again.
pub fn connect_failed_step(error: ConnectError, quit: bool) -> (r: ConnectStep)
    ensures
        r == (if quit {
            ConnectStep::Exit
        } else {
            ConnectStep::Retry(match error {
                ConnectError::NotFound | ConnectError::ConnectionRefused => RetryDelay::WhileDisconnected,
                ConnectError::Other => RetryDelay::AfterTimeout,
            })
        }),
{
    if quit {
        ConnectStep::Exit
    } else {
        ConnectStep::Retry(connect_retry_delay(error))
    }
}

/// How a round of the event loop begins.
#[derive(Debug, Clone, Copy, PartialEq, Eq, Structural)]
pub enum RoundStep {
    /// Quit was requested: leave the main loop.
    Exit,
    /// Record audio samples, then poll the socket.
    RecordThenPoll,
    /// Poll the socket.
    Poll,
}

/// Decides how a round of the event loop begins: a pending quit request
/// ends the loop; while recording, samples are recorded first.
pub fn round_begin(quit: bool, recording: bool) -> (r: RoundStep)
    ensures
        r == (if quit {
            RoundStep::Exit
        } else if recording {
            RoundStep::RecordThenPoll
        } else {
            RoundStep::Poll
        }),
{
    if quit {
        RoundStep::Exit
    } else if recording {
        RoundStep::RecordThenPoll
    } else {
        RoundStep::Poll
    }
}

/// What to do after recording samples.
#[derive(Debug, Clone, Copy, PartialEq, Eq, Structural)]
pub enum RecordStep {
    /// Go on and poll the socket.
    Poll,
    /// Wait the error timeout, open the audio device again, then poll.
    SleepAndReopen,
}

/// Decides after recording: a failure makes the proxy wait and open the
/// audio device again.
pub fn record_step(recorded: bool) -> (r: RecordStep)
    ensures
        r == (if recorded { RecordStep::Poll } else { RecordStep::SleepAndReopen }),
{
    if recorded {
        RecordStep::Poll
    } else {
        RecordStep::SleepAndReopen
    }
}

/// Whether the unsolicited status update is due, which also restarts the
/// status timer.
pub fn status_update_due(elapsed_millis: u64) -> (r: bool)
    ensures
        r == (elapsed_millis >= STATUS_UPDATE_INTERVAL_MILLIS),
        r == (spec_unsolicited_updates(false, elapsed_millis).len() > 0),
{
    elapsed_millis >= STATUS_UPDATE_INTERVAL_MILLIS
}

/// The outcome of polling the socket.
#[derive(Debug, Clone, Copy, PartialEq, Eq, Structural)]
pub struct PollEvents {
    /// Number of ready descriptors returned by `poll`.
    pub ready: i32,
    pub hangup: bool,
    pub error: bool,
    pub readable: bool,
    pub writable: bool,
}

/// What to do after polling the socket.
#[derive(Debug, Clone, Copy, PartialEq, Eq, Structural)]
pub enum PollStep {
    /// The daemon went away: connect again.
    Disconnect,
    /// Receive a packet (if `receive`), then transmit (if `transmit`).
    Serve { receive: bool, transmit: bool },
}

/// Decides on the poll result: a hang up or an error disconnects; else the
/// readable and writable events are served when anything is ready.
pub fn poll_step(events: PollEvents) -> (r: PollStep)
    ensures
        r == (if events.hangup || events.error {
            PollStep::Disconnect
        } else {
            PollStep::Serve {
                receive: events.ready > 0 && events.readable,
                transmit: events.ready > 0 && events.writable,
            }
        }),
{
    if events.hangup || events.error {
        PollStep::Disconnect
    } else {
        PollStep::Serve {
            receive: events.ready > 0 && events.readable,
            transmit: events.ready > 0 && events.writable,
        }
    }
}

/// The outcome of receiving from the socket.
#[derive(Debug, Clone, Copy, PartialEq, Eq, Structural)]
pub enum ReceiveOutcome {
    /// The number of bytes received.
    Received(usize),
    Failed,
}

/// What to do with a received packet.
#[derive(Debug, Clone, Copy, PartialEq, Eq, Structural)]
pub enum ReceiveStep {
    /// The daemon closed the connection: connect again.
    Disconnect,
    /// Decode and answer the command.
    Decode,
    /// Log the error and go on.
    Continue,
}

/// Decides on the outcome of a receive: zero bytes mean the daemon
/// disconnected.
pub fn receive_step(outcome: ReceiveOutcome) -> (r: ReceiveStep)
    ensures
        r == (match outcome {
            ReceiveOutcome::Received(n) => if n == 0 {
                ReceiveStep::Disconnect
            } else {
                ReceiveStep::Decode
            },
            ReceiveOutcome::Failed => ReceiveStep::Continue,
        }),
{
    match outcome {
        ReceiveOutcome::Received(n) => if n == 0 {
            ReceiveStep::Disconnect
        } else {
            ReceiveStep::Decode
        },
        ReceiveOutcome::Failed => ReceiveStep::Continue,
    }
}

/// The outcome of sending a packet.
#[derive(Debug, Clone, Copy, PartialEq, Eq, Structural)]
pub enum SendOutcome {
    Sent,
    WouldBlock,
    Failed,
}

/// What to do after sending a packet.
#[derive(Debug, Clone, Copy, PartialEq, Eq, Structural)]
pub enum SendStep {
    /// Quit was requested: leave the main loop.
    Exit,
    /// Send the next queued packet.
    NextPacket,
    /// The socket is full: start the next round of the event loop at once.
    RestartEventLoop,
    /// The socket failed: connect again.
    Disconnect,
}

/// What follows the outcome of a send.
pub open spec fn spec_send_step(outcome: SendOutcome, quit: bool) -> SendStep {
    match outcome {
        SendOutcome::Failed => SendStep::Disconnect,
        SendOutcome::Sent => if quit {
            SendStep::Exit
        } else {
            SendStep::NextPacket
        },
        SendOutcome::WouldBlock => if quit {
            SendStep::Exit
        } else {
            SendStep::RestartEventLoop
        },
    }
}

/// Decides on the outcome of a send: a failure disconnects; otherwise a
/// pending quit request ends the loop, a full socket restarts the event
/// loop and a sent packet is followed by the next one.
pub fn send_step(outcome: SendOutcome, quit: bool) -> (r: SendStep)
    ensures
        r == spec_send_step(outcome, quit),
{
    match outcome {
        SendOutcome::Failed => SendStep::Disconnect,
        SendOutcome::Sent => if quit {
            SendStep::Exit
        } else {
            SendStep::NextPacket
        },
        SendOutcome::WouldBlock => if quit {
            SendStep::Exit
        } else {
            SendStep::RestartEventLoop
        },
    }
}

/// The pause at the end of a round of the event loop, in milliseconds:
/// short while recording, longer otherwise.
pub fn idle_sleep_millis(recording: bool) -> (r: u64)
    ensures
        r == (if recording { 1u64 } else { 25u64 }),
{
    if recording {
        1
    } else {
        25
    }
}

// ---------------------------------------------------------------------------
// Outgoing packets
// ---------------------------------------------------------------------------

/// The queued packets after pushing one: it goes last.
pub open spec fn spec_queue_push(queue: Seq<Seq<u8>>, packet: Seq<u8>) -> Seq<Seq<u8>> {
    queue.push(packet)
}

/// Taking the oldest packet: the packet and the queue that is left, or
/// `None` for an empty queue.
pub open spec fn spec_queue_pop(queue: Seq<Seq<u8>>) -> Option<(Seq<u8>, Seq<Seq<u8>>)> {
    if queue.len() == 0 {
        None
    } else {
        Some((queue[0], queue.drop_first()))
    }
}

/// The queue after an attempt to send its oldest packet: the packet leaves
/// the queue only once it was sent.
pub open spec fn spec_queue_after_send(queue: Seq<Seq<u8>>, outcome: SendOutcome) -> Seq<Seq<u8>> {
    if outcome == SendOutcome::Sent && queue.len() > 0 {
        queue.drop_first()
    } else {
        queue
    }
}

/// Pushes the packets one after the other.
pub open spec fn spec_queue_push_all(queue: Seq<Seq<u8>>, packets: Seq<Seq<u8>>) -> Seq<Seq<u8>>
    decreases packets.len(),
{
    if packets.len() == 0 {
        queue
    } else {
        spec_queue_push_all(spec_queue_push(queue, packets[0]), packets.drop_first())
    }
}

/// The packets that popping until the queue is empty hands out, in order.
pub open spec fn spec_queue_drain(queue: Seq<Seq<u8>>) -> Seq<Seq<u8>>
    decreases queue.len(),
{
    match spec_queue_pop(queue) {
        None => Seq::empty(),
        Some((packet, rest)) => seq![packet] + spec_queue_drain(rest),
    }
}

/// The queue of encoded packets waiting to be sent to the daemon, oldest
/// first.
pub struct PacketQueue {
    packets: Vec<Vec<u8>>,
}

impl View for PacketQueue {
    type V = Seq<Seq<u8>>;

    /// The queued packets, oldest first.
    closed spec fn view(&self) -> Seq<Seq<u8>> {
        self.packets@.map_values(|p: Vec<u8>| p@)
    }
}

impl PacketQueue {
    /// An empty queue.
    pub fn new() -> (r: Self)
        ensures
            r@ == Seq::<Seq<u8>>::empty(),
    {
        let q = PacketQueue { packets: Vec::new() };
        assert(q@ =~= Seq::<Seq<u8>>::empty());
        q
    }

    /// The number of queued packets.
    pub fn len(&self) -> (r: usize)
        ensures
            r == self@.len(),
    {
        self.packets.len()
    }

    /// Queues a packet behind the others.
    pub fn push(&mut self, packet: Vec<u8>)
        ensures
            final(self)@ == spec_queue_push(old(self)@, packet@),
    {
        self.packets.push(packet);
        assert(self@ =~= old(self)@.push(packet@));
    }

    /// The oldest queued packet, left in the queue, if any.
    pub fn front(&self) -> (r: Option<&Vec<u8>>)
        ensures
            match spec_queue_pop(self@) {
                None => r is None,
                Some((packet, _)) => r is Some && r->Some_0@ == packet,
            },
    {
        if self.packets.len() == 0 {
            None
        } else {
            Some(&self.packets[0])
        }
    }

    /// Takes the oldest queued packet, if any.
    pub fn pop(&mut self) -> (r: Option<Vec<u8>>)
        ensures
            match spec_queue_pop(old(self)@) {
                None => r is None && final(self)@ == old(self)@,
                Some((packet, rest)) => r is Some && r->Some_0@ == packet && final(self)@ == rest,
            },
    {
        if self.packets.len() == 0 {
            None
        } else {
            let packet = self.packets.remove(0);
            assert(self@ =~= old(self)@.drop_first());
            Some(packet)
        }
    }

    /// Records the outcome of sending the oldest packet and decides what
    /// follows: the packet leaves the queue only once it was sent; one that
    /// the socket would not take, or that failed, stays first in line.
    pub fn after_send(&mut self, outcome: SendOutcome, quit: bool) -> (r: SendStep)
        ensures
            final(self)@ == spec_queue_after_send(old(self)@, outcome),
            r == spec_send_step(outcome, quit),
    {
        if outcome == SendOutcome::Sent && self.packets.len() > 0 {
            let _sent = self.pop();
        }
        send_step(outcome, quit)
    }
}

/// The queue is first in, first out: popping after a push hands out the
/// oldest packet, and the pushed one stays last.
pub proof fn lemma_queue_fifo(queue: Seq<Seq<u8>>, packet: Seq<u8>)
    ensures
        spec_queue_pop(spec_queue_push(queue, packet)) == Some(
            if queue.len() == 0 {
                (packet, Seq::<Seq<u8>>::empty())
            } else {
                (queue[0], spec_queue_push(queue.drop_first(), packet))
            },
        ),
{
    if queue.len() == 0 {
        assert(spec_queue_push(queue, packet).drop_first() =~= Seq::<Seq<u8>>::empty());
    } else {
        assert(spec_queue_push(queue, packet).drop_first() =~= spec_queue_push(queue.drop_first(), packet));
    }
}

proof fn lemma_push_all_appends(queue: Seq<Seq<u8>>, packets: Seq<Seq<u8>>)
    ensures
        spec_queue_push_all(queue, packets) == queue + packets,
    decreases packets.len(),
{
    if packets.len() == 0 {
        assert(queue + packets =~= queue);
    } else {
        lemma_push_all_appends(spec_queue_push(queue, packets[0]), packets.drop_first());
        assert(queue.push(packets[0]) + packets.drop_first() =~= queue + packets);
    }
}

proof fn lemma_drain_is_queue(queue: Seq<Seq<u8>>)
    ensures
        spec_queue_drain(queue) == queue,
    decreases queue.len(),
{
    if queue.len() > 0 {
        lemma_drain_is_queue(queue.drop_first());
        assert(seq![queue[0]] + queue.drop_first() =~= queue);
    }
}

/// Every packet queued is handed out exactly once, in the order queued:
/// pushing packets onto an empty queue and popping until it is empty gives
/// them back in order.
pub proof fn lemma_queue_keeps_order(packets: Seq<Seq<u8>>)
    ensures
        spec_queue_drain(spec_queue_push_all(Seq::empty(), packets)) == packets,
{
    lemma_push_all_appends(Seq::empty(), packets);
    assert(Seq::<Seq<u8>>::empty() + packets =~= packets);
    lemma_drain_is_queue(packets);
}

/// A packet leaves the queue only once it was sent: after a full socket or
/// a failure the queue is unchanged.
pub proof fn lemma_unsent_packet_stays(queue: Seq<Seq<u8>>)
    ensures
        spec_queue_after_send(queue, SendOutcome::WouldBlock) == queue,
        spec_queue_after_send(queue, SendOutcome::Failed) == queue,
        queue.len() > 0 ==> spec_queue_after_send(queue, SendOutcome::Sent) == spec_queue_pop(queue)->Some_0.1,
{
}

/// Starting and then stopping the recording leaves it stopped, and the
/// audio device is opened and closed again; both are answered with a
/// `Noop` response.
pub proof fn lemma_start_stop_recording()
    ensures
        spec_command_reply(CommandType::StartRecording).recording == Some(true),
        spec_command_reply(CommandType::StopRecording).recording == Some(false),
        spec_command_reply(CommandType::StartRecording).action == BackendAction::OpenAudio,
        spec_command_reply(CommandType::StopRecording).action == BackendAction::CloseAudio,
        spec_command_reply(CommandType::StartRecording).response_type == Some(CommandType::Noop),
        spec_command_reply(CommandType::StopRecording).response_type == Some(CommandType::Noop),
{
}

/// Only the two recording commands change the recording state.
pub proof fn lemma_recording_changes_only_on_request(command: CommandType)
    requires
        command != CommandType::StartRecording,
        command != CommandType::StopRecording,
    ensures
        spec_command_reply(command).recording is None,
{
}

} // verus!
