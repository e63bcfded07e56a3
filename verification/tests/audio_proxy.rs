use eruption::audio_proxy::{
    connect_failed_step, connect_retry_delay, idle_sleep_millis, record_step, round_begin, status_update_due,
    ConnectStep, RecordStep, RoundStep, log_level_from_lowercase, logs_to_console, poll_step, receive_step,
    reply_to_command, send_step, syslog_level_filter, unsolicited_updates, BackendAction, CommandType,
    ConnectError, LogLevel, MainError, PacketQueue, PollEvents, PollStep, ReceiveOutcome, ReceiveStep,
    RetryDelay, SendOutcome, SendStep,
};

#[test]
fn main_error_messages() {
    assert_eq!(MainError::SyslogLevelError {}.message(), "Could not parse syslog log-level");
    let e = MainError::UnknownError { description: "socket gone".to_string() };
    assert_eq!(e.message(), "Unknown error: socket gone");
}

#[test]
fn syslog_levels() {
    assert_eq!(syslog_level_filter(None), (LogLevel::Info, false));
    assert_eq!(syslog_level_filter(Some("DEBUG")), (LogLevel::Debug, false));
    assert_eq!(syslog_level_filter(Some("Trace")), (LogLevel::Trace, false));
    assert_eq!(syslog_level_filter(Some("off")), (LogLevel::Off, false));
    assert_eq!(syslog_level_filter(Some("error")), (LogLevel::Error, false));
    assert_eq!(syslog_level_filter(Some("WARN")), (LogLevel::Warn, false));
    assert_eq!(syslog_level_filter(Some("verbose")), (LogLevel::Info, true));
    assert_eq!(log_level_from_lowercase(&"Warn".to_string()), (LogLevel::Info, true));
    assert!(logs_to_console(true, true));
    assert!(!logs_to_console(true, false));
    assert!(!logs_to_console(false, true));
}

#[test]
fn command_replies() {
    let start = reply_to_command(CommandType::StartRecording);
    assert_eq!(start.action, BackendAction::OpenAudio);
    assert_eq!(start.response_type, Some(CommandType::Noop));
    assert_eq!(start.recording, Some(true));
    let stop = reply_to_command(CommandType::StopRecording);
    assert_eq!(stop.action, BackendAction::CloseAudio);
    assert_eq!(stop.recording, Some(false));
    let volume = reply_to_command(CommandType::AudioVolume);
    assert_eq!(volume.action, BackendAction::QueryVolume);
    assert_eq!(volume.response_type, Some(CommandType::AudioVolume));
    assert_eq!(volume.recording, None);
    let muted = reply_to_command(CommandType::AudioMutedState);
    assert_eq!(muted.action, BackendAction::QueryMutedState);
    assert_eq!(muted.response_type, Some(CommandType::AudioMutedState));
    let other = reply_to_command(CommandType::PlaySfx);
    assert_eq!(other.action, BackendAction::Nothing);
    assert_eq!(other.response_type, None);
    assert_eq!(other.recording, None);
}

#[test]
fn unsolicited_update_order() {
    assert_eq!(unsolicited_updates(false, 50), vec![]);
    assert_eq!(unsolicited_updates(true, 99), vec![CommandType::AudioData]);
    assert_eq!(
        unsolicited_updates(true, 100),
        vec![CommandType::AudioData, CommandType::AudioVolume, CommandType::AudioMutedState]
    );
    assert_eq!(unsolicited_updates(false, 250), vec![CommandType::AudioVolume, CommandType::AudioMutedState]);
}

#[test]
fn socket_outcomes() {
    assert_eq!(connect_retry_delay(ConnectError::NotFound), RetryDelay::WhileDisconnected);
    assert_eq!(connect_retry_delay(ConnectError::ConnectionRefused), RetryDelay::WhileDisconnected);
    assert_eq!(connect_retry_delay(ConnectError::Other), RetryDelay::AfterTimeout);
    let ev = PollEvents { ready: 1, hangup: false, error: false, readable: true, writable: false };
    assert_eq!(poll_step(ev), PollStep::Serve { receive: true, transmit: false });
    assert_eq!(poll_step(PollEvents { hangup: true, ..ev }), PollStep::Disconnect);
    assert_eq!(poll_step(PollEvents { error: true, ..ev }), PollStep::Disconnect);
    assert_eq!(poll_step(PollEvents { ready: 0, writable: true, ..ev }), PollStep::Serve { receive: false, transmit: false });
    assert_eq!(receive_step(ReceiveOutcome::Received(0)), ReceiveStep::Disconnect);
    assert_eq!(receive_step(ReceiveOutcome::Received(12)), ReceiveStep::Decode);
    assert_eq!(receive_step(ReceiveOutcome::Failed), ReceiveStep::Continue);
    assert_eq!(send_step(SendOutcome::Sent, false), SendStep::NextPacket);
    assert_eq!(send_step(SendOutcome::Sent, true), SendStep::Exit);
    assert_eq!(send_step(SendOutcome::WouldBlock, false), SendStep::RestartEventLoop);
    assert_eq!(send_step(SendOutcome::WouldBlock, true), SendStep::Exit);
    assert_eq!(send_step(SendOutcome::Failed, true), SendStep::Disconnect);
    assert_eq!(idle_sleep_millis(true), 1);
    assert_eq!(idle_sleep_millis(false), 25);
}

#[test]
fn packet_queue_is_first_in_first_out() {
    let mut queue = PacketQueue::new();
    assert_eq!(queue.pop(), None);
    assert_eq!(queue.front(), None);
    queue.push(vec![1]);
    queue.push(vec![2, 2]);
    queue.push(vec![3]);
    assert_eq!(queue.len(), 3);
    assert_eq!(queue.front(), Some(&vec![1]));
    assert_eq!(queue.pop(), Some(vec![1]));
    queue.push(vec![4]);
    assert_eq!(queue.pop(), Some(vec![2, 2]));
    assert_eq!(queue.pop(), Some(vec![3]));
    assert_eq!(queue.pop(), Some(vec![4]));
    assert_eq!(queue.pop(), None);
    assert_eq!(queue.len(), 0);
}

#[test]
fn unsent_packets_stay_queued() {
    let mut queue = PacketQueue::new();
    queue.push(vec![1]);
    queue.push(vec![2]);
    assert_eq!(queue.after_send(SendOutcome::WouldBlock, false), SendStep::RestartEventLoop);
    assert_eq!(queue.front(), Some(&vec![1]));
    assert_eq!(queue.after_send(SendOutcome::Failed, false), SendStep::Disconnect);
    assert_eq!(queue.len(), 2);
    assert_eq!(queue.after_send(SendOutcome::Sent, false), SendStep::NextPacket);
    assert_eq!(queue.front(), Some(&vec![2]));
    assert_eq!(queue.after_send(SendOutcome::Sent, true), SendStep::Exit);
    assert_eq!(queue.len(), 0);
}

#[test]
fn loop_round_decisions() {
    assert_eq!(round_begin(true, true), RoundStep::Exit);
    assert_eq!(round_begin(false, true), RoundStep::RecordThenPoll);
    assert_eq!(round_begin(false, false), RoundStep::Poll);
    assert_eq!(record_step(true), RecordStep::Poll);
    assert_eq!(record_step(false), RecordStep::SleepAndReopen);
    assert!(!status_update_due(99));
    assert!(status_update_due(100));
    assert_eq!(connect_failed_step(ConnectError::NotFound, true), ConnectStep::Exit);
    assert_eq!(
        connect_failed_step(ConnectError::ConnectionRefused, false),
        ConnectStep::Retry(RetryDelay::WhileDisconnected)
    );
    assert_eq!(connect_failed_step(ConnectError::Other, false), ConnectStep::Retry(RetryDelay::AfterTimeout));
}
