use russh_process::{ChannelEvent, Command, DrainAction, DrainLoop, ForwardAction, Output, StdinForwarder};

fn collect(events: Vec<ChannelEvent>) -> Output {
    Output::collect(events)
}

#[test]
fn exit_codes_without_output() {
    for c in 0u32..=255 {
        let out = collect(vec![ChannelEvent::ExitStatus(c)]);
        assert_eq!(out.status.code(), Some(c));
        assert_eq!(out.status.success(), c == 0);
        assert!(out.stdout.is_empty());
        assert!(out.stderr.is_empty());
    }
}

#[test]
fn large_output_arrives_whole_and_in_order() {
    let total: usize = 1 << 20;
    let bytes: Vec<u8> = (0..total).map(|i| (i % 251) as u8).collect();
    let events: Vec<ChannelEvent> = bytes
        .chunks(4096)
        .map(|c| ChannelEvent::Data(c.to_vec()))
        .collect();
    let mut events = events;
    events.push(ChannelEvent::ExitStatus(0));
    let out = collect(events);
    assert_eq!(out.stdout.len(), total);
    assert_eq!(out.stdout, bytes);
    assert!(out.stderr.is_empty());
    assert!(out.status.success());
}

#[test]
fn alternating_single_bytes_do_not_mix() {
    let mut events = Vec::new();
    for i in 0..100u8 {
        events.push(ChannelEvent::Data(vec![b'o', i]));
        events.push(ChannelEvent::ExtendedData(1, vec![b'e', i]));
    }
    events.push(ChannelEvent::ExitStatus(0));
    let out = collect(events);
    let mut want_out = Vec::new();
    let mut want_err = Vec::new();
    for i in 0..100u8 {
        want_out.extend_from_slice(&[b'o', i]);
        want_err.extend_from_slice(&[b'e', i]);
    }
    assert_eq!(out.stdout, want_out);
    assert_eq!(out.stderr, want_err);
}

#[test]
fn other_extended_codes_are_ignored() {
    let out = collect(vec![
        ChannelEvent::ExtendedData(2, b"x".to_vec()),
        ChannelEvent::Other,
        ChannelEvent::Data(b"a".to_vec()),
    ]);
    assert_eq!(out.stdout, b"a".to_vec());
    assert!(out.stderr.is_empty());
    assert_eq!(out.status.code(), None);
}

#[test]
fn data_after_exit_status_is_delivered() {
    let out = collect(vec![
        ChannelEvent::Data(b"before ".to_vec()),
        ChannelEvent::ExitStatus(7),
        ChannelEvent::Data(b"after".to_vec()),
        ChannelEvent::ExtendedData(1, b"late".to_vec()),
    ]);
    assert_eq!(out.stdout, b"before after".to_vec());
    assert_eq!(out.stderr, b"late".to_vec());
    assert_eq!(out.status.code(), Some(7));
    assert!(!out.status.success());
}

#[test]
fn later_exit_status_replaces_earlier() {
    let out = collect(vec![ChannelEvent::ExitStatus(1), ChannelEvent::ExitStatus(0)]);
    assert_eq!(out.status.code(), Some(0));
    assert!(out.status.success());
}

#[test]
fn closed_without_exit_status_is_unresolved() {
    let out = collect(vec![ChannelEvent::Data(b"hi".to_vec())]);
    assert_eq!(out.status.code(), None);
    assert!(!out.status.success());
    let empty = collect(Vec::new());
    assert_eq!(empty.status.code(), None);
    assert!(!empty.status.success());
    assert!(empty.stdout.is_empty());
}

#[test]
fn drain_loop_keeps_running_after_exit_status() {
    let mut d = DrainLoop::new();
    assert!(matches!(d.step(Some(ChannelEvent::ExitStatus(5))), DrainAction::Skip));
    assert_eq!(d.exit_code(), Some(5));
    match d.step(Some(ChannelEvent::Data(b"tail".to_vec()))) {
        DrainAction::WriteStdout(b) => assert_eq!(b, b"tail".to_vec()),
        other => panic!("unexpected action {:?}", other),
    }
    match d.step(Some(ChannelEvent::ExtendedData(1, b"err".to_vec()))) {
        DrainAction::WriteStderr(b) => assert_eq!(b, b"err".to_vec()),
        other => panic!("unexpected action {:?}", other),
    }
    match d.step(None) {
        DrainAction::Finish(s) => assert_eq!(s.code(), Some(5)),
        other => panic!("unexpected action {:?}", other),
    }
}

#[test]
fn stdin_end_of_stream_closes_input() {
    let mut f = StdinForwarder::new();
    assert!(matches!(f.on_read(Vec::new()), ForwardAction::CloseInput));
    assert!(!f.failed());
}

#[test]
fn stdin_round_trip_through_echo() {
    let input = b"hello, remote world\n".to_vec();
    let mut f = StdinForwarder::new();
    let mut sent = Vec::new();
    for chunk in input.chunks(6) {
        match f.on_read(chunk.to_vec()) {
            ForwardAction::Send(b) => sent.push(b),
            ForwardAction::CloseInput => panic!("closed early"),
        }
    }
    assert!(matches!(f.on_read(Vec::new()), ForwardAction::CloseInput));
    let mut events: Vec<ChannelEvent> = sent.into_iter().map(ChannelEvent::Data).collect();
    events.push(ChannelEvent::ExitStatus(0));
    let out = collect(events);
    assert_eq!(out.stdout, input);
}

#[test]
fn stdin_send_failure_is_kept() {
    let mut f = StdinForwarder::new();
    assert!(matches!(f.on_read(b"x".to_vec()), ForwardAction::Send(_)));
    f.on_send_failed();
    assert!(f.failed());
}

#[test]
fn command_keeps_channel_and_line() {
    let cmd = Command::from_channel(42u32, b"echo hi".to_vec());
    let (channel, line) = cmd.into_parts();
    assert_eq!(channel, 42);
    assert_eq!(line, b"echo hi".to_vec());
}
