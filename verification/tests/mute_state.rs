use pulseaudio::protocol;
use zenbook_duo_daemon::handshake::{handshake_step, HandshakeOutcome, HandshakeStep};
use zenbook_duo_daemon::mute_state::{
    find_pulseaudio_socket_path, listen_mute_state, socket_of_user, ListenOutcome, ListenStep,
    MuteStateRetry, RuntimeEntry,
};
use zenbook_duo_daemon::pulse::{payload_length, PulseAudioClient, PulseError, TOO_LONG};
use zenbook_duo_daemon::{Effect, Event, KeyboardStateManager};

fn entry(name: &str) -> RuntimeEntry {
    RuntimeEntry {
        name: name.to_string(),
        is_dir: true,
        user_found: true,
        socket_exists: true,
    }
}

#[test]
fn sockets_belong_to_users_of_their_own() {
    assert_eq!(
        socket_of_user("1000"),
        Some((1000, "/run/user/1000/pulse/native".to_string()))
    );
    assert_eq!(
        socket_of_user("2000"),
        Some((2000, "/run/user/2000/pulse/native".to_string()))
    );
    assert_eq!(
        socket_of_user("+1500"),
        Some((1500, "/run/user/+1500/pulse/native".to_string()))
    );
    for name in ["999", "2001", "0", "", "alice", "1000x", "4294968296"] {
        assert_eq!(socket_of_user(name), None, "{name:?}");
    }
}

#[test]
fn the_first_usable_socket_is_found() {
    let entries = vec![
        entry("0"),
        RuntimeEntry { is_dir: false, ..entry("1000") },
        RuntimeEntry { user_found: false, ..entry("1001") },
        RuntimeEntry { socket_exists: false, ..entry("1002") },
        entry("1003"),
        entry("1004"),
    ];
    assert_eq!(
        find_pulseaudio_socket_path(&entries),
        Some((1003, "/run/user/1003/pulse/native".to_string()))
    );
    assert_eq!(find_pulseaudio_socket_path(&vec![entry("0")]), None);
}

#[test]
fn listening_asks_first_and_again_after_each_change() {
    let mut state = KeyboardStateManager::new(false, None);
    let script = [
        (ListenOutcome::Succeeded, ListenStep::ConnectSubscription, vec![]),
        (ListenOutcome::Succeeded, ListenStep::ConnectQuery, vec![]),
        (ListenOutcome::Succeeded, ListenStep::QueryFirst, vec![]),
        (
            ListenOutcome::Muted(true),
            ListenStep::Subscribe,
            vec![Effect::Emit(Event::MicMuteLed(true))],
        ),
        (ListenOutcome::Succeeded, ListenStep::AwaitMessage, vec![]),
        (ListenOutcome::OtherMessage, ListenStep::AwaitMessage, vec![]),
        (ListenOutcome::SourceEvent, ListenStep::QueryAgain, vec![]),
        (ListenOutcome::Muted(true), ListenStep::AwaitMessage, vec![]),
        (ListenOutcome::SourceEvent, ListenStep::QueryAgain, vec![]),
        (
            ListenOutcome::Muted(false),
            ListenStep::AwaitMessage,
            vec![Effect::Emit(Event::MicMuteLed(false))],
        ),
        (ListenOutcome::Failed, ListenStep::Fail, vec![]),
    ];
    let mut step = ListenStep::first();
    assert_eq!(step, ListenStep::ReadCookie);
    for (outcome, next, effects) in script {
        let result = listen_mute_state(step, outcome, &mut state);
        assert_eq!(result, (next, effects), "{step:?} {outcome:?}");
        step = next;
    }
}

#[test]
fn every_other_failure_is_reported() {
    for step in [
        ListenStep::ConnectSubscription,
        ListenStep::ConnectQuery,
        ListenStep::QueryFirst,
        ListenStep::Subscribe,
        ListenStep::AwaitMessage,
        ListenStep::QueryAgain,
        ListenStep::Fail,
    ] {
        let mut state = KeyboardStateManager::new(false, None);
        state.set_mic_mute_led(true);
        assert_eq!(
            listen_mute_state(step, ListenOutcome::Failed, &mut state),
            (ListenStep::Fail, vec![])
        );
        assert!(state.get_mic_mute_led());
    }
}

#[test]
fn a_missing_cookie_ends_listening() {
    let mut state = KeyboardStateManager::new(false, None);
    assert_eq!(
        listen_mute_state(ListenStep::ReadCookie, ListenOutcome::Failed, &mut state),
        (ListenStep::Finish, vec![])
    );
}

#[test]
fn waits_double_up_to_a_minute() {
    let mut retry = MuteStateRetry::new();
    let waits: Vec<u64> = (0..8).map(|_| retry.next_wait()).collect();
    assert_eq!(waits, vec![1, 2, 4, 8, 16, 32, 60, 60]);
}

#[test]
fn a_connection_that_lasted_makes_retries_prompt() {
    let mut state = KeyboardStateManager::new(false, None);
    let mut retry = MuteStateRetry::new();
    for _ in 0..8 {
        retry.next_wait();
    }
    retry.listening_ended(None, 9, &mut state);
    assert_eq!(retry.next_wait(), 60);
    retry.listening_ended(None, 10, &mut state);
    assert_eq!(retry.next_wait(), 1);
}

#[test]
fn only_a_change_of_error_is_reported() {
    let mut state = KeyboardStateManager::new(false, None);
    let mut retry = MuteStateRetry::new();
    let mut report = |error: Option<&str>| {
        retry.listening_ended(error.map(|e| e.to_string()), 0, &mut state).0
    };
    assert!(report(Some("refused")));
    assert!(!report(Some("refused")));
    assert!(report(Some("timeout")));
    assert!(!report(None));
    assert!(report(Some("timeout")));
}

#[test]
fn a_socket_is_announced_once() {
    let mut retry = MuteStateRetry::new();
    let first = "/run/user/1000/pulse/native".to_string();
    let second = "/run/user/1001/pulse/native".to_string();
    assert!(retry.socket_found(&first));
    assert!(!retry.socket_found(&first));
    assert!(retry.socket_found(&second));
    assert!(retry.socket_found(&first));
}

#[test]
fn the_led_goes_off_when_listening_ends() {
    let mut state = KeyboardStateManager::new(false, None);
    state.set_mic_mute_led(true);
    let mut retry = MuteStateRetry::new();
    assert_eq!(
        retry.listening_ended(None, 0, &mut state).1,
        vec![Effect::Emit(Event::MicMuteLed(false))]
    );
    assert_eq!(retry.listening_ended(None, 0, &mut state).1, vec![]);
}

fn command(message: &[u8]) -> (u32, protocol::Command) {
    let mut bytes = message;
    let read = protocol::read_command_message(&mut bytes, protocol::MAX_VERSION).unwrap();
    assert!(bytes.is_empty());
    read
}

#[test]
fn a_connection_begins_with_the_cookie() {
    let message =
        PulseAudioClient::auth_message(vec![1, 2, 3], protocol::MAX_VERSION).unwrap();
    let (seq, command) = command(&message);
    assert_eq!(seq, 0);
    assert_eq!(
        command,
        protocol::Command::Auth(protocol::AuthParams {
            version: protocol::MAX_VERSION,
            supports_shm: false,
            supports_memfd: false,
            cookie: vec![1, 2, 3],
        })
    );
}

fn auth_reply(version: u16) -> Vec<u8> {
    let reply = protocol::AuthReply { version, use_memfd: false, use_shm: false };
    let mut message = Vec::new();
    protocol::write_reply_message(&mut message, 0, &reply, protocol::MAX_VERSION).unwrap();
    message
}

fn name_reply() -> Vec<u8> {
    let reply = protocol::SetClientNameReply { client_id: 42 };
    let mut message = Vec::new();
    protocol::write_reply_message(&mut message, 1, &reply, protocol::MAX_VERSION).unwrap();
    message
}

fn client(version: u16) -> PulseAudioClient {
    PulseAudioClient::new(&auth_reply(version), &name_reply(), protocol::MAX_VERSION).unwrap()
}

#[test]
fn the_older_protocol_version_is_used() {
    for (offered, used) in [(30, 30), (99, protocol::MAX_VERSION)] {
        let reply = auth_reply(offered);
        assert_eq!(PulseAudioClient::negotiated(&reply, protocol::MAX_VERSION).unwrap(), used);
        let client = client(offered);
        assert_eq!((client.seq, client.protocol_version), (2, used));
    }
}

#[test]
fn a_refused_authentication_is_an_error() {
    let mut message = Vec::new();
    protocol::write_error(&mut message, 0, &protocol::PulseError::AccessDenied).unwrap();
    for reply in [message, Vec::new(), vec![0; 40]] {
        assert!(matches!(
            PulseAudioClient::negotiated(&reply, protocol::MAX_VERSION),
            Err(PulseError::BadReply(_))
        ));
        assert!(matches!(
            PulseAudioClient::new(&reply, &name_reply(), protocol::MAX_VERSION),
            Err(PulseError::BadReply(_))
        ));
    }
}

#[test]
fn the_client_names_itself() {
    let message = PulseAudioClient::client_name_message(protocol::MAX_VERSION);
    let (seq, command) = command(&message);
    assert_eq!(seq, 1);
    let mut props = protocol::Props::new();
    props.set(protocol::Prop::ApplicationName, c"zenbook-duo-daemon");
    assert_eq!(command, protocol::Command::SetClientName(props));
    assert!(matches!(
        PulseAudioClient::new(&auth_reply(30), &name_reply()[..30], protocol::MAX_VERSION),
        Err(PulseError::BadReply(_))
    ));
}

/// A message of this payload.
fn framed(payload: &[u8]) -> Vec<u8> {
    let mut message = vec![0, 0, 0, payload.len() as u8, 255, 255, 255, 255];
    message.extend([0; 12]);
    message.extend(payload);
    message
}

#[test]
fn requests_are_laid_out_byte_by_byte() {
    for version in [0, 12, 13, protocol::MAX_VERSION] {
        assert_eq!(
            PulseAudioClient::auth_message(vec![7, 8, 9], version).unwrap(),
            framed(&[
                b'L', 0, 0, 0, 8, b'L', 0, 0, 0, 0, b'L', 0, 0, 0, version as u8, b'x', 0, 0, 0,
                3, 7, 8, 9,
            ])
        );
        let mut name = vec![b'L', 0, 0, 0, 9, b'L', 0, 0, 0, 1, b'P', b't'];
        name.extend(b"application.name\0");
        name.extend([b'L', 0, 0, 0, 19, b'x', 0, 0, 0, 19]);
        name.extend(b"zenbook-duo-daemon\0N");
        assert_eq!(PulseAudioClient::client_name_message(version), framed(&name));
        let client = PulseAudioClient { seq: 0x01020304, protocol_version: version };
        assert_eq!(
            client.subscribe_source_events(),
            framed(&[b'L', 0, 0, 0, 35, b'L', 1, 2, 3, 4, b'L', 0, 0, 0, 2])
        );
        let mut query = vec![b'L', 0, 0, 0, 23, b'L', 1, 2, 3, 4, b'L', 255, 255, 255, 255, b't'];
        query.extend(b"@DEFAULT_SOURCE@\0");
        assert_eq!(client.get_is_default_source_muted(), framed(&query));
    }
}

#[test]
fn requests_are_numbered_one_after_another() {
    let mut client = client(protocol::MAX_VERSION);
    let (seq, subscribe) = command(&client.subscribe_source_events());
    assert_eq!(seq, 2);
    assert_eq!(
        subscribe,
        protocol::Command::Subscribe(protocol::SubscriptionMask::SOURCE)
    );
    client.request_written(true);
    for expected in 3..6 {
        for written in [false, true] {
            let (seq, query) = command(&client.get_is_default_source_muted());
            assert_eq!(seq, expected);
            assert_eq!(
                query,
                protocol::Command::GetSourceInfo(protocol::GetSourceInfo {
                    index: None,
                    name: Some(protocol::DEFAULT_SOURCE.into()),
                })
            );
            client.request_written(written);
        }
    }
    assert_eq!((client.seq, client.protocol_version), (6, protocol::MAX_VERSION));
}

#[test]
fn a_header_tells_the_length_of_the_payload() {
    assert_eq!(payload_length(&framed(&[1, 2, 3])[..20]), Some(3));
    assert_eq!(payload_length(&[1, 2, 3, 4, 0, 0, 0, 0, 0, 0, 0, 0, 0, 0, 0, 0, 0, 0, 0, 0]),
        Some(0x01020304));
    assert_eq!(payload_length(&[0; 19]), None);
}

#[test]
fn a_subscription_is_acknowledged() {
    let mut message = Vec::new();
    protocol::write_ack_message(&mut message, 2).unwrap();
    assert!(PulseAudioClient::subscribed(&message).is_ok());
    let mut message = Vec::new();
    protocol::write_error(&mut message, 2, &protocol::PulseError::AccessDenied).unwrap();
    assert!(matches!(
        PulseAudioClient::subscribed(&message),
        Err(PulseError::BadReply(_))
    ));
}

#[test]
fn the_reply_says_whether_the_source_is_muted() {
    let client = client(30);
    for muted in [true, false] {
        let info = protocol::SourceInfo { muted, ..Default::default() };
        let mut message = Vec::new();
        protocol::write_reply_message(&mut message, 3, &info, 30).unwrap();
        assert_eq!(client.is_muted(&message).unwrap(), muted);
    }
    let mut message = Vec::new();
    protocol::write_error(&mut message, 3, &protocol::PulseError::NoEntity).unwrap();
    assert!(matches!(client.is_muted(&message), Err(PulseError::BadReply(_))));
}

fn message(command: &protocol::Command) -> Vec<u8> {
    let mut message = Vec::new();
    protocol::write_command_message(&mut message, 7, command, protocol::MAX_VERSION).unwrap();
    message
}

#[test]
fn events_are_told_from_other_messages() {
    let client = client(protocol::MAX_VERSION);
    let event = message(&protocol::Command::SubscribeEvent(protocol::SubscriptionEvent {
        event_facility: protocol::SubscriptionEventFacility::Source,
        event_type: protocol::SubscriptionEventType::Changed,
        index: Some(3),
    }));
    assert!(client.is_event(&event).unwrap());

    for other in [
        protocol::Command::Reply,
        protocol::Command::Stat,
        protocol::Command::Error(protocol::PulseError::Busy),
        protocol::Command::Subscribe(protocol::SubscriptionMask::SOURCE),
    ] {
        let other = message(&other);
        assert!(!client.is_event(&other).unwrap());
    }

    // The kind of event, 0x30, means nothing.
    let mut unknown = event.clone();
    unknown[34] = 0x31;
    for bad in [unknown, event[..39].to_vec(), vec![0; 19], Vec::new()] {
        assert!(matches!(client.is_event(&bad), Err(PulseError::BadReply(_))));
    }
}

#[test]
fn a_request_for_a_latency_is_no_event_at_any_time() {
    let client = client(protocol::MAX_VERSION);
    let params = protocol::LatencyParams { channel: 1, now: std::time::UNIX_EPOCH };
    for command in [
        protocol::Command::GetPlaybackLatency(params),
        protocol::Command::GetRecordLatency(params),
    ] {
        let mut message = message(&command);
        assert!(!client.is_event(&message).unwrap());
        message[40..44].copy_from_slice(&4_294_967u32.to_be_bytes());
        assert!(!client.is_event(&message).unwrap());
        message[40..44].copy_from_slice(&4_294_968u32.to_be_bytes());
        assert!(!client.is_event(&message).unwrap());
    }
}

#[test]
fn a_reply_is_read_off_its_bytes() {
    let mut reply = vec![0, 0, 0, 15, 255, 255, 255, 255, 0, 0, 0, 0, 0, 0, 0, 0, 0, 0, 0, 0];
    reply.extend([0x4c, 0, 0, 0, 2, 0x4c, 0, 0, 0, 0, 0x4c, 0x80, 0, 0, 14]);
    assert_eq!(PulseAudioClient::negotiated(&reply, 35).unwrap(), 14);
    let client = PulseAudioClient::new(&reply, &reply, 35).unwrap();
    assert_eq!((client.seq, client.protocol_version), (2, 14));
    assert!(PulseAudioClient::subscribed(&reply).is_ok());

    // The header says that the payload ends before the number.
    reply[3] = 14;
    assert!(PulseAudioClient::new(&reply, &reply, 35).is_err());
    assert!(PulseAudioClient::subscribed(&reply).is_ok());
    reply[3] = 9;
    assert!(PulseAudioClient::subscribed(&reply).is_err());
    // It may say more than there is.
    reply[3] = 200;
    assert!(PulseAudioClient::new(&reply, &reply, 35).is_ok());
    // Another command is no reply.
    reply[24] = 3;
    assert!(PulseAudioClient::new(&reply, &reply, 35).is_err());
    assert!(PulseAudioClient::subscribed(&reply).is_err());
}

#[test]
fn a_connection_is_made_in_order() {
    let script = [
        (HandshakeOutcome::Succeeded, HandshakeStep::AwaitAuthReply),
        (HandshakeOutcome::Agreed(30), HandshakeStep::NameClient(30)),
        (HandshakeOutcome::Succeeded, HandshakeStep::AwaitNameReply(30)),
        (HandshakeOutcome::Succeeded, HandshakeStep::Connected(30)),
    ];
    let mut step = HandshakeStep::first();
    assert_eq!(step, HandshakeStep::Authenticate);
    for (outcome, next) in script {
        assert_eq!(handshake_step(step, HandshakeOutcome::Failed), HandshakeStep::Fail);
        assert_eq!(handshake_step(step, outcome), next);
        step = next;
    }
    assert_eq!(handshake_step(step, HandshakeOutcome::Failed), step);
    assert_eq!(
        handshake_step(HandshakeStep::AwaitAuthReply, HandshakeOutcome::Succeeded),
        HandshakeStep::Fail
    );
    assert_eq!(
        handshake_step(HandshakeStep::Fail, HandshakeOutcome::Succeeded),
        HandshakeStep::Fail
    );
}

#[test]
fn errors_say_what_is_wrong_with_the_message() {
    let mut refused = Vec::new();
    protocol::write_error(&mut refused, 0, &protocol::PulseError::AccessDenied).unwrap();
    let event = message(&protocol::Command::Stat);
    let mut bad_tag = auth_reply(30);
    bad_tag[20] = b'x';
    let client = client(30);
    for bad in [refused, event, bad_tag, vec![0; 19], Vec::new()] {
        let number = format!(
            "{:?}",
            protocol::read_reply_message::<protocol::AuthReply>(&mut &bad[..], 13).unwrap_err()
        );
        let negotiated = PulseAudioClient::negotiated(&bad, protocol::MAX_VERSION);
        assert_eq!(negotiated.unwrap_err().into_text(), number);
        for (auth, name) in [(bad.clone(), name_reply()), (auth_reply(30), bad.clone())] {
            let new = PulseAudioClient::new(&auth, &name, protocol::MAX_VERSION);
            assert_eq!(new.unwrap_err().into_text(), number);
        }

        let ack = format!("{:?}", protocol::read_ack_message(&mut &bad[..]).unwrap_err());
        assert_eq!(PulseAudioClient::subscribed(&bad).unwrap_err().into_text(), ack);

        let source = format!(
            "{:?}",
            protocol::read_reply_message::<protocol::SourceInfo>(&mut &bad[..], 30).unwrap_err()
        );
        assert_eq!(client.is_muted(&bad).unwrap_err().into_text(), source);
    }
    let bad = [0; 10];
    let unread = protocol::read_command_message(&mut &bad[..], 30).unwrap_err();
    assert_eq!(client.is_event(&bad).unwrap_err().into_text(), format!("{:?}", unread));

    let mut refused = Vec::new();
    protocol::write_error(&mut refused, 0, &protocol::PulseError::AccessDenied).unwrap();
    assert_eq!(
        PulseAudioClient::subscribed(&refused).unwrap_err().into_text(),
        "ServerError(AccessDenied)"
    );
    assert_eq!(
        format!(
            "{:?}",
            protocol::ProtocolError::Invalid("message payload greater than 4gb".to_string())
        ),
        TOO_LONG
    );
}
