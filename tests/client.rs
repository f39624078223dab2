use hub_link::channel::Message;
use hub_link::client::{Action, ClientError, ClientEvent, NervesHubClient, Phase, Session};
use hub_link::config::{AuthConfig, Config, FirmwareMetadata};
use hub_link::firmware::FirmwareError;
use hub_link::json::Json;

fn test_config() -> Config {
    Config {
        host: "example.com".to_string(),
        auth: AuthConfig::SharedSecret { key: "test-key".to_string(), secret: "test-secret".to_string() },
        serial_number: Some("test-device-001".to_string()),
        serial_number_command: None,
        fwup_devpath: None,
        fwup_task: None,
        firmware: FirmwareMetadata {
            uuid: "fw-uuid-123".to_string(),
            version: "1.0.0".to_string(),
            platform: "rpi4".to_string(),
            architecture: "arm".to_string(),
            product: "test-product".to_string(),
        },
        heartbeat_interval_secs: None,
        data_dir: None,
        device_api_version: None,
    }
}

fn text(s: &str) -> Json {
    Json::Str(s.to_string())
}

fn object(entries: Vec<(&str, Json)>) -> Json {
    Json::Object(entries.into_iter().map(|(k, v)| (k.to_string(), v)).collect())
}

fn frame(join_ref: Option<&str>, msg_ref: Option<&str>, event: &str, payload: Json) -> Message {
    Message {
        join_ref: join_ref.map(|s| s.to_string()),
        msg_ref: msg_ref.map(|s| s.to_string()),
        topic: "device:test-device-001".to_string(),
        event: event.to_string(),
        payload,
    }
}

fn update_payload() -> Json {
    object(vec![
        ("firmware_url", text("https://example.com/fw.fw")),
        (
            "firmware_meta",
            object(vec![
                ("uuid", text("u")),
                ("version", text("2.0.0")),
                ("platform", text("rpi4")),
                ("architecture", text("arm")),
                ("product", text("p")),
            ]),
        ),
    ])
}

fn joined_session() -> Session {
    let client = NervesHubClient::new(test_config(), None).unwrap();
    let (mut session, _join) = client.start_session();
    let reply = frame(
        Some("1"),
        Some("1"),
        "phx_reply",
        object(vec![("status", text("ok")), ("response", object(vec![]))]),
    );
    let actions = session.on_frame(reply);
    assert_eq!(actions, vec![Action::Notify(ClientEvent::Joined)]);
    session
}

fn sent(action: &Action) -> &Message {
    match action {
        Action::Send(m) => m,
        other => panic!("expected a send, got {:?}", other),
    }
}

#[test]
fn client_creation() {
    let client = NervesHubClient::new(test_config(), None).unwrap();
    assert_eq!(client.serial(), "test-device-001");
}

#[test]
fn join_payload_contains_metadata() {
    let client = NervesHubClient::new(test_config(), None).unwrap();
    let payload = client.join_payload();
    assert_eq!(payload.get("nerves_fw_uuid"), Some(&text("fw-uuid-123")));
    assert_eq!(payload.get("nerves_fw_version"), Some(&text("1.0.0")));
    assert_eq!(payload.get("nerves_fw_platform"), Some(&text("rpi4")));
    assert_eq!(payload.get("nerves_fw_architecture"), Some(&text("arm")));
    assert_eq!(payload.get("nerves_fw_product"), Some(&text("test-product")));
    assert_eq!(payload.get("device_api_version"), Some(&text("2.3.0")));
}

#[test]
fn join_payload_custom_api_version() {
    let mut config = test_config();
    config.device_api_version = Some("2.0.0".to_string());
    let client = NervesHubClient::new(config, None).unwrap();
    let payload = client.join_payload();
    assert_eq!(payload.get("device_api_version"), Some(&text("2.0.0")));
}

#[test]
fn client_without_serial_fails() {
    let mut config = test_config();
    config.serial_number = None;
    assert!(matches!(NervesHubClient::new(config, None), Err(ClientError::Serial(_))));
}

#[test]
fn first_envelope_is_join_with_ref_one() {
    let client = NervesHubClient::new(test_config(), None).unwrap();
    let (session, join) = client.start_session();
    assert_eq!(join.join_ref.as_deref(), Some("1"));
    assert_eq!(join.msg_ref.as_deref(), Some("1"));
    assert_eq!(join.topic, "device:test-device-001");
    assert_eq!(join.event, "phx_join");
    assert_eq!(join.payload, client.join_payload());
    assert_eq!(session.phase, Phase::Joining);
    assert_eq!(session.devpath, "/dev/mmcblk0");
    assert_eq!(session.task, "upgrade");
}

#[test]
fn join_rejected_with_reason() {
    let client = NervesHubClient::new(test_config(), None).unwrap();
    let (mut session, _) = client.start_session();
    let reply = frame(
        Some("1"),
        Some("1"),
        "phx_reply",
        object(vec![("status", text("error")), ("response", object(vec![("reason", text("unauthorized"))]))]),
    );
    let actions = session.on_frame(reply);
    assert_eq!(
        actions,
        vec![
            Action::Notify(ClientEvent::Disconnected("unauthorized".to_string())),
            Action::Finish(Err(ClientError::JoinRejected("unauthorized".to_string()))),
        ]
    );
    assert_eq!(session.phase, Phase::Closed);
}

#[test]
fn join_rejected_without_reason_is_unknown() {
    let client = NervesHubClient::new(test_config(), None).unwrap();
    let (mut session, _) = client.start_session();
    let reply = frame(Some("1"), Some("1"), "phx_reply", object(vec![("status", text("error"))]));
    let actions = session.on_frame(reply);
    assert_eq!(
        actions,
        vec![
            Action::Notify(ClientEvent::Disconnected("unknown".to_string())),
            Action::Finish(Err(ClientError::JoinRejected("unknown".to_string()))),
        ]
    );
}

#[test]
fn other_frames_wait_for_join_reply() {
    let client = NervesHubClient::new(test_config(), None).unwrap();
    let (mut session, _) = client.start_session();
    let other = frame(Some("1"), Some("7"), "phx_reply", object(vec![("status", text("ok"))]));
    assert!(session.on_frame(other).is_empty());
    assert!(session.on_heartbeat().is_empty());
    assert_eq!(session.phase, Phase::Joining);
    let actions = session.on_join_timeout();
    assert_eq!(
        actions,
        vec![
            Action::Notify(ClientEvent::Disconnected("join reply timeout".to_string())),
            Action::Finish(Err(ClientError::Connection("join reply timeout".to_string()))),
        ]
    );
}

#[test]
fn reboot_is_acknowledged_with_fresh_ref() {
    let mut session = joined_session();
    let actions = session.on_frame(frame(None, None, "reboot", Json::empty_object()));
    assert_eq!(actions.len(), 2);
    let ack = sent(&actions[0]);
    assert_eq!(ack.event, "rebooting");
    assert_eq!(ack.payload, Json::empty_object());
    assert_eq!(ack.join_ref.as_deref(), Some("1"));
    let r: u64 = ack.msg_ref.as_deref().unwrap().parse().unwrap();
    assert!(r > 1);
    assert_eq!(actions[1], Action::Notify(ClientEvent::RebootRequested));
}

#[test]
fn heartbeats_take_increasing_refs() {
    let mut session = joined_session();
    let a = session.on_heartbeat();
    let b = session.on_heartbeat();
    let ha = sent(&a[0]);
    let hb = sent(&b[0]);
    assert_eq!(ha.topic, "phoenix");
    assert_eq!(ha.event, "heartbeat");
    assert_eq!(ha.join_ref, None);
    assert_eq!(ha.msg_ref.as_deref(), Some("2"));
    assert_eq!(hb.msg_ref.as_deref(), Some("3"));
}

#[test]
fn server_close_ends_session() {
    let mut session = joined_session();
    let actions = session.on_frame(frame(None, None, "phx_close", Json::empty_object()));
    assert_eq!(
        actions,
        vec![
            Action::Notify(ClientEvent::Disconnected("channel closed by server".to_string())),
            Action::Finish(Err(ClientError::ChannelClosed)),
        ]
    );
    assert!(session.on_heartbeat().is_empty());
}

#[test]
fn informational_events_change_nothing() {
    let mut session = joined_session();
    assert!(session.on_frame(frame(None, None, "phx_error", Json::empty_object())).is_empty());
    assert!(session.on_frame(frame(None, Some("2"), "phx_reply", Json::empty_object())).is_empty());
    assert!(session.on_frame(frame(None, None, "something", Json::empty_object())).is_empty());
    assert_eq!(session.phase, Phase::Joined);
}

#[test]
fn end_of_stream_and_errors() {
    let mut session = joined_session();
    let actions = session.on_closed();
    assert_eq!(
        actions,
        vec![Action::Notify(ClientEvent::Disconnected("connection closed".to_string())), Action::Finish(Ok(()))]
    );
    let mut session = joined_session();
    let actions = session.on_transport_error("reset".to_string());
    assert_eq!(
        actions,
        vec![
            Action::Notify(ClientEvent::Disconnected("reset".to_string())),
            Action::Finish(Err(ClientError::WebSocket("reset".to_string()))),
        ]
    );
}

#[test]
fn update_pipeline() {
    let mut session = joined_session();
    let actions = session.on_frame(frame(None, None, "update", update_payload()));
    assert_eq!(actions.len(), 2);
    match &actions[0] {
        Action::Notify(ClientEvent::UpdateAvailable(info)) => {
            assert_eq!(info.firmware_url, "https://example.com/fw.fw");
            assert_eq!(info.firmware_meta.version, "2.0.0");
        }
        other => panic!("unexpected {:?}", other),
    }
    assert_eq!(actions[1], Action::Download("https://example.com/fw.fw".to_string()));

    // A second update while one runs is ignored.
    assert!(session.on_frame(frame(None, None, "update", update_payload())).is_empty());

    let mut forwarded = Vec::new();
    for done in [1u64, 3, 5, 6, 11, 50, 52, 99, 100, 100] {
        for a in session.on_progress(done, Some(100)) {
            let m = sent(&a);
            assert_eq!(m.msg_ref.as_deref(), Some("0"));
            assert_eq!(m.event, "fwup_progress");
            match m.payload.get("value") {
                Some(Json::Number(n)) => forwarded.push(n.parse::<u64>().unwrap()),
                other => panic!("unexpected {:?}", other),
            }
        }
    }
    assert_eq!(forwarded, vec![5, 11, 50, 99, 100, 100]);

    let actions = session.on_downloaded(Ok("/tmp/hub_link/firmware.fw".to_string()));
    assert_eq!(
        actions,
        vec![
            Action::Notify(ClientEvent::FirmwareDownloaded("/tmp/hub_link/firmware.fw".to_string())),
            Action::Install(
                ["-a", "-d", "/dev/mmcblk0", "-i", "/tmp/hub_link/firmware.fw", "-t", "upgrade"]
                    .iter()
                    .map(|s| s.to_string())
                    .collect()
            ),
        ]
    );
    let actions = session.on_installed(Ok(()));
    assert_eq!(actions.len(), 2);
    assert_eq!(actions[0], Action::Notify(ClientEvent::FirmwareApplied));
    let done = sent(&actions[1]);
    assert_eq!(done.event, "status_update");
    assert_eq!(done.payload, Json::text_object("status", "update-handled"));
    assert_eq!(done.msg_ref.as_deref(), Some("2"));
    assert!(!session.updating);
}

#[test]
fn failed_download_keeps_session() {
    let mut session = joined_session();
    session.on_frame(frame(None, None, "update", update_payload()));
    let actions = session.on_downloaded(Err(FirmwareError::Download("HTTP 404".to_string())));
    assert!(actions.is_empty());
    assert!(!session.updating);
    assert_eq!(session.phase, Phase::Joined);
    assert!(session.on_progress(100, Some(100)).is_empty());
    let again = session.on_frame(frame(None, None, "update", update_payload()));
    assert_eq!(again.len(), 2);
}

#[test]
fn unparseable_update_is_ignored() {
    let mut session = joined_session();
    let actions = session.on_frame(frame(None, None, "update", object(vec![("missing", text("fields"))])));
    assert!(actions.is_empty());
    assert!(!session.updating);
}

#[test]
fn exhausted_counter_ends_session() {
    let mut session = joined_session();
    session.channel.refs.next = u64::MAX;
    let actions = session.on_heartbeat();
    assert_eq!(
        actions,
        vec![
            Action::Notify(ClientEvent::Disconnected("reference counter exhausted".to_string())),
            Action::Finish(Err(ClientError::Connection("reference counter exhausted".to_string()))),
        ]
    );
    assert_eq!(session.phase, Phase::Closed);
}

#[test]
fn joining_session_reports_its_end() {
    let client = NervesHubClient::new(test_config(), None).unwrap();
    let (mut session, _) = client.start_session();
    assert_eq!(
        session.on_closed(),
        vec![
            Action::Notify(ClientEvent::Disconnected("connection closed".to_string())),
            Action::Finish(Err(ClientError::ChannelClosed)),
        ]
    );
    let (mut session, _) = client.start_session();
    assert_eq!(
        session.on_transport_error("tls handshake".to_string()),
        vec![
            Action::Notify(ClientEvent::Disconnected("tls handshake".to_string())),
            Action::Finish(Err(ClientError::WebSocket("tls handshake".to_string()))),
        ]
    );
}
