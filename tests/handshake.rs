use voice_bridge::call::{
    Action, ConnectionEvent, ConnectionState, JsConnectionInfo, StateUpdate, VoiceConnection,
    VoiceServerData, VoiceStateData,
};
use voice_bridge::error::VoiceError;

const GUILD: u64 = 600000000000000000;

fn server(endpoint: &str, token: &str) -> VoiceServerData {
    VoiceServerData { endpoint: endpoint.to_string(), token: token.to_string() }
}

fn state(session: &str, channel: Option<u64>) -> StateUpdate {
    StateUpdate { session_id: session.to_string(), channel_id: channel }
}

fn awaiting_handshake() -> VoiceConnection {
    let mut c = VoiceConnection::new(GUILD, 99, Some(0));
    assert!(matches!(c.join(42), Action::Submit(42)));
    assert_eq!(c.state, ConnectionState::AwaitingShard);
    assert!(matches!(c.shard_acknowledged(true), Action::Nothing));
    assert_eq!(c.state, ConnectionState::AwaitingHandshake);
    c
}

fn expect_open(a: Action) {
    match a {
        Action::Open(info) => {
            assert_eq!(info.endpoint, "voice.example:443");
            assert_eq!(info.token, "tok");
            assert_eq!(info.session_id, "sess");
            assert_eq!(info.channel_id, Some(42));
            assert_eq!(info.guild_id, GUILD);
            assert_eq!(info.user_id, 99);
        }
        _ => panic!("expected the transport to open"),
    }
}

#[test]
fn server_then_state_connects_once() {
    let mut c = awaiting_handshake();
    assert!(matches!(c.update_server(GUILD, server("voice.example:443", "tok")), Ok(Action::Nothing)));
    assert_eq!(c.state, ConnectionState::AwaitingHandshake);
    expect_open(c.update_state(GUILD, state("sess", Some(42))).ok().unwrap());
    assert_eq!(c.state, ConnectionState::Connected);
    assert!(matches!(c.update_state(GUILD, state("sess", Some(42))), Ok(Action::Nothing)));
    assert!(matches!(c.update_server(GUILD, server("voice.example:443", "tok")), Ok(Action::Nothing)));
    assert_eq!(c.state, ConnectionState::Connected);
}

#[test]
fn state_then_server_connects_once() {
    let mut c = awaiting_handshake();
    assert!(matches!(c.update_state(GUILD, state("sess", Some(42))), Ok(Action::Nothing)));
    assert_eq!(c.state, ConnectionState::AwaitingHandshake);
    expect_open(c.update_server(GUILD, server("voice.example:443", "tok")).ok().unwrap());
    assert_eq!(c.state, ConnectionState::Connected);
}

#[test]
fn halves_before_acknowledgement_still_connect() {
    let mut c = VoiceConnection::new(GUILD, 99, Some(0));
    c.join(42);
    assert!(matches!(c.update_state(GUILD, state("sess", Some(42))), Ok(Action::Nothing)));
    expect_open(c.update_server(GUILD, server("voice.example:443", "tok")).ok().unwrap());
    assert!(matches!(c.shard_acknowledged(true), Action::Nothing));
    assert_eq!(c.state, ConnectionState::Connected);
}

#[test]
fn foreign_guild_is_refused_without_change() {
    let mut c = awaiting_handshake();
    assert!(matches!(c.update_server(GUILD + 1, server("x", "y")), Err(VoiceError::ProtocolMismatch)));
    assert!(c.pending_server.is_none());
    assert!(matches!(c.update_state(GUILD + 1, state("s", None)), Err(VoiceError::ProtocolMismatch)));
    assert!(c.pending_state.is_none());
    assert_eq!(c.state, ConnectionState::AwaitingHandshake);
}

#[test]
fn migration_while_connected_reconnects() {
    let mut c = awaiting_handshake();
    c.update_server(GUILD, server("voice.example:443", "tok")).ok().unwrap();
    c.update_state(GUILD, state("sess", Some(42))).ok().unwrap();
    match c.update_server(GUILD, server("other.example:443", "tok2")) {
        Ok(Action::Reconnect(info)) => {
            assert_eq!(info.endpoint, "other.example:443");
            assert_eq!(info.token, "tok2");
            assert_eq!(info.session_id, "sess");
        }
        _ => panic!("expected a reconnect"),
    }
    assert_eq!(c.state, ConnectionState::Connected);
}

#[test]
fn timeout_with_only_server_half_fails() {
    let mut c = awaiting_handshake();
    c.update_server(GUILD, server("voice.example:443", "tok")).ok().unwrap();
    assert!(matches!(c.timeout(), Action::Resolve(VoiceError::HandshakeTimeout)));
    assert_eq!(c.state, ConnectionState::Failed(VoiceError::HandshakeTimeout));
    assert!(matches!(c.disconnect(), Action::Nothing));
    assert_eq!(c.state, ConnectionState::Failed(VoiceError::HandshakeTimeout));
}

#[test]
fn disconnect_during_handshake_cancels_wait() {
    let mut c = awaiting_handshake();
    c.update_server(GUILD, server("voice.example:443", "tok")).ok().unwrap();
    assert!(matches!(c.disconnect(), Action::Resolve(VoiceError::Cancelled)));
    assert_eq!(c.state, ConnectionState::Disconnected);
    assert!(matches!(c.timeout(), Action::Nothing));
    assert_eq!(c.state, ConnectionState::Disconnected);
}

#[test]
fn disconnect_twice_is_noop() {
    let mut c = awaiting_handshake();
    c.update_server(GUILD, server("voice.example:443", "tok")).ok().unwrap();
    c.update_state(GUILD, state("sess", Some(42))).ok().unwrap();
    assert!(matches!(c.disconnect(), Action::Close));
    assert_eq!(c.state, ConnectionState::Disconnected);
    assert!(matches!(c.disconnect(), Action::Nothing));
    assert_eq!(c.state, ConnectionState::Disconnected);
    assert!(c.pending_server.is_none() && c.pending_state.is_none());
}

#[test]
fn undelivered_join_is_bridge_unavailable() {
    let mut c = VoiceConnection::new(GUILD, 99, Some(0));
    c.join(42);
    assert!(matches!(c.shard_acknowledged(false), Action::Resolve(VoiceError::BridgeUnavailable)));
    assert_eq!(c.state, ConnectionState::Failed(VoiceError::BridgeUnavailable));
}

#[test]
fn events_drive_the_same_machine() {
    let mut c = VoiceConnection::new(GUILD, 99, None);
    assert!(matches!(c.handle(GUILD, ConnectionEvent::Join(42)), Ok(Action::Submit(42))));
    assert!(matches!(c.handle(GUILD, ConnectionEvent::Acknowledged(true)), Ok(Action::Nothing)));
    let s = ConnectionEvent::State(state("sess", Some(42)));
    assert!(matches!(c.handle(GUILD, s), Ok(Action::Nothing)));
    let v = ConnectionEvent::Server(server("voice.example:443", "tok"));
    expect_open(c.handle(GUILD, v).ok().unwrap());
}

#[test]
fn state_data_channel_parsing() {
    let d = VoiceStateData { session_id: "s".to_string(), channel_id: Some("42".to_string()) };
    let u = d.to_update().ok().unwrap();
    assert_eq!(u.channel_id, Some(42));
    assert_eq!(u.session_id, "s");
    let none = VoiceStateData { session_id: "s".to_string(), channel_id: None };
    assert_eq!(none.to_update().ok().unwrap().channel_id, None);
    let bad = VoiceStateData { session_id: "s".to_string(), channel_id: Some("x".to_string()) };
    assert!(matches!(bad.to_update(), Err(VoiceError::InvalidId)));
}

#[test]
fn connection_info_parsing() {
    let j = JsConnectionInfo {
        endpoint: "e".to_string(),
        token: "t".to_string(),
        user_id: "99".to_string(),
        session_id: "s".to_string(),
        channel_id: Some("42".to_string()),
    };
    let info = j.to_connection_info("600000000000000000").ok().unwrap();
    assert_eq!(info.guild_id, GUILD);
    assert_eq!(info.user_id, 99);
    assert_eq!(info.channel_id, Some(42));
    assert_eq!(info.endpoint, "e");
    assert!(matches!(j.to_connection_info("guild"), Err(VoiceError::InvalidId)));
    let bad_user = JsConnectionInfo { user_id: "0".to_string(), ..j };
    assert!(matches!(bad_user.to_connection_info("1"), Err(VoiceError::InvalidId)));
}
