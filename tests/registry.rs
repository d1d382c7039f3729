use voice_bridge::call::{Action, ConnectionEvent, ConnectionState, VoiceServerData};
use voice_bridge::error::VoiceError;
use voice_bridge::manager::{DriverOptions, Manager, ManagerOptions};

fn manager(shards: Option<i32>) -> Manager {
    let driver = shards.map(|shard_count| DriverOptions { shard_count });
    Manager::create(ManagerOptions { driver, user_id: "99".to_string() }).ok().unwrap()
}

#[test]
fn create_validates_options() {
    let bad_user = ManagerOptions { driver: None, user_id: "me".to_string() };
    assert!(matches!(Manager::create(bad_user), Err(VoiceError::InvalidId)));
    let zero = ManagerOptions { driver: Some(DriverOptions { shard_count: 0 }), user_id: "99".to_string() };
    assert!(matches!(Manager::create(zero), Err(VoiceError::ConfigurationError)));
    let m = manager(Some(4));
    assert_eq!(m.user_id, 99);
    assert_eq!(m.driver.as_ref().unwrap().shard_count, 4);
    assert!(m.sessions.is_empty());
}

#[test]
fn create_call_binds_routed_shard() {
    let m = manager(Some(8));
    let c = m.create_call("600000000000000000").ok().unwrap();
    assert_eq!(c.shard, Some(4));
    assert_eq!(c.guild_id, 600000000000000000);
    assert_eq!(c.user_id, 99);
    assert_eq!(c.state, ConnectionState::Idle);
    let standalone = manager(None).create_call("5").ok().unwrap();
    assert_eq!(standalone.shard, None);
    assert!(matches!(m.create_call("abc"), Err(VoiceError::InvalidId)));
}

#[test]
fn get_or_create_keeps_one_session_per_guild() {
    let mut m = manager(Some(4));
    let a = m.get_or_create(600000000000000000).ok().unwrap();
    let b = m.get_or_create(7).ok().unwrap();
    let again = m.get_or_create(600000000000000000).ok().unwrap();
    assert_eq!(a, again);
    assert_ne!(a, b);
    assert_eq!(m.sessions.len(), 2);
}

#[test]
fn handle_routes_by_guild() {
    let mut m = manager(Some(4));
    let i = m.get_or_create(7).ok().unwrap();
    assert!(matches!(m.handle(7, ConnectionEvent::Join(42)), Ok(Action::Submit(42))));
    assert_eq!(m.sessions[i].state, ConnectionState::AwaitingShard);
    let srv = VoiceServerData { endpoint: "e".to_string(), token: "t".to_string() };
    assert!(matches!(m.handle(8, ConnectionEvent::Server(srv)), Err(VoiceError::ProtocolMismatch)));
    assert!(m.sessions[i].pending_server.is_none());
}

#[test]
fn remove_evicts_and_disconnects() {
    let mut m = manager(None);
    m.get_or_create(7).ok().unwrap();
    m.handle(7, ConnectionEvent::Join(42)).ok().unwrap();
    assert!(matches!(m.remove(7), Some(Action::Resolve(VoiceError::Cancelled))));
    assert!(m.sessions.is_empty());
    assert!(m.remove(7).is_none());
}
