use voice_bridge::error::VoiceError;
use voice_bridge::input::{InputType, JsInput};
use voice_bridge::player::{VoiceServerData, VoiceStateData};
use voice_bridge::track_handle::{
    EventDispatcher, JsPlayMode, JsReadyState, JsTrackHandleEvent, JsTrackStatePlayingObject,
    Subscription, TrackController,
};

#[test]
fn play_pause_toggle_and_notify() {
    let mut t = TrackController::new(Some(60000), true);
    t.events.subscribe(JsTrackHandleEvent::Play, 1);
    t.events.subscribe(JsTrackHandleEvent::Pause, 2);
    assert_eq!(t.play(), Ok(()));
    assert_eq!(t.playing.value, JsPlayMode::Play);
    assert_eq!(t.play(), Ok(()));
    assert_eq!(t.pause(), Ok(()));
    assert_eq!(t.playing.value, JsPlayMode::Pause);
    let out = t.events.drain();
    assert_eq!(
        out,
        vec![
            Subscription { event: JsTrackHandleEvent::Play, listener: 1 },
            Subscription { event: JsTrackHandleEvent::Pause, listener: 2 },
        ]
    );
}

#[test]
fn terminal_track_refuses_play_and_pause() {
    let mut t = TrackController::new(None, true);
    t.record(JsTrackHandleEvent::End, "");
    assert_eq!(t.playing.value, JsPlayMode::End);
    assert_eq!(t.play(), Err(VoiceError::InvalidTransition));
    assert_eq!(t.pause(), Err(VoiceError::InvalidTransition));
    assert_eq!(t.playing.value, JsPlayMode::End);
}

#[test]
fn volume_ceiling_is_rejected_not_clamped() {
    let mut t = TrackController::new(None, true);
    assert_eq!(t.set_volume(500), Ok(()));
    assert_eq!(t.volume, 500);
    assert_eq!(t.set_volume(2000), Ok(()));
    assert_eq!(t.set_volume(2001), Err(VoiceError::OutOfRange));
    assert_eq!(t.volume, 2000);
}

#[test]
fn seek_async_past_duration_and_unseekable() {
    let mut t = TrackController::new(Some(60000), true);
    assert_eq!(t.seek(60001), Err(VoiceError::InvalidPosition));
    assert_eq!(t.position, 0);
    assert_eq!(t.seek(30000), Ok(30000));
    assert_eq!(t.position, 30000);
    let mut live = TrackController::new(None, false);
    assert_eq!(live.seek(0), Err(VoiceError::SeekUnsupported));
    assert_eq!(live.seek(10), Err(VoiceError::SeekUnsupported));
    let mut unbounded = TrackController::new(None, true);
    assert_eq!(unbounded.seek(4000000), Ok(4000000));
}

#[test]
fn two_subscribers_each_get_one_end() {
    let mut t = TrackController::new(Some(1000), true);
    t.events.subscribe(JsTrackHandleEvent::End, 10);
    t.events.subscribe(JsTrackHandleEvent::End, 11);
    t.events.subscribe(JsTrackHandleEvent::Playable, 12);
    t.record(JsTrackHandleEvent::Playable, "");
    t.record(JsTrackHandleEvent::End, "");
    t.record(JsTrackHandleEvent::End, "");
    let out = t.events.drain();
    assert_eq!(
        out,
        vec![
            Subscription { event: JsTrackHandleEvent::Playable, listener: 12 },
            Subscription { event: JsTrackHandleEvent::End, listener: 10 },
            Subscription { event: JsTrackHandleEvent::End, listener: 11 },
        ]
    );
    assert!(t.events.drain().is_empty());
}

#[test]
fn snapshot_matches_state() {
    let mut t = TrackController::new(Some(1000), true);
    t.record(JsTrackHandleEvent::Playable, "");
    t.play().unwrap();
    t.seek(250).unwrap();
    t.set_volume(800).unwrap();
    let s = t.get_state();
    assert_eq!(s.position, 250);
    assert_eq!(s.playing.value, JsPlayMode::Play);
    assert_eq!(s.playing.error, None);
    assert_eq!(s.volume, 800);
    assert_eq!(s.ready, JsReadyState::Playable);
}

#[test]
fn error_transition_carries_text() {
    let mut t = TrackController::new(None, true);
    t.record(JsTrackHandleEvent::Error, "decoder failed");
    assert_eq!(t.playing.value, JsPlayMode::Errored);
    assert_eq!(t.playing.error.as_deref(), Some("[Songbird Error] decoder failed"));
    let p = JsTrackStatePlayingObject::from_mode(JsPlayMode::Stop, "x");
    assert_eq!(p.error, None);
}

#[test]
fn dispatcher_fire_without_subscribers() {
    let mut d = EventDispatcher::new();
    d.fire(JsTrackHandleEvent::Loop);
    assert!(d.drain().is_empty());
}

#[test]
fn input_descriptors() {
    assert_eq!(JsInput::youtube("v".to_string()).input_type, InputType::YouTube);
    assert!(JsInput::http("http://x".to_string()).needs_http_client());
    let f = JsInput::file("/tmp/a.ogg".to_string());
    assert_eq!(f.identifier, "/tmp/a.ogg");
    assert!(!f.needs_http_client());
}

#[test]
fn player_payload_conversion() {
    let s = VoiceServerData { endpoint: "e".to_string(), token: "t".to_string() }.to_server();
    assert_eq!(s.endpoint, "e");
    let st = VoiceStateData { session_id: "s".to_string(), channel_id: Some("+9".to_string()) };
    assert_eq!(st.to_update().ok().unwrap().channel_id, Some(9));
}
