use vstd::prelude::*;

use crate::error::VoiceError;

verus! {

/// A lifecycle event of a track that listeners can subscribe to.
#[derive(Clone, Copy, Debug, PartialEq, Eq, Structural)]
pub enum JsTrackHandleEvent {
    /// The track resumed playing (not fired when a track first starts).
    Play,
    /// The track was paused.
    Pause,
    /// The track ended.
    End,
    /// The track looped.
    Loop,
    /// The track is being readied or recreated.
    Preparing,
    /// The track became playable.
    Playable,
    /// The track hit a runtime or initialisation error.
    Error,
}

/// How far a track's byte-stream has been prepared.
#[derive(Clone, Copy, Debug, PartialEq, Eq, Structural)]
pub enum JsReadyState {
    /// Not made playable yet.
    Uninitialised,
    /// The byte-stream is being created and parsed.
    Preparing,
    /// Fully initialised and usable.
    Playable,
}

/// Playback status of a track.
#[derive(Clone, Copy, Debug, PartialEq, Eq, Structural)]
pub enum JsPlayMode {
    /// Playing.
    Play,
    /// Paused; may be resumed.
    Pause,
    /// Stopped by hand; cannot be restarted.
    Stop,
    /// Ended naturally; cannot be restarted.
    End,
    /// Failed at runtime or initialisation; cannot be restarted.
    Errored,
    /// A status that this library does not know.
    Unknown,
}

/// A play mode, with the error text for `Errored`.
pub struct JsTrackStatePlayingObject {
    pub value: JsPlayMode,
    pub error: Option<String>,
}

/// The prefix of the error text of an errored track.
pub open spec fn error_prefix() -> Seq<char> {
    "[Songbird Error] "@
}

impl JsTrackStatePlayingObject {
    /// The play mode `value`; for `Errored` the text carries `detail`, the
    /// description of the failure.
    pub fn from_mode(value: JsPlayMode, detail: &str) -> (r: JsTrackStatePlayingObject)
        ensures
            r.value == value,
            r.error is Some <==> value == JsPlayMode::Errored,
            r.error matches Some(e) ==> e@ == error_prefix() + detail@,
    {
        if value == JsPlayMode::Errored {
            let mut text = String::from_str("[Songbird Error] ");
            text.append(detail);
            JsTrackStatePlayingObject { value, error: Some(text) }
        } else {
            JsTrackStatePlayingObject { value, error: None }
        }
    }
}

/// A consistent snapshot of a track. Times are in milliseconds, the volume
/// in thousandths of the source's level.
pub struct JsTrackState {
    pub position: u32,
    pub playing: JsTrackStatePlayingObject,
    pub play_time: u32,
    pub volume: u32,
    pub ready: JsReadyState,
}

/// The highest volume a track accepts: twice the source's level.
pub const MAX_VOLUME: u32 = 2000;

/// A mode from which a track cannot be played or paused again.
pub open spec fn is_terminal(m: JsPlayMode) -> bool {
    m == JsPlayMode::Stop || m == JsPlayMode::End || m == JsPlayMode::Errored
}

/// A listener registered for one kind of event.
#[derive(Clone, Copy, Debug, PartialEq, Eq, Structural)]
pub struct Subscription {
    pub event: JsTrackHandleEvent,
    pub listener: u64,
}

/// The subscriptions to `kind`, in the order they were made.
pub open spec fn matching(subs: Seq<Subscription>, kind: JsTrackHandleEvent) -> Seq<Subscription>
    decreases subs.len(),
{
    if subs.len() == 0 {
        Seq::empty()
    } else if subs.last().event == kind {
        matching(subs.drop_last(), kind).push(subs.last())
    } else {
        matching(subs.drop_last(), kind)
    }
}

/// A track's subscription table and the queue of notifications that wait to
/// be handed to their listeners, oldest first.
pub struct EventDispatcher {
    pub subscriptions: Vec<Subscription>,
    pub queue: Vec<Subscription>,
}

impl EventDispatcher {
    pub fn new() -> (r: EventDispatcher)
        ensures
            r.subscriptions@.len() == 0,
            r.queue@.len() == 0,
    {
        EventDispatcher { subscriptions: Vec::new(), queue: Vec::new() }
    }

    /// Registers `listener` for events of kind `event`.
    pub fn subscribe(&mut self, event: JsTrackHandleEvent, listener: u64)
        ensures
            final(self).subscriptions@ == old(self).subscriptions@.push(
                Subscription { event, listener },
            ),
            final(self).queue@ == old(self).queue@,
    {
        self.subscriptions.push(Subscription { event, listener });
    }

    /// One occurrence of `kind`: queues one notification for each
    /// subscription to it, behind the notifications already queued.
    pub fn fire(&mut self, kind: JsTrackHandleEvent)
        ensures
            final(self).subscriptions@ == old(self).subscriptions@,
            final(self).queue@ == old(self).queue@ + matching(old(self).subscriptions@, kind),
    {
        let mut i: usize = 0;
        let ghost start = self.queue@;
        while i < self.subscriptions.len()
            invariant
                i <= self.subscriptions@.len(),
                self.subscriptions@ == old(self).subscriptions@,
                self.queue@ == start + matching(self.subscriptions@.take(i as int), kind),
            decreases self.subscriptions@.len() - i,
        {
            let s = self.subscriptions[i];
            assert(self.subscriptions@.take(i + 1).drop_last() =~= self.subscriptions@.take(i as int));
            if s.event == kind {
                self.queue.push(s);
            }
            i = i + 1;
        }
        assert(self.subscriptions@.take(i as int) =~= self.subscriptions@);
    }

    /// Hands out the queued notifications in order and empties the queue.
    pub fn drain(&mut self) -> (r: Vec<Subscription>)
        ensures
            r@ == old(self).queue@,
            final(self).queue@.len() == 0,
            final(self).subscriptions@ == old(self).subscriptions@,
    {
        let mut out = Vec::new();
        std::mem::swap(&mut out, &mut self.queue);
        out
    }
}

pub struct TrackModel {
    pub position: u32,
    pub play_time: u32,
    pub mode: JsPlayMode,
    pub volume: u32,
    pub ready: JsReadyState,
}

/// The control surface of one track. Every operation takes `&mut self`, so
/// the holder of the handle (a lock, or a single owning task) serializes
/// them; a failed operation changes nothing.
pub struct TrackController {
    pub position: u32,
    pub play_time: u32,
    pub playing: JsTrackStatePlayingObject,
    pub volume: u32,
    pub ready: JsReadyState,
    /// The known duration of the source, if any.
    pub duration: Option<u32>,
    /// Whether the source can seek.
    pub seekable: bool,
    pub events: EventDispatcher,
}

impl View for TrackController {
    type V = TrackModel;

    open spec fn view(&self) -> TrackModel {
        TrackModel {
            position: self.position,
            play_time: self.play_time,
            mode: self.playing.value,
            volume: self.volume,
            ready: self.ready,
        }
    }
}

/// The mode after a play (`true`) or pause (`false`) request.
pub open spec fn toggled(m: JsPlayMode, play: bool) -> Result<JsPlayMode, VoiceError> {
    if is_terminal(m) {
        Err(VoiceError::InvalidTransition)
    } else if play {
        Ok(JsPlayMode::Play)
    } else {
        Ok(JsPlayMode::Pause)
    }
}

/// The state after a lifecycle transition of kind `kind`.
pub open spec fn after_transition(t: TrackModel, kind: JsTrackHandleEvent) -> TrackModel {
    match kind {
        JsTrackHandleEvent::Play => TrackModel { mode: JsPlayMode::Play, ..t },
        JsTrackHandleEvent::Pause => TrackModel { mode: JsPlayMode::Pause, ..t },
        JsTrackHandleEvent::End => TrackModel { mode: JsPlayMode::End, ..t },
        JsTrackHandleEvent::Error => TrackModel { mode: JsPlayMode::Errored, ..t },
        JsTrackHandleEvent::Loop => t,
        JsTrackHandleEvent::Preparing => TrackModel { ready: JsReadyState::Preparing, ..t },
        JsTrackHandleEvent::Playable => TrackModel { ready: JsReadyState::Playable, ..t },
    }
}

/// The position after a seek to `timecode`.
pub open spec fn seek_result(seekable: bool, duration: Option<u32>, timecode: u32) -> Result<u32, VoiceError> {
    if !seekable {
        Err(VoiceError::SeekUnsupported)
    } else if duration matches Some(d) && timecode > d {
        Err(VoiceError::InvalidPosition)
    } else {
        Ok(timecode)
    }
}

impl TrackController {
    /// A track at the start of a source, paused and not yet prepared, at
    /// full volume.
    pub fn new(duration: Option<u32>, seekable: bool) -> (r: TrackController)
        ensures
            r@ == (TrackModel {
                position: 0,
                play_time: 0,
                mode: JsPlayMode::Pause,
                volume: 1000,
                ready: JsReadyState::Uninitialised,
            }),
            r.duration == duration,
            r.seekable == seekable,
            r.playing.error is None,
            r.events.subscriptions@.len() == 0,
            r.events.queue@.len() == 0,
    {
        TrackController {
            position: 0,
            play_time: 0,
            playing: JsTrackStatePlayingObject { value: JsPlayMode::Pause, error: None },
            volume: 1000,
            ready: JsReadyState::Uninitialised,
            duration,
            seekable,
            events: EventDispatcher::new(),
        }
    }

    fn set_mode(&mut self, play: bool) -> (r: Result<(), VoiceError>)
        ensures
            toggled(old(self).playing.value, play) matches Ok(m) ==> r is Ok && final(self)@ == (
            TrackModel { mode: m, ..old(self)@ }),
            toggled(old(self).playing.value, play) matches Err(e) ==> r == Err::<(), VoiceError>(e)
                && final(self)@ == old(self)@,
            final(self).duration == old(self).duration,
            final(self).seekable == old(self).seekable,
            final(self).events.subscriptions@ == old(self).events.subscriptions@,
            final(self).events.queue@ == old(self).events.queue@ + if r is Ok && old(self).playing.value
                != toggled(old(self).playing.value, play)->Ok_0 {
                matching(
                    old(self).events.subscriptions@,
                    if play {
                        JsTrackHandleEvent::Play
                    } else {
                        JsTrackHandleEvent::Pause
                    },
                )
            } else {
                Seq::empty()
            },
    {
        let m = self.playing.value;
        if m == JsPlayMode::Stop || m == JsPlayMode::End || m == JsPlayMode::Errored {
            return Err(VoiceError::InvalidTransition);
        }
        let target = if play {
            JsPlayMode::Play
        } else {
            JsPlayMode::Pause
        };
        if m != target {
            self.playing = JsTrackStatePlayingObject { value: target, error: None };
            let kind = if play {
                JsTrackHandleEvent::Play
            } else {
                JsTrackHandleEvent::Pause
            };
            self.events.fire(kind);
        } else {
            assert(self.events.queue@ =~= old(self).events.queue@ + Seq::empty());
        }
        Ok(())
    }

    /// Resumes the track; a track in a terminal mode refuses. A change of
    /// mode notifies the `Play` subscribers.
    pub fn play(&mut self) -> (r: Result<(), VoiceError>)
        ensures
            toggled(old(self).playing.value, true) matches Ok(m) ==> r is Ok && final(self)@ == (
            TrackModel { mode: m, ..old(self)@ }),
            toggled(old(self).playing.value, true) matches Err(e) ==> r == Err::<(), VoiceError>(e)
                && final(self)@ == old(self)@,
            final(self).events.subscriptions@ == old(self).events.subscriptions@,
            final(self).events.queue@ == old(self).events.queue@ + if r is Ok && old(self).playing.value
                != JsPlayMode::Play {
                matching(old(self).events.subscriptions@, JsTrackHandleEvent::Play)
            } else {
                Seq::empty()
            },
    {
        self.set_mode(true)
    }

    /// Pauses the track; a track in a terminal mode refuses. A change of
    /// mode notifies the `Pause` subscribers.
    pub fn pause(&mut self) -> (r: Result<(), VoiceError>)
        ensures
            toggled(old(self).playing.value, false) matches Ok(m) ==> r is Ok && final(self)@ == (
            TrackModel { mode: m, ..old(self)@ }),
            toggled(old(self).playing.value, false) matches Err(e) ==> r == Err::<(), VoiceError>(e)
                && final(self)@ == old(self)@,
            final(self).events.subscriptions@ == old(self).events.subscriptions@,
            final(self).events.queue@ == old(self).events.queue@ + if r is Ok && old(self).playing.value
                != JsPlayMode::Pause {
                matching(old(self).events.subscriptions@, JsTrackHandleEvent::Pause)
            } else {
                Seq::empty()
            },
    {
        self.set_mode(false)
    }

    /// Sets the volume, in thousandths; above the ceiling it is refused, not
    /// clamped.
    pub fn set_volume(&mut self, volume: u32) -> (r: Result<(), VoiceError>)
        ensures
            volume <= MAX_VOLUME ==> r is Ok && final(self)@ == (TrackModel { volume, ..old(self)@ }),
            volume > MAX_VOLUME ==> r == Err::<(), VoiceError>(VoiceError::OutOfRange) && final(self)@
                == old(self)@,
            final(self).events.subscriptions@ == old(self).events.subscriptions@,
            final(self).events.queue@ == old(self).events.queue@,
    {
        if volume > MAX_VOLUME {
            Err(VoiceError::OutOfRange)
        } else {
            self.volume = volume;
            Ok(())
        }
    }

    /// Moves to `timecode` milliseconds and returns the new position. A
    /// source that cannot seek, or a position past its known duration, is
    /// refused. The host either waits for the stream to reposition or not;
    /// the decision is the same.
    pub fn seek(&mut self, timecode: u32) -> (r: Result<u32, VoiceError>)
        ensures
            r == seek_result(old(self).seekable, old(self).duration, timecode),
            r matches Ok(p) ==> final(self)@ == (TrackModel { position: p, ..old(self)@ }),
            r is Err ==> final(self)@ == old(self)@,
            final(self).events.subscriptions@ == old(self).events.subscriptions@,
            final(self).events.queue@ == old(self).events.queue@,
    {
        if !self.seekable {
            return Err(VoiceError::SeekUnsupported);
        }
        if let Some(d) = self.duration {
            if timecode > d {
                return Err(VoiceError::InvalidPosition);
            }
        }
        self.position = timecode;
        Ok(timecode)
    }

    /// The playback pipeline reports a lifecycle transition; `detail`
    /// describes an error. A track in a terminal mode has no further
    /// transitions: the report is dropped. Otherwise the state follows the
    /// transition and every subscriber to its kind is notified once.
    pub fn record(&mut self, kind: JsTrackHandleEvent, detail: &str)
        ensures
            is_terminal(old(self).playing.value) ==> final(self)@ == old(self)@ && final(self).events.queue@
                == old(self).events.queue@,
            !is_terminal(old(self).playing.value) ==> final(self)@ == after_transition(old(self)@, kind)
                && final(self).events.queue@ == old(self).events.queue@ + matching(
                old(self).events.subscriptions@,
                kind,
            ),
            !is_terminal(old(self).playing.value) && kind == JsTrackHandleEvent::Error ==> (final(
                self).playing.error matches Some(e) && e@ == error_prefix() + detail@),
            final(self).events.subscriptions@ == old(self).events.subscriptions@,
    {
        let m = self.playing.value;
        if m == JsPlayMode::Stop || m == JsPlayMode::End || m == JsPlayMode::Errored {
            return;
        }
        match kind {
            JsTrackHandleEvent::Play => {
                self.playing = JsTrackStatePlayingObject::from_mode(JsPlayMode::Play, detail);
            },
            JsTrackHandleEvent::Pause => {
                self.playing = JsTrackStatePlayingObject::from_mode(JsPlayMode::Pause, detail);
            },
            JsTrackHandleEvent::End => {
                self.playing = JsTrackStatePlayingObject::from_mode(JsPlayMode::End, detail);
            },
            JsTrackHandleEvent::Error => {
                self.playing = JsTrackStatePlayingObject::from_mode(JsPlayMode::Errored, detail);
            },
            JsTrackHandleEvent::Loop => {},
            JsTrackHandleEvent::Preparing => {
                self.ready = JsReadyState::Preparing;
            },
            JsTrackHandleEvent::Playable => {
                self.ready = JsReadyState::Playable;
            },
        }
        self.events.fire(kind);
    }

    /// A consistent snapshot of the whole state.
    pub fn get_state(&self) -> (r: JsTrackState)
        ensures
            r.position == self.position,
            r.play_time == self.play_time,
            r.playing.value == self.playing.value,
            r.playing.error == self.playing.error,
            r.volume == self.volume,
            r.ready == self.ready,
    {
        let error = match &self.playing.error {
            Some(e) => Some(e.clone()),
            None => None,
        };
        JsTrackState {
            position: self.position,
            playing: JsTrackStatePlayingObject { value: self.playing.value, error },
            play_time: self.play_time,
            volume: self.volume,
            ready: self.ready,
        }
    }
}

/// Transitions are notified in the order they happen: after two of them,
/// the queue holds the first one's notifications and then the second's, one
/// for each subscription to its kind; in particular two subscriptions to the
/// same kind each get one notification per occurrence.
pub proof fn lemma_notifications_in_order(
    subs: Seq<Subscription>,
    queue: Seq<Subscription>,
    first: JsTrackHandleEvent,
    second: JsTrackHandleEvent,
    a: u64,
    b: u64,
)
    ensures
        (queue + matching(subs, first)) + matching(subs, second) == queue + (matching(subs, first)
            + matching(subs, second)),
        matching(subs.push(Subscription { event: second, listener: a }).push(
            Subscription { event: second, listener: b },
        ), second) == matching(subs, second).push(Subscription { event: second, listener: a }).push(
            Subscription { event: second, listener: b },
        ),
{
    let s1 = subs.push(Subscription { event: second, listener: a });
    let s2 = s1.push(Subscription { event: second, listener: b });
    assert(s2.drop_last() =~= s1);
    assert(s1.drop_last() =~= subs);
    assert(matching(s1, second) == matching(subs, second).push(Subscription { event: second, listener: a }));
    assert(matching(s2, second) == matching(s1, second).push(Subscription { event: second, listener: b }));
    assert((queue + matching(subs, first)) + matching(subs, second) =~= queue + (matching(subs, first)
        + matching(subs, second)));
}

} // verus!
