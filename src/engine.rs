use vstd::prelude::*;

use crate::event::{PlayerEvent, SinkStatus, TrackId};

verus! {

/// What the engine knows of a track whose decoder is open.
#[derive(PartialEq, Eq, Structural, Clone, Copy, Debug)]
pub struct LoadedTrack {
    pub duration_ms: u32,
    pub stream_position_ms: u32,
    pub bytes_per_second: usize,
    pub is_explicit: bool,
}

/// The engine's state; the decoder and stream of the track in it are held by the caller.
#[derive(PartialEq, Eq, Structural, Clone, Copy, Debug)]
pub enum PlayerState {
    Stopped,
    Loading { track_id: TrackId, play_request_id: u64, start_playback: bool },
    Paused {
        track_id: TrackId,
        play_request_id: u64,
        track: LoadedTrack,
        suggested_to_preload_next_track: bool,
    },
    Playing {
        track_id: TrackId,
        play_request_id: u64,
        track: LoadedTrack,
        suggested_to_preload_next_track: bool,
        nominal_start_reported: bool,
    },
    EndOfTrack { track_id: TrackId, play_request_id: u64, track: LoadedTrack },
}

/// The slot for the next track.
#[derive(PartialEq, Eq, Structural, Clone, Copy, Debug)]
pub enum PlayerPreload {
    Empty,
    Loading { track_id: TrackId },
    Ready { track_id: TrackId, track: LoadedTrack },
}

/// Work the caller performs, in order, after a step of the engine.
#[derive(PartialEq, Eq, Structural, Clone, Copy, Debug)]
pub enum Effect {
    /// Deliver an event to every subscriber.
    Event(PlayerEvent),
    /// Tell the sink observer that the sink runs, then start the sink.
    StartSink,
    /// Stop the sink, then tell the sink observer its new status.
    StopSink(SinkStatus),
    /// Tell the sink observer the sink's new status; the sink itself is already stopped.
    NotifySink(SinkStatus),
    /// Start a loader for the track now in `Loading`.
    StartLoader { track_id: TrackId, position_ms: u32 },
    /// The preload's pending loader becomes the loader of the track now in `Loading`.
    AdoptPreloadLoader,
    /// The preloaded track becomes the current track.
    AdoptPreloadedTrack,
    /// Drop whatever the preload slot holds.
    DiscardPreload,
    /// Start a loader for the preload slot, from the start of the track.
    StartPreloader { track_id: TrackId },
}

/// Where the track of a load request comes from.
#[derive(PartialEq, Eq, Structural, Clone, Copy, Debug)]
pub enum LoadSource {
    /// The track that just ended is played again.
    EndedTrack,
    /// The track that is playing or paused is reused.
    CurrentTrack,
    /// The preloaded track is taken over.
    PreloadedTrack,
    /// The pending preload becomes the load.
    PreloadLoader,
    /// A new loader is started.
    NewLoader,
}

/// What the decoder produced for one packet while playing.
#[derive(PartialEq, Eq, Structural, Clone, Copy, Debug)]
pub enum PacketOutcome {
    /// Decoded samples at a position; `lagging` says whether playback has fallen more
    /// than a second behind the position last reported.
    Samples { position_ms: u32, lagging: bool },
    /// A packet handed through undecoded, at a position.
    Passthrough { position_ms: u32 },
    /// A packet whose samples could not be decoded.
    SampleError,
    /// The decoder reached the end of the track.
    End,
    /// The decoder failed to produce a packet.
    DecodeError,
}

/// Whether playback lags more than a second behind a decoded position, `elapsed_ms` after
/// the start time last reported for the track. Playback that is ahead is not a lag: the
/// sink's buffer accounts for it.
pub fn position_lags(elapsed_ms: u64, position_ms: u32) -> (r: bool)
    ensures
        r == (elapsed_ms as int - position_ms as int > 1000),
{
    elapsed_ms > position_ms as u64 + 1000
}

/// Tracks within this many milliseconds of their end ask for the next track.
pub const PRELOAD_NEXT_TRACK_BEFORE_END_DURATION_MS: u32 = 30000;

/// The sink status and observer work that bringing the sink to a stop takes.
pub open spec fn stopped_sink(s: SinkStatus, temporarily: bool) -> (SinkStatus, Seq<Effect>) {
    match s {
        SinkStatus::Running => {
            let n = if temporarily {
                SinkStatus::TemporarilyClosed
            } else {
                SinkStatus::Closed
            };
            (n, seq![Effect::StopSink(n)])
        },
        SinkStatus::TemporarilyClosed => {
            if temporarily {
                (s, Seq::empty())
            } else {
                (SinkStatus::Closed, seq![Effect::NotifySink(SinkStatus::Closed)])
            }
        },
        SinkStatus::Closed => (s, Seq::empty()),
    }
}

/// The sink status and work that starting the sink takes.
pub open spec fn running_sink(s: SinkStatus) -> (SinkStatus, Seq<Effect>) {
    if s == SinkStatus::Running {
        (s, Seq::empty())
    } else {
        (SinkStatus::Running, seq![Effect::StartSink])
    }
}

/// The events among a sequence of effects, in order.
pub open spec fn events_of(fx: Seq<Effect>) -> Seq<PlayerEvent>
    decreases fx.len(),
{
    if fx.len() == 0 {
        Seq::empty()
    } else {
        let rest = events_of(fx.drop_last());
        match fx.last() {
            Effect::Event(e) => rest.push(e),
            _ => rest,
        }
    }
}

/// The track the state refers to, if any.
pub open spec fn state_track_id(st: PlayerState) -> Option<TrackId> {
    match st {
        PlayerState::Stopped => None,
        PlayerState::Loading { track_id, .. } => Some(track_id),
        PlayerState::Paused { track_id, .. } => Some(track_id),
        PlayerState::Playing { track_id, .. } => Some(track_id),
        PlayerState::EndOfTrack { track_id, .. } => Some(track_id),
    }
}

/// The load request the state belongs to, if any.
pub open spec fn state_request_id(st: PlayerState) -> Option<u64> {
    match st {
        PlayerState::Stopped => None,
        PlayerState::Loading { play_request_id, .. } => Some(play_request_id),
        PlayerState::Paused { play_request_id, .. } => Some(play_request_id),
        PlayerState::Playing { play_request_id, .. } => Some(play_request_id),
        PlayerState::EndOfTrack { play_request_id, .. } => Some(play_request_id),
    }
}

/// The open track of the state, if any.
pub open spec fn state_track(st: PlayerState) -> Option<LoadedTrack> {
    match st {
        PlayerState::Paused { track, .. } => Some(track),
        PlayerState::Playing { track, .. } => Some(track),
        PlayerState::EndOfTrack { track, .. } => Some(track),
        _ => None,
    }
}

/// The track after a seek to `position_ms` was attempted where one was needed.
pub open spec fn seeked(t: LoadedTrack, position_ms: u32, seek_ok: bool) -> LoadedTrack {
    if t.stream_position_ms != position_ms && seek_ok {
        LoadedTrack { stream_position_ms: position_ms, ..t }
    } else {
        t
    }
}

/// The player engine: state, preload slot, and sink status, driven by commands and by
/// the outcomes of the work it hands out.
#[derive(PartialEq, Eq, Structural, Clone, Copy, Debug)]
pub struct PlayerEngine {
    pub state: PlayerState,
    pub preload: PlayerPreload,
    pub sink_status: SinkStatus,
    /// Whether the sink keeps running from one track into the next.
    pub gapless: bool,
    /// Whether automatic normalisation uses album gain rather than track gain.
    pub auto_normalise_as_album: bool,
}

impl PlayerEngine {
    pub open spec fn with_sink(self, s: SinkStatus) -> PlayerEngine {
        PlayerEngine { sink_status: s, ..self }
    }

    /// The engine and work after `start_playback`.
    pub open spec fn after_start(
        self,
        track_id: TrackId,
        play_request_id: u64,
        t: LoadedTrack,
        play: bool,
    ) -> (PlayerEngine, Seq<Effect>) {
        if play {
            let (s, fx) = running_sink(self.sink_status);
            (
                PlayerEngine {
                    state: PlayerState::Playing {
                        track_id,
                        play_request_id,
                        track: t,
                        suggested_to_preload_next_track: false,
                        nominal_start_reported: true,
                    },
                    sink_status: s,
                    ..self
                },
                fx.push(
                    Effect::Event(
                        PlayerEvent::Playing {
                            play_request_id,
                            track_id,
                            position_ms: t.stream_position_ms,
                            duration_ms: t.duration_ms,
                        },
                    ),
                ),
            )
        } else {
            let (s, fx) = stopped_sink(self.sink_status, false);
            (
                PlayerEngine {
                    state: PlayerState::Paused {
                        track_id,
                        play_request_id,
                        track: t,
                        suggested_to_preload_next_track: false,
                    },
                    sink_status: s,
                    ..self
                },
                fx.push(
                    Effect::Event(
                        PlayerEvent::Paused {
                            play_request_id,
                            track_id,
                            position_ms: t.stream_position_ms,
                            duration_ms: t.duration_ms,
                        },
                    ),
                ),
            )
        }
    }

    pub fn new(gapless: bool) -> (r: PlayerEngine)
        ensures
            r == (PlayerEngine {
                state: PlayerState::Stopped,
                preload: PlayerPreload::Empty,
                sink_status: SinkStatus::Closed,
                gapless,
                auto_normalise_as_album: false,
            }),
    {
        PlayerEngine {
            state: PlayerState::Stopped,
            preload: PlayerPreload::Empty,
            sink_status: SinkStatus::Closed,
            gapless,
            auto_normalise_as_album: false,
        }
    }

    fn ensure_sink_running(&mut self, fx: &mut Vec<Effect>)
        ensures
            *final(self) == old(self).with_sink(running_sink(old(self).sink_status).0),
            final(fx)@ == old(fx)@ + running_sink(old(self).sink_status).1,
    {
        if self.sink_status != SinkStatus::Running {
            fx.push(Effect::StartSink);
            self.sink_status = SinkStatus::Running;
        }
        assert(final(fx)@ =~= old(fx)@ + running_sink(old(self).sink_status).1);
    }

    fn ensure_sink_stopped(&mut self, temporarily: bool, fx: &mut Vec<Effect>)
        ensures
            *final(self) == old(self).with_sink(stopped_sink(old(self).sink_status, temporarily).0),
            final(fx)@ == old(fx)@ + stopped_sink(old(self).sink_status, temporarily).1,
    {
        match self.sink_status {
            SinkStatus::Running => {
                let n = if temporarily {
                    SinkStatus::TemporarilyClosed
                } else {
                    SinkStatus::Closed
                };
                self.sink_status = n;
                fx.push(Effect::StopSink(n));
            },
            SinkStatus::TemporarilyClosed => {
                if !temporarily {
                    self.sink_status = SinkStatus::Closed;
                    fx.push(Effect::NotifySink(SinkStatus::Closed));
                }
            },
            SinkStatus::Closed => {},
        }
        assert(final(fx)@ =~= old(fx)@ + stopped_sink(old(self).sink_status, temporarily).1);
    }

    fn start_playback(
        &mut self,
        track_id: TrackId,
        play_request_id: u64,
        t: LoadedTrack,
        play: bool,
        fx: &mut Vec<Effect>,
    )
        ensures
            *final(self) == old(self).after_start(track_id, play_request_id, t, play).0,
            final(fx)@ == old(fx)@ + old(self).after_start(track_id, play_request_id, t, play).1,
    {
        if play {
            self.ensure_sink_running(fx);
            fx.push(
                Effect::Event(
                    PlayerEvent::Playing {
                        play_request_id,
                        track_id,
                        position_ms: t.stream_position_ms,
                        duration_ms: t.duration_ms,
                    },
                ),
            );
            self.state =
            PlayerState::Playing {
                track_id,
                play_request_id,
                track: t,
                suggested_to_preload_next_track: false,
                nominal_start_reported: true,
            };
        } else {
            self.ensure_sink_stopped(false, fx);
            self.state =
            PlayerState::Paused {
                track_id,
                play_request_id,
                track: t,
                suggested_to_preload_next_track: false,
            };
            fx.push(
                Effect::Event(
                    PlayerEvent::Paused {
                        play_request_id,
                        track_id,
                        position_ms: t.stream_position_ms,
                        duration_ms: t.duration_ms,
                    },
                ),
            );
        }
        assert(final(fx)@ =~= old(fx)@ + old(self).after_start(track_id, play_request_id, t, play).1);
    }

    /// Where a load request for `track_id` at `position_ms` takes its track from.
    pub open spec fn spec_load_source(self, track_id: TrackId, position_ms: u32) -> LoadSource {
        match self.state {
            PlayerState::EndOfTrack { track_id: t, .. } if t == track_id => LoadSource::EndedTrack,
            PlayerState::Playing { track_id: t, .. } if t == track_id => LoadSource::CurrentTrack,
            PlayerState::Paused { track_id: t, .. } if t == track_id => LoadSource::CurrentTrack,
            _ => match self.preload {
                PlayerPreload::Ready { track_id: t, .. } if t == track_id => LoadSource::PreloadedTrack,
                PlayerPreload::Loading { track_id: t } if t == track_id && position_ms == 0 => {
                    LoadSource::PreloadLoader
                },
                _ => LoadSource::NewLoader,
            },
        }
    }

    /// The open track that a load request reuses, for the sources that reuse one.
    pub open spec fn reused_track(self, source: LoadSource) -> LoadedTrack {
        match source {
            LoadSource::PreloadedTrack => match self.preload {
                PlayerPreload::Ready { track, .. } => track,
                _ => arbitrary(),
            },
            _ => state_track(self.state).unwrap(),
        }
    }

    /// Whether a load request needs a seek of the reused track's decoder first.
    pub open spec fn spec_load_needs_seek(self, track_id: TrackId, position_ms: u32) -> bool {
        let source = self.spec_load_source(track_id, position_ms);
        match source {
            LoadSource::EndedTrack | LoadSource::CurrentTrack | LoadSource::PreloadedTrack => {
                self.reused_track(source).stream_position_ms != position_ms
            },
            _ => false,
        }
    }

    /// The event that opens every load request.
    pub open spec fn load_announcement(
        self,
        track_id: TrackId,
        play_request_id: u64,
        position_ms: u32,
    ) -> PlayerEvent {
        match state_track_id(self.state) {
            Some(old_track_id) => PlayerEvent::Changed { old_track_id, new_track_id: track_id },
            None => PlayerEvent::Started { play_request_id, track_id, position_ms },
        }
    }

    /// The engine and work of a load request up to its announcement; the preload slot is
    /// emptied, since every path of a load takes or drops what it holds.
    pub open spec fn after_announce(
        self,
        track_id: TrackId,
        play_request_id: u64,
        play: bool,
        position_ms: u32,
    ) -> (PlayerEngine, Seq<Effect>) {
        let (s1, fx1) = if self.gapless {
            (self.sink_status, Seq::<Effect>::empty())
        } else {
            stopped_sink(self.sink_status, play)
        };
        (
            PlayerEngine { sink_status: s1, preload: PlayerPreload::Empty, ..self },
            fx1.push(Effect::Event(self.load_announcement(track_id, play_request_id, position_ms))),
        )
    }

    /// The engine and work of entering `Loading`; `adopt` says whether the pending
    /// preload becomes the loader.
    pub open spec fn after_loading(
        self,
        track_id: TrackId,
        play_request_id: u64,
        play: bool,
        position_ms: u32,
        adopt: bool,
    ) -> (PlayerEngine, Seq<Effect>) {
        let (s2, fx) = stopped_sink(self.sink_status, play);
        let loading = Effect::Event(PlayerEvent::Loading { play_request_id, track_id, position_ms });
        let tail = if adopt {
            seq![loading, Effect::AdoptPreloadLoader]
        } else {
            seq![loading, Effect::DiscardPreload, Effect::StartLoader { track_id, position_ms }]
        };
        (
            PlayerEngine {
                state: PlayerState::Loading { track_id, play_request_id, start_playback: play },
                sink_status: s2,
                ..self
            },
            fx + tail,
        )
    }

    /// The engine and work after a load request; `seek_ok` is the outcome of the seek that
    /// `load_needs_seek` asked for, and is not read otherwise.
    pub open spec fn after_load(
        self,
        track_id: TrackId,
        play_request_id: u64,
        play: bool,
        position_ms: u32,
        seek_ok: bool,
    ) -> (PlayerEngine, Seq<Effect>) {
        let (e1, fx2) = self.after_announce(track_id, play_request_id, play, position_ms);
        let source = self.spec_load_source(track_id, position_ms);
        match source {
            LoadSource::EndedTrack | LoadSource::CurrentTrack | LoadSource::PreloadedTrack => {
                let t = seeked(self.reused_track(source), position_ms, seek_ok);
                let adopt = if source == LoadSource::PreloadedTrack {
                    Effect::AdoptPreloadedTrack
                } else {
                    Effect::DiscardPreload
                };
                let (e3, fx3) = e1.after_start(track_id, play_request_id, t, play);
                (e3, fx2.push(adopt) + fx3)
            },
            _ => {
                let (e3, fx3) = e1.after_loading(
                    track_id,
                    play_request_id,
                    play,
                    position_ms,
                    source == LoadSource::PreloadLoader,
                );
                (e3, fx2 + fx3)
            },
        }
    }

    pub fn load_source(&self, track_id: TrackId, position_ms: u32) -> (r: LoadSource)
        ensures
            r == self.spec_load_source(track_id, position_ms),
    {
        match self.state {
            PlayerState::EndOfTrack { track_id: t, .. } if t == track_id => {
                return LoadSource::EndedTrack;
            },
            PlayerState::Playing { track_id: t, .. } if t == track_id => {
                return LoadSource::CurrentTrack;
            },
            PlayerState::Paused { track_id: t, .. } if t == track_id => {
                return LoadSource::CurrentTrack;
            },
            _ => {},
        }
        match self.preload {
            PlayerPreload::Ready { track_id: t, .. } if t == track_id => LoadSource::PreloadedTrack,
            PlayerPreload::Loading { track_id: t } if t == track_id && position_ms == 0 => {
                LoadSource::PreloadLoader
            },
            _ => LoadSource::NewLoader,
        }
    }

    /// Whether the decoder of the track that a load request reuses must seek first.
    pub fn load_needs_seek(&self, track_id: TrackId, position_ms: u32) -> (r: bool)
        ensures
            r == self.spec_load_needs_seek(track_id, position_ms),
    {
        let source = self.load_source(track_id, position_ms);
        match source {
            LoadSource::EndedTrack | LoadSource::CurrentTrack => match self.state {
                PlayerState::EndOfTrack { track, .. }
                | PlayerState::Playing { track, .. }
                | PlayerState::Paused { track, .. } => track.stream_position_ms != position_ms,
                _ => false,
            },
            LoadSource::PreloadedTrack => match self.preload {
                PlayerPreload::Ready { track, .. } => track.stream_position_ms != position_ms,
                _ => false,
            },
            _ => false,
        }
    }

    fn announce_load(
        &mut self,
        track_id: TrackId,
        play_request_id: u64,
        play: bool,
        position_ms: u32,
    ) -> (r: Vec<Effect>)
        ensures
            (*final(self), r@) == old(self).after_announce(
                track_id,
                play_request_id,
                play,
                position_ms,
            ),
    {
        let mut fx: Vec<Effect> = Vec::new();
        if !self.gapless {
            self.ensure_sink_stopped(play, &mut fx);
        }
        let announcement = match self.state {
            PlayerState::Stopped => PlayerEvent::Started { play_request_id, track_id, position_ms },
            PlayerState::Loading { track_id: old_track_id, .. }
            | PlayerState::Paused { track_id: old_track_id, .. }
            | PlayerState::Playing { track_id: old_track_id, .. }
            | PlayerState::EndOfTrack { track_id: old_track_id, .. } => PlayerEvent::Changed {
                old_track_id,
                new_track_id: track_id,
            },
        };
        fx.push(Effect::Event(announcement));
        self.preload = PlayerPreload::Empty;
        fx
    }

    fn enter_loading(
        &mut self,
        track_id: TrackId,
        play_request_id: u64,
        play: bool,
        position_ms: u32,
        adopt: bool,
        fx: &mut Vec<Effect>,
    )
        ensures
            *final(self) == old(self).after_loading(
                track_id,
                play_request_id,
                play,
                position_ms,
                adopt,
            ).0,
            final(fx)@ == old(fx)@ + old(self).after_loading(
                track_id,
                play_request_id,
                play,
                position_ms,
                adopt,
            ).1,
    {
        let ghost e0 = *self;
        let ghost fx0 = fx@;
        self.ensure_sink_stopped(play, fx);
        fx.push(Effect::Event(PlayerEvent::Loading { play_request_id, track_id, position_ms }));
        if adopt {
            fx.push(Effect::AdoptPreloadLoader);
        } else {
            fx.push(Effect::DiscardPreload);
            fx.push(Effect::StartLoader { track_id, position_ms });
        }
        self.state = PlayerState::Loading { track_id, play_request_id, start_playback: play };
        assert(fx@ =~= fx0 + e0.after_loading(track_id, play_request_id, play, position_ms, adopt).1);
    }

    /// Handles a load request. The caller has asked `load_needs_seek` first and, where it
    /// said so, seeked the reused decoder; `seek_ok` is whether that seek succeeded.
    pub fn handle_command_load(
        &mut self,
        track_id: TrackId,
        play_request_id: u64,
        play: bool,
        position_ms: u32,
        seek_ok: bool,
    ) -> (r: Vec<Effect>)
        ensures
            (*final(self), r@) == old(self).after_load(
                track_id,
                play_request_id,
                play,
                position_ms,
                seek_ok,
            ),
    {
        let source = self.load_source(track_id, position_ms);
        let reused: Option<LoadedTrack> = match source {
            LoadSource::EndedTrack | LoadSource::CurrentTrack => match self.state {
                PlayerState::EndOfTrack { track, .. }
                | PlayerState::Playing { track, .. }
                | PlayerState::Paused { track, .. } => Some(track),
                _ => None,
            },
            LoadSource::PreloadedTrack => match self.preload {
                PlayerPreload::Ready { track, .. } => Some(track),
                _ => None,
            },
            _ => None,
        };
        let mut fx = self.announce_load(track_id, play_request_id, play, position_ms);
        match reused {
            Some(t) => {
                let mut t = t;
                if t.stream_position_ms != position_ms && seek_ok {
                    t.stream_position_ms = position_ms;
                }
                if source == LoadSource::PreloadedTrack {
                    fx.push(Effect::AdoptPreloadedTrack);
                } else {
                    fx.push(Effect::DiscardPreload);
                }
                self.start_playback(track_id, play_request_id, t, play, &mut fx);
            },
            None => {
                let adopt = source == LoadSource::PreloadLoader;
                self.enter_loading(track_id, play_request_id, play, position_ms, adopt, &mut fx);
            },
        }
        fx
    }

    /// The engine and work after a preload request.
    pub open spec fn after_preload(self, track_id: TrackId) -> (PlayerEngine, Seq<Effect>) {
        let same_pending = match self.preload {
            PlayerPreload::Loading { track_id: t } => t == track_id,
            PlayerPreload::Ready { track_id: t, .. } => t == track_id,
            PlayerPreload::Empty => false,
        };
        let (e1, fx1) = if self.preload == PlayerPreload::Empty || same_pending {
            (self, Seq::<Effect>::empty())
        } else {
            (PlayerEngine { preload: PlayerPreload::Empty, ..self }, seq![Effect::DiscardPreload])
        };
        let current = match self.state {
            PlayerState::Playing { track_id: t, .. } => t == track_id,
            PlayerState::Paused { track_id: t, .. } => t == track_id,
            PlayerState::EndOfTrack { track_id: t, .. } => t == track_id,
            _ => false,
        };
        if !same_pending && !current {
            (
                PlayerEngine { preload: PlayerPreload::Loading { track_id }, ..e1 },
                fx1.push(Effect::StartPreloader { track_id }),
            )
        } else {
            (e1, fx1)
        }
    }

    /// Handles a request to get the next track ready while the current one plays.
    pub fn handle_command_preload(&mut self, track_id: TrackId) -> (r: Vec<Effect>)
        ensures
            (*final(self), r@) == old(self).after_preload(track_id),
    {
        let ghost e0 = *self;
        let mut fx: Vec<Effect> = Vec::new();
        let mut preload_track = true;
        match self.preload {
            PlayerPreload::Loading { track_id: t } | PlayerPreload::Ready { track_id: t, .. } => {
                if t == track_id {
                    preload_track = false;
                } else {
                    self.preload = PlayerPreload::Empty;
                    fx.push(Effect::DiscardPreload);
                }
            },
            PlayerPreload::Empty => {},
        }
        match self.state {
            PlayerState::Playing { track_id: t, .. }
            | PlayerState::Paused { track_id: t, .. }
            | PlayerState::EndOfTrack { track_id: t, .. } => {
                if t == track_id {
                    preload_track = false;
                }
            },
            _ => {},
        }
        if preload_track {
            self.preload = PlayerPreload::Loading { track_id };
            fx.push(Effect::StartPreloader { track_id });
        }
        assert(fx@ =~= e0.after_preload(track_id).1);
        fx
    }

    /// The engine and work after a play request.
    pub open spec fn after_play(self) -> (PlayerEngine, Seq<Effect>) {
        match self.state {
            PlayerState::Paused {
                track_id,
                play_request_id,
                track,
                suggested_to_preload_next_track,
            } => {
                let (s, fx) = running_sink(self.sink_status);
                (
                    PlayerEngine {
                        state: PlayerState::Playing {
                            track_id,
                            play_request_id,
                            track,
                            suggested_to_preload_next_track,
                            nominal_start_reported: false,
                        },
                        sink_status: s,
                        ..self
                    },
                    seq![
                        Effect::Event(
                            PlayerEvent::Playing {
                                play_request_id,
                                track_id,
                                position_ms: track.stream_position_ms,
                                duration_ms: track.duration_ms,
                            },
                        ),
                    ] + fx,
                )
            },
            _ => (self, Seq::empty()),
        }
    }

    /// Resumes a paused track; in any other state nothing changes.
    pub fn handle_play(&mut self) -> (r: Vec<Effect>)
        ensures
            (*final(self), r@) == old(self).after_play(),
    {
        let ghost e0 = *self;
        let mut fx: Vec<Effect> = Vec::new();
        if let PlayerState::Paused { track_id, play_request_id, track, .. } = self.state {
            self.state.paused_to_playing();
            fx.push(
                Effect::Event(
                    PlayerEvent::Playing {
                        play_request_id,
                        track_id,
                        position_ms: track.stream_position_ms,
                        duration_ms: track.duration_ms,
                    },
                ),
            );
            self.ensure_sink_running(&mut fx);
        }
        assert(fx@ =~= e0.after_play().1);
        fx
    }

    /// The engine and work after a pause request.
    pub open spec fn after_pause(self) -> (PlayerEngine, Seq<Effect>) {
        match self.state {
            PlayerState::Playing {
                track_id,
                play_request_id,
                track,
                suggested_to_preload_next_track,
                ..
            } => {
                let (s, fx) = stopped_sink(self.sink_status, false);
                (
                    PlayerEngine {
                        state: PlayerState::Paused {
                            track_id,
                            play_request_id,
                            track,
                            suggested_to_preload_next_track,
                        },
                        sink_status: s,
                        ..self
                    },
                    fx.push(
                        Effect::Event(
                            PlayerEvent::Paused {
                                play_request_id,
                                track_id,
                                position_ms: track.stream_position_ms,
                                duration_ms: track.duration_ms,
                            },
                        ),
                    ),
                )
            },
            _ => (self, Seq::empty()),
        }
    }

    /// Pauses a playing track; in any other state nothing changes.
    pub fn handle_pause(&mut self) -> (r: Vec<Effect>)
        ensures
            (*final(self), r@) == old(self).after_pause(),
    {
        let ghost e0 = *self;
        let mut fx: Vec<Effect> = Vec::new();
        if let PlayerState::Playing { track_id, play_request_id, track, .. } = self.state {
            self.state.playing_to_paused();
            self.ensure_sink_stopped(false, &mut fx);
            fx.push(
                Effect::Event(
                    PlayerEvent::Paused {
                        play_request_id,
                        track_id,
                        position_ms: track.stream_position_ms,
                        duration_ms: track.duration_ms,
                    },
                ),
            );
        }
        assert(fx@ =~= e0.after_pause().1);
        fx
    }

    /// The engine and work after a stop request.
    pub open spec fn after_stop(self) -> (PlayerEngine, Seq<Effect>) {
        match (state_track_id(self.state), state_request_id(self.state)) {
            (Some(track_id), Some(play_request_id)) => {
                let (s, fx) = stopped_sink(self.sink_status, false);
                (
                    PlayerEngine { state: PlayerState::Stopped, sink_status: s, ..self },
                    fx.push(Effect::Event(PlayerEvent::Stopped { play_request_id, track_id })),
                )
            },
            _ => (self, Seq::empty()),
        }
    }

    /// Stops whatever the engine is doing.
    pub fn handle_player_stop(&mut self) -> (r: Vec<Effect>)
        ensures
            (*final(self), r@) == old(self).after_stop(),
    {
        let mut fx: Vec<Effect> = Vec::new();
        match self.state {
            PlayerState::Playing { track_id, play_request_id, .. }
            | PlayerState::Paused { track_id, play_request_id, .. }
            | PlayerState::EndOfTrack { track_id, play_request_id, .. }
            | PlayerState::Loading { track_id, play_request_id, .. } => {
                self.ensure_sink_stopped(false, &mut fx);
                fx.push(Effect::Event(PlayerEvent::Stopped { play_request_id, track_id }));
                self.state = PlayerState::Stopped;
            },
            PlayerState::Stopped => {},
        }
        fx
    }

    /// The engine and work after a seek request. `seek_ok` is whether the decoder's seek
    /// succeeded; `prefetch_ok` whether the data needed to resume playing arrived (only
    /// read while playing).
    pub open spec fn after_seek(self, position_ms: u32, seek_ok: bool, prefetch_ok: bool) -> (
        PlayerEngine,
        Seq<Effect>,
    ) {
        match self.state {
            PlayerState::Playing {
                track_id,
                play_request_id,
                track,
                suggested_to_preload_next_track,
                nominal_start_reported,
            } => {
                let t = if seek_ok {
                    LoadedTrack { stream_position_ms: position_ms, ..track }
                } else {
                    track
                };
                let st = PlayerState::Playing {
                    track_id,
                    play_request_id,
                    track: t,
                    suggested_to_preload_next_track,
                    nominal_start_reported: nominal_start_reported || prefetch_ok,
                };
                let fx = if prefetch_ok {
                    seq![
                        Effect::Event(
                            PlayerEvent::Playing {
                                play_request_id,
                                track_id,
                                position_ms,
                                duration_ms: track.duration_ms,
                            },
                        ),
                    ]
                } else {
                    Seq::empty()
                };
                (PlayerEngine { state: st, ..self }, fx)
            },
            PlayerState::Paused {
                track_id,
                play_request_id,
                track,
                suggested_to_preload_next_track,
            } => {
                let t = if seek_ok {
                    LoadedTrack { stream_position_ms: position_ms, ..track }
                } else {
                    track
                };
                (
                    PlayerEngine {
                        state: PlayerState::Paused {
                            track_id,
                            play_request_id,
                            track: t,
                            suggested_to_preload_next_track,
                        },
                        ..self
                    },
                    seq![
                        Effect::Event(
                            PlayerEvent::Paused {
                                play_request_id,
                                track_id,
                                position_ms,
                                duration_ms: track.duration_ms,
                            },
                        ),
                    ],
                )
            },
            _ => (self, Seq::empty()),
        }
    }

    /// Handles a seek request, once the caller has seeked the decoder and, while playing,
    /// fetched ahead.
    pub fn handle_command_seek(&mut self, position_ms: u32, seek_ok: bool, prefetch_ok: bool) -> (r:
        Vec<Effect>)
        ensures
            (*final(self), r@) == old(self).after_seek(position_ms, seek_ok, prefetch_ok),
    {
        let ghost e0 = *self;
        let mut fx: Vec<Effect> = Vec::new();
        match self.state {
            PlayerState::Playing {
                track_id,
                play_request_id,
                track,
                suggested_to_preload_next_track,
                nominal_start_reported,
            } => {
                let mut t = track;
                if seek_ok {
                    t.stream_position_ms = position_ms;
                }
                self.state =
                PlayerState::Playing {
                    track_id,
                    play_request_id,
                    track: t,
                    suggested_to_preload_next_track,
                    nominal_start_reported: nominal_start_reported || prefetch_ok,
                };
                if prefetch_ok {
                    fx.push(
                        Effect::Event(
                            PlayerEvent::Playing {
                                play_request_id,
                                track_id,
                                position_ms,
                                duration_ms: track.duration_ms,
                            },
                        ),
                    );
                }
            },
            PlayerState::Paused {
                track_id,
                play_request_id,
                track,
                suggested_to_preload_next_track,
            } => {
                let mut t = track;
                if seek_ok {
                    t.stream_position_ms = position_ms;
                }
                self.state =
                PlayerState::Paused {
                    track_id,
                    play_request_id,
                    track: t,
                    suggested_to_preload_next_track,
                };
                fx.push(
                    Effect::Event(
                        PlayerEvent::Paused {
                            play_request_id,
                            track_id,
                            position_ms,
                            duration_ms: track.duration_ms,
                        },
                    ),
                );
            },
            _ => {},
        }
        assert(fx@ =~= e0.after_seek(position_ms, seek_ok, prefetch_ok).1);
        fx
    }

    /// The engine and work once the loader of the track in `Loading` has finished;
    /// `loaded` is its track, or `None` where the track could not be loaded.
    pub open spec fn after_loader(self, loaded: Option<LoadedTrack>) -> (PlayerEngine, Seq<Effect>) {
        match self.state {
            PlayerState::Loading { track_id, play_request_id, start_playback } => match loaded {
                Some(t) => self.after_start(track_id, play_request_id, t, start_playback),
                None => (
                    self,
                    seq![Effect::Event(PlayerEvent::Unavailable { play_request_id, track_id })],
                ),
            },
            _ => (self, Seq::empty()),
        }
    }

    /// Takes the outcome of the loader of the track in `Loading`. A failed load leaves the
    /// engine in `Loading` until the next request.
    pub fn handle_loader_result(&mut self, loaded: Option<LoadedTrack>) -> (r: Vec<Effect>)
        ensures
            (*final(self), r@) == old(self).after_loader(loaded),
    {
        let mut fx: Vec<Effect> = Vec::new();
        if let PlayerState::Loading { track_id, play_request_id, start_playback } = self.state {
            match loaded {
                Some(t) => {
                    self.start_playback(track_id, play_request_id, t, start_playback, &mut fx);
                    assert(fx@ =~= Seq::<Effect>::empty() + fx@);
                },
                None => {
                    fx.push(Effect::Event(PlayerEvent::Unavailable { play_request_id, track_id }));
                    assert(fx@ =~= seq![
                        Effect::Event(PlayerEvent::Unavailable { play_request_id, track_id }),
                    ]);
                },
            }
        }
        fx
    }

    /// The engine and work once the preload loader has finished.
    pub open spec fn after_preloader(self, loaded: Option<LoadedTrack>) -> (
        PlayerEngine,
        Seq<Effect>,
    ) {
        match self.preload {
            PlayerPreload::Loading { track_id } => match loaded {
                Some(t) => (
                    PlayerEngine { preload: PlayerPreload::Ready { track_id, track: t }, ..self },
                    seq![Effect::Event(PlayerEvent::Preloading { track_id })],
                ),
                None => {
                    let e = PlayerEngine { preload: PlayerPreload::Empty, ..self };
                    match self.state {
                        PlayerState::Playing { play_request_id, .. } | PlayerState::Paused {
                            play_request_id,
                            ..
                        } => (
                            e,
                            seq![
                                Effect::Event(
                                    PlayerEvent::Unavailable { play_request_id, track_id },
                                ),
                            ],
                        ),
                        _ => (e, Seq::empty()),
                    }
                },
            },
            _ => (self, Seq::empty()),
        }
    }

    /// Takes the outcome of the preload loader.
    pub fn handle_preload_result(&mut self, loaded: Option<LoadedTrack>) -> (r: Vec<Effect>)
        ensures
            (*final(self), r@) == old(self).after_preloader(loaded),
    {
        let ghost e0 = *self;
        let mut fx: Vec<Effect> = Vec::new();
        if let PlayerPreload::Loading { track_id } = self.preload {
            match loaded {
                Some(t) => {
                    fx.push(Effect::Event(PlayerEvent::Preloading { track_id }));
                    self.preload = PlayerPreload::Ready { track_id, track: t };
                },
                None => {
                    self.preload = PlayerPreload::Empty;
                    match self.state {
                        PlayerState::Playing { play_request_id, .. }
                        | PlayerState::Paused { play_request_id, .. } => {
                            fx.push(
                                Effect::Event(PlayerEvent::Unavailable { play_request_id, track_id }),
                            );
                        },
                        _ => {},
                    }
                },
            }
        }
        assert(fx@ =~= e0.after_preloader(loaded).1);
        fx
    }

    /// The engine and work after the decoder produced `outcome` while playing.
    pub open spec fn after_packet(self, outcome: PacketOutcome) -> (PlayerEngine, Seq<Effect>) {
        let (s, fx0) = running_sink(self.sink_status);
        let e = PlayerEngine { sink_status: s, ..self };
        match self.state {
            PlayerState::Playing {
                track_id,
                play_request_id,
                track,
                suggested_to_preload_next_track,
                nominal_start_reported,
            } => {
                let end_event = Effect::Event(PlayerEvent::EndOfTrack { play_request_id, track_id });
                match outcome {
                    PacketOutcome::Samples { position_ms, lagging } => {
                        if !nominal_start_reported || lagging {
                            (
                                PlayerEngine {
                                    state: PlayerState::Playing {
                                        track_id,
                                        play_request_id,
                                        track,
                                        suggested_to_preload_next_track,
                                        nominal_start_reported: true,
                                    },
                                    ..e
                                },
                                fx0.push(
                                    Effect::Event(
                                        PlayerEvent::Playing {
                                            play_request_id,
                                            track_id,
                                            position_ms,
                                            duration_ms: track.duration_ms,
                                        },
                                    ),
                                ),
                            )
                        } else {
                            (e, fx0)
                        }
                    },
                    PacketOutcome::Passthrough { position_ms } => (
                        PlayerEngine {
                            state: PlayerState::Playing {
                                track_id,
                                play_request_id,
                                track: LoadedTrack { stream_position_ms: position_ms, ..track },
                                suggested_to_preload_next_track,
                                nominal_start_reported,
                            },
                            ..e
                        },
                        fx0,
                    ),
                    _ => (
                        PlayerEngine {
                            state: PlayerState::EndOfTrack { track_id, play_request_id, track },
                            ..e
                        },
                        fx0.push(end_event),
                    ),
                }
            },
            _ => (e, fx0),
        }
    }

    /// Takes what the decoder produced while playing: reports the position where it has
    /// drifted, and ends the track where the decoder ran out or failed. A failure ends the
    /// request like the end of the stream does, so it is reported once.
    pub fn handle_packet(&mut self, outcome: PacketOutcome) -> (r: Vec<Effect>)
        requires
            old(self).state is Playing,
        ensures
            (*final(self), r@) == old(self).after_packet(outcome),
    {
        let ghost e0 = *self;
        let mut fx: Vec<Effect> = Vec::new();
        self.ensure_sink_running(&mut fx);
        assert(fx@ =~= running_sink(e0.sink_status).1);
        if let PlayerState::Playing {
            track_id,
            play_request_id,
            track,
            suggested_to_preload_next_track,
            nominal_start_reported,
        } = self.state {
            match outcome {
                PacketOutcome::Samples { position_ms, lagging } => {
                    if !nominal_start_reported || lagging {
                        self.state =
                        PlayerState::Playing {
                            track_id,
                            play_request_id,
                            track,
                            suggested_to_preload_next_track,
                            nominal_start_reported: true,
                        };
                        fx.push(
                            Effect::Event(
                                PlayerEvent::Playing {
                                    play_request_id,
                                    track_id,
                                    position_ms,
                                    duration_ms: track.duration_ms,
                                },
                            ),
                        );
                    }
                },
                PacketOutcome::Passthrough { position_ms } => {
                    let mut t = track;
                    t.stream_position_ms = position_ms;
                    self.state =
                    PlayerState::Playing {
                        track_id,
                        play_request_id,
                        track: t,
                        suggested_to_preload_next_track,
                        nominal_start_reported,
                    };
                },
                PacketOutcome::End | PacketOutcome::SampleError | PacketOutcome::DecodeError => {
                    self.state.playing_to_end_of_track();
                    fx.push(Effect::Event(PlayerEvent::EndOfTrack { play_request_id, track_id }));
                },
            }
        }
        fx
    }

    /// Whether the hint to preload the next track is due.
    pub open spec fn preload_hint_due(self, range_to_end_available: bool) -> bool {
        match self.state {
            PlayerState::Playing { track, suggested_to_preload_next_track, .. }
            | PlayerState::Paused { track, suggested_to_preload_next_track, .. } => {
                !suggested_to_preload_next_track && (track.duration_ms as int
                    - track.stream_position_ms as int) < PRELOAD_NEXT_TRACK_BEFORE_END_DURATION_MS
                    && range_to_end_available
            },
            _ => false,
        }
    }

    /// The state with the preload hint marked as given.
    pub open spec fn with_hint_given(self) -> PlayerEngine {
        match self.state {
            PlayerState::Playing {
                track_id,
                play_request_id,
                track,
                nominal_start_reported,
                ..
            } => PlayerEngine {
                state: PlayerState::Playing {
                    track_id,
                    play_request_id,
                    track,
                    suggested_to_preload_next_track: true,
                    nominal_start_reported,
                },
                ..self
            },
            PlayerState::Paused { track_id, play_request_id, track, .. } => PlayerEngine {
                state: PlayerState::Paused {
                    track_id,
                    play_request_id,
                    track,
                    suggested_to_preload_next_track: true,
                },
                ..self
            },
            _ => self,
        }
    }

    /// Emits the hint to preload the next track when the current one nears its end and
    /// the rest of its data is at hand; the hint is given once per track.
    pub fn check_preload_hint(&mut self, range_to_end_available: bool) -> (r: Vec<Effect>)
        ensures
            old(self).preload_hint_due(range_to_end_available) ==> *final(self)
                == old(self).with_hint_given() && r@ == seq![
                Effect::Event(
                    PlayerEvent::TimeToPreloadNextTrack {
                        play_request_id: state_request_id(old(self).state).unwrap(),
                        track_id: state_track_id(old(self).state).unwrap(),
                    },
                ),
            ],
            !old(self).preload_hint_due(range_to_end_available) ==> *final(self) == *old(self)
                && r@ == Seq::<Effect>::empty(),
    {
        let mut fx: Vec<Effect> = Vec::new();
        let due = match self.state {
            PlayerState::Playing { track, suggested_to_preload_next_track, .. }
            | PlayerState::Paused { track, suggested_to_preload_next_track, .. } => {
                !suggested_to_preload_next_track && (track.duration_ms as i64
                    - track.stream_position_ms as i64)
                    < PRELOAD_NEXT_TRACK_BEFORE_END_DURATION_MS as i64 && range_to_end_available
            },
            _ => false,
        };
        if due {
            match self.state {
                PlayerState::Playing {
                    track_id,
                    play_request_id,
                    track,
                    nominal_start_reported,
                    ..
                } => {
                    self.state =
                    PlayerState::Playing {
                        track_id,
                        play_request_id,
                        track,
                        suggested_to_preload_next_track: true,
                        nominal_start_reported,
                    };
                    fx.push(
                        Effect::Event(
                            PlayerEvent::TimeToPreloadNextTrack { play_request_id, track_id },
                        ),
                    );
                },
                PlayerState::Paused { track_id, play_request_id, track, .. } => {
                    self.state =
                    PlayerState::Paused {
                        track_id,
                        play_request_id,
                        track,
                        suggested_to_preload_next_track: true,
                    };
                    fx.push(
                        Effect::Event(
                            PlayerEvent::TimeToPreloadNextTrack { play_request_id, track_id },
                        ),
                    );
                },
                _ => {},
            }
        }
        assert(fx@ =~= (if due {
            seq![
                Effect::Event(
                    PlayerEvent::TimeToPreloadNextTrack {
                        play_request_id: state_request_id(self.state).unwrap(),
                        track_id: state_track_id(self.state).unwrap(),
                    },
                ),
            ]
        } else {
            Seq::<Effect>::empty()
        }));
        fx
    }

    /// Ends the current track early when it is explicit.
    pub fn skip_explicit_content(&self) -> (r: Vec<Effect>)
        ensures
            r@ == match self.state {
                PlayerState::Playing { track_id, play_request_id, track, .. }
                | PlayerState::Paused { track_id, play_request_id, track, .. } => {
                    if track.is_explicit {
                        seq![Effect::Event(PlayerEvent::EndOfTrack { play_request_id, track_id })]
                    } else {
                        Seq::<Effect>::empty()
                    }
                },
                _ => Seq::<Effect>::empty(),
            },
    {
        let mut fx: Vec<Effect> = Vec::new();
        match self.state {
            PlayerState::Playing { track_id, play_request_id, track, .. }
            | PlayerState::Paused { track_id, play_request_id, track, .. } => {
                if track.is_explicit {
                    fx.push(Effect::Event(PlayerEvent::EndOfTrack { play_request_id, track_id }));
                }
            },
            _ => {},
        }
        assert(fx@ =~= match self.state {
            PlayerState::Playing { track_id, play_request_id, track, .. }
            | PlayerState::Paused { track_id, play_request_id, track, .. } => {
                if track.is_explicit {
                    seq![Effect::Event(PlayerEvent::EndOfTrack { play_request_id, track_id })]
                } else {
                    Seq::<Effect>::empty()
                }
            },
            _ => Seq::<Effect>::empty(),
        });
        fx
    }

    /// Announces a new mixer volume.
    pub fn emit_volume_set_event(&self, volume: u16) -> (r: Vec<Effect>)
        ensures
            r@ == seq![Effect::Event(PlayerEvent::VolumeSet { volume })],
    {
        let mut fx: Vec<Effect> = Vec::new();
        fx.push(Effect::Event(PlayerEvent::VolumeSet { volume }));
        assert(fx@ =~= seq![Effect::Event(PlayerEvent::VolumeSet { volume })]);
        fx
    }

    pub fn set_auto_normalise_as_album(&mut self, setting: bool)
        ensures
            *final(self) == (PlayerEngine { auto_normalise_as_album: setting, ..*old(self) }),
    {
        self.auto_normalise_as_album = setting;
    }
}

impl PlayerState {
    /// A playing track that reached its end.
    pub fn playing_to_end_of_track(&mut self)
        requires
            *old(self) is Playing,
        ensures
            *final(self) == (PlayerState::EndOfTrack {
                track_id: state_track_id(*old(self)).unwrap(),
                play_request_id: state_request_id(*old(self)).unwrap(),
                track: state_track(*old(self)).unwrap(),
            }),
    {
        if let PlayerState::Playing { track_id, play_request_id, track, .. } = *self {
            *self = PlayerState::EndOfTrack { track_id, play_request_id, track };
        }
    }

    /// A paused track that resumes; its position is reported anew.
    pub fn paused_to_playing(&mut self)
        requires
            *old(self) is Paused,
        ensures
            match *old(self) {
                PlayerState::Paused {
                    track_id,
                    play_request_id,
                    track,
                    suggested_to_preload_next_track,
                } => *final(self) == (PlayerState::Playing {
                    track_id,
                    play_request_id,
                    track,
                    suggested_to_preload_next_track,
                    nominal_start_reported: false,
                }),
                _ => false,
            },
    {
        if let PlayerState::Paused {
            track_id,
            play_request_id,
            track,
            suggested_to_preload_next_track,
        } = *self {
            *self =
            PlayerState::Playing {
                track_id,
                play_request_id,
                track,
                suggested_to_preload_next_track,
                nominal_start_reported: false,
            };
        }
    }

    /// A playing track that pauses.
    pub fn playing_to_paused(&mut self)
        requires
            *old(self) is Playing,
        ensures
            match *old(self) {
                PlayerState::Playing {
                    track_id,
                    play_request_id,
                    track,
                    suggested_to_preload_next_track,
                    ..
                } => *final(self) == (PlayerState::Paused {
                    track_id,
                    play_request_id,
                    track,
                    suggested_to_preload_next_track,
                }),
                _ => false,
            },
    {
        if let PlayerState::Playing {
            track_id,
            play_request_id,
            track,
            suggested_to_preload_next_track,
            ..
        } = *self {
            *self =
            PlayerState::Paused { track_id, play_request_id, track, suggested_to_preload_next_track };
        }
    }

    pub fn is_playing(&self) -> (r: bool)
        ensures
            r == (*self is Playing),
    {
        matches!(self, PlayerState::Playing { .. })
    }

    pub fn is_loading(&self) -> (r: bool)
        ensures
            r == (*self is Loading),
    {
        matches!(self, PlayerState::Loading { .. })
    }

    pub fn is_stopped(&self) -> (r: bool)
        ensures
            r == (*self is Stopped),
    {
        matches!(self, PlayerState::Stopped)
    }
}

} // verus!
