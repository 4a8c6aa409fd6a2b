use vstd::prelude::*;

use crate::engine::{
    events_of, running_sink, state_request_id, state_track_id, stopped_sink, Effect,
    PlayerEngine, PlayerState, PacketOutcome, LoadedTrack,
};
use crate::event::{PlayerEvent, SinkStatus, TrackId};

verus! {

proof fn lemma_events_of_concat(a: Seq<Effect>, b: Seq<Effect>)
    ensures
        events_of(a + b) == events_of(a) + events_of(b),
    decreases b.len(),
{
    if b.len() == 0 {
        assert(a + b =~= a);
        assert(events_of(b) =~= Seq::<PlayerEvent>::empty());
        assert(events_of(a) + events_of(b) =~= events_of(a));
    } else {
        lemma_events_of_concat(a, b.drop_last());
        assert((a + b).drop_last() =~= a + b.drop_last());
        assert((a + b).last() == b.last());
        match b.last() {
            Effect::Event(x) => {
                assert(events_of(a) + events_of(b.drop_last()).push(x) =~= (events_of(a)
                    + events_of(b.drop_last())).push(x));
            },
            _ => {},
        }
    }
}

proof fn lemma_events_of_single(x: Effect)
    ensures
        events_of(seq![x]) == (match x {
            Effect::Event(e) => seq![e],
            _ => Seq::<PlayerEvent>::empty(),
        }),
{
    assert(seq![x].drop_last() =~= Seq::<Effect>::empty());
    assert(seq![x].last() == x);
    assert(events_of(Seq::<Effect>::empty()) =~= Seq::<PlayerEvent>::empty());
    assert(events_of(seq![x]) == match x {
        Effect::Event(e) => events_of(seq![x].drop_last()).push(e),
        _ => events_of(seq![x].drop_last()),
    });
    match x {
        Effect::Event(e) => {
            assert(Seq::<PlayerEvent>::empty().push(e) =~= seq![e]);
        },
        _ => {},
    }
}

proof fn lemma_sink_work_has_no_events(s: SinkStatus, temporarily: bool)
    ensures
        events_of(stopped_sink(s, temporarily).1) == Seq::<PlayerEvent>::empty(),
        events_of(running_sink(s).1) == Seq::<PlayerEvent>::empty(),
{
    lemma_events_of_single(Effect::StartSink);
    lemma_events_of_single(Effect::StopSink(SinkStatus::Closed));
    lemma_events_of_single(Effect::StopSink(SinkStatus::TemporarilyClosed));
    lemma_events_of_single(Effect::NotifySink(SinkStatus::Closed));
}

/// Every load request opens with `Started` (from a stopped engine, carrying the request's
/// id) or `Changed` (from the track held before to the requested one), ahead of any other
/// event about the request.
pub proof fn lemma_load_announced_first(
    e: PlayerEngine,
    track_id: TrackId,
    play_request_id: u64,
    play: bool,
    position_ms: u32,
    seek_ok: bool,
)
    ensures
        events_of(e.after_load(track_id, play_request_id, play, position_ms, seek_ok).1).len()
            > 0,
        events_of(e.after_load(track_id, play_request_id, play, position_ms, seek_ok).1)[0]
            == e.load_announcement(track_id, play_request_id, position_ms),
        e.state is Stopped ==> e.load_announcement(track_id, play_request_id, position_ms)
            == (PlayerEvent::Started { play_request_id, track_id, position_ms }),
        !(e.state is Stopped) ==> e.load_announcement(track_id, play_request_id, position_ms)
            == (PlayerEvent::Changed {
            old_track_id: state_track_id(e.state).unwrap(),
            new_track_id: track_id,
        }),
{
    let (e1, fx2) = e.after_announce(track_id, play_request_id, play, position_ms);
    let ann = Effect::Event(e.load_announcement(track_id, play_request_id, position_ms));
    let fx1 = if e.gapless {
        Seq::<Effect>::empty()
    } else {
        stopped_sink(e.sink_status, play).1
    };
    lemma_sink_work_has_no_events(e.sink_status, play);
    assert(events_of(Seq::<Effect>::empty()) =~= Seq::<PlayerEvent>::empty());
    assert(fx2 == fx1 + seq![ann]);
    lemma_events_of_concat(fx1, seq![ann]);
    lemma_events_of_single(ann);
    assert(events_of(fx2) =~= seq![e.load_announcement(track_id, play_request_id, position_ms)]);
    let full = e.after_load(track_id, play_request_id, play, position_ms, seek_ok).1;
    let rest = full.subrange(fx2.len() as int, full.len() as int);
    assert(full =~= fx2 + rest);
    lemma_events_of_concat(fx2, rest);
}

/// A seek to `position_ms` on a paused track, or on a playing one whose data arrived, is
/// answered by exactly one event, `Paused` or `Playing`, at exactly that position.
pub proof fn lemma_seek_reports_once(
    e: PlayerEngine,
    position_ms: u32,
    seek_ok: bool,
    prefetch_ok: bool,
)
    requires
        e.state is Paused || (e.state is Playing && prefetch_ok),
    ensures
        events_of(e.after_seek(position_ms, seek_ok, prefetch_ok).1).len() == 1,
        e.state is Paused ==> events_of(e.after_seek(position_ms, seek_ok, prefetch_ok).1)[0]
            is Paused,
        e.state is Playing ==> events_of(e.after_seek(position_ms, seek_ok, prefetch_ok).1)[0]
            is Playing,
        match events_of(e.after_seek(position_ms, seek_ok, prefetch_ok).1)[0] {
            PlayerEvent::Playing { position_ms: p, play_request_id, .. } => p == position_ms
                && Some(play_request_id) == state_request_id(e.state),
            PlayerEvent::Paused { position_ms: p, play_request_id, .. } => p == position_ms
                && Some(play_request_id) == state_request_id(e.state),
            _ => false,
        },
{
    let fx = e.after_seek(position_ms, seek_ok, prefetch_ok).1;
    assert(fx.len() == 1);
    lemma_events_of_single(fx[0]);
    assert(fx =~= seq![fx[0]]);
}

/// The engine has already given the hint to preload the next track for the current request.
pub open spec fn hint_given(e: PlayerEngine) -> bool {
    match e.state {
        PlayerState::Playing { suggested_to_preload_next_track, .. } => suggested_to_preload_next_track,
        PlayerState::Paused { suggested_to_preload_next_track, .. } => suggested_to_preload_next_track,
        _ => false,
    }
}

/// Whether the engine still plays or pauses the same request.
pub open spec fn same_request_open(a: PlayerEngine, b: PlayerEngine) -> bool {
    (b.state is Playing || b.state is Paused) && state_request_id(a.state) == state_request_id(
        b.state,
    )
}

/// The hint to preload the next track comes at most once per request: it comes only when
/// fewer than 30 s of the track remain, once given it is not due again, and no step other
/// than a new load request takes the mark away while the request plays or pauses.
pub proof fn lemma_preload_hint_once(
    e: PlayerEngine,
    range_to_end_available: bool,
    later_range: bool,
    outcome: PacketOutcome,
    position_ms: u32,
    seek_ok: bool,
    prefetch_ok: bool,
    loaded: Option<LoadedTrack>,
)
    ensures
        e.preload_hint_due(range_to_end_available) ==> match e.state {
            PlayerState::Playing { track, .. } | PlayerState::Paused { track, .. } => (
            track.duration_ms as int - track.stream_position_ms as int) < 30000,
            _ => false,
        },
        e.preload_hint_due(range_to_end_available) ==> hint_given(e.with_hint_given()),
        hint_given(e) ==> !e.preload_hint_due(later_range),
        hint_given(e) && same_request_open(e, e.after_play().0) ==> hint_given(e.after_play().0),
        hint_given(e) && same_request_open(e, e.after_pause().0) ==> hint_given(
            e.after_pause().0,
        ),
        hint_given(e) && same_request_open(e, e.after_seek(position_ms, seek_ok, prefetch_ok).0)
            ==> hint_given(e.after_seek(position_ms, seek_ok, prefetch_ok).0),
        hint_given(e) && same_request_open(e, e.after_packet(outcome).0) ==> hint_given(
            e.after_packet(outcome).0,
        ),
        hint_given(e) && same_request_open(e, e.after_preloader(loaded).0) ==> hint_given(
            e.after_preloader(loaded).0,
        ),
        hint_given(e) && same_request_open(e, e.after_loader(loaded).0) ==> hint_given(
            e.after_loader(loaded).0,
        ),
{
}

/// A stop request on an engine that holds a request ends it with exactly one `Stopped`
/// event carrying that request's id, and leaves the engine holding no request.
pub proof fn lemma_stop_ends_request(e: PlayerEngine)
    requires
        !(e.state is Stopped),
    ensures
        events_of(e.after_stop().1) == seq![
            PlayerEvent::Stopped {
                play_request_id: state_request_id(e.state).unwrap(),
                track_id: state_track_id(e.state).unwrap(),
            },
        ],
        e.after_stop().0.state is Stopped,
        state_request_id(e.after_stop().0.state) is None,
{
    let (s, fx) = stopped_sink(e.sink_status, false);
    let ev = Effect::Event(
        PlayerEvent::Stopped {
            play_request_id: state_request_id(e.state).unwrap(),
            track_id: state_track_id(e.state).unwrap(),
        },
    );
    lemma_sink_work_has_no_events(e.sink_status, false);
    assert(fx.push(ev) =~= fx + seq![ev]);
    lemma_events_of_concat(fx, seq![ev]);
    lemma_events_of_single(ev);
    assert(events_of(e.after_stop().1) =~= seq![
        PlayerEvent::Stopped {
            play_request_id: state_request_id(e.state).unwrap(),
            track_id: state_track_id(e.state).unwrap(),
        },
    ]);
}

proof fn lemma_events_of_push(a: Seq<Effect>, x: Effect)
    ensures
        events_of(a.push(x)) == events_of(a) + events_of(seq![x]),
{
    assert(a.push(x) =~= a + seq![x]);
    lemma_events_of_concat(a, seq![x]);
}

/// The events of sink work followed by one event.
proof fn lemma_sink_then_event(fx: Seq<Effect>, e: PlayerEvent)
    requires
        events_of(fx) == Seq::<PlayerEvent>::empty(),
    ensures
        events_of(fx.push(Effect::Event(e))) == seq![e],
{
    lemma_events_of_push(fx, Effect::Event(e));
    lemma_events_of_single(Effect::Event(e));
    assert(Seq::<PlayerEvent>::empty() + seq![e] =~= seq![e]);
}

/// A load request emits exactly two events: its announcement, then `Loading` where a loader
/// has to run, or `Playing` or `Paused` where an open track is reused.
#[verifier::rlimit(50)]
pub proof fn lemma_load_events(
    e: PlayerEngine,
    track_id: TrackId,
    play_request_id: u64,
    play: bool,
    position_ms: u32,
    seek_ok: bool,
)
    ensures
        ({
            let ev = events_of(e.after_load(track_id, play_request_id, play, position_ms, seek_ok).1);
            &&& ev.len() == 2
            &&& ev[0] == e.load_announcement(track_id, play_request_id, position_ms)
            &&& ev[1] is Loading || ev[1] is Playing || ev[1] is Paused
            &&& ev[1].request_id() == Some(play_request_id)
        }),
{
    let ann = e.load_announcement(track_id, play_request_id, position_ms);
    let (e1, fx2) = e.after_announce(track_id, play_request_id, play, position_ms);
    let fx1 = if e.gapless {
        Seq::<Effect>::empty()
    } else {
        stopped_sink(e.sink_status, play).1
    };
    lemma_sink_work_has_no_events(e.sink_status, play);
    assert(events_of(Seq::<Effect>::empty()) =~= Seq::<PlayerEvent>::empty());
    lemma_sink_then_event(fx1, ann);
    let source = e.spec_load_source(track_id, position_ms);
    match source {
        crate::engine::LoadSource::EndedTrack | crate::engine::LoadSource::CurrentTrack
        | crate::engine::LoadSource::PreloadedTrack => {
            let t = crate::engine::seeked(e.reused_track(source), position_ms, seek_ok);
            let adopt = if source == crate::engine::LoadSource::PreloadedTrack {
                Effect::AdoptPreloadedTrack
            } else {
                Effect::DiscardPreload
            };
            lemma_events_of_push(fx2, adopt);
            lemma_events_of_single(adopt);
            assert(events_of(fx2.push(adopt)) =~= seq![ann]);
            let fx3 = e1.after_start(track_id, play_request_id, t, play).1;
            if play {
                lemma_sink_work_has_no_events(e1.sink_status, false);
                lemma_sink_then_event(
                    running_sink(e1.sink_status).1,
                    PlayerEvent::Playing {
                        play_request_id,
                        track_id,
                        position_ms: t.stream_position_ms,
                        duration_ms: t.duration_ms,
                    },
                );
            } else {
                lemma_sink_work_has_no_events(e1.sink_status, false);
                lemma_sink_then_event(
                    stopped_sink(e1.sink_status, false).1,
                    PlayerEvent::Paused {
                        play_request_id,
                        track_id,
                        position_ms: t.stream_position_ms,
                        duration_ms: t.duration_ms,
                    },
                );
            }
            lemma_events_of_concat(fx2.push(adopt), fx3);
        },
        _ => {
            let adopt = source == crate::engine::LoadSource::PreloadLoader;
            let sinkfx = stopped_sink(e1.sink_status, play).1;
            lemma_sink_work_has_no_events(e1.sink_status, play);
            let loading = Effect::Event(PlayerEvent::Loading { play_request_id, track_id, position_ms });
            let tail = if adopt {
                seq![loading, Effect::AdoptPreloadLoader]
            } else {
                seq![loading, Effect::DiscardPreload, Effect::StartLoader { track_id, position_ms }]
            };
            lemma_events_of_single(loading);
            lemma_events_of_single(Effect::AdoptPreloadLoader);
            lemma_events_of_single(Effect::DiscardPreload);
            lemma_events_of_single(Effect::StartLoader { track_id, position_ms });
            if adopt {
                assert(tail =~= seq![loading] + seq![Effect::AdoptPreloadLoader]);
                lemma_events_of_concat(seq![loading], seq![Effect::AdoptPreloadLoader]);
            } else {
                assert(tail =~= (seq![loading] + seq![Effect::DiscardPreload]) + seq![
                    Effect::StartLoader { track_id, position_ms },
                ]);
                lemma_events_of_concat(seq![loading], seq![Effect::DiscardPreload]);
                lemma_events_of_concat(
                    seq![loading] + seq![Effect::DiscardPreload],
                    seq![Effect::StartLoader { track_id, position_ms }],
                );
            }
            assert(events_of(tail) =~= seq![
                PlayerEvent::Loading { play_request_id, track_id, position_ms },
            ]);
            lemma_events_of_concat(sinkfx, tail);
            assert(events_of(sinkfx + tail) =~= seq![
                PlayerEvent::Loading { play_request_id, track_id, position_ms },
            ]);
            lemma_events_of_concat(fx2, sinkfx + tail);
        },
    }
}

/// The event ends the request it carries.
pub open spec fn ends_request(e: PlayerEvent) -> bool {
    e is EndOfTrack || e is Stopped || e is Unavailable
}

proof fn lemma_sink_then_optional(fx: Seq<Effect>, tail: Seq<Effect>)
    requires
        events_of(fx) == Seq::<PlayerEvent>::empty(),
        tail.len() <= 1,
    ensures
        events_of(fx + tail).len() <= 1,
{
    lemma_events_of_concat(fx, tail);
    if tail.len() == 1 {
        assert(tail =~= seq![tail[0]]);
        lemma_events_of_single(tail[0]);
    } else {
        assert(tail =~= Seq::<Effect>::empty());
        assert(events_of(tail) =~= Seq::<PlayerEvent>::empty());
    }
}

/// Apart from a load request, which emits its announcement and one more event and ends no
/// request (see `lemma_load_events`), every step of the engine emits at most one event; so
/// no step ends a request twice.
pub proof fn lemma_steps_emit_at_most_one_event(
    e: PlayerEngine,
    outcome: PacketOutcome,
    position_ms: u32,
    seek_ok: bool,
    prefetch_ok: bool,
    loaded: Option<LoadedTrack>,
)
    ensures
        events_of(e.after_play().1).len() <= 1,
        events_of(e.after_pause().1).len() <= 1,
        events_of(e.after_stop().1).len() <= 1,
        events_of(e.after_seek(position_ms, seek_ok, prefetch_ok).1).len() <= 1,
        events_of(e.after_loader(loaded).1).len() <= 1,
        events_of(e.after_preloader(loaded).1).len() <= 1,
        events_of(e.after_packet(outcome).1).len() <= 1,
        forall|track_id: TrackId, rid: u64, play: bool, pos: u32, ok: bool, i: int|
            0 <= i < events_of(e.after_load(track_id, rid, play, pos, ok).1).len() ==> !ends_request(
                #[trigger] events_of(e.after_load(track_id, rid, play, pos, ok).1)[i],
            ),
{
    let empty = Seq::<Effect>::empty();
    assert(events_of(empty) =~= Seq::<PlayerEvent>::empty());
    lemma_sink_work_has_no_events(e.sink_status, false);
    // play
    match e.state {
        PlayerState::Paused { track_id, play_request_id, track, .. } => {
            let ev = Effect::Event(
                PlayerEvent::Playing {
                    play_request_id,
                    track_id,
                    position_ms: track.stream_position_ms,
                    duration_ms: track.duration_ms,
                },
            );
            lemma_events_of_concat(seq![ev], running_sink(e.sink_status).1);
            lemma_events_of_single(ev);
        },
        _ => {},
    }
    // pause
    match e.state {
        PlayerState::Playing { .. } => {
            let fx = e.after_pause().1;
            let sinkfx = stopped_sink(e.sink_status, false).1;
            assert(fx =~= sinkfx + seq![fx.last()]);
            lemma_sink_then_optional(sinkfx, seq![fx.last()]);
        },
        _ => {},
    }
    // stop
    if !(e.state is Stopped) {
        lemma_stop_ends_request(e);
    }
    // seek
    let fx = e.after_seek(position_ms, seek_ok, prefetch_ok).1;
    assert(empty + fx =~= fx);
    lemma_sink_then_optional(empty, fx);
    // loader
    match e.state {
        PlayerState::Loading { track_id, play_request_id, start_playback } => match loaded {
            Some(t) => {
                let fx = e.after_loader(loaded).1;
                let sinkfx = if start_playback {
                    running_sink(e.sink_status).1
                } else {
                    stopped_sink(e.sink_status, false).1
                };
                assert(fx =~= sinkfx + seq![fx.last()]);
                lemma_sink_then_optional(sinkfx, seq![fx.last()]);
            },
            None => {
                let fx = e.after_loader(loaded).1;
                assert(empty + fx =~= fx);
                lemma_sink_then_optional(empty, fx);
            },
        },
        _ => {},
    }
    // preloader
    let fx = e.after_preloader(loaded).1;
    assert(empty + fx =~= fx);
    lemma_sink_then_optional(empty, fx);
    // packet
    let fx = e.after_packet(outcome).1;
    let sinkfx = running_sink(e.sink_status).1;
    let tail = fx.subrange(sinkfx.len() as int, fx.len() as int);
    assert(fx =~= sinkfx + tail);
    lemma_sink_then_optional(sinkfx, tail);
    // load
    assert forall|track_id: TrackId, rid: u64, play: bool, pos: u32, ok: bool, i: int|
        0 <= i < events_of(e.after_load(track_id, rid, play, pos, ok).1).len() implies !ends_request(
        #[trigger] events_of(e.after_load(track_id, rid, play, pos, ok).1)[i],
    ) by {
        lemma_load_events(e, track_id, rid, play, pos, ok);
    }
}

/// When the decoder runs out or fails, the request ends with exactly one `EndOfTrack` and
/// the engine leaves `Playing`, so no further packet of that request is taken.
pub proof fn lemma_packet_end_is_final(e: PlayerEngine, outcome: PacketOutcome)
    requires
        e.state is Playing,
        outcome is End || outcome is SampleError || outcome is DecodeError,
    ensures
        events_of(e.after_packet(outcome).1) == seq![
            PlayerEvent::EndOfTrack {
                play_request_id: state_request_id(e.state).unwrap(),
                track_id: state_track_id(e.state).unwrap(),
            },
        ],
        e.after_packet(outcome).0.state is EndOfTrack,
        state_request_id(e.after_packet(outcome).0.state) == state_request_id(e.state),
{
    lemma_sink_work_has_no_events(e.sink_status, false);
    lemma_sink_then_event(
        running_sink(e.sink_status).1,
        PlayerEvent::EndOfTrack {
            play_request_id: state_request_id(e.state).unwrap(),
            track_id: state_track_id(e.state).unwrap(),
        },
    );
}

} // verus!