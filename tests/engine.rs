use playback_core::engine::{
    position_lags, Effect, LoadSource, LoadedTrack, PacketOutcome, PlayerEngine, PlayerPreload, PlayerState,
};
use playback_core::event::{PlayerEvent, SinkStatus, TrackId};
use playback_core::loader::refuses_explicit;

fn t(id: u128) -> TrackId {
    TrackId { id }
}

fn track(duration_ms: u32, position_ms: u32) -> LoadedTrack {
    LoadedTrack {
        duration_ms,
        stream_position_ms: position_ms,
        bytes_per_second: 20 * 1024,
        is_explicit: false,
    }
}

fn events(fx: &[Effect]) -> Vec<PlayerEvent> {
    fx.iter()
        .filter_map(|e| match e {
            Effect::Event(ev) => Some(*ev),
            _ => None,
        })
        .collect()
}

fn load(e: &mut PlayerEngine, id: TrackId, rid: u64, play: bool, pos: u32) -> Vec<Effect> {
    let _ = e.load_source(id, pos);
    let needs_seek = e.load_needs_seek(id, pos);
    e.handle_command_load(id, rid, play, pos, needs_seek)
}

fn playing_engine(id: TrackId, rid: u64, d: u32) -> PlayerEngine {
    let mut e = PlayerEngine::new(false);
    load(&mut e, id, rid, true, 0);
    e.handle_loader_result(Some(track(d, 0)));
    e
}

#[test]
fn linear_play() {
    let mut e = PlayerEngine::new(false);
    let fx = load(&mut e, t(1), 1, true, 0);
    assert_eq!(
        events(&fx),
        vec![
            PlayerEvent::Started { play_request_id: 1, track_id: t(1), position_ms: 0 },
            PlayerEvent::Loading { play_request_id: 1, track_id: t(1), position_ms: 0 },
        ]
    );
    assert!(fx.contains(&Effect::StartLoader { track_id: t(1), position_ms: 0 }));
    assert_eq!(
        e.state,
        PlayerState::Loading { track_id: t(1), play_request_id: 1, start_playback: true }
    );
    let fx = e.handle_loader_result(Some(track(180_000, 0)));
    assert_eq!(fx[0], Effect::StartSink);
    assert_eq!(
        events(&fx),
        vec![PlayerEvent::Playing {
            play_request_id: 1,
            track_id: t(1),
            position_ms: 0,
            duration_ms: 180_000
        }]
    );
    assert_eq!(e.sink_status, SinkStatus::Running);
    let fx = e.handle_packet(PacketOutcome::Samples { position_ms: 20, lagging: false });
    assert!(events(&fx).is_empty());
    let fx = e.handle_packet(PacketOutcome::End);
    assert_eq!(
        events(&fx),
        vec![PlayerEvent::EndOfTrack { play_request_id: 1, track_id: t(1) }]
    );
    assert!(matches!(e.state, PlayerState::EndOfTrack { .. }));
}

#[test]
fn pause_and_resume() {
    let mut e = playing_engine(t(1), 1, 200_000);
    e.handle_packet(PacketOutcome::Passthrough { position_ms: 42_000 });
    let fx = e.handle_pause();
    assert_eq!(fx[0], Effect::StopSink(SinkStatus::Closed));
    assert_eq!(
        events(&fx),
        vec![PlayerEvent::Paused {
            play_request_id: 1,
            track_id: t(1),
            position_ms: 42_000,
            duration_ms: 200_000
        }]
    );
    let fx = e.handle_play();
    assert_eq!(
        events(&fx),
        vec![PlayerEvent::Playing {
            play_request_id: 1,
            track_id: t(1),
            position_ms: 42_000,
            duration_ms: 200_000
        }]
    );
    assert_eq!(fx.last(), Some(&Effect::StartSink));
    assert!(e.state.is_playing());
}

#[test]
fn play_and_pause_in_wrong_state_do_nothing() {
    let mut e = PlayerEngine::new(true);
    assert!(e.handle_play().is_empty());
    assert!(e.handle_pause().is_empty());
    assert!(e.state.is_stopped());
}

#[test]
fn seek_forward() {
    let mut e = playing_engine(t(1), 1, 300_000);
    e.handle_packet(PacketOutcome::Passthrough { position_ms: 10_000 });
    let fx = e.handle_command_seek(120_000, true, true);
    assert_eq!(
        events(&fx),
        vec![PlayerEvent::Playing {
            play_request_id: 1,
            track_id: t(1),
            position_ms: 120_000,
            duration_ms: 300_000
        }]
    );
    match e.state {
        PlayerState::Playing { track, .. } => assert_eq!(track.stream_position_ms, 120_000),
        _ => panic!("not playing"),
    }
}

#[test]
fn seek_while_paused_reports_paused() {
    let mut e = playing_engine(t(1), 1, 300_000);
    e.handle_pause();
    let fx = e.handle_command_seek(5_000, false, false);
    assert_eq!(
        events(&fx),
        vec![PlayerEvent::Paused {
            play_request_id: 1,
            track_id: t(1),
            position_ms: 5_000,
            duration_ms: 300_000
        }]
    );
    match e.state {
        PlayerState::Paused { track, .. } => assert_eq!(track.stream_position_ms, 0),
        _ => panic!("not paused"),
    }
}

#[test]
fn track_change_reuses_preload() {
    let mut e = playing_engine(t(1), 1, 200_000);
    let fx = e.handle_command_preload(t(2));
    assert_eq!(fx, vec![Effect::StartPreloader { track_id: t(2) }]);
    let fx = e.handle_preload_result(Some(track(150_000, 0)));
    assert_eq!(events(&fx), vec![PlayerEvent::Preloading { track_id: t(2) }]);
    assert_eq!(e.load_source(t(2), 0), LoadSource::PreloadedTrack);
    let fx = load(&mut e, t(2), 2, true, 0);
    assert_eq!(
        events(&fx),
        vec![
            PlayerEvent::Changed { old_track_id: t(1), new_track_id: t(2) },
            PlayerEvent::Playing {
                play_request_id: 2,
                track_id: t(2),
                position_ms: 0,
                duration_ms: 150_000
            },
        ]
    );
    assert!(fx.contains(&Effect::AdoptPreloadedTrack));
    assert!(!fx.iter().any(|x| matches!(x, Effect::StartLoader { .. })));
    assert_eq!(e.preload, PlayerPreload::Empty);
}

#[test]
fn pending_preload_becomes_the_loader() {
    let mut e = playing_engine(t(1), 1, 200_000);
    e.handle_command_preload(t(2));
    let fx = load(&mut e, t(2), 2, true, 0);
    assert!(fx.contains(&Effect::AdoptPreloadLoader));
    assert!(!fx.iter().any(|x| matches!(x, Effect::StartLoader { .. })));
}

#[test]
fn preload_of_current_track_is_a_no_op() {
    let mut e = playing_engine(t(1), 1, 200_000);
    assert!(e.handle_command_preload(t(1)).is_empty());
    assert_eq!(e.preload, PlayerPreload::Empty);
}

#[test]
fn explicit_track_is_unavailable_and_engine_stays_loading() {
    let mut e = PlayerEngine::new(false);
    let fx = load(&mut e, t(3), 3, true, 0);
    assert_eq!(
        events(&fx),
        vec![
            PlayerEvent::Started { play_request_id: 3, track_id: t(3), position_ms: 0 },
            PlayerEvent::Loading { play_request_id: 3, track_id: t(3), position_ms: 0 },
        ]
    );
    // the loader refuses the explicit track under the user's filter setting
    assert!(refuses_explicit(true, &Some("1".to_string())));
    let fx = e.handle_loader_result(None);
    assert_eq!(
        events(&fx),
        vec![PlayerEvent::Unavailable { play_request_id: 3, track_id: t(3) }]
    );
    assert!(e.state.is_loading());
    let fx = e.handle_player_stop();
    assert_eq!(
        events(&fx),
        vec![PlayerEvent::Stopped { play_request_id: 3, track_id: t(3) }]
    );
    assert!(e.state.is_stopped());
}

#[test]
fn replaying_ended_track_seeks_back() {
    let mut e = playing_engine(t(1), 1, 100_000);
    e.handle_packet(PacketOutcome::Passthrough { position_ms: 99_000 });
    e.handle_packet(PacketOutcome::End);
    assert_eq!(e.load_source(t(1), 0), LoadSource::EndedTrack);
    assert!(e.load_needs_seek(t(1), 0));
    let fx = e.handle_command_load(t(1), 2, false, 0, true);
    assert_eq!(
        events(&fx),
        vec![
            PlayerEvent::Changed { old_track_id: t(1), new_track_id: t(1) },
            PlayerEvent::Paused {
                play_request_id: 2,
                track_id: t(1),
                position_ms: 0,
                duration_ms: 100_000
            },
        ]
    );
}

#[test]
fn preload_hint_fires_once() {
    let mut e = playing_engine(t(1), 1, 40_000);
    assert!(e.check_preload_hint(true).is_empty());
    e.handle_packet(PacketOutcome::Passthrough { position_ms: 15_000 });
    assert!(e.check_preload_hint(false).is_empty());
    let fx = e.check_preload_hint(true);
    assert_eq!(
        events(&fx),
        vec![PlayerEvent::TimeToPreloadNextTrack { play_request_id: 1, track_id: t(1) }]
    );
    assert!(e.check_preload_hint(true).is_empty());
    e.handle_pause();
    assert!(e.check_preload_hint(true).is_empty());
}

#[test]
fn drifting_playback_reports_position() {
    let mut e = playing_engine(t(1), 1, 40_000);
    let fx = e.handle_packet(PacketOutcome::Samples { position_ms: 5_000, lagging: true });
    assert_eq!(
        events(&fx),
        vec![PlayerEvent::Playing {
            play_request_id: 1,
            track_id: t(1),
            position_ms: 5_000,
            duration_ms: 40_000
        }]
    );
    let fx = e.handle_packet(PacketOutcome::DecodeError);
    assert_eq!(
        events(&fx),
        vec![PlayerEvent::EndOfTrack { play_request_id: 1, track_id: t(1) }]
    );
    assert!(matches!(e.state, PlayerState::EndOfTrack { play_request_id: 1, .. }));
    assert!(!e.state.is_playing());
}

#[test]
fn sample_error_ends_the_request_once() {
    let mut e = playing_engine(t(2), 5, 40_000);
    let fx = e.handle_packet(PacketOutcome::SampleError);
    assert_eq!(
        events(&fx),
        vec![PlayerEvent::EndOfTrack { play_request_id: 5, track_id: t(2) }]
    );
    assert!(matches!(e.state, PlayerState::EndOfTrack { play_request_id: 5, .. }));
}

#[test]
fn lag_threshold() {
    assert!(!position_lags(11_000, 10_000));
    assert!(position_lags(11_001, 10_000));
    assert!(!position_lags(0, 10_000));
}

#[test]
fn explicit_track_is_skipped() {
    let mut e = PlayerEngine::new(true);
    load(&mut e, t(4), 4, true, 0);
    let mut tr = track(100_000, 0);
    tr.is_explicit = true;
    e.handle_loader_result(Some(tr));
    assert_eq!(
        events(&e.skip_explicit_content()),
        vec![PlayerEvent::EndOfTrack { play_request_id: 4, track_id: t(4) }]
    );
}

#[test]
fn volume_event_and_request_ids() {
    let e = PlayerEngine::new(true);
    let fx = e.emit_volume_set_event(1234);
    assert_eq!(fx, vec![Effect::Event(PlayerEvent::VolumeSet { volume: 1234 })]);
    assert_eq!(PlayerEvent::VolumeSet { volume: 1 }.get_play_request_id(), None);
    assert_eq!(
        PlayerEvent::EndOfTrack { play_request_id: 9, track_id: t(1) }.get_play_request_id(),
        Some(9)
    );
    assert_eq!(
        PlayerEvent::Changed { old_track_id: t(1), new_track_id: t(2) }.get_play_request_id(),
        None
    );
}

#[test]
fn non_gapless_load_stops_sink_temporarily() {
    let mut e = playing_engine(t(1), 1, 100_000);
    let fx = load(&mut e, t(2), 2, true, 0);
    assert_eq!(fx[0], Effect::StopSink(SinkStatus::TemporarilyClosed));
    assert_eq!(e.sink_status, SinkStatus::TemporarilyClosed);
    let fx = e.handle_player_stop();
    assert_eq!(fx[0], Effect::NotifySink(SinkStatus::Closed));
}

#[test]
fn failed_preload_reports_unavailable() {
    let mut e = playing_engine(t(1), 1, 100_000);
    e.handle_command_preload(t(2));
    let fx = e.handle_preload_result(None);
    assert_eq!(
        events(&fx),
        vec![PlayerEvent::Unavailable { play_request_id: 1, track_id: t(2) }]
    );
    assert_eq!(e.preload, PlayerPreload::Empty);
}

#[test]
fn base62_form() {
    assert_eq!(
        TrackId { id: 196373991439130863212091700994220317246 }.to_base62(),
        "4uLU6hMCjMI75M1A2tKUQC"
    );
    assert_eq!(TrackId { id: 0 }.to_base62(), "0000000000000000000000");
    assert_eq!(TrackId { id: 61 }.to_base62(), "000000000000000000000Z");
    assert_eq!(TrackId { id: u128::MAX }.to_base62(), "7N42dgm5tFLK9N8MT7fHC7");
}
