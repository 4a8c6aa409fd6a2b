use playback_core::format::{
    audio_offset, format_priority, is_ogg_vorbis, select_file, stream_data_rate, AudioFileFormat,
    Bitrate,
};
use playback_core::loader::{
    finish_track, plan_track, AudioItemFacts,
    choose_entry, on_decoder_failure, refuses_explicit, start_position_ms, track_duration_ms,
    DecoderFailure, EntryChoice,
};

#[test]
fn data_rates() {
    assert_eq!(stream_data_rate(AudioFileFormat::OggVorbis96), 12 * 1024);
    assert_eq!(stream_data_rate(AudioFileFormat::OggVorbis320), 40 * 1024);
    assert_eq!(stream_data_rate(AudioFileFormat::Mp3_256), 32 * 1024);
    assert_eq!(stream_data_rate(AudioFileFormat::Aac24), 3 * 1024);
    assert_eq!(stream_data_rate(AudioFileFormat::FlacFlac), 112 * 1024);
}

#[test]
fn picks_preferred_format() {
    let offered = vec![AudioFileFormat::Mp3_320, AudioFileFormat::OggVorbis160, AudioFileFormat::Mp3_96];
    assert_eq!(select_file(Bitrate::Bitrate96, &offered), Some(2));
    assert_eq!(select_file(Bitrate::Bitrate160, &offered), Some(1));
    assert_eq!(select_file(Bitrate::Bitrate320, &offered), Some(0));
    assert_eq!(select_file(Bitrate::Bitrate320, &vec![AudioFileFormat::Aac24, AudioFileFormat::FlacFlac]), None);
    assert_eq!(select_file(Bitrate::Bitrate96, &vec![]), None);
    assert_eq!(format_priority(Bitrate::Bitrate320)[2], AudioFileFormat::Mp3_256);
}

#[test]
fn ogg_offsets() {
    assert!(is_ogg_vorbis(AudioFileFormat::OggVorbis160));
    assert!(!is_ogg_vorbis(AudioFileFormat::Mp3_160));
    assert_eq!(audio_offset(AudioFileFormat::OggVorbis320), 0xa7);
    assert_eq!(audio_offset(AudioFileFormat::Mp3_320), 0);
}

#[test]
fn loader_decisions() {
    assert!(refuses_explicit(true, &Some("1".to_string())));
    assert!(!refuses_explicit(true, &Some("0".to_string())));
    assert!(!refuses_explicit(true, &None));
    assert!(!refuses_explicit(false, &Some("1".to_string())));
    assert_eq!(track_duration_ms(-1), None);
    assert_eq!(track_duration_ms(215_000), Some(215_000));
    assert_eq!(start_position_ms(5000, true), 5000);
    assert_eq!(start_position_ms(5000, false), 0);
    assert_eq!(choose_entry(false, true, true), EntryChoice::Unavailable);
    assert_eq!(choose_entry(true, true, true), EntryChoice::UseEntry);
    assert_eq!(choose_entry(true, false, true), EntryChoice::TryAlternatives);
    assert_eq!(choose_entry(true, false, false), EntryChoice::Unavailable);
    assert_eq!(on_decoder_failure(true, false), DecoderFailure::EvictAndRetry);
    assert_eq!(on_decoder_failure(true, true), DecoderFailure::GiveUp);
    assert_eq!(on_decoder_failure(false, false), DecoderFailure::GiveUp);
}

#[test]
fn window_positions() {
    assert_eq!(playback_core::subfile::window_to_stream(10, 0xa7), Some(177));
    assert_eq!(playback_core::subfile::window_to_stream(u64::MAX, 1), None);
    assert_eq!(playback_core::subfile::stream_to_window(177, 0xa7), Some(10));
    assert_eq!(playback_core::subfile::stream_to_window(100, 0xa7), None);
}

#[test]
fn track_plans() {
    let item = AudioItemFacts {
        duration: 200_000,
        formats: vec![AudioFileFormat::Mp3_160, AudioFileFormat::OggVorbis320, AudioFileFormat::OggVorbis96],
    };
    let p = plan_track(&item, Bitrate::Bitrate320).unwrap();
    assert_eq!((p.file_index, p.format), (1, AudioFileFormat::OggVorbis320));
    assert_eq!((p.bytes_per_second, p.duration_ms, p.audio_offset), (40 * 1024, 200_000, 0xa7));
    assert!(p.reads_ogg_header);
    let p = plan_track(&item, Bitrate::Bitrate160).unwrap();
    assert_eq!((p.file_index, p.audio_offset, p.reads_ogg_header), (0, 0, false));
    let t = finish_track(p, true, 30_000, false);
    assert_eq!((t.stream_position_ms, t.duration_ms, t.is_explicit), (0, 200_000, true));
    assert_eq!(finish_track(p, false, 30_000, true).stream_position_ms, 30_000);
    let negative = AudioItemFacts { duration: -5, ..item };
    assert!(plan_track(&negative, Bitrate::Bitrate96).is_none());
    let none = AudioItemFacts { duration: 1, formats: vec![AudioFileFormat::Aac48] };
    assert!(plan_track(&none, Bitrate::Bitrate96).is_none());
}
