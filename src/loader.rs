use vstd::prelude::*;

use crate::engine::LoadedTrack;
use crate::format::{
    audio_offset, first_offered, is_ogg_vorbis, kbps_of, priority_of, select_file,
    spec_is_ogg_vorbis, stream_data_rate, AudioFileFormat, Bitrate, OGG_HEADER_END,
};

verus! {

broadcast use vstd::string::group_string_axioms;

/// Whether the user's "filter-explicit-content" attribute forbids a track: it does when the
/// track is explicit and the attribute is exactly "1".
pub fn refuses_explicit(is_explicit: bool, filter_attribute: &Option<String>) -> (r: bool)
    ensures
        r == (is_explicit && (filter_attribute matches Some(v) && v@ == "1"@)),
{
    if !is_explicit {
        return false;
    }
    match filter_attribute {
        Some(v) => {
            let one = "1".to_string();
            *v == one
        },
        None => false,
    }
}

/// The duration of a track in milliseconds; a negative duration makes the track unplayable.
pub fn track_duration_ms(duration: i32) -> (r: Option<u32>)
    ensures
        duration < 0 <==> r is None,
        r matches Some(d) ==> d == duration,
{
    if duration < 0 {
        None
    } else {
        Some(duration as u32)
    }
}

/// Where playback of a freshly opened track starts: at the requested position when the
/// decoder could seek there, else at the start.
pub fn start_position_ms(position_ms: u32, seek_ok: bool) -> (r: u32)
    ensures
        r == (if seek_ok {
            position_ms
        } else {
            0
        }),
{
    if seek_ok {
        position_ms
    } else {
        0
    }
}

/// What the loader does once it has the catalog entry of a track.
#[derive(PartialEq, Eq, Structural, Clone, Copy, Debug)]
pub enum EntryChoice {
    /// The track cannot be played.
    Unavailable,
    /// The entry itself has files to play.
    UseEntry,
    /// The entry has no files; its alternatives are tried.
    TryAlternatives,
}

/// Decides on a catalog entry: unavailable entries are refused, entries with files are
/// used, and entries without files fall back to their alternatives, if they list any.
pub fn choose_entry(available: bool, has_files: bool, has_alternatives: bool) -> (r: EntryChoice)
    ensures
        r == (if !available {
            EntryChoice::Unavailable
        } else if has_files {
            EntryChoice::UseEntry
        } else if has_alternatives {
            EntryChoice::TryAlternatives
        } else {
            EntryChoice::Unavailable
        }),
{
    if !available {
        EntryChoice::Unavailable
    } else if has_files {
        EntryChoice::UseEntry
    } else if has_alternatives {
        EntryChoice::TryAlternatives
    } else {
        EntryChoice::Unavailable
    }
}

/// What follows a failure to build the decoder.
#[derive(PartialEq, Eq, Structural, Clone, Copy, Debug)]
pub enum DecoderFailure {
    /// Evict the cached file and open the track again from the network.
    EvictAndRetry,
    /// Give up on the track.
    GiveUp,
}

/// A decoder that fails on a cached file gets one more try after the file is evicted;
/// anything else gives up.
pub fn on_decoder_failure(is_cached: bool, retried: bool) -> (r: DecoderFailure)
    ensures
        r == (if is_cached && !retried {
            DecoderFailure::EvictAndRetry
        } else {
            DecoderFailure::GiveUp
        }),
{
    if is_cached && !retried {
        DecoderFailure::EvictAndRetry
    } else {
        DecoderFailure::GiveUp
    }
}

/// What the loader reads of a catalog entry.
#[derive(Debug)]
pub struct AudioItemFacts {
    pub duration: i32,
    /// The formats of the entry's files, in the entry's order.
    pub formats: Vec<AudioFileFormat>,
}

/// How a track is to be opened.
#[derive(PartialEq, Eq, Structural, Clone, Copy, Debug)]
pub struct TrackPlan {
    /// Index of the chosen file among the entry's files.
    pub file_index: usize,
    pub format: AudioFileFormat,
    pub bytes_per_second: usize,
    pub duration_ms: u32,
    /// Where the decoder's view of the file starts.
    pub audio_offset: u64,
    /// Whether the gain figures are read from the file's Ogg header.
    pub reads_ogg_header: bool,
}

/// The plan for an entry that can be played, chosen by the bitrate preference; `None` where
/// the duration is negative or no file has a wanted format.
pub fn plan_track(item: &AudioItemFacts, bitrate: Bitrate) -> (r: Option<TrackPlan>)
    ensures
        r is None <==> (item.duration < 0 || first_offered(priority_of(bitrate), item.formats@) is None),
        r matches Some(p) ==> {
            &&& p.file_index < item.formats@.len()
            &&& Some(p.format) == first_offered(priority_of(bitrate), item.formats@)
            &&& item.formats@[p.file_index as int] == p.format
            &&& p.bytes_per_second == kbps_of(p.format) * 1024
            &&& p.duration_ms == item.duration
            &&& p.reads_ogg_header == spec_is_ogg_vorbis(p.format)
            &&& p.audio_offset == (if spec_is_ogg_vorbis(p.format) {
                OGG_HEADER_END
            } else {
                0
            })
        },
{
    let duration_ms = match track_duration_ms(item.duration) {
        Some(d) => d,
        None => {
            return None;
        },
    };
    let file_index = match select_file(bitrate, &item.formats) {
        Some(i) => i,
        None => {
            return None;
        },
    };
    let format = item.formats[file_index];
    Some(
        TrackPlan {
            file_index,
            format,
            bytes_per_second: stream_data_rate(format),
            duration_ms,
            audio_offset: audio_offset(format),
            reads_ogg_header: is_ogg_vorbis(format),
        },
    )
}

/// The track that the engine gets once the decoder is built and has tried to seek.
pub fn finish_track(plan: TrackPlan, is_explicit: bool, position_ms: u32, seek_ok: bool) -> (r:
    LoadedTrack)
    ensures
        r.duration_ms == plan.duration_ms,
        r.bytes_per_second == plan.bytes_per_second,
        r.is_explicit == is_explicit,
        r.stream_position_ms == (if seek_ok {
            position_ms
        } else {
            0
        }),
{
    LoadedTrack {
        duration_ms: plan.duration_ms,
        stream_position_ms: start_position_ms(position_ms, seek_ok),
        bytes_per_second: plan.bytes_per_second,
        is_explicit,
    }
}

} // verus!
