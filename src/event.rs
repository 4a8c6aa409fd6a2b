use vstd::prelude::*;
use vstd::string::StringExecFns;

verus! {

/// A 128-bit catalog identifier of a track or an episode.
#[derive(PartialEq, Eq, Structural, Clone, Copy, Debug)]
pub struct TrackId {
    pub id: u128,
}

/// The digits of the base-62 form, in order of value.
pub const BASE62_DIGITS: &'static str = "0123456789abcdefghijklmnopqrstuvwxyzABCDEFGHIJKLMNOPQRSTUVWXYZ";

/// The last `count` base-62 digits of `n`, most significant first.
pub open spec fn base62_digits(n: nat, count: nat) -> Seq<char>
    decreases count,
{
    if count == 0 {
        Seq::empty()
    } else {
        base62_digits(n / 62, (count - 1) as nat).push(BASE62_DIGITS@[(n % 62) as int])
    }
}

fn append_base62(s: &mut String, n: u128, count: usize)
    ensures
        final(s)@ == old(s)@ + base62_digits(n as nat, count as nat),
    decreases count,
{
    if count > 0 {
        append_base62(s, n / 62, count - 1);
        proof {
            reveal_strlit("0123456789abcdefghijklmnopqrstuvwxyzABCDEFGHIJKLMNOPQRSTUVWXYZ");
        }
        let d = (n % 62) as usize;
        let digit = BASE62_DIGITS.substring_char(d, d + 1);
        s.append(digit);
        assert(BASE62_DIGITS@.subrange(d as int, d + 1) =~= seq![BASE62_DIGITS@[d as int]]);
        assert(final(s)@ =~= old(s)@ + base62_digits(n as nat, count as nat));
    }
}

impl TrackId {
    /// The 22-digit base-62 form of the id, most significant digit first.
    pub fn to_base62(&self) -> (r: String)
        ensures
            r@ == base62_digits(self.id as nat, 22),
    {
        let mut s = String::new();
        append_base62(&mut s, self.id, 22);
        assert(s@ =~= base62_digits(self.id as nat, 22));
        s
    }
}

/// Status of the audio output device.
#[derive(PartialEq, Eq, Structural, Clone, Copy, Debug)]
pub enum SinkStatus {
    Running,
    Closed,
    TemporarilyClosed,
}

/// Lifecycle notifications emitted by the player engine.
#[derive(PartialEq, Eq, Structural, Clone, Copy, Debug)]
pub enum PlayerEvent {
    Stopped { play_request_id: u64, track_id: TrackId },
    Started { play_request_id: u64, track_id: TrackId, position_ms: u32 },
    Changed { old_track_id: TrackId, new_track_id: TrackId },
    Loading { play_request_id: u64, track_id: TrackId, position_ms: u32 },
    Preloading { track_id: TrackId },
    Playing { play_request_id: u64, track_id: TrackId, position_ms: u32, duration_ms: u32 },
    Paused { play_request_id: u64, track_id: TrackId, position_ms: u32, duration_ms: u32 },
    TimeToPreloadNextTrack { play_request_id: u64, track_id: TrackId },
    EndOfTrack { play_request_id: u64, track_id: TrackId },
    Unavailable { play_request_id: u64, track_id: TrackId },
    VolumeSet { volume: u16 },
}

impl PlayerEvent {
    /// The load request an event refers to, if any.
    pub open spec fn request_id(self) -> Option<u64> {
        match self {
            PlayerEvent::Stopped { play_request_id, .. } => Some(play_request_id),
            PlayerEvent::Started { play_request_id, .. } => Some(play_request_id),
            PlayerEvent::Loading { play_request_id, .. } => Some(play_request_id),
            PlayerEvent::Playing { play_request_id, .. } => Some(play_request_id),
            PlayerEvent::Paused { play_request_id, .. } => Some(play_request_id),
            PlayerEvent::TimeToPreloadNextTrack { play_request_id, .. } => Some(play_request_id),
            PlayerEvent::EndOfTrack { play_request_id, .. } => Some(play_request_id),
            PlayerEvent::Unavailable { play_request_id, .. } => Some(play_request_id),
            PlayerEvent::Changed { .. } => None,
            PlayerEvent::Preloading { .. } => None,
            PlayerEvent::VolumeSet { .. } => None,
        }
    }

    pub fn get_play_request_id(&self) -> (r: Option<u64>)
        ensures
            r == self.request_id(),
    {
        match self {
            PlayerEvent::Stopped { play_request_id, .. }
            | PlayerEvent::Started { play_request_id, .. }
            | PlayerEvent::Loading { play_request_id, .. }
            | PlayerEvent::Playing { play_request_id, .. }
            | PlayerEvent::Paused { play_request_id, .. }
            | PlayerEvent::TimeToPreloadNextTrack { play_request_id, .. }
            | PlayerEvent::EndOfTrack { play_request_id, .. }
            | PlayerEvent::Unavailable { play_request_id, .. } => Some(*play_request_id),
            PlayerEvent::Changed { .. } | PlayerEvent::Preloading { .. } | PlayerEvent::VolumeSet {
                ..
            } => None,
        }
    }
}

} // verus!
