use vstd::prelude::*;

verus! {

/// Which gain figures normalisation uses.
#[derive(PartialEq, Eq, Structural, Clone, Copy, Debug)]
pub enum NormalisationType {
    Album,
    Track,
    Auto,
}

/// How normalisation keeps the output under the threshold.
#[derive(PartialEq, Eq, Structural, Clone, Copy, Debug)]
pub enum NormalisationMethod {
    Basic,
    Dynamic,
}

/// The type that a track plays with: `Auto` follows the album/track choice of the moment.
pub open spec fn spec_resolve(t: NormalisationType, auto_as_album: bool) -> NormalisationType {
    if t == NormalisationType::Auto {
        if auto_as_album {
            NormalisationType::Album
        } else {
            NormalisationType::Track
        }
    } else {
        t
    }
}

pub fn resolve_normalisation_type(t: NormalisationType, auto_as_album: bool) -> (r:
    NormalisationType)
    ensures
        r == spec_resolve(t, auto_as_album),
        r != NormalisationType::Auto,
{
    match t {
        NormalisationType::Auto => {
            if auto_as_album {
                NormalisationType::Album
            } else {
                NormalisationType::Track
            }
        },
        _ => t,
    }
}

/// Whether the gain and peak come from the album figures (else from the track figures).
pub fn uses_album_gain(t: NormalisationType) -> (r: bool)
    ensures
        r == (t == NormalisationType::Album),
{
    t == NormalisationType::Album
}

/// Whether a packet's samples pass through the gain stage. `factor_is_unity` says whether
/// the static factor lies within machine epsilon of 1. With normalisation off the samples
/// are never touched, so the output equals the input.
pub fn processes_samples(normalisation: bool, method: NormalisationMethod, factor_is_unity: bool) -> (r:
    bool)
    ensures
        r == (normalisation && !(factor_is_unity && method == NormalisationMethod::Basic)),
        !normalisation ==> !r,
{
    normalisation && !(factor_is_unity && method == NormalisationMethod::Basic)
}

/// Whether a track whose gain exceeds the threshold at its peak is held down for its whole
/// length (else the dynamic limiter deals with the peaks).
pub fn clamps_static_gain(method: NormalisationMethod, exceeds_threshold: bool) -> (r: bool)
    ensures
        r == (exceeds_threshold && method == NormalisationMethod::Basic),
{
    exceeds_threshold && method == NormalisationMethod::Basic
}

/// Gain and peak figures of a track and its album, as IEEE-754 single-precision bit patterns.
#[derive(PartialEq, Eq, Structural, Clone, Copy, Debug)]
pub struct NormalisationBits {
    pub track_gain_db: u32,
    pub track_peak: u32,
    pub album_gain_db: u32,
    pub album_peak: u32,
}

/// Bit pattern of 1.0 in single precision.
pub const ONE_F32_BITS: u32 = 0x3f80_0000;

/// Where the catalog's Ogg files keep their gain figures.
pub const NORMALISATION_HEADER_START: usize = 144;

impl NormalisationBits {
    /// No gain, and a peak of 1.0, for track and album.
    pub fn default_bits() -> (r: NormalisationBits)
        ensures
            r == (NormalisationBits {
                track_gain_db: 0,
                track_peak: ONE_F32_BITS,
                album_gain_db: 0,
                album_peak: ONE_F32_BITS,
            }),
    {
        NormalisationBits {
            track_gain_db: 0,
            track_peak: ONE_F32_BITS,
            album_gain_db: 0,
            album_peak: ONE_F32_BITS,
        }
    }

    /// The gain and peak that a resolved type selects.
    pub fn select(&self, t: NormalisationType) -> (r: (u32, u32))
        ensures
            t == NormalisationType::Album ==> r == (self.album_gain_db, self.album_peak),
            t != NormalisationType::Album ==> r == (self.track_gain_db, self.track_peak),
    {
        if uses_album_gain(t) {
            (self.album_gain_db, self.album_peak)
        } else {
            (self.track_gain_db, self.track_peak)
        }
    }

    /// Reads the four figures from the start of an Ogg file: little-endian words at byte
    /// 144, in the order track gain, track peak, album gain, album peak. `None` where the
    /// bytes end before the last of them.
    pub fn parse_from_ogg(bytes: &Vec<u8>) -> (r: Option<NormalisationBits>)
        ensures
            bytes@.len() < NORMALISATION_HEADER_START + 16 <==> r is None,
            r matches Some(n) ==> n == (NormalisationBits {
                track_gain_db: le_u32(bytes@, NORMALISATION_HEADER_START as int),
                track_peak: le_u32(bytes@, NORMALISATION_HEADER_START + 4),
                album_gain_db: le_u32(bytes@, NORMALISATION_HEADER_START + 8),
                album_peak: le_u32(bytes@, NORMALISATION_HEADER_START + 12),
            }),
    {
        if bytes.len() < NORMALISATION_HEADER_START + 16 {
            return None;
        }
        Some(
            NormalisationBits {
                track_gain_db: read_u32_le(bytes, NORMALISATION_HEADER_START),
                track_peak: read_u32_le(bytes, NORMALISATION_HEADER_START + 4),
                album_gain_db: read_u32_le(bytes, NORMALISATION_HEADER_START + 8),
                album_peak: read_u32_le(bytes, NORMALISATION_HEADER_START + 12),
            },
        )
    }
}

/// The little-endian word at byte `at`.
pub open spec fn le_u32(b: Seq<u8>, at: int) -> u32 {
    (b[at] as int + b[at + 1] as int * 0x100 + b[at + 2] as int * 0x1_0000 + b[at + 3] as int
        * 0x100_0000) as u32
}

pub fn read_u32_le(b: &Vec<u8>, at: usize) -> (r: u32)
    requires
        at + 4 <= b@.len(),
    ensures
        r == le_u32(b@, at as int),
{
    let n = b.len();
    assert(at + 4 <= n);
    let b0 = b[at] as u32;
    let b1 = b[at + 1] as u32;
    let b2 = b[at + 2] as u32;
    let b3 = b[at + 3] as u32;
    b0 + b1 * 0x100 + b2 * 0x1_0000 + b3 * 0x100_0000
}

/// Bytes to fetch ahead: the larger of `roundtrips` network round trips of `ping_ms` and
/// `minimum_ms` of audio, at `bytes_per_second`, saturating at the largest `u64`.
pub open spec fn spec_read_ahead(roundtrips: nat, ping_ms: nat, minimum_ms: nat, bytes_per_second: nat) -> nat {
    let by_ping = roundtrips * ping_ms * bytes_per_second / 1000;
    let by_time = minimum_ms * bytes_per_second / 1000;
    let m = if by_ping >= by_time {
        by_ping
    } else {
        by_time
    };
    if m > u64::MAX {
        u64::MAX as nat
    } else {
        m
    }
}

pub fn read_ahead_bytes(roundtrips: u32, ping_ms: u32, minimum_ms: u32, bytes_per_second: u32) -> (r:
    u64)
    ensures
        r == spec_read_ahead(
            roundtrips as nat,
            ping_ms as nat,
            minimum_ms as nat,
            bytes_per_second as nat,
        ),
{
    let rt = roundtrips as u128;
    let p = ping_ms as u128;
    let bps = bytes_per_second as u128;
    let mn = minimum_ms as u128;
    assert(rt * p <= 0xffff_ffff * 0xffff_ffff) by (nonlinear_arith)
        requires
            rt <= 0xffff_ffff,
            p <= 0xffff_ffff,
    ;
    assert(rt * p * bps <= 0xffff_ffff * 0xffff_ffff * 0xffff_ffff) by (nonlinear_arith)
        requires
            rt * p <= 0xffff_ffff * 0xffff_ffff,
            bps <= 0xffff_ffff,
    ;
    assert(mn * bps <= 0xffff_ffff * 0xffff_ffff) by (nonlinear_arith)
        requires
            mn <= 0xffff_ffff,
            bps <= 0xffff_ffff,
    ;
    let by_ping = rt * p * bps / 1000;
    let by_time = mn * bps / 1000;
    let m = if by_ping >= by_time {
        by_ping
    } else {
        by_time
    };
    if m > u64::MAX as u128 {
        u64::MAX
    } else {
        m as u64
    }
}

} // verus!
