use vstd::prelude::*;

verus! {

/// Encodings in which the catalog offers an audio file.
#[derive(PartialEq, Eq, Structural, Clone, Copy, Debug)]
pub enum AudioFileFormat {
    OggVorbis96,
    OggVorbis160,
    OggVorbis320,
    Mp3_256,
    Mp3_320,
    Mp3_160,
    Mp3_96,
    Mp3_160Enc,
    Aac24,
    Aac48,
    FlacFlac,
}

/// The bitrate the user prefers.
#[derive(PartialEq, Eq, Structural, Clone, Copy, Debug)]
pub enum Bitrate {
    Bitrate96,
    Bitrate160,
    Bitrate320,
}

/// Nominal data rate of a format in kilobytes per second.
pub open spec fn kbps_of(format: AudioFileFormat) -> nat {
    match format {
        AudioFileFormat::OggVorbis96 => 12,
        AudioFileFormat::OggVorbis160 => 20,
        AudioFileFormat::OggVorbis320 => 40,
        AudioFileFormat::Mp3_256 => 32,
        AudioFileFormat::Mp3_320 => 40,
        AudioFileFormat::Mp3_160 => 20,
        AudioFileFormat::Mp3_96 => 12,
        AudioFileFormat::Mp3_160Enc => 20,
        AudioFileFormat::Aac24 => 3,
        AudioFileFormat::Aac48 => 6,
        AudioFileFormat::FlacFlac => 112,
    }
}

/// Bytes per second that the stream of a format delivers.
pub fn stream_data_rate(format: AudioFileFormat) -> (r: usize)
    ensures
        r == kbps_of(format) * 1024,
{
    let kbps: usize = match format {
        AudioFileFormat::OggVorbis96 => 12,
        AudioFileFormat::OggVorbis160 => 20,
        AudioFileFormat::OggVorbis320 => 40,
        AudioFileFormat::Mp3_256 => 32,
        AudioFileFormat::Mp3_320 => 40,
        AudioFileFormat::Mp3_160 => 20,
        AudioFileFormat::Mp3_96 => 12,
        AudioFileFormat::Mp3_160Enc => 20,
        AudioFileFormat::Aac24 => 3,
        AudioFileFormat::Aac48 => 6,
        AudioFileFormat::FlacFlac => 112,
    };
    kbps * 1024
}

/// The formats that a bitrate preference accepts, most wanted first.
pub open spec fn priority_of(bitrate: Bitrate) -> Seq<AudioFileFormat> {
    match bitrate {
        Bitrate::Bitrate96 => seq![
            AudioFileFormat::OggVorbis96,
            AudioFileFormat::Mp3_96,
            AudioFileFormat::OggVorbis160,
            AudioFileFormat::Mp3_160,
            AudioFileFormat::Mp3_256,
            AudioFileFormat::OggVorbis320,
            AudioFileFormat::Mp3_320,
        ],
        Bitrate::Bitrate160 => seq![
            AudioFileFormat::OggVorbis160,
            AudioFileFormat::Mp3_160,
            AudioFileFormat::OggVorbis96,
            AudioFileFormat::Mp3_96,
            AudioFileFormat::Mp3_256,
            AudioFileFormat::OggVorbis320,
            AudioFileFormat::Mp3_320,
        ],
        Bitrate::Bitrate320 => seq![
            AudioFileFormat::OggVorbis320,
            AudioFileFormat::Mp3_320,
            AudioFileFormat::Mp3_256,
            AudioFileFormat::OggVorbis160,
            AudioFileFormat::Mp3_160,
            AudioFileFormat::OggVorbis96,
            AudioFileFormat::Mp3_96,
        ],
    }
}

pub fn format_priority(bitrate: Bitrate) -> (r: Vec<AudioFileFormat>)
    ensures
        r@ == priority_of(bitrate),
{
    let r = match bitrate {
        Bitrate::Bitrate96 => vec![
            AudioFileFormat::OggVorbis96,
            AudioFileFormat::Mp3_96,
            AudioFileFormat::OggVorbis160,
            AudioFileFormat::Mp3_160,
            AudioFileFormat::Mp3_256,
            AudioFileFormat::OggVorbis320,
            AudioFileFormat::Mp3_320,
        ],
        Bitrate::Bitrate160 => vec![
            AudioFileFormat::OggVorbis160,
            AudioFileFormat::Mp3_160,
            AudioFileFormat::OggVorbis96,
            AudioFileFormat::Mp3_96,
            AudioFileFormat::Mp3_256,
            AudioFileFormat::OggVorbis320,
            AudioFileFormat::Mp3_320,
        ],
        Bitrate::Bitrate320 => vec![
            AudioFileFormat::OggVorbis320,
            AudioFileFormat::Mp3_320,
            AudioFileFormat::Mp3_256,
            AudioFileFormat::OggVorbis160,
            AudioFileFormat::Mp3_160,
            AudioFileFormat::OggVorbis96,
            AudioFileFormat::Mp3_96,
        ],
    };
    assert(r@ =~= priority_of(bitrate));
    r
}

/// The first format of `wanted` that `offered` holds.
pub open spec fn first_offered(wanted: Seq<AudioFileFormat>, offered: Seq<AudioFileFormat>) -> Option<
    AudioFileFormat,
>
    decreases wanted.len(),
{
    if wanted.len() == 0 {
        None
    } else if offered.contains(wanted[0]) {
        Some(wanted[0])
    } else {
        first_offered(wanted.drop_first(), offered)
    }
}

/// Position of the first occurrence of `f` in `s`, if any.
fn find_format(s: &Vec<AudioFileFormat>, f: AudioFileFormat) -> (r: Option<usize>)
    ensures
        match r {
            Some(i) => i < s@.len() && s@[i as int] == f && forall|j: int|
                0 <= j < i ==> s@[j] != f,
            None => !s@.contains(f),
        },
{
    let mut i: usize = 0;
    while i < s.len()
        invariant
            i <= s@.len(),
            forall|j: int| 0 <= j < i ==> s@[j] != f,
        decreases s@.len() - i,
    {
        if s[i] == f {
            return Some(i);
        }
        i = i + 1;
    }
    None
}

/// Picks, among the offered files, the one whose format the bitrate preference wants most.
/// Returns its index in `offered`: the first entry of that format.
pub fn select_file(bitrate: Bitrate, offered: &Vec<AudioFileFormat>) -> (r: Option<usize>)
    ensures
        match r {
            Some(i) => i < offered@.len() && first_offered(priority_of(bitrate), offered@) == Some(
                offered@[i as int],
            ) && forall|j: int| 0 <= j < i ==> offered@[j] != offered@[i as int],
            None => first_offered(priority_of(bitrate), offered@) is None,
        },
{
    let wanted = format_priority(bitrate);
    let mut k: usize = 0;
    assert(wanted@.skip(0) =~= wanted@);
    while k < wanted.len()
        invariant
            k <= wanted@.len(),
            wanted@ == priority_of(bitrate),
            first_offered(priority_of(bitrate), offered@) == first_offered(
                wanted@.skip(k as int),
                offered@,
            ),
        decreases wanted@.len() - k,
    {
        assert(wanted@.skip(k as int).drop_first() =~= wanted@.skip(k + 1));
        match find_format(offered, wanted[k]) {
            Some(i) => {
                return Some(i);
            },
            None => {},
        }
        k = k + 1;
    }
    None
}

/// Whether a format is carried in an Ogg Vorbis stream.
pub open spec fn spec_is_ogg_vorbis(format: AudioFileFormat) -> bool {
    match format {
        AudioFileFormat::OggVorbis96 | AudioFileFormat::OggVorbis160
        | AudioFileFormat::OggVorbis320 => true,
        _ => false,
    }
}

pub fn is_ogg_vorbis(format: AudioFileFormat) -> (r: bool)
    ensures
        r == spec_is_ogg_vorbis(format),
{
    match format {
        AudioFileFormat::OggVorbis96 | AudioFileFormat::OggVorbis160
        | AudioFileFormat::OggVorbis320 => true,
        _ => false,
    }
}

/// Ogg files from the catalog open with a malformed header packet that ends here.
pub const OGG_HEADER_END: u64 = 0xa7;

/// Where the decoder's view of a file starts.
pub fn audio_offset(format: AudioFileFormat) -> (r: u64)
    ensures
        r == (if spec_is_ogg_vorbis(format) {
            OGG_HEADER_END
        } else {
            0
        }),
{
    if is_ogg_vorbis(format) {
        OGG_HEADER_END
    } else {
        0
    }
}

} // verus!
