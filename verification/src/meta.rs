//! Descriptive snapshots of an opened stream: tag metadata, quality
//! descriptors, and the sample-format model that resampler decisions
//! are made over. Durations and positions are carried in whole
//! microseconds.
use vstd::prelude::*;

verus! {

/// The scalar sample kind of a decoded stream, the closed set of
/// formats the pipeline distinguishes.
#[derive(Clone, Copy, PartialEq, Eq, Structural, Debug)]
pub enum SampleFormatKind {
    U8,
    I16,
    I32,
    I64,
    F32,
    F64,
    Unknown,
}

/// A full sample description: scalar kind, planar or interleaved
/// layout, channel count and sample rate. A resampler is needed
/// exactly when source and target descriptions differ.
#[derive(Clone, Copy, PartialEq, Eq, Structural, Debug)]
pub struct SampleSpec {
    pub kind: SampleFormatKind,
    pub planar: bool,
    pub channels: u16,
    pub rate: u32,
}

/// Tag metadata and duration of the opened stream, copied out once at
/// open time and read-only afterwards.
pub struct AudioInfo {
    pub name: String,
    pub artist: String,
    pub album: String,
    pub lyric: String,
    pub cover_media_type: String,
    pub cover: Option<Vec<u8>>,
    pub comment: String,
    pub duration_us: u64,
    pub position_us: u64,
}

impl AudioInfo {
    /// An empty snapshot: no tags, no cover, zero duration.
    pub fn new_empty() -> (r: AudioInfo)
        ensures
            r.name@ == Seq::<char>::empty(),
            r.artist@ == Seq::<char>::empty(),
            r.album@ == Seq::<char>::empty(),
            r.lyric@ == Seq::<char>::empty(),
            r.cover_media_type@ == Seq::<char>::empty(),
            r.cover is None,
            r.comment@ == Seq::<char>::empty(),
            r.duration_us == 0,
            r.position_us == 0,
    {
        AudioInfo {
            name: String::new(),
            artist: String::new(),
            album: String::new(),
            lyric: String::new(),
            cover_media_type: String::new(),
            cover: None,
            comment: String::new(),
            duration_us: 0,
            position_us: 0,
        }
    }

    /// The snapshot read from the container's tags at open time:
    /// each present tag fills its field, absent tags stay empty, and
    /// the embedded cover picture is kept with its media type.
    pub fn from_tags(
        title: Option<String>,
        artist: Option<String>,
        album: Option<String>,
        lyrics: Option<String>,
        comment: Option<String>,
        cover: Option<Vec<u8>>,
        cover_media_type: String,
        duration_us: u64,
    ) -> (r: AudioInfo)
        ensures
            title is Some ==> r.name == title->0,
            title is None ==> r.name@ == Seq::<char>::empty(),
            artist is Some ==> r.artist == artist->0,
            artist is None ==> r.artist@ == Seq::<char>::empty(),
            album is Some ==> r.album == album->0,
            album is None ==> r.album@ == Seq::<char>::empty(),
            lyrics is Some ==> r.lyric == lyrics->0,
            lyrics is None ==> r.lyric@ == Seq::<char>::empty(),
            comment is Some ==> r.comment == comment->0,
            comment is None ==> r.comment@ == Seq::<char>::empty(),
            r.cover == cover,
            r.cover_media_type == cover_media_type,
            r.duration_us == duration_us,
            r.position_us == 0,
    {
        AudioInfo {
            name: title.unwrap_or(String::new()),
            artist: artist.unwrap_or(String::new()),
            album: album.unwrap_or(String::new()),
            lyric: lyrics.unwrap_or(String::new()),
            cover_media_type,
            cover,
            comment: comment.unwrap_or(String::new()),
            duration_us,
            position_us: 0,
        }
    }

    /// An owned copy: every field equal to this snapshot's.
    pub fn snapshot(&self) -> (r: AudioInfo)
        ensures
            r.name == self.name,
            r.artist == self.artist,
            r.album == self.album,
            r.lyric == self.lyric,
            r.cover_media_type == self.cover_media_type,
            self.cover is None ==> r.cover is None,
            self.cover is Some ==> r.cover is Some && r.cover->0@ == self.cover->0@,
            r.comment == self.comment,
            r.duration_us == self.duration_us,
            r.position_us == self.position_us,
    {
        let cover = match &self.cover {
            Some(v) => Some(clone_bytes(v)),
            None => None,
        };
        AudioInfo {
            name: self.name.clone(),
            artist: self.artist.clone(),
            album: self.album.clone(),
            lyric: self.lyric.clone(),
            cover_media_type: self.cover_media_type.clone(),
            cover,
            comment: self.comment.clone(),
            duration_us: self.duration_us,
            position_us: self.position_us,
        }
    }
}

/// An owned copy of a byte vector, holding the same bytes.
pub fn clone_bytes(v: &Vec<u8>) -> (r: Vec<u8>)
    ensures
        r@ == v@,
{
    let r = v.clone();
    proof {
        assert(r@ =~= v@);
    }
    r
}

/// Quality descriptors of the source stream, computed once from the
/// decoder's parameters.
pub struct AudioQuality {
    pub sample_rate: Option<u32>,
    pub bits_per_coded_sample: Option<u32>,
    pub bits_per_sample: Option<u32>,
    pub channels: Option<u32>,
    pub sample_format: String,
    pub codec: String,
}

/// The short name of a sample format, as reported in quality
/// snapshots.
pub open spec fn spec_format_name(kind: SampleFormatKind) -> Seq<char> {
    match kind {
        SampleFormatKind::U8 => "u8"@,
        SampleFormatKind::I16 => "i16"@,
        SampleFormatKind::I32 => "i32"@,
        SampleFormatKind::I64 => "i64"@,
        SampleFormatKind::F32 => "f32"@,
        SampleFormatKind::F64 => "f64"@,
        SampleFormatKind::Unknown => "unknown"@,
    }
}

/// How many bits one sample of the format occupies, where defined.
pub open spec fn spec_bits_per_sample(kind: SampleFormatKind) -> Option<u32> {
    match kind {
        SampleFormatKind::U8 => Some(8u32),
        SampleFormatKind::I16 => Some(16u32),
        SampleFormatKind::I32 => Some(32u32),
        SampleFormatKind::I64 => Some(64u32),
        SampleFormatKind::F32 => Some(32u32),
        SampleFormatKind::F64 => Some(64u32),
        SampleFormatKind::Unknown => None,
    }
}

impl AudioQuality {
    /// An empty quality snapshot.
    pub fn new_empty() -> (r: AudioQuality)
        ensures
            r.sample_rate is None,
            r.bits_per_coded_sample is None,
            r.bits_per_sample is None,
            r.channels is None,
            r.sample_format@ == Seq::<char>::empty(),
            r.codec@ == Seq::<char>::empty(),
    {
        AudioQuality {
            sample_rate: None,
            bits_per_coded_sample: None,
            bits_per_sample: None,
            channels: None,
            sample_format: String::new(),
            codec: String::new(),
        }
    }

    /// The quality snapshot derived from the source stream's decoder
    /// parameters: its sample rate, format kind, channel count and
    /// codec name.
    pub fn from_stream_params(kind: SampleFormatKind, rate: u32, channels: u32, codec: String) -> (r:
        AudioQuality)
        ensures
            r.sample_rate == Some(rate),
            r.bits_per_coded_sample is None,
            r.bits_per_sample == spec_bits_per_sample(kind),
            r.channels == Some(channels),
            r.sample_format@ == spec_format_name(kind),
            r.codec == codec,
    {
        let sample_format = match kind {
            SampleFormatKind::U8 => "u8",
            SampleFormatKind::I16 => "i16",
            SampleFormatKind::I32 => "i32",
            SampleFormatKind::I64 => "i64",
            SampleFormatKind::F32 => "f32",
            SampleFormatKind::F64 => "f64",
            SampleFormatKind::Unknown => "unknown",
        };
        let bits_per_sample = match kind {
            SampleFormatKind::U8 => Some(8u32),
            SampleFormatKind::I16 => Some(16u32),
            SampleFormatKind::I32 => Some(32u32),
            SampleFormatKind::I64 => Some(64u32),
            SampleFormatKind::F32 => Some(32u32),
            SampleFormatKind::F64 => Some(64u32),
            SampleFormatKind::Unknown => None,
        };
        AudioQuality {
            sample_rate: Some(rate),
            bits_per_coded_sample: None,
            bits_per_sample,
            channels: Some(channels),
            sample_format: sample_format.to_string(),
            codec,
        }
    }

    /// An owned copy, equal to this snapshot.
    pub fn snapshot(&self) -> (r: AudioQuality)
        ensures
            r == *self,
    {
        AudioQuality {
            sample_rate: self.sample_rate,
            bits_per_coded_sample: self.bits_per_coded_sample,
            bits_per_sample: self.bits_per_sample,
            channels: self.channels,
            sample_format: self.sample_format.clone(),
            codec: self.codec.clone(),
        }
    }
}

} // verus!
