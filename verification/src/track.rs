//! The tracks of a broadcast, as its catalog lists them, and the pads that they get.

use vstd::prelude::*;
use vstd::string::*;

verus! {

/// What a track carries.
#[derive(Debug, Clone, Copy, PartialEq, Eq, Hash, Structural)]
pub enum TrackKind {
    Video,
    Audio,
}

/// The name of the pad template for tracks of that kind.
pub open spec fn template_name_of(kind: TrackKind) -> Seq<char> {
    match kind {
        TrackKind::Video => "video_%u"@,
        TrackKind::Audio => "audio_%u"@,
    }
}

/// What the name of a pad for a track of that kind starts with.
pub open spec fn pad_prefix_of(kind: TrackKind) -> Seq<char> {
    match kind {
        TrackKind::Video => "video_"@,
        TrackKind::Audio => "audio_"@,
    }
}

impl TrackKind {
    /// The name of the pad template for tracks of this kind.
    pub fn template_name(&self) -> (name: &'static str)
        ensures
            name@ == template_name_of(*self),
    {
        match self {
            TrackKind::Video => "video_%u",
            TrackKind::Audio => "audio_%u",
        }
    }
}

/// A track, as a pad is made for it.
#[derive(Debug)]
pub struct TrackDescriptor {
    pub kind: TrackKind,
    pub name: String,
}

/// The value of a `TrackDescriptor`.
pub struct TrackDescriptorView {
    pub kind: TrackKind,
    pub name: Seq<char>,
}

impl View for TrackDescriptor {
    type V = TrackDescriptorView;

    open spec fn view(&self) -> TrackDescriptorView {
        TrackDescriptorView { kind: self.kind, name: self.name@ }
    }
}

impl TrackDescriptorView {
    /// The name of the pad for the track.
    pub open spec fn pad_name(self) -> Seq<char> {
        pad_prefix_of(self.kind) + self.name
    }
}

impl TrackDescriptor {
    /// The name of the pad for the track.
    pub fn pad_name(&self) -> (name: String)
        ensures
            name@ == self@.pad_name(),
    {
        let prefix = match self.kind {
            TrackKind::Video => "video_",
            TrackKind::Audio => "audio_",
        };
        prefix.to_string().concat(self.name.as_str())
    }
}

impl Clone for TrackDescriptor {
    fn clone(&self) -> (copy: TrackDescriptor)
        ensures
            copy == *self,
    {
        TrackDescriptor { kind: self.kind, name: self.name.clone() }
    }
}

/// What the catalog says of a video track, as far as its caps depend on it.
#[derive(Debug)]
pub struct VideoConfig {
    /// What initialises the decoder, unless it travels with the frames.
    pub description: Option<Vec<u8>>,
}

/// The codec of an audio track.
#[derive(Debug, Clone, Copy, PartialEq, Eq, Structural)]
pub enum AudioCodec {
    Aac,
    Opus,
    /// Any other codec.
    Unknown,
}

/// What the catalog says of an audio track, as far as its caps depend on it.
#[derive(Debug)]
pub struct AudioConfig {
    pub codec: AudioCodec,
    pub sample_rate: u32,
    pub channel_count: u32,
    /// What initialises the decoder, unless it travels with the frames.
    pub description: Option<Vec<u8>>,
}

/// What the catalog says of a track.
#[derive(Debug)]
pub enum TrackConfig {
    Video(VideoConfig),
    Audio(AudioConfig),
}

/// The value of a `TrackConfig`.
pub enum TrackConfigView {
    Video { description: Option<Seq<u8>> },
    Audio {
        codec: AudioCodec,
        sample_rate: u32,
        channel_count: u32,
        description: Option<Seq<u8>>,
    },
}

/// The bytes of a description, where there is one.
pub open spec fn description_view(description: Option<Vec<u8>>) -> Option<Seq<u8>> {
    match description {
        Some(description) => Some(description@),
        None => None,
    }
}

impl View for TrackConfig {
    type V = TrackConfigView;

    open spec fn view(&self) -> TrackConfigView {
        match *self {
            TrackConfig::Video(config) => TrackConfigView::Video {
                description: description_view(config.description),
            },
            TrackConfig::Audio(config) => TrackConfigView::Audio {
                codec: config.codec,
                sample_rate: config.sample_rate,
                channel_count: config.channel_count,
                description: description_view(config.description),
            },
        }
    }
}

impl TrackConfigView {
    /// The kind of the tracks that the configuration is for.
    pub open spec fn kind(self) -> TrackKind {
        match self {
            TrackConfigView::Video { .. } => TrackKind::Video,
            TrackConfigView::Audio { .. } => TrackKind::Audio,
        }
    }
}

/// Different tracks get pads of different names: a name is shared only by tracks that have
/// both their kind and their name in common.
pub proof fn law_pad_names_are_distinct(left: TrackDescriptorView, right: TrackDescriptorView)
    requires
        left.pad_name() == right.pad_name(),
    ensures
        left == right,
{
    reveal_strlit("video_");
    reveal_strlit("audio_");
    let name = left.pad_name();
    assert("video_"@.len() == 6 && "audio_"@.len() == 6);
    assert("video_"@[0] == 'v' && "audio_"@[0] == 'a');
    assert(name[0] == pad_prefix_of(left.kind)[0]);
    assert(name[0] == pad_prefix_of(right.kind)[0]);
    assert(left.kind == right.kind);
    assert(left.name =~= name.skip(6));
    assert(right.name =~= name.skip(6));
}

/// The name of a track's pad is that of its template with the track's name in place of the
/// `%u`.
pub proof fn law_pad_name_fits_template(descriptor: TrackDescriptorView)
    ensures
        template_name_of(descriptor.kind) == pad_prefix_of(descriptor.kind) + "%u"@,
        descriptor.pad_name() == pad_prefix_of(descriptor.kind) + descriptor.name,
{
    reveal_strlit("video_");
    reveal_strlit("audio_");
    reveal_strlit("%u");
    reveal_strlit("video_%u");
    reveal_strlit("audio_%u");
    assert("video_%u"@ =~= "video_"@ + "%u"@);
    assert("audio_%u"@ =~= "audio_"@ + "%u"@);
}

/// Pads are named after the track and its kind: `video_` or `audio_`, then the track's name. Their
/// templates are named after the kind alone.
pub proof fn law_pads_are_named_after_kind_and_track(descriptor: TrackDescriptorView)
    ensures
        descriptor.kind is Video ==> descriptor.pad_name() == "video_"@ + descriptor.name,
        descriptor.kind is Audio ==> descriptor.pad_name() == "audio_"@ + descriptor.name,
        template_name_of(TrackKind::Video) == "video_%u"@,
        template_name_of(TrackKind::Audio) == "audio_%u"@,
{
}

/// The values of tracks have what these hold, in its own place.
pub proof fn law_track_values_have_every_part(
    descriptor: TrackDescriptor,
    config: TrackConfig,
    description: Option<Vec<u8>>,
)
    ensures
        description_view(description) is Some <==> description is Some,
        description matches Some(bytes) ==> description_view(description) == Some(bytes@),
        descriptor@.kind == descriptor.kind,
        descriptor@.name == descriptor.name@,
        match config {
            TrackConfig::Video(video) => match config@ {
                TrackConfigView::Video { description } => (video.description is Some
                    <==> description is Some) && (video.description matches Some(bytes)
                    ==> description == Some(bytes@)),
                TrackConfigView::Audio { .. } => false,
            },
            TrackConfig::Audio(audio) => match config@ {
                TrackConfigView::Video { .. } => false,
                TrackConfigView::Audio { codec, sample_rate, channel_count, description } => codec
                    == audio.codec && sample_rate == audio.sample_rate && channel_count
                    == audio.channel_count && (audio.description is Some <==> description is Some)
                    && (audio.description matches Some(bytes) ==> description == Some(bytes@)),
            },
        },
{
}

} // verus!
