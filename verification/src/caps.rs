//! The caps of the pads.

use vstd::prelude::*;

use crate::track::{description_view, AudioCodec, AudioConfig, TrackConfig, TrackConfigView, VideoConfig};

verus! {

/// The value of a field of a caps structure.
#[derive(Debug)]
pub enum FieldValue {
    Text(&'static str),
    Int(i32),
    Uint(u32),
    Buffer(Vec<u8>),
}

/// The value of a `FieldValue`.
pub enum FieldValueView {
    Text(Seq<char>),
    Int(i32),
    Uint(u32),
    Buffer(Seq<u8>),
}

impl View for FieldValue {
    type V = FieldValueView;

    open spec fn view(&self) -> FieldValueView {
        match *self {
            FieldValue::Text(text) => FieldValueView::Text(text@),
            FieldValue::Int(number) => FieldValueView::Int(number),
            FieldValue::Uint(number) => FieldValueView::Uint(number),
            FieldValue::Buffer(bytes) => FieldValueView::Buffer(bytes@),
        }
    }
}

/// A field of a caps structure.
#[derive(Debug)]
pub struct CapsField {
    pub name: &'static str,
    pub value: FieldValue,
}

impl View for CapsField {
    type V = (Seq<char>, FieldValueView);

    open spec fn view(&self) -> (Seq<char>, FieldValueView) {
        (self.name@, self.value@)
    }
}

/// What may flow through a pad.
#[derive(Debug)]
pub enum Caps {
    /// Anything.
    Any,
    /// Media of one type, with fields in the order in which they are set.
    Structure { media_type: &'static str, fields: Vec<CapsField> },
}

/// The value of `Caps`.
pub enum CapsView {
    Any,
    Structure { media_type: Seq<char>, fields: Seq<(Seq<char>, FieldValueView)> },
}

/// The values of a structure's fields.
pub open spec fn fields_view(fields: Seq<CapsField>) -> Seq<(Seq<char>, FieldValueView)> {
    Seq::new(fields.len(), |i: int| fields[i]@)
}

impl View for Caps {
    type V = CapsView;

    open spec fn view(&self) -> CapsView {
        match *self {
            Caps::Any => CapsView::Any,
            Caps::Structure { media_type, fields } => CapsView::Structure {
                media_type: media_type@,
                fields: fields_view(fields@),
            },
        }
    }
}

/// An audio track whose codec no caps are known for.
#[derive(Debug, Clone, Copy, PartialEq, Eq, Structural)]
pub struct UnsupportedAudioCodec;

/// A text field.
pub open spec fn text_field(name: Seq<char>, text: Seq<char>) -> (Seq<char>, FieldValueView) {
    (name, FieldValueView::Text(text))
}

/// The field that hands the decoder its description.
pub open spec fn codec_data_field(description: Seq<u8>) -> (Seq<char>, FieldValueView) {
    ("codec_data"@, FieldValueView::Buffer(description))
}

/// The caps of a video track.
pub open spec fn video_caps_of(description: Option<Seq<u8>>) -> CapsView {
    CapsView::Structure {
        media_type: "video/x-h264"@,
        fields: match description {
            Some(description) => seq![
                text_field("alignment"@, "au"@),
                text_field("stream-format"@, "avc"@),
                codec_data_field(description),
            ],
            None => seq![
                text_field("alignment"@, "au"@),
                text_field("stream-format"@, "annexb"@),
            ],
        },
    }
}

/// The caps of an audio track, if its codec is supported.
pub open spec fn audio_caps_of(
    codec: AudioCodec,
    sample_rate: u32,
    channel_count: u32,
    description: Option<Seq<u8>>,
) -> Result<CapsView, UnsupportedAudioCodec> {
    let rate = ("rate"@, FieldValueView::Uint(sample_rate));
    let channels = ("channels"@, FieldValueView::Uint(channel_count));
    match codec {
        AudioCodec::Aac => {
            let version = ("mpegversion"@, FieldValueView::Int(4));
            Ok(
                CapsView::Structure {
                    media_type: "audio/mpeg"@,
                    fields: match description {
                        Some(description) => seq![
                            version,
                            rate,
                            channels,
                            codec_data_field(description),
                            text_field("stream-format"@, "aac"@),
                        ],
                        None => seq![
                            version,
                            rate,
                            channels,
                            text_field("stream-format"@, "adts"@),
                        ],
                    },
                },
            )
        },
        AudioCodec::Opus => Ok(
            CapsView::Structure {
                media_type: "audio/x-opus"@,
                fields: match description {
                    Some(description) => seq![
                        rate,
                        channels,
                        codec_data_field(description),
                        text_field("stream-format"@, "ogg"@),
                    ],
                    None => seq![rate, channels],
                },
            },
        ),
        AudioCodec::Unknown => Err(UnsupportedAudioCodec),
    }
}

/// The caps of a track, if its codec is supported.
pub open spec fn track_caps_of(config: TrackConfigView) -> Result<CapsView, UnsupportedAudioCodec> {
    match config {
        TrackConfigView::Video { description } => Ok(video_caps_of(description)),
        TrackConfigView::Audio { codec, sample_rate, channel_count, description } => audio_caps_of(
            codec,
            sample_rate,
            channel_count,
            description,
        ),
    }
}

/// The value of what the functions below return.
pub open spec fn caps_result_view(
    result: Result<Caps, UnsupportedAudioCodec>,
) -> Result<CapsView, UnsupportedAudioCodec> {
    match result {
        Ok(caps) => Ok(caps@),
        Err(error) => Err(error),
    }
}

fn text(name: &'static str, value: &'static str) -> (field: CapsField)
    ensures
        field@ == text_field(name@, value@),
{
    CapsField { name, value: FieldValue::Text(value) }
}

fn codec_data(description: &Vec<u8>) -> (field: CapsField)
    ensures
        field@ == codec_data_field(description@),
{
    let copy = description.clone();
    assert(copy@ =~= description@);
    CapsField { name: "codec_data", value: FieldValue::Buffer(copy) }
}

/// The caps of a video track: H.264 in access units, with the parameter sets out of band where
/// the catalog describes them and in band where it does not.
pub fn video_caps(config: &VideoConfig) -> (caps: Caps)
    ensures
        caps@ == video_caps_of(description_view(config.description)),
{
    let mut fields: Vec<CapsField> = Vec::new();
    fields.push(text("alignment", "au"));
    match &config.description {
        Some(description) => {
            fields.push(text("stream-format", "avc"));
            fields.push(codec_data(description));
        },
        None => {
            fields.push(text("stream-format", "annexb"));
        },
    }
    assert(fields_view(fields@) =~= video_caps_of(
        description_view(config.description),
    )->Structure_fields);
    Caps::Structure { media_type: "video/x-h264", fields }
}

/// The caps of an audio track: AAC or Opus, and nothing else.
pub fn audio_caps(config: &AudioConfig) -> (caps: Result<Caps, UnsupportedAudioCodec>)
    ensures
        caps_result_view(caps) == audio_caps_of(
            config.codec,
            config.sample_rate,
            config.channel_count,
            description_view(config.description),
        ),
{
    let ghost expected = audio_caps_of(
        config.codec,
        config.sample_rate,
        config.channel_count,
        description_view(config.description),
    );
    let rate = CapsField { name: "rate", value: FieldValue::Uint(config.sample_rate) };
    let channels = CapsField { name: "channels", value: FieldValue::Uint(config.channel_count) };
    let mut fields: Vec<CapsField> = Vec::new();
    match config.codec {
        AudioCodec::Aac => {
            fields.push(CapsField { name: "mpegversion", value: FieldValue::Int(4) });
            fields.push(rate);
            fields.push(channels);
            match &config.description {
                Some(description) => {
                    fields.push(codec_data(description));
                    fields.push(text("stream-format", "aac"));
                },
                None => {
                    fields.push(text("stream-format", "adts"));
                },
            }
            assert(fields_view(fields@) =~= expected->Ok_0->Structure_fields);
            Ok(Caps::Structure { media_type: "audio/mpeg", fields })
        },
        AudioCodec::Opus => {
            fields.push(rate);
            fields.push(channels);
            match &config.description {
                Some(description) => {
                    fields.push(codec_data(description));
                    fields.push(text("stream-format", "ogg"));
                },
                None => {},
            }
            assert(fields_view(fields@) =~= expected->Ok_0->Structure_fields);
            Ok(Caps::Structure { media_type: "audio/x-opus", fields })
        },
        AudioCodec::Unknown => Err(UnsupportedAudioCodec),
    }
}

/// The caps of a track.
pub fn track_caps(config: &TrackConfig) -> (caps: Result<Caps, UnsupportedAudioCodec>)
    ensures
        caps_result_view(caps) == track_caps_of(config@),
{
    match config {
        TrackConfig::Video(config) => Ok(video_caps(config)),
        TrackConfig::Audio(config) => audio_caps(config),
    }
}

/// Whether fields give that name that value, and no other.
pub open spec fn gives(
    fields: Seq<(Seq<char>, FieldValueView)>,
    name: Seq<char>,
    value: FieldValueView,
) -> bool {
    &&& exists|i: int| 0 <= i < fields.len() && #[trigger] fields[i] == (name, value)
    &&& forall|i: int|
        0 <= i < fields.len() && (#[trigger] fields[i]).0 == name ==> fields[i].1 == value
}

/// Whether no field has that name.
pub open spec fn lacks(fields: Seq<(Seq<char>, FieldValueView)>, name: Seq<char>) -> bool {
    forall|i: int| 0 <= i < fields.len() ==> (#[trigger] fields[i]).0 != name
}

/// The names of the fields are different.
proof fn lemma_field_names_differ()
    ensures
        "rate"@.len() == 4,
        "channels"@.len() == 8,
        "alignment"@.len() == 9,
        "codec_data"@.len() == 10,
        "mpegversion"@.len() == 11,
        "stream-format"@.len() == 13,
{
    reveal_strlit("rate");
    reveal_strlit("channels");
    reveal_strlit("alignment");
    reveal_strlit("codec_data");
    reveal_strlit("mpegversion");
    reveal_strlit("stream-format");
}

/// Video is H.264 in access units. With a description, which is handed on as it is, it is `avc`;
/// without one it is `annexb`, and no codec data is given. The caps say nothing else.
pub proof fn law_video_caps_tell_the_format(description: Option<Seq<u8>>)
    ensures
        match video_caps_of(description) {
            CapsView::Any => false,
            CapsView::Structure { media_type, fields } => {
                &&& media_type == "video/x-h264"@
                &&& gives(fields, "alignment"@, FieldValueView::Text("au"@))
                &&& match description {
                    Some(bytes) => {
                        &&& fields.len() == 3
                        &&& gives(fields, "stream-format"@, FieldValueView::Text("avc"@))
                        &&& gives(fields, "codec_data"@, FieldValueView::Buffer(bytes))
                    },
                    None => {
                        &&& fields.len() == 2
                        &&& gives(fields, "stream-format"@, FieldValueView::Text("annexb"@))
                        &&& lacks(fields, "codec_data"@)
                    },
                }
            },
        },
{
    lemma_field_names_differ();
    let fields = video_caps_of(description)->Structure_fields;
    assert(fields[0] == ("alignment"@, FieldValueView::Text("au"@)));
    if description is Some {
        assert(fields[1] == ("stream-format"@, FieldValueView::Text("avc"@)));
        assert(fields[2] == ("codec_data"@, FieldValueView::Buffer(description->0)));
    } else {
        assert(fields[1] == ("stream-format"@, FieldValueView::Text("annexb"@)));
    }
}

/// Audio has caps if and only if it is AAC or Opus. They give the rate and the channels of the
/// track, and its description as codec data if and only if there is one. AAC is version 4 of MPEG,
/// and `aac` with a description and `adts` without one; Opus is `ogg` with a description, and
/// without one no format is given. The caps say nothing else.
pub proof fn law_audio_caps_tell_the_format(
    codec: AudioCodec,
    sample_rate: u32,
    channel_count: u32,
    description: Option<Seq<u8>>,
)
    ensures
        match audio_caps_of(codec, sample_rate, channel_count, description) {
            Err(_) => codec is Unknown,
            Ok(CapsView::Any) => false,
            Ok(CapsView::Structure { media_type, fields }) => {
                &&& !(codec is Unknown)
                &&& media_type == (if codec is Aac {
                    "audio/mpeg"@
                } else {
                    "audio/x-opus"@
                })
                &&& gives(fields, "rate"@, FieldValueView::Uint(sample_rate))
                &&& gives(fields, "channels"@, FieldValueView::Uint(channel_count))
                &&& if codec is Aac {
                    gives(fields, "mpegversion"@, FieldValueView::Int(4))
                } else {
                    lacks(fields, "mpegversion"@)
                }
                &&& match description {
                    Some(bytes) => {
                        &&& fields.len() == (if codec is Aac {
                            5int
                        } else {
                            4int
                        })
                        &&& gives(fields, "codec_data"@, FieldValueView::Buffer(bytes))
                        &&& gives(
                            fields,
                            "stream-format"@,
                            FieldValueView::Text(
                                if codec is Aac {
                                    "aac"@
                                } else {
                                    "ogg"@
                                },
                            ),
                        )
                    },
                    None => {
                        &&& fields.len() == (if codec is Aac {
                            4int
                        } else {
                            2int
                        })
                        &&& lacks(fields, "codec_data"@)
                        &&& if codec is Aac {
                            gives(fields, "stream-format"@, FieldValueView::Text("adts"@))
                        } else {
                            lacks(fields, "stream-format"@)
                        }
                    },
                }
            },
        },
{
    lemma_field_names_differ();
    let result = audio_caps_of(codec, sample_rate, channel_count, description);
    if result is Ok {
        let fields = result->Ok_0->Structure_fields;
        let rate = ("rate"@, FieldValueView::Uint(sample_rate));
        let channels = ("channels"@, FieldValueView::Uint(channel_count));
        if codec is Aac {
            assert(fields[0] == ("mpegversion"@, FieldValueView::Int(4)));
            assert(fields[1] == rate && fields[2] == channels);
            if description is Some {
                assert(fields[3] == ("codec_data"@, FieldValueView::Buffer(description->0)));
                assert(fields[4] == ("stream-format"@, FieldValueView::Text("aac"@)));
            } else {
                assert(fields[3] == ("stream-format"@, FieldValueView::Text("adts"@)));
            }
        } else {
            assert(fields[0] == rate && fields[1] == channels);
            if description is Some {
                assert(fields[2] == ("codec_data"@, FieldValueView::Buffer(description->0)));
                assert(fields[3] == ("stream-format"@, FieldValueView::Text("ogg"@)));
            }
        }
    }
}

/// A track has the caps of its kind for what the catalog says of it. So all video tracks have
/// caps, and audio tracks have them unless their codec is unknown.
pub proof fn law_track_caps_are_those_of_the_kind(config: TrackConfigView)
    ensures
        match config {
            TrackConfigView::Video { description } => track_caps_of(config) == Ok::<
                CapsView,
                UnsupportedAudioCodec,
            >(video_caps_of(description)),
            TrackConfigView::Audio { codec, sample_rate, channel_count, description } => {
                &&& track_caps_of(config) == audio_caps_of(
                    codec,
                    sample_rate,
                    channel_count,
                    description,
                )
                &&& track_caps_of(config) is Ok <==> codec is Aac || codec is Opus
            },
        },
{
}

/// The value of caps has their media type and each of their fields, in order, as it is.
pub proof fn law_caps_values_have_every_part(caps: Caps)
    ensures
        match caps {
            Caps::Any => caps@ is Any,
            Caps::Structure { media_type, fields } => match caps@ {
                CapsView::Any => false,
                CapsView::Structure { media_type: type_text, fields: values } => {
                    &&& type_text == media_type@
                    &&& values.len() == fields@.len()
                    &&& forall|i: int|
                        0 <= i < values.len() ==> (#[trigger] values[i]).0 == fields@[i].name@
                            && match fields@[i].value {
                            FieldValue::Text(text) => values[i].1 == FieldValueView::Text(text@),
                            FieldValue::Int(number) => values[i].1 == FieldValueView::Int(number),
                            FieldValue::Uint(number) => values[i].1 == FieldValueView::Uint(number),
                            FieldValue::Buffer(bytes) => values[i].1 == FieldValueView::Buffer(
                                bytes@,
                            ),
                        }
                },
            },
        },
        caps_result_view(Ok(caps)) == Ok::<CapsView, UnsupportedAudioCodec>(caps@),
        caps_result_view(Err(UnsupportedAudioCodec)) == Err::<CapsView, UnsupportedAudioCodec>(
            UnsupportedAudioCodec,
        ),
{
}

} // verus!
