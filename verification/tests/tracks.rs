use moq_gst::caps::{audio_caps, track_caps, video_caps, Caps, CapsField, FieldValue};
use moq_gst::catalog::{AudioRendition, Catalog, VideoRendition};
use moq_gst::track::{
    AudioCodec, AudioConfig, TrackConfig, TrackDescriptor, TrackKind, VideoConfig,
};

fn video(description: Option<Vec<u8>>) -> VideoConfig {
    VideoConfig { description }
}

fn audio(codec: AudioCodec, description: Option<Vec<u8>>) -> AudioConfig {
    AudioConfig { codec, sample_rate: 48000, channel_count: 2, description }
}

fn show_field(field: &CapsField) -> String {
    match &field.value {
        FieldValue::Text(text) => format!("{}={}", field.name, text),
        FieldValue::Int(number) => format!("{}=(int){}", field.name, number),
        FieldValue::Uint(number) => format!("{}=(uint){}", field.name, number),
        FieldValue::Buffer(bytes) => format!("{}={:?}", field.name, bytes),
    }
}

fn show(caps: &Caps) -> String {
    match caps {
        Caps::Any => "ANY".to_string(),
        Caps::Structure { media_type, fields } => {
            let fields: Vec<String> = fields.iter().map(show_field).collect();
            format!("{}; {}", media_type, fields.join("; "))
        }
    }
}

#[test]
fn video_caps_follow_the_description() {
    assert_eq!(
        show(&video_caps(&video(Some(vec![1, 100])))),
        "video/x-h264; alignment=au; stream-format=avc; codec_data=[1, 100]"
    );
    assert_eq!(
        show(&video_caps(&video(None))),
        "video/x-h264; alignment=au; stream-format=annexb"
    );
}

#[test]
fn aac_caps_follow_the_description() {
    assert_eq!(
        show(&audio_caps(&audio(AudioCodec::Aac, Some(vec![18, 16]))).unwrap()),
        "audio/mpeg; mpegversion=(int)4; rate=(uint)48000; channels=(uint)2; \
         codec_data=[18, 16]; stream-format=aac"
    );
    assert_eq!(
        show(&audio_caps(&audio(AudioCodec::Aac, None)).unwrap()),
        "audio/mpeg; mpegversion=(int)4; rate=(uint)48000; channels=(uint)2; stream-format=adts"
    );
}

#[test]
fn opus_caps_follow_the_description() {
    assert_eq!(
        show(&audio_caps(&audio(AudioCodec::Opus, Some(vec![9]))).unwrap()),
        "audio/x-opus; rate=(uint)48000; channels=(uint)2; codec_data=[9]; stream-format=ogg"
    );
    assert_eq!(
        show(&audio_caps(&audio(AudioCodec::Opus, None)).unwrap()),
        "audio/x-opus; rate=(uint)48000; channels=(uint)2"
    );
}

#[test]
fn unknown_audio_codec_has_no_caps() {
    assert!(audio_caps(&audio(AudioCodec::Unknown, None)).is_err());
    assert!(track_caps(&TrackConfig::Audio(audio(AudioCodec::Unknown, Some(vec![1])))).is_err());
}

#[test]
fn track_caps_are_those_of_the_kind() {
    assert_eq!(
        show(&track_caps(&TrackConfig::Video(video(None))).unwrap()),
        show(&video_caps(&video(None)))
    );
    assert_eq!(
        show(&track_caps(&TrackConfig::Audio(audio(AudioCodec::Opus, None))).unwrap()),
        show(&audio_caps(&audio(AudioCodec::Opus, None)).unwrap())
    );
}

#[test]
fn pad_names_tell_tracks_apart() {
    let camera = TrackDescriptor { kind: TrackKind::Video, name: "0".to_string() };
    let microphone = TrackDescriptor { kind: TrackKind::Audio, name: "0".to_string() };
    assert_eq!(camera.pad_name(), "video_0");
    assert_eq!(microphone.pad_name(), "audio_0");
    assert_eq!(camera.kind.template_name(), "video_%u");
    assert_eq!(microphone.kind.template_name(), "audio_%u");
    assert_eq!(
        camera.pad_name(),
        camera.kind.template_name().replace("%u", &camera.name)
    );
}

#[test]
fn catalog_lists_video_before_audio() {
    let catalog = Catalog {
        video: Some(vec![
            VideoRendition { name: "hd".to_string(), config: video(None) },
            VideoRendition { name: "sd".to_string(), config: video(Some(vec![5])) },
        ]),
        audio: Some(vec![AudioRendition {
            name: "en".to_string(),
            config: audio(AudioCodec::Opus, None),
        }]),
    };
    let tracks = catalog.into_tracks();
    let names: Vec<String> = tracks.iter().map(|track| track.descriptor.pad_name()).collect();
    assert_eq!(names, vec!["video_hd", "video_sd", "audio_en"]);
    assert!(matches!(tracks[1].config, TrackConfig::Video(_)));
    assert!(matches!(tracks[2].config, TrackConfig::Audio(_)));
}

#[test]
fn catalog_may_be_empty() {
    assert!(Catalog { video: None, audio: None }.into_tracks().is_empty());
    assert!(Catalog { video: Some(vec![]), audio: None }.into_tracks().is_empty());
}

#[test]
fn catalog_tracks_of_the_same_name_get_different_pads() {
    let catalog = Catalog {
        video: Some(vec![VideoRendition { name: "main".to_string(), config: video(None) }]),
        audio: Some(vec![AudioRendition {
            name: "main".to_string(),
            config: audio(AudioCodec::Aac, None),
        }]),
    };
    let tracks = catalog.into_tracks();
    assert_eq!(tracks[0].descriptor.pad_name(), "video_main");
    assert_eq!(tracks[1].descriptor.pad_name(), "audio_main");
}
