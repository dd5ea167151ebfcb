//! The catalog of a broadcast, and the order in which its tracks get their pads.

use vstd::prelude::*;

use crate::track::{
    description_view, law_pad_names_are_distinct, AudioConfig, TrackConfig, TrackConfigView,
    TrackDescriptor, TrackDescriptorView, TrackKind, VideoConfig,
};

verus! {

/// A video track in the catalog.
#[derive(Debug)]
pub struct VideoRendition {
    pub name: String,
    pub config: VideoConfig,
}

/// An audio track in the catalog.
#[derive(Debug)]
pub struct AudioRendition {
    pub name: String,
    pub config: AudioConfig,
}

/// The tracks of a broadcast.
#[derive(Debug)]
pub struct Catalog {
    pub video: Option<Vec<VideoRendition>>,
    pub audio: Option<Vec<AudioRendition>>,
}

/// A track that is to get a pad.
#[derive(Debug)]
pub struct PlannedTrack {
    pub descriptor: TrackDescriptor,
    pub config: TrackConfig,
}

/// The value of a `PlannedTrack`.
pub struct PlannedTrackView {
    pub descriptor: TrackDescriptorView,
    pub config: TrackConfigView,
}

impl View for PlannedTrack {
    type V = PlannedTrackView;

    open spec fn view(&self) -> PlannedTrackView {
        PlannedTrackView { descriptor: self.descriptor@, config: self.config@ }
    }
}

/// The values of planned tracks.
pub open spec fn tracks_view(tracks: Seq<PlannedTrack>) -> Seq<PlannedTrackView> {
    Seq::new(tracks.len(), |i: int| tracks[i]@)
}

/// The track of a video rendition.
pub open spec fn video_track_of(rendition: VideoRendition) -> PlannedTrackView {
    PlannedTrackView {
        descriptor: TrackDescriptorView { kind: TrackKind::Video, name: rendition.name@ },
        config: TrackConfigView::Video {
            description: description_view(rendition.config.description),
        },
    }
}

/// The track of an audio rendition.
pub open spec fn audio_track_of(rendition: AudioRendition) -> PlannedTrackView {
    PlannedTrackView {
        descriptor: TrackDescriptorView { kind: TrackKind::Audio, name: rendition.name@ },
        config: TrackConfigView::Audio {
            codec: rendition.config.codec,
            sample_rate: rendition.config.sample_rate,
            channel_count: rendition.config.channel_count,
            description: description_view(rendition.config.description),
        },
    }
}

/// The tracks of video renditions.
pub open spec fn video_tracks_of(renditions: Seq<VideoRendition>) -> Seq<PlannedTrackView> {
    Seq::new(renditions.len(), |i: int| video_track_of(renditions[i]))
}

/// The tracks of audio renditions.
pub open spec fn audio_tracks_of(renditions: Seq<AudioRendition>) -> Seq<PlannedTrackView> {
    Seq::new(renditions.len(), |i: int| audio_track_of(renditions[i]))
}

/// The tracks of the video renditions, where there are any.
pub open spec fn video_part_of(renditions: Option<Vec<VideoRendition>>) -> Seq<PlannedTrackView> {
    match renditions {
        Some(renditions) => video_tracks_of(renditions@),
        None => seq![],
    }
}

/// The tracks of the audio renditions, where there are any.
pub open spec fn audio_part_of(renditions: Option<Vec<AudioRendition>>) -> Seq<PlannedTrackView> {
    match renditions {
        Some(renditions) => audio_tracks_of(renditions@),
        None => seq![],
    }
}

/// How many video renditions a catalog has.
pub open spec fn video_count(catalog: Catalog) -> int {
    match catalog.video {
        Some(renditions) => renditions.len() as int,
        None => 0,
    }
}

/// How many audio renditions a catalog has.
pub open spec fn audio_count(catalog: Catalog) -> int {
    match catalog.audio {
        Some(renditions) => renditions.len() as int,
        None => 0,
    }
}

/// A catalog is known by its tracks: the video tracks in their order, then the audio tracks in
/// theirs.
impl View for Catalog {
    type V = Seq<PlannedTrackView>;

    open spec fn view(&self) -> Seq<PlannedTrackView> {
        video_part_of(self.video) + audio_part_of(self.audio)
    }
}

impl Catalog {
    /// Whether no two tracks of the same kind share a name.
    pub open spec fn names_are_distinct(self) -> bool {
        &&& self.video matches Some(renditions) ==> forall|i: int, j: int|
            0 <= i < j < renditions.len() ==> #[trigger] renditions@[i].name@
                != #[trigger] renditions@[j].name@
        &&& self.audio matches Some(renditions) ==> forall|i: int, j: int|
            0 <= i < j < renditions.len() ==> #[trigger] renditions@[i].name@
                != #[trigger] renditions@[j].name@
    }

    /// The tracks of the catalog, in the order in which they get their pads.
    pub fn into_tracks(self) -> (tracks: Vec<PlannedTrack>)
        ensures
            tracks.len() == self@.len(),
            tracks_view(tracks@) == self@,
            tracks.len() == video_count(self) + audio_count(self),
            forall|i: int|
                0 <= i < video_count(self) ==> (#[trigger] tracks@[i]).descriptor.kind is Video
                    && tracks@[i].descriptor.name == self.video->0@[i].name && tracks@[i].config
                    == TrackConfig::Video(self.video->0@[i].config),
            forall|i: int|
                0 <= i < audio_count(self) ==> ({
                    let track = #[trigger] tracks@[video_count(self) + i];
                    &&& track.descriptor.kind is Audio
                    &&& track.descriptor.name == self.audio->0@[i].name
                    &&& track.config == TrackConfig::Audio(self.audio->0@[i].config)
                }),
    {
        let mut tracks: Vec<PlannedTrack> = Vec::new();
        let ghost video = video_part_of(self.video);
        let ghost videos = video_count(self);
        if let Some(renditions) = self.video {
            let ghost all = renditions@;
            for rendition in iter: renditions
                invariant
                    iter.seq() == all,
                    tracks_view(tracks@) == video_tracks_of(all).take(iter.index() as int),
                    tracks.len() == iter.index(),
                    forall|i: int|
                        0 <= i < iter.index() ==> (#[trigger] tracks@[i]).descriptor.kind is Video
                            && tracks@[i].descriptor.name == all[i].name && tracks@[i].config
                            == TrackConfig::Video(all[i].config),
            {
                let ghost before = tracks@;
                tracks.push(
                    PlannedTrack {
                        descriptor: TrackDescriptor {
                            kind: TrackKind::Video,
                            name: rendition.name,
                        },
                        config: TrackConfig::Video(rendition.config),
                    },
                );
                assert(tracks_view(tracks@) =~= tracks_view(before).push(
                    video_track_of(rendition),
                ));
                assert(tracks_view(tracks@) =~= video_tracks_of(all).take(iter.index() + 1));
            }
            assert(video_tracks_of(all).take(all.len() as int) =~= video);
        }
        assert(tracks_view(tracks@) =~= video);
        let ghost listed = tracks@;
        if let Some(renditions) = self.audio {
            let ghost all = renditions@;
            assert(video + audio_tracks_of(all).take(0) =~= video);
            for rendition in iter: renditions
                invariant
                    iter.seq() == all,
                    tracks_view(tracks@) == video + audio_tracks_of(all).take(iter.index() as int),
                    listed.len() == videos,
                    tracks.len() == videos + iter.index(),
                    tracks@.take(videos) == listed,
                    forall|i: int|
                        0 <= i < iter.index() ==> ({
                            let track = #[trigger] tracks@[videos + i];
                            &&& track.descriptor.kind is Audio
                            &&& track.descriptor.name == all[i].name
                            &&& track.config == TrackConfig::Audio(all[i].config)
                        }),
            {
                let ghost before = tracks@;
                tracks.push(
                    PlannedTrack {
                        descriptor: TrackDescriptor {
                            kind: TrackKind::Audio,
                            name: rendition.name,
                        },
                        config: TrackConfig::Audio(rendition.config),
                    },
                );
                assert(tracks_view(tracks@) =~= tracks_view(before).push(
                    audio_track_of(rendition),
                ));
                assert(tracks_view(tracks@) =~= video + audio_tracks_of(all).take(
                    iter.index() + 1,
                ));
                assert(tracks@.take(videos) =~= listed);
            }
            assert(audio_tracks_of(all).take(all.len() as int) =~= audio_tracks_of(all));
        }
        assert(tracks_view(tracks@) =~= self@);
        assert(tracks@.take(videos) =~= listed);
        assert forall|i: int| 0 <= i < videos implies #[trigger] tracks@[i] == listed[i] by {
            assert(tracks@.take(videos)[i] == tracks@[i]);
        }
        tracks
    }
}

/// The tracks of a catalog are of the kind that their configuration is for, and all video tracks
/// come before all audio tracks.
pub proof fn law_catalog_lists_video_first(catalog: Catalog, i: int, j: int)
    requires
        0 <= i < j < catalog@.len(),
    ensures
        catalog@[i].descriptor.kind == catalog@[i].config.kind(),
        catalog@[j].descriptor.kind == catalog@[j].config.kind(),
        catalog@[i].descriptor.kind is Audio ==> catalog@[j].descriptor.kind is Audio,
{
}

/// The tracks of a catalog get pads of different names, so that no pad takes the place of
/// another, unless two tracks of the same kind share a name.
pub proof fn law_catalog_pads_are_distinct(catalog: Catalog, i: int, j: int)
    requires
        catalog.names_are_distinct(),
        0 <= i < j < catalog@.len(),
    ensures
        catalog@[i].descriptor.pad_name() != catalog@[j].descriptor.pad_name(),
{
    let first = catalog@[i].descriptor;
    let second = catalog@[j].descriptor;
    let video_count = video_part_of(catalog.video).len();
    if first.pad_name() == second.pad_name() {
        law_pad_names_are_distinct(first, second);
        if j < video_count {
            let renditions = catalog.video->0@;
            assert(renditions[i].name@ != renditions[j].name@);
        } else if video_count <= i {
            let renditions = catalog.audio->0@;
            assert(renditions[i - video_count].name@ != renditions[j - video_count].name@);
        }
    }
}

/// A catalog has one track for each video rendition and one for each audio rendition. The video
/// tracks come first; and each track has the name of its rendition and what the catalog says of
/// it.
pub proof fn law_catalog_has_a_track_for_each_rendition(catalog: Catalog)
    ensures
        catalog@.len() == video_count(catalog) + audio_count(catalog),
        catalog.video matches Some(renditions) ==> forall|i: int|
            0 <= i < renditions.len() ==> ({
                let track = #[trigger] catalog@[i];
                &&& track.descriptor.kind is Video
                &&& track.descriptor.name == renditions@[i].name@
                &&& track.config == TrackConfig::Video(renditions@[i].config)@
            }),
        catalog.audio matches Some(renditions) ==> forall|i: int|
            0 <= i < renditions.len() ==> ({
                let track = #[trigger] catalog@[video_count(catalog) + i];
                &&& track.descriptor.kind is Audio
                &&& track.descriptor.name == renditions@[i].name@
                &&& track.config == TrackConfig::Audio(renditions@[i].config)@
            }),
        catalog.video matches Some(renditions) ==> video_count(catalog) == renditions@.len(),
        catalog.video is None ==> video_count(catalog) == 0,
        catalog.audio matches Some(renditions) ==> audio_count(catalog) == renditions@.len(),
        catalog.audio is None ==> audio_count(catalog) == 0,
{
}

/// The value of a planned track has its descriptor and its configuration, and the values of planned
/// tracks are those of each of them.
pub proof fn law_planned_track_values_have_every_part(tracks: Seq<PlannedTrack>)
    ensures
        tracks_view(tracks).len() == tracks.len(),
        forall|i: int|
            0 <= i < tracks.len() ==> (#[trigger] tracks_view(tracks)[i]).descriptor
                == tracks[i].descriptor@ && tracks_view(tracks)[i].config == tracks[i].config@,
{
}

} // verus!
