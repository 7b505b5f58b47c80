//! The full record of one release.

use super::ArtistCredit;
use vstd::prelude::*;

verus! {

/// A release with its media, tracks, labels and credits.
#[derive(Debug)]
pub struct ReleaseRes {
    pub id: String,
    pub label_info: Option<Vec<ReleaseResLabelInfo>>,
    pub artist_credit: Option<Vec<ArtistCredit>>,
    pub media: Vec<ReleaseResMedia>,
    pub title: String,
    pub text_representation: Option<ReleaseResTextRepresentation>,
    pub date: Option<String>,
    pub disambiguation: Option<String>,
    pub release_group: ReleaseResReleaseGroup,
}

/// The release group of a release.
#[derive(Debug)]
pub struct ReleaseResReleaseGroup {
    pub id: String,
    pub title: String,
    pub primary_type: Option<String>,
    pub first_release_date: Option<String>,
}

/// How the text of a release is written.
#[derive(Debug)]
pub struct ReleaseResTextRepresentation {
    pub script: Option<String>,
    pub language: Option<String>,
}

/// One label entry of a release.
#[derive(Debug)]
pub struct ReleaseResLabelInfo {
    pub label: Option<ReleaseResLabelInfoLabel>,
}

/// The label of a label entry.
#[derive(Debug)]
pub struct ReleaseResLabelInfoLabel {
    pub name: String,
    pub id: String,
}

/// One medium of a release, such as one disc.
#[derive(Debug)]
pub struct ReleaseResMedia {
    pub position: u32,
    pub format: Option<String>,
    pub tracks: Vec<ReleaseResMediaTrack>,
    pub track_count: u32,
}

/// One track of a medium.
#[derive(Debug)]
pub struct ReleaseResMediaTrack {
    pub number: String,
    pub title: String,
    pub id: String,
    pub position: u32,
    pub recording: ReleaseResMediaTrackRecording,
}

/// The recording that a track plays.
#[derive(Debug)]
pub struct ReleaseResMediaTrackRecording {
    pub id: String,
}

impl Clone for ReleaseResReleaseGroup {
    fn clone(&self) -> (r: Self)
        ensures
            r == *self,
    {
        ReleaseResReleaseGroup {
            id: self.id.clone(),
            title: self.title.clone(),
            primary_type: self.primary_type.clone(),
            first_release_date: self.first_release_date.clone(),
        }
    }
}

impl Clone for ReleaseResTextRepresentation {
    fn clone(&self) -> (r: Self)
        ensures
            r == *self,
    {
        ReleaseResTextRepresentation {
            script: self.script.clone(),
            language: self.language.clone(),
        }
    }
}

impl Clone for ReleaseResLabelInfoLabel {
    fn clone(&self) -> (r: Self)
        ensures
            r == *self,
    {
        ReleaseResLabelInfoLabel { name: self.name.clone(), id: self.id.clone() }
    }
}

impl Clone for ReleaseResMediaTrackRecording {
    fn clone(&self) -> (r: Self)
        ensures
            r == *self,
    {
        ReleaseResMediaTrackRecording { id: self.id.clone() }
    }
}

impl Clone for ReleaseResMediaTrack {
    fn clone(&self) -> (r: Self)
        ensures
            r == *self,
    {
        ReleaseResMediaTrack {
            number: self.number.clone(),
            title: self.title.clone(),
            id: self.id.clone(),
            position: self.position,
            recording: self.recording.clone(),
        }
    }
}

} // verus!
