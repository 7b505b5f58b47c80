//! Recordings, each with the releases it appears on.

use super::ArtistCredit;
use vstd::prelude::*;

verus! {

/// A recording with the releases that carry it.
#[derive(Debug)]
pub struct RecordingRes {
    pub title: String,
    pub id: String,
    pub releases: Vec<RecordingResRelease>,
    pub artist_credit: Option<Vec<ArtistCredit>>,
    pub first_release_date: Option<String>,
}

/// A release as a recording lists it: enough to score it.
#[derive(Debug)]
pub struct RecordingResRelease {
    pub id: String,
    pub country: Option<String>,
    pub release_group: RecordingResReleaseGroup,
}

/// The release group of a listed release.
#[derive(Debug)]
pub struct RecordingResReleaseGroup {
    pub id: String,
    pub title: String,
    pub primary_type: Option<String>,
    pub first_release_date: Option<String>,
}

/// The answer to a free-text search for recordings.
#[derive(Debug)]
pub struct RecordingSearchRes {
    pub recordings: Vec<RecordingRes>,
}

impl Clone for RecordingResReleaseGroup {
    fn clone(&self) -> (r: Self)
        ensures
            r == *self,
    {
        RecordingResReleaseGroup {
            id: self.id.clone(),
            title: self.title.clone(),
            primary_type: self.primary_type.clone(),
            first_release_date: self.first_release_date.clone(),
        }
    }
}

impl Clone for RecordingResRelease {
    fn clone(&self) -> (r: Self)
        ensures
            r == *self,
    {
        RecordingResRelease {
            id: self.id.clone(),
            country: self.country.clone(),
            release_group: self.release_group.clone(),
        }
    }
}

} // verus!
