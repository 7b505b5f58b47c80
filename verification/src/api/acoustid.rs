//! The fingerprint lookup service: its answers and its request addresses.

use crate::api::{address, address_text, param, request_address};
use crate::error::ScanError;
use crate::text::{decimal, u32_to_string};
use vstd::prelude::*;

verus! {

/// The answer to a fingerprint lookup.
#[derive(Debug)]
pub struct LookupRes {
    pub results: Vec<LookupResEntry>,
}

/// One candidate of a fingerprint lookup.
///
/// `score` is the service's confidence in millionths: `1_000_000` is a
/// certain match.
#[derive(Debug)]
pub struct LookupResEntry {
    pub id: String,
    pub recordings: Option<Vec<LookupResEntryRecording>>,
    pub score: u32,
}

/// A catalog recording that a candidate points to.
#[derive(Debug)]
pub struct LookupResEntryRecording {
    pub id: String,
}

/// The answer to a fingerprint submission.
#[derive(Debug)]
pub struct SubmitRes {
    pub status: String,
}

impl Clone for LookupResEntryRecording {
    fn clone(&self) -> (r: Self)
        ensures
            r == *self,
    {
        LookupResEntryRecording { id: self.id.clone() }
    }
}

impl Clone for SubmitRes {
    fn clone(&self) -> (r: Self)
        ensures
            r == *self,
    {
        SubmitRes { status: self.status.clone() }
    }
}

/// The parameters of a lookup.
pub open spec fn lookup_params(api_key: Seq<char>, fingerprint: Seq<char>, duration: u32) -> Seq<
    (Seq<char>, Seq<char>),
> {
    seq![
        ("client"@, api_key),
        ("meta"@, "recordingids"@),
        ("duration"@, decimal(duration as nat)),
        ("fingerprint"@, fingerprint),
    ]
}

/// The parameters of a submission.
pub open spec fn submit_params(
    api_key: Seq<char>,
    musicbrainz_recording_id: Seq<char>,
    fingerprint: Seq<char>,
    duration: u32,
) -> Seq<(Seq<char>, Seq<char>)> {
    seq![
        ("client"@, api_key),
        ("duration"@, decimal(duration as nat)),
        ("fingerprint"@, fingerprint),
        ("mbid"@, musicbrainz_recording_id),
    ]
}

/// The address at which a fingerprint of a file of `duration` seconds is
/// looked up, asking for the ids of the recordings of each candidate.
pub fn lookup_url(api_key: &str, fingerprint: &str, duration: u32) -> (r: Result<String, ScanError>)
    ensures
        address_text(r) == request_address(
            "https://api.acoustid.org/v2/lookup"@,
            lookup_params(api_key@, fingerprint@, duration),
        ),
{
    let mut params: Vec<(String, String)> = Vec::new();
    params.push(param("client", api_key));
    params.push(param("meta", "recordingids"));
    let seconds = u32_to_string(duration);
    params.push(param("duration", seconds.as_str()));
    params.push(param("fingerprint", fingerprint));
    assert(params.deep_view() =~= lookup_params(api_key@, fingerprint@, duration));
    address("https://api.acoustid.org/v2/lookup", &params)
}

/// The address at which a fingerprint is reported as belonging to a
/// recording.
pub fn submit_url(
    api_key: &str,
    musicbrainz_recording_id: &str,
    fingerprint: &str,
    duration: u32,
) -> (r: Result<String, ScanError>)
    ensures
        address_text(r) == request_address(
            "https://api.acoustid.org/v2/submit"@,
            submit_params(api_key@, musicbrainz_recording_id@, fingerprint@, duration),
        ),
{
    let mut params: Vec<(String, String)> = Vec::new();
    params.push(param("client", api_key));
    let seconds = u32_to_string(duration);
    params.push(param("duration", seconds.as_str()));
    params.push(param("fingerprint", fingerprint));
    params.push(param("mbid", musicbrainz_recording_id));
    assert(params.deep_view() =~= submit_params(
        api_key@,
        musicbrainz_recording_id@,
        fingerprint@,
        duration,
    ));
    address("https://api.acoustid.org/v2/submit", &params)
}

} // verus!
