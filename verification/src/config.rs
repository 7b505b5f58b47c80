//! What the operator configures.
//!
//! Weights and thresholds are whole numbers of millionths: a weight of
//! `1_000_000` counts a score in full, a threshold of `500_000` is one half.

use vstd::prelude::*;

verus! {

/// The threshold a fingerprint match has to reach, unless configured otherwise.
pub const DEFAULT_MATCH_THRESHOLD: u32 = 800_000;

/// The threshold a title similarity has to reach, unless configured otherwise.
pub const DEFAULT_DISTANCE_THRESHOLD: u32 = 500_000;

/// The weight of each part of a score, unless configured otherwise.
pub const DEFAULT_WEIGHT: u32 = 1_000_000;

/// The configuration of the whole program.
#[derive(Debug)]
pub struct Config {
    pub source_dir: String,
    pub target_dir: String,
    pub data_dir: String,
    pub acoust_id_api_key: String,
    pub app_ua: String,
    /// A fingerprint match scoring below this many millionths is not used.
    pub acoustid_match_threshold: u32,
    pub release_selector: ReleaseSelector,
    pub allowed_extensions: Vec<String>,
    pub delete_original: bool,
    pub overwrite: bool,
}

/// The rules by which the best of several releases is chosen.
///
/// Each release gets one score per rule; the release with the highest weighted
/// sum wins.
#[derive(Debug)]
pub struct ReleaseSelector {
    pub release_group_type: MatchReleaseSelector,
    pub country: MatchReleaseSelector,
    pub release_title_distance: DistanceReleaseSelector,
    pub recording_title_distance: DistanceReleaseSelector,
}

/// A rule that prefers values by their place in a list: the first entry
/// scores one, the second a half, the third a third, and so on.
#[derive(Debug)]
pub struct MatchReleaseSelector {
    pub preferred: Vec<String>,
    pub weight: u32,
}

/// A rule that scores the similarity of two titles. A similarity below
/// `threshold` scores nothing.
#[derive(Clone, Copy, Debug)]
pub struct DistanceReleaseSelector {
    pub threshold: u32,
    pub weight: u32,
}

impl Default for DistanceReleaseSelector {
    fn default() -> (r: Self)
        ensures
            r.threshold == DEFAULT_DISTANCE_THRESHOLD,
            r.weight == DEFAULT_WEIGHT,
    {
        DistanceReleaseSelector { threshold: DEFAULT_DISTANCE_THRESHOLD, weight: DEFAULT_WEIGHT }
    }
}

impl Default for MatchReleaseSelector {
    fn default() -> (r: Self)
        ensures
            r.preferred@.len() == 0,
            r.weight == DEFAULT_WEIGHT,
    {
        MatchReleaseSelector { preferred: Vec::new(), weight: DEFAULT_WEIGHT }
    }
}

impl Default for ReleaseSelector {
    fn default() -> (r: Self)
        ensures
            r.release_group_type.preferred@.len() == 0,
            r.release_group_type.weight == DEFAULT_WEIGHT,
            r.country.preferred@.len() == 0,
            r.country.weight == DEFAULT_WEIGHT,
            r.release_title_distance.threshold == DEFAULT_DISTANCE_THRESHOLD,
            r.release_title_distance.weight == DEFAULT_WEIGHT,
            r.recording_title_distance.threshold == DEFAULT_DISTANCE_THRESHOLD,
            r.recording_title_distance.weight == DEFAULT_WEIGHT,
    {
        ReleaseSelector {
            release_group_type: MatchReleaseSelector::default(),
            country: MatchReleaseSelector::default(),
            release_title_distance: DistanceReleaseSelector::default(),
            recording_title_distance: DistanceReleaseSelector::default(),
        }
    }
}

/// The file extensions that are scanned unless configured otherwise.
pub open spec fn default_extensions() -> Seq<Seq<char>> {
    seq!["flac"@, "mp3"@, "m4a"@, "ogg"@, "opus"@, "wma"@, "wav"@]
}

impl Config {
    /// The configuration that is in force until the operator writes another:
    /// the given key and user agent, and defaults for everything else.
    pub fn new(acoust_id_api_key: String, app_ua: String) -> (r: Config)
        ensures
            r.source_dir@ == "/source"@,
            r.target_dir@ == "/target"@,
            r.data_dir@ == "/data"@,
            r.acoust_id_api_key == acoust_id_api_key,
            r.app_ua == app_ua,
            r.acoustid_match_threshold == DEFAULT_MATCH_THRESHOLD,
            r.release_selector.release_group_type.preferred@.len() == 0,
            r.release_selector.release_group_type.weight == DEFAULT_WEIGHT,
            r.release_selector.country.preferred@.len() == 0,
            r.release_selector.country.weight == DEFAULT_WEIGHT,
            r.release_selector.release_title_distance.threshold == DEFAULT_DISTANCE_THRESHOLD,
            r.release_selector.release_title_distance.weight == DEFAULT_WEIGHT,
            r.release_selector.recording_title_distance.threshold == DEFAULT_DISTANCE_THRESHOLD,
            r.release_selector.recording_title_distance.weight == DEFAULT_WEIGHT,
            r.allowed_extensions.deep_view() == default_extensions(),
            !r.delete_original,
            !r.overwrite,
    {
        let mut allowed_extensions: Vec<String> = Vec::new();
        allowed_extensions.push(String::from_str("flac"));
        allowed_extensions.push(String::from_str("mp3"));
        allowed_extensions.push(String::from_str("m4a"));
        allowed_extensions.push(String::from_str("ogg"));
        allowed_extensions.push(String::from_str("opus"));
        allowed_extensions.push(String::from_str("wma"));
        allowed_extensions.push(String::from_str("wav"));
        Config {
            source_dir: String::from_str("/source"),
            target_dir: String::from_str("/target"),
            data_dir: String::from_str("/data"),
            acoust_id_api_key,
            app_ua,
            acoustid_match_threshold: DEFAULT_MATCH_THRESHOLD,
            release_selector: ReleaseSelector::default(),
            allowed_extensions,
            delete_original: false,
            overwrite: false,
        }
    }
}

} // verus!
