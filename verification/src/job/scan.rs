//! One scan, step by step.
//!
//! A scan alternates between work that only the outside world can do
//! (reading a file, running the fingerprinting tool, asking a service) and
//! decisions about what to do next. The decisions are `step`: it takes the
//! state of the scan and what has just happened, and gives the new state and
//! what to do now. Whoever runs a scan starts with `start`, does what each
//! action asks for and hands the outcome back, until the action is `Finish`.

use crate::api::acoustid::{LookupRes, LookupResEntry, LookupResEntryRecording};
use crate::api::musicbrainz::recording::{RecordingRes, RecordingResRelease, RecordingSearchRes};
use crate::api::musicbrainz::release::ReleaseRes;
use crate::config::{Config, ReleaseSelector};
use crate::error::ScanError;
use crate::interface::metadata::{
    lemma_written_stays_supported, metadata_of, taken_metadata, text, write_metadata, written,
    Metadata, MetadataView,
};
use crate::interface::tag::{
    all_supported, drop_unsupported, lemma_supported_only, same_format, supported_only,
};
use crate::job::scan_job::{ScanSuccessLog, ScannerInfo};
use crate::job::rank::{first_max, last_max, lemma_last_max, lemma_last_max_found, Exact};
use crate::job::score::{find_best_release_and_recording, recording_scores, release_scores};
use crate::job::utils::{
    get_save_path_from_metadata, lies_inside, response_metadata, response_to_metadata,
    save_path_spec,
};
use crate::trusted::{tag_items, tag_picture_count};
use lofty::tag::{ItemKey, Tag};
use vstd::prelude::*;

verus! {

/// What the fingerprinting tool says about a file: its fingerprint and its
/// length in whole seconds.
#[derive(Debug)]
pub struct FpcalcResult {
    pub duration: u32,
    pub fingerprint: String,
}

/// What a scan knows from its first steps on.
pub struct ScanContext {
    /// The extension of the file, without the dot.
    pub ext: String,
    /// The tag of the file, without the items that must not be handed on.
    pub tag: Tag,
    /// The metadata that the file had before the scan.
    pub old_metadata: Metadata,
    /// Whether the file's tag holds a picture already.
    pub has_picture: bool,
}

/// A fingerprint to be reported to the lookup service as belonging to a
/// recording.
#[derive(Debug)]
pub struct Submission {
    pub recording_id: String,
    pub fingerprint: String,
    pub duration: u32,
}

/// Everything that is needed to put the file in its place.
pub struct SavePlan {
    /// The segments of the target path, the target directory first.
    pub target: Vec<String>,
    /// The tag to write into the copy, with the new metadata in it.
    pub tag: Tag,
    /// Where to get a cover from, for a file without a picture.
    pub cover_art_url: Option<String>,
    /// The fingerprint to report, where it was the search that found the
    /// recording.
    pub submit: Option<Submission>,
    /// Whether to delete the source file once the copy is in place.
    pub delete_original: bool,
}

/// How far a scan has come.
pub enum ScanState {
    ReadingTag { ext: String },
    Fingerprinting { context: ScanContext },
    LookingUp { context: ScanContext, fingerprint: FpcalcResult },
    FetchingRecordings { context: ScanContext, score: u32 },
    Searching { context: ScanContext, fingerprint: FpcalcResult },
    FetchingRelease {
        context: ScanContext,
        scanner_info: ScannerInfo,
        recording: RecordingRes,
        to_submit: Option<FpcalcResult>,
    },
    CheckingTarget { plan: SavePlan, log: ScanSuccessLog },
    Saving { log: ScanSuccessLog },
    Finished,
}

/// What has just happened. `None` and `false` stand for a failure of the
/// outside world.
pub enum ScanEvent {
    /// The tag of the file as it was read, or an empty one for a file
    /// without tags.
    TagRead(Option<Tag>),
    Fingerprinted(Option<FpcalcResult>),
    LookedUp(Option<LookupRes>),
    /// The recordings that could be fetched; those that could not are left
    /// out.
    RecordingsFetched(Vec<RecordingRes>),
    Searched(Option<RecordingSearchRes>),
    ReleaseFetched(Option<ReleaseRes>),
    TargetChecked { exists: bool },
    Saved(bool),
}

/// What to do now.
pub enum ScanAction {
    ReadTag,
    CalcFingerprint,
    Lookup { fingerprint: String, duration: u32 },
    FetchRecordings { ids: Vec<String> },
    Search { query: String },
    FetchRelease { id: String },
    CheckTarget { path: Vec<String> },
    Save(SavePlan),
    Finish(Result<ScanSuccessLog, ScanError>),
    /// The event is not one that the state waits for: nothing changes.
    Ignore,
}

/// The scores of the candidates of a lookup, in their order.
pub open spec fn candidate_scores(results: Seq<LookupResEntry>) -> Seq<Option<Exact>> {
    Seq::new(results.len(), |i: int| Some(Exact::whole(results[i].score as nat)))
}

/// The candidate that a lookup is accepted with: the one with the highest
/// score (of several the last), if it names recordings and its score is not
/// below the threshold.
pub open spec fn accepted_candidate(results: Seq<LookupResEntry>, threshold: u32) -> Option<
    LookupResEntry,
> {
    match last_max(candidate_scores(results)) {
        None => None,
        Some(i) => if results[i].recordings is Some && results[i].score >= threshold {
            Some(results[i])
        } else {
            None
        },
    }
}

/// The candidate that the answer of a lookup is accepted with, if any.
pub open spec fn accepted_lookup(lookup: Option<LookupRes>, threshold: u32) -> Option<
    LookupResEntry,
> {
    match lookup {
        Some(res) => accepted_candidate(res.results@, threshold),
        None => None,
    }
}

/// The ids of the recordings that a candidate names.
pub open spec fn recording_ids(candidate: LookupResEntry) -> Seq<Seq<char>> {
    match candidate.recordings {
        Some(list) => list@.map_values(|r: LookupResEntryRecording| r.id@),
        None => Seq::empty(),
    }
}

/// The search for recordings with the title `title`.
pub open spec fn search_query_spec(title: Seq<char>) -> Seq<char> {
    "recording:\""@ + title + "\""@
}

/// The address of the front cover of a release.
pub open spec fn cover_art_url_spec(release_id: Seq<char>) -> Seq<char> {
    "https://coverartarchive.org/release/"@ + release_id + "/front"@
}

/// The segments of a path with a `/` between each two.
pub open spec fn joined(segments: Seq<Seq<char>>) -> Seq<char>
    decreases segments.len(),
{
    if segments.len() == 0 {
        Seq::empty()
    } else if segments.len() == 1 {
        segments[0]
    } else {
        joined(segments.drop_last()) + "/"@ + segments.last()
    }
}

/// The recording and the release that are chosen among the candidates: the
/// recording whose best release scores highest, and that release.
pub open spec fn chosen(
    recordings: Seq<RecordingRes>,
    current_tag: Tag,
    selector: ReleaseSelector,
) -> Option<(RecordingRes, RecordingResRelease)> {
    match last_max(recording_scores(recordings, current_tag, selector)) {
        None => None,
        Some(i) => Some(
            (
                recordings[i],
                recordings[i].releases@[first_max(
                    release_scores(recordings[i], current_tag, selector),
                )],
            ),
        ),
    }
}

/// The scan has ended with the failure `e`.
pub open spec fn fails_with(next: ScanState, action: ScanAction, e: ScanError) -> bool {
    next is Finished && action == ScanAction::Finish(Err(e))
}

/// The scan goes on to fetch the release that was chosen among
/// `recordings`, or ends with `NoMatchFound` where nothing could be chosen.
pub open spec fn goes_to_release(
    recordings: Seq<RecordingRes>,
    context: ScanContext,
    scanner_info: ScannerInfo,
    fingerprint: Option<FpcalcResult>,
    config: Config,
    next: ScanState,
    action: ScanAction,
) -> bool {
    match chosen(recordings, context.tag, config.release_selector) {
        None => fails_with(next, action, ScanError::NoMatchFound),
        Some((recording, release)) => {
            &&& next == ScanState::FetchingRelease {
                context,
                scanner_info,
                recording,
                to_submit: fingerprint,
            }
            &&& action matches ScanAction::FetchRelease { id }
            &&& id@ == release.id@
        },
    }
}

/// The fingerprint to report for a recording, where there is one to report.
pub open spec fn submission_matches(
    submit: Option<Submission>,
    fingerprint: Option<FpcalcResult>,
    recording_id: Seq<char>,
) -> bool {
    match fingerprint {
        None => submit is None,
        Some(fp) => {
            &&& submit matches Some(s)
            &&& s.recording_id@ == recording_id
            &&& s.fingerprint@ == fp.fingerprint@
            &&& s.duration == fp.duration
        },
    }
}

/// The scan goes on to check the target path of the file, with everything
/// laid down that saving it will need.
pub open spec fn goes_to_target(
    context: ScanContext,
    scanner_info: ScannerInfo,
    fingerprint: Option<FpcalcResult>,
    recording_id: Seq<char>,
    release_id: Seq<char>,
    metadata: MetadataView,
    segments: Seq<Seq<char>>,
    config: Config,
    next: ScanState,
    action: ScanAction,
) -> bool {
    &&& next matches ScanState::CheckingTarget { plan, log }
    &&& action matches ScanAction::CheckTarget { path }
    &&& path.deep_view() == segments
    &&& plan.target.deep_view() == segments
    &&& lies_inside(segments, context.ext@)
    &&& tag_items(plan.tag) == written(
        tag_items(context.tag),
        taken_metadata(context.tag, metadata),
    )
    &&& same_format(plan.tag, context.tag)
    &&& text(plan.cover_art_url) == if context.has_picture {
        None
    } else {
        Some(cover_art_url_spec(release_id))
    }
    &&& submission_matches(plan.submit, fingerprint, recording_id)
    &&& plan.delete_original == config.delete_original
    &&& log.old_metadata == context.old_metadata
    &&& log.new_metadata@ == metadata
    &&& log.scanner_info == scanner_info
    &&& log.target_path@ == joined(segments)
}

/// What a scan knows once the tag `tag` of a file with the extension `ext`
/// has been read: the tag without the items that must not be handed on, the
/// metadata in it, and whether it holds a picture.
pub open spec fn begins_with(context: ScanContext, ext: String, tag: Tag) -> bool {
    &&& context.ext == ext
    &&& tag_items(context.tag) == supported_only(tag_items(tag))
    &&& same_format(context.tag, tag)
    &&& context.old_metadata@ == metadata_of(tag_items(context.tag))
    &&& context.has_picture == (tag_picture_count(tag) > 0)
}

/// What `step` does: `next` and `action` are what follows from `event` in
/// `state`.
pub open spec fn steps_to(
    state: ScanState,
    event: ScanEvent,
    config: Config,
    next: ScanState,
    action: ScanAction,
) -> bool {
    match (state, event) {
        (ScanState::ReadingTag { ext }, ScanEvent::TagRead(tag)) => match tag {
            None => fails_with(next, action, ScanError::FileError),
            Some(tag) => {
                &&& next matches ScanState::Fingerprinting { context }
                &&& begins_with(context, ext, tag)
                &&& action is CalcFingerprint
            },
        },
        (ScanState::Fingerprinting { context }, ScanEvent::Fingerprinted(fingerprint)) => match fingerprint {
            None => fails_with(next, action, ScanError::ExternalToolError),
            Some(fingerprint) => {
                &&& next == ScanState::LookingUp { context, fingerprint }
                &&& action matches ScanAction::Lookup { fingerprint: f, duration }
                &&& f@ == fingerprint.fingerprint@
                &&& duration == fingerprint.duration
            },
        },
        (ScanState::LookingUp { context, fingerprint }, ScanEvent::LookedUp(lookup)) => match accepted_lookup(
            lookup,
            config.acoustid_match_threshold,
        ) {
            Some(best) => {
                &&& next == ScanState::FetchingRecordings { context, score: best.score }
                &&& action matches ScanAction::FetchRecordings { ids }
                &&& ids.deep_view() == recording_ids(best)
            },
            None => match context.old_metadata.title {
                None => fails_with(next, action, ScanError::NoTitleTag),
                Some(title) => {
                    &&& next == ScanState::Searching { context, fingerprint }
                    &&& action matches ScanAction::Search { query }
                    &&& query@ == search_query_spec(title@)
                },
            },
        },
        (
            ScanState::FetchingRecordings { context, score },
            ScanEvent::RecordingsFetched(recordings),
        ) => goes_to_release(
            recordings@,
            context,
            ScannerInfo::AcoustId { score },
            None,
            config,
            next,
            action,
        ),
        (ScanState::Searching { context, fingerprint }, ScanEvent::Searched(found)) => match found {
            None => fails_with(next, action, ScanError::CatalogRequestError),
            Some(found) => goes_to_release(
                found.recordings@,
                context,
                ScannerInfo::MusicbrainzSearch,
                Some(fingerprint),
                config,
                next,
                action,
            ),
        },
        (
            ScanState::FetchingRelease { context, scanner_info, recording, to_submit },
            ScanEvent::ReleaseFetched(release),
        ) => match release {
            None => fails_with(next, action, ScanError::CatalogRequestError),
            Some(release) => match response_metadata(recording, release) {
                None => fails_with(next, action, ScanError::InconsistentCatalogData),
                Some(metadata) => match save_path_spec(context.ext@, config.target_dir@, metadata) {
                    Err(e) => fails_with(next, action, e),
                    Ok(segments) => goes_to_target(
                        context,
                        scanner_info,
                        to_submit,
                        recording.id@,
                        release.id@,
                        metadata,
                        segments,
                        config,
                        next,
                        action,
                    ),
                },
            },
        },
        (ScanState::CheckingTarget { plan, log }, ScanEvent::TargetChecked { exists }) => if exists
            && !config.overwrite {
            fails_with(next, action, ScanError::AlreadyExists)
        } else {
            next == (ScanState::Saving { log }) && action == ScanAction::Save(plan)
        },
        (ScanState::Saving { log }, ScanEvent::Saved(saved)) => if saved {
            next is Finished && action == ScanAction::Finish(Ok(log))
        } else {
            fails_with(next, action, ScanError::FileError)
        },
        _ => next == state && action is Ignore,
    }
}

/// Chooses the candidate of a lookup to go on with: the one with the highest
/// score, of several the last. It is accepted only if it names recordings and
/// its score is not below `threshold`; a lookup without candidates, or with a
/// best candidate that is not accepted, is `NoMatch`.
pub fn select_candidate(results: Vec<LookupResEntry>, threshold: u32) -> (r: Result<
    LookupResEntry,
    ScanError,
>)
    ensures
        match accepted_candidate(results@, threshold) {
            Some(best) => r == Ok::<LookupResEntry, ScanError>(best),
            None => r == Err::<LookupResEntry, ScanError>(ScanError::NoMatch),
        },
        r matches Ok(best) ==> best.score >= threshold && best.recordings is Some,
{
    let ghost scores = candidate_scores(results@);
    let mut best: Option<usize> = None;
    let mut i: usize = 0;
    while i < results.len()
        invariant
            i <= results.len(),
            scores == candidate_scores(results@),
            match best {
                None => last_max(scores.subrange(0, i as int)) is None,
                Some(b) => last_max(scores.subrange(0, i as int)) == Some(b as int) && b < i,
            },
        decreases results.len() - i,
    {
        assert(scores.subrange(0, i + 1).drop_last() =~= scores.subrange(0, i as int));
        let replace = match best {
            None => true,
            Some(b) => results[i].score >= results[b].score,
        };
        if replace {
            best = Some(i);
        }
        i = i + 1;
    }
    assert(scores.subrange(0, i as int) =~= scores);
    match best {
        None => Err(ScanError::NoMatch),
        Some(b) => {
            if results[b].recordings.is_some() && results[b].score >= threshold {
                let mut rest = results;
                Ok(rest.swap_remove(b))
            } else {
                Err(ScanError::NoMatch)
            }
        },
    }
}

/// The search for recordings with the title `title`: the title in double
/// quotes behind `recording:`.
pub fn search_query(title: &str) -> (r: String)
    ensures
        r@ == search_query_spec(title@),
{
    let mut r = String::from_str("recording:\"");
    r.append(title);
    r.append("\"");
    r
}

/// The address of the front cover of a release.
pub fn cover_art_url(release_id: &str) -> (r: String)
    ensures
        r@ == cover_art_url_spec(release_id@),
{
    let mut r = String::from_str("https://coverartarchive.org/release/");
    r.append(release_id);
    r.append("/front");
    r
}

/// Writes the segments of a path one after the other with a `/` between
/// each two.
pub fn join_path(segments: &Vec<String>) -> (r: String)
    ensures
        r@ == joined(segments.deep_view()),
{
    let ghost all = segments.deep_view();
    let mut r = String::new();
    let mut i: usize = 0;
    while i < segments.len()
        invariant
            i <= segments.len(),
            all == segments.deep_view(),
            r@ == joined(all.subrange(0, i as int)),
        decreases segments.len() - i,
    {
        assert(all.subrange(0, i + 1).drop_last() =~= all.subrange(0, i as int));
        if i > 0 {
            r.append("/");
        }
        r.append(segments[i].as_str());
        i = i + 1;
    }
    assert(all.subrange(0, i as int) =~= all);
    r
}

/// The ids of the recordings that a candidate names.
fn ids_of(candidate: &LookupResEntry) -> (ids: Vec<String>)
    ensures
        ids.deep_view() == recording_ids(*candidate),
{
    let mut ids: Vec<String> = Vec::new();
    match &candidate.recordings {
        None => {},
        Some(list) => {
            let mut i: usize = 0;
            while i < list.len()
                invariant
                    i <= list.len(),
                    ids@.len() == i,
                    forall|k: int| 0 <= k < i ==> (#[trigger] ids@[k])@ == list@[k].id@,
                decreases list.len() - i,
            {
                ids.push(list[i].id.clone());
                i = i + 1;
            }
        },
    }
    ids
}

/// A copy of the segments of a path.
fn copy_segments(segments: &Vec<String>) -> (r: Vec<String>)
    ensures
        r.deep_view() == segments.deep_view(),
{
    let mut r: Vec<String> = Vec::new();
    let mut i: usize = 0;
    while i < segments.len()
        invariant
            i <= segments.len(),
            r@.len() == i,
            forall|k: int| 0 <= k < i ==> (#[trigger] r@[k])@ == segments@[k]@,
        decreases segments.len() - i,
    {
        r.push(segments[i].clone());
        i = i + 1;
    }
    r
}

/// The first state of a scan of a file with the extension `ext`, and the
/// first thing to do.
pub fn start(ext: String) -> (r: (ScanState, ScanAction))
    ensures
        r.0 == (ScanState::ReadingTag { ext }),
        r.1 is ReadTag,
{
    (ScanState::ReadingTag { ext }, ScanAction::ReadTag)
}

/// Ends the scan with a failure.
fn fail(e: ScanError) -> (r: (ScanState, ScanAction))
    ensures
        fails_with(r.0, r.1, e),
{
    (ScanState::Finished, ScanAction::Finish(Err(e)))
}

/// Chooses among the candidates and goes on to fetch the chosen release.
fn to_release(
    recordings: Vec<RecordingRes>,
    context: ScanContext,
    scanner_info: ScannerInfo,
    fingerprint: Option<FpcalcResult>,
    config: &Config,
) -> (r: (ScanState, ScanAction))
    ensures
        goes_to_release(recordings@, context, scanner_info, fingerprint, *config, r.0, r.1),
{
    match find_best_release_and_recording(recordings, &context.tag, &config.release_selector) {
        None => fail(ScanError::NoMatchFound),
        Some((recording, release, _)) => {
            let id = release.id;
            (
                ScanState::FetchingRelease {
                    context,
                    scanner_info,
                    recording,
                    to_submit: fingerprint,
                },
                ScanAction::FetchRelease { id },
            )
        },
    }
}

/// Builds the metadata and the path and goes on to check the target.
fn to_target(
    context: ScanContext,
    scanner_info: ScannerInfo,
    recording: RecordingRes,
    fingerprint: Option<FpcalcResult>,
    release: ReleaseRes,
    config: &Config,
) -> (r: (ScanState, ScanAction))
    ensures
        match response_metadata(recording, release) {
            None => fails_with(r.0, r.1, ScanError::InconsistentCatalogData),
            Some(metadata) => match save_path_spec(context.ext@, config.target_dir@, metadata) {
                Err(e) => fails_with(r.0, r.1, e),
                Ok(segments) => goes_to_target(
                    context,
                    scanner_info,
                    fingerprint,
                    recording.id@,
                    release.id@,
                    metadata,
                    segments,
                    *config,
                    r.0,
                    r.1,
                ),
            },
        },
{
    let recording_id = recording.id.clone();
    let cover_art_url = if context.has_picture {
        None
    } else {
        Some(cover_art_url(release.id.as_str()))
    };
    let metadata = match response_to_metadata(recording, release) {
        Ok(m) => m,
        Err(e) => {
            return fail(e);
        },
    };
    let path = match get_save_path_from_metadata(
        context.ext.as_str(),
        config.target_dir.as_str(),
        &metadata,
    ) {
        Ok(p) => p,
        Err(e) => {
            return fail(e);
        },
    };
    let submit = match fingerprint {
        None => None,
        Some(fp) => Some(
            Submission { recording_id, fingerprint: fp.fingerprint, duration: fp.duration },
        ),
    };
    let mut tag = context.tag;
    write_metadata(&mut tag, metadata.clone());
    let log = ScanSuccessLog {
        old_metadata: context.old_metadata,
        new_metadata: metadata,
        scanner_info,
        target_path: join_path(&path),
    };
    let plan = SavePlan {
        target: copy_segments(&path),
        tag,
        cover_art_url,
        submit,
        delete_original: config.delete_original,
    };
    (ScanState::CheckingTarget { plan, log }, ScanAction::CheckTarget { path })
}

/// Decides what follows from `event` in `state`.
///
/// The order of a scan is: read the tags, compute the fingerprint, look the
/// fingerprint up, fetch the recordings of the best candidate, choose the
/// best release, fetch it, build metadata and path, check the target and
/// save. Where the lookup fails or gives no candidate that is accepted, the
/// catalog is searched by the title in the file's tags instead, and the
/// recordings of a candidate that was not accepted are never fetched. A
/// failure of any other step ends the scan. An event that the state does not
/// wait for changes nothing.
pub fn step(state: ScanState, event: ScanEvent, config: &Config) -> (r: (ScanState, ScanAction))
    ensures
        steps_to(state, event, *config, r.0, r.1),
{
    match (state, event) {
        (ScanState::ReadingTag { ext }, ScanEvent::TagRead(tag)) => match tag {
            None => fail(ScanError::FileError),
            Some(tag) => {
                let has_picture = tag.picture_count() > 0;
                let mut tag = tag;
                drop_unsupported(&mut tag);
                let old_metadata = Metadata::from_tag(&tag);
                (
                    ScanState::Fingerprinting {
                        context: ScanContext { ext, tag, old_metadata, has_picture },
                    },
                    ScanAction::CalcFingerprint,
                )
            },
        },
        (ScanState::Fingerprinting { context }, ScanEvent::Fingerprinted(fingerprint)) => match fingerprint {
            None => fail(ScanError::ExternalToolError),
            Some(fingerprint) => {
                let action = ScanAction::Lookup {
                    fingerprint: fingerprint.fingerprint.clone(),
                    duration: fingerprint.duration,
                };
                (ScanState::LookingUp { context, fingerprint }, action)
            },
        },
        (ScanState::LookingUp { context, fingerprint }, ScanEvent::LookedUp(lookup)) => {
            let candidate = match lookup {
                Some(res) => select_candidate(res.results, config.acoustid_match_threshold),
                None => Err(ScanError::NoMatch),
            };
            match candidate {
                Ok(best) => {
                    let ids = ids_of(&best);
                    (
                        ScanState::FetchingRecordings { context, score: best.score },
                        ScanAction::FetchRecordings { ids },
                    )
                },
                Err(_) => {
                    let query = match &context.old_metadata.title {
                        None => {
                            return fail(ScanError::NoTitleTag);
                        },
                        Some(title) => search_query(title.as_str()),
                    };
                    (ScanState::Searching { context, fingerprint }, ScanAction::Search { query })
                },
            }
        },
        (
            ScanState::FetchingRecordings { context, score },
            ScanEvent::RecordingsFetched(recordings),
        ) => to_release(recordings, context, ScannerInfo::AcoustId { score }, None, config),
        (ScanState::Searching { context, fingerprint }, ScanEvent::Searched(found)) => match found {
            None => fail(ScanError::CatalogRequestError),
            Some(found) => to_release(
                found.recordings,
                context,
                ScannerInfo::MusicbrainzSearch,
                Some(fingerprint),
                config,
            ),
        },
        (
            ScanState::FetchingRelease { context, scanner_info, recording, to_submit },
            ScanEvent::ReleaseFetched(release),
        ) => match release {
            None => fail(ScanError::CatalogRequestError),
            Some(release) => to_target(
                context,
                scanner_info,
                recording,
                to_submit,
                release,
                config,
            ),
        },
        (ScanState::CheckingTarget { plan, log }, ScanEvent::TargetChecked { exists }) => {
            if exists && !config.overwrite {
                fail(ScanError::AlreadyExists)
            } else {
                (ScanState::Saving { log }, ScanAction::Save(plan))
            }
        },
        (ScanState::Saving { log }, ScanEvent::Saved(saved)) => {
            if saved {
                (ScanState::Finished, ScanAction::Finish(Ok(log)))
            } else {
                fail(ScanError::FileError)
            }
        },
        (state, _) => (state, ScanAction::Ignore),
    }
}

/// A lookup whose best candidate scores below the threshold is never gone
/// on with: the scan searches the catalog by title, or ends for want of a
/// title, and does not fetch the candidate's recordings.
pub proof fn lemma_low_score_falls_back(
    context: ScanContext,
    fingerprint: FpcalcResult,
    lookup: LookupRes,
    config: Config,
    next: ScanState,
    action: ScanAction,
)
    requires
        forall|i: int|
            0 <= i < lookup.results@.len() ==> (#[trigger] lookup.results@[i]).score
                < config.acoustid_match_threshold,
        steps_to(
            ScanState::LookingUp { context, fingerprint },
            ScanEvent::LookedUp(Some(lookup)),
            config,
            next,
            action,
        ),
    ensures
        accepted_candidate(lookup.results@, config.acoustid_match_threshold) is None,
        !(action is FetchRecordings),
        !(next is FetchingRecordings),
        context.old_metadata.title is Some ==> next is Searching && action is Search,
        context.old_metadata.title is None ==> fails_with(next, action, ScanError::NoTitleTag),
{
    lemma_last_max_found(candidate_scores(lookup.results@));
}

/// A candidate that is accepted scores no less than the threshold and no
/// less than any other candidate.
pub proof fn lemma_accepted_is_best(results: Seq<LookupResEntry>, threshold: u32)
    ensures
        accepted_candidate(results, threshold) matches Some(best) ==> {
            &&& best.score >= threshold
            &&& best.recordings is Some
            &&& results.contains(best)
            &&& forall|k: int| 0 <= k < results.len() ==> (#[trigger] results[k]).score <= best.score
        },
        results.len() == 0 ==> accepted_candidate(results, threshold) is None,
{
    let scores = candidate_scores(results);
    lemma_last_max(scores);
    if let Some(i) = last_max(scores) {
        assert forall|k: int| 0 <= k < results.len() implies (#[trigger] results[k]).score
            <= results[i].score by {
            assert(scores[k] is Some);
            assert(!scores[i].unwrap().lt(scores[k].unwrap()));
        }
    }
}

/// How far a state is from the beginning of a scan.
pub open spec fn stage(state: ScanState) -> nat {
    match state {
        ScanState::ReadingTag { .. } => 0,
        ScanState::Fingerprinting { .. } => 1,
        ScanState::LookingUp { .. } => 2,
        ScanState::FetchingRecordings { .. } => 3,
        ScanState::Searching { .. } => 3,
        ScanState::FetchingRelease { .. } => 4,
        ScanState::CheckingTarget { .. } => 5,
        ScanState::Saving { .. } => 6,
        ScanState::Finished => 7,
    }
}

/// Every step takes a scan forward or leaves it where it is: an event that
/// is waited for leads to a later state, so that no scan takes more than
/// seven of them, and any other event is ignored. A scan ends with `Finish`
/// and with nothing else, and once it has ended every event is ignored.
pub proof fn lemma_scan_advances(
    state: ScanState,
    event: ScanEvent,
    config: Config,
    next: ScanState,
    action: ScanAction,
)
    requires
        steps_to(state, event, config, next, action),
    ensures
        action is Ignore ==> next == state,
        !(action is Ignore) ==> stage(next) > stage(state),
        next is Finished && !(state is Finished) <==> action is Finish,
        state is Finished ==> action is Ignore,
{
}

/// Which lookup found the candidates is kept with the scan: candidates from
/// the fingerprint lookup are recorded as such, with the score that was
/// accepted, candidates from the search as such, with the fingerprint to
/// report.
pub proof fn lemma_strategy_is_recorded(
    state: ScanState,
    event: ScanEvent,
    config: Config,
    next: ScanState,
    action: ScanAction,
)
    requires
        steps_to(state, event, config, next, action),
        action is FetchRelease,
    ensures
        next is FetchingRelease,
        state matches ScanState::FetchingRecordings { score, .. } ==> {
            &&& next->scanner_info == ScannerInfo::AcoustId { score }
            &&& next->to_submit is None
        },
        state matches ScanState::Searching { fingerprint, .. } ==> {
            &&& next->scanner_info == ScannerInfo::MusicbrainzSearch
            &&& next->to_submit == Some(fingerprint)
        },
        state is FetchingRecordings || state is Searching,
{
}

/// The tag that a state carries.
pub open spec fn carried_tag(state: ScanState) -> Option<Tag> {
    match state {
        ScanState::Fingerprinting { context } => Some(context.tag),
        ScanState::LookingUp { context, .. } => Some(context.tag),
        ScanState::FetchingRecordings { context, .. } => Some(context.tag),
        ScanState::Searching { context, .. } => Some(context.tag),
        ScanState::FetchingRelease { context, .. } => Some(context.tag),
        ScanState::CheckingTarget { plan, .. } => Some(plan.tag),
        _ => None,
    }
}

/// Whether the tag that a state carries holds no item that must not be
/// handed on.
pub open spec fn carries_clean_tag(state: ScanState) -> bool {
    match carried_tag(state) {
        Some(tag) => all_supported(tag_items(tag)),
        None => true,
    }
}

/// What is dropped when the tag is read stays away: from the first step on
/// the tag of a scan holds no item that must not be handed on, and neither
/// does the tag that is saved in the end.
pub proof fn lemma_unsupported_stays_away(
    state: ScanState,
    event: ScanEvent,
    config: Config,
    next: ScanState,
    action: ScanAction,
)
    requires
        steps_to(state, event, config, next, action),
        carries_clean_tag(state),
    ensures
        carries_clean_tag(next),
        action matches ScanAction::Save(plan) ==> all_supported(tag_items(plan.tag)),
{
    match (state, event) {
        (ScanState::ReadingTag { ext }, ScanEvent::TagRead(Some(tag))) => {
            lemma_supported_only(tag_items(tag), ItemKey::TrackTitle);
        },
        (
            ScanState::FetchingRelease { context, scanner_info, recording, to_submit },
            ScanEvent::ReleaseFetched(Some(release)),
        ) => {
            if let Some(metadata) = response_metadata(recording, release) {
                lemma_written_stays_supported(
                    tag_items(context.tag),
                    taken_metadata(context.tag, metadata),
                );
            }
        },
        _ => {},
    }
}

} // verus!
