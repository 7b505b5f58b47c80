//! A fix: a file tagged as the recording and the release that the operator
//! names.

use crate::api::musicbrainz::recording::RecordingRes;
use crate::api::musicbrainz::release::ReleaseRes;
use crate::config::Config;
use crate::error::ScanError;
use crate::interface::log::{LogEntry, LogType};
use crate::interface::metadata::{
    lemma_taken_alike, metadata_of, taken_metadata, text, write_metadata, written, Metadata,
    MetadataView,
};
use crate::interface::tag::{drop_unsupported, same_format, supported_only};
use crate::job::scan::{cover_art_url, cover_art_url_spec, join_path, joined};
use crate::job::utils::{
    get_save_path_from_metadata, lies_inside, response_metadata, response_to_metadata,
    save_path_spec,
};
use crate::trusted::{tag_items, tag_picture_count};
use lofty::tag::Tag;
use vstd::prelude::*;

verus! {

/// What a fix achieved.
#[derive(Debug)]
pub struct FixJobRes {
    pub old_metadata: Metadata,
    pub new_metadata: Metadata,
    pub target_path: String,
}

/// Everything that is needed to carry a fix out.
pub struct FixPlan {
    /// The segments of the target path, the target directory first.
    pub target: Vec<String>,
    /// The tag to write into the copy, with the new metadata in it.
    pub tag: Tag,
    /// Where to get a cover from, for a file without a picture.
    pub cover_art_url: Option<String>,
    /// Whether to remove the source file once the copy is in place.
    pub remove_source: bool,
    /// What to report when the fix has been carried out.
    pub result: FixJobRes,
}

/// Whether the source file is removed once the fixed copy is in place: a
/// file that is fixed inside the library always is, a file that is copied
/// into the library only where the operator wants the files it came from
/// deleted.
pub fn removes_source(copy_to_target: bool, delete_original: bool) -> (b: bool)
    ensures
        b == (!copy_to_target || delete_original),
{
    !copy_to_target || delete_original
}

/// The plan `plan` puts the file with the tag `tag` in its place as the
/// recording with the metadata `metadata`, at the path `segments`.
pub open spec fn fixes(
    plan: FixPlan,
    tag: Tag,
    release_id: Seq<char>,
    metadata: MetadataView,
    segments: Seq<Seq<char>>,
    copy_to_target: bool,
    config: Config,
) -> bool {
    let kept = supported_only(tag_items(tag));
    &&& plan.target.deep_view() == segments
    &&& tag_items(plan.tag) == written(kept, taken_metadata(tag, metadata))
    &&& same_format(plan.tag, tag)
    &&& text(plan.cover_art_url) == if tag_picture_count(tag) > 0 {
        None
    } else {
        Some(cover_art_url_spec(release_id))
    }
    &&& plan.remove_source == (!copy_to_target || config.delete_original)
    &&& plan.result.old_metadata@ == metadata_of(kept)
    &&& plan.result.new_metadata@ == metadata
    &&& plan.result.target_path@ == joined(segments)
}

/// Plans the fix of a file with the tag `tag` and the extension `ext` as
/// the recording `recording` on the release `release`.
///
/// The items that must not be handed on are dropped from the tag, the
/// metadata of the recording on the release is collected and written into
/// it, and the path of the file is derived from the metadata. A file
/// without a picture is to get the front cover of the release.
///
/// Fails with `InconsistentCatalogData` where the release holds no track of
/// the recording, and with `IncompleteMetadata` where the metadata lacks a
/// field that the path is made of.
pub fn plan_fix(
    tag: Tag,
    recording: RecordingRes,
    release: ReleaseRes,
    ext: &str,
    copy_to_target: bool,
    config: &Config,
) -> (r: Result<FixPlan, ScanError>)
    ensures
        match response_metadata(recording, release) {
            None => r matches Err(e) && e == ScanError::InconsistentCatalogData,
            Some(metadata) => match save_path_spec(ext@, config.target_dir@, metadata) {
                Err(e) => r matches Err(f) && f == e,
                Ok(segments) => r matches Ok(plan) && fixes(
                    plan,
                    tag,
                    release.id@,
                    metadata,
                    segments,
                    copy_to_target,
                    *config,
                ),
            },
        },
        r matches Ok(plan) ==> lies_inside(plan.target.deep_view(), ext@),
{
    let cover = if tag.picture_count() > 0 {
        None
    } else {
        Some(cover_art_url(release.id.as_str()))
    };
    let ghost read = tag;
    let mut tag = tag;
    drop_unsupported(&mut tag);
    let old_metadata = Metadata::from_tag(&tag);
    let metadata = match response_to_metadata(recording, release) {
        Ok(m) => m,
        Err(e) => {
            return Err(e);
        },
    };
    let target = match get_save_path_from_metadata(ext, config.target_dir.as_str(), &metadata) {
        Ok(p) => p,
        Err(e) => {
            return Err(e);
        },
    };
    proof {
        lemma_taken_alike(tag, read, metadata@);
    }
    write_metadata(&mut tag, metadata.clone());
    let result = FixJobRes {
        old_metadata,
        new_metadata: metadata,
        target_path: join_path(&target),
    };
    Ok(
        FixPlan {
            target,
            tag,
            cover_art_url: cover,
            remove_source: removes_source(copy_to_target, config.delete_original),
            result,
        },
    )
}

/// The record of a fix of the file at `path`: a success with both sets of
/// metadata and the target path, or a failure with its cause. A fix is never
/// tried again.
pub fn fix_job_outcome(path: &str, result: Result<FixJobRes, ScanError>) -> (entry: LogEntry)
    ensures
        entry.log_type == LogType::Fix,
        entry.source_path@ == path@,
        entry.acoustid_score is None,
        entry.retry_count == 0,
        match result {
            Ok(res) => {
                &&& entry.success
                &&& entry.message@ == ""@
                &&& entry.old_metadata == Some(res.old_metadata)
                &&& entry.new_metadata == Some(res.new_metadata)
                &&& entry.target_path == Some(res.target_path)
            },
            Err(e) => {
                &&& !entry.success
                &&& entry.message@ == e.message_spec()
                &&& entry.old_metadata is None
                &&& entry.new_metadata is None
                &&& entry.target_path is None
            },
        },
{
    match result {
        Ok(res) => LogEntry {
            success: true,
            log_type: LogType::Fix,
            message: String::from_str(""),
            old_metadata: Some(res.old_metadata),
            new_metadata: Some(res.new_metadata),
            source_path: String::from_str(path),
            target_path: Some(res.target_path),
            acoustid_score: None,
            retry_count: 0,
        },
        Err(e) => LogEntry {
            success: false,
            log_type: LogType::Fix,
            message: e.message(),
            old_metadata: None,
            new_metadata: None,
            source_path: String::from_str(path),
            target_path: None,
            acoustid_score: None,
            retry_count: 0,
        },
    }
}

} // verus!
