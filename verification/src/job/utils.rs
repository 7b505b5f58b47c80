//! From the catalog's answer to the metadata of a file, and from the
//! metadata to the place where the file belongs.

use crate::api::musicbrainz::recording::{RecordingRes, RecordingResRelease};
use crate::api::musicbrainz::release::{
    ReleaseRes, ReleaseResLabelInfo, ReleaseResMedia, ReleaseResMediaTrack,
    ReleaseResTextRepresentation,
};
use crate::api::musicbrainz::{
    credit_names, credit_sort_names, first_artist_id, ArtistCredit, ArtistCreditVecToString,
};
use crate::error::{MissingField, ScanError};
use crate::interface::metadata::{text, Metadata, MetadataView};
use crate::text::{
    decimal, decimal_len, lemma_decimal_digits, prefix_before, take_before, zero_padded,
    zero_padded_spec, zeros,
};
use crate::trusted::{sanitize, sanitized};
use vstd::prelude::*;

verus! {

/// The index of the first track that plays the recording `id`.
pub open spec fn track_index(tracks: Seq<ReleaseResMediaTrack>, id: Seq<char>) -> Option<int> {
    tracks.map_values(|t: ReleaseResMediaTrack| t.recording.id@).index_of_first(id)
}

/// The index of the first medium with a track that plays the recording `id`.
pub open spec fn media_index(media: Seq<ReleaseResMedia>, id: Seq<char>) -> Option<int> {
    media.map_values(|m: ReleaseResMedia| track_index(m.tracks@, id) is Some).index_of_first(true)
}

/// The display string of an optional credit list.
pub open spec fn credit_text(credits: Option<Vec<ArtistCredit>>) -> Option<Seq<char>> {
    match credits {
        Some(list) => Some(credit_names(list@)),
        None => None,
    }
}

/// The sort string of an optional credit list.
pub open spec fn credit_sort_text(credits: Option<Vec<ArtistCredit>>) -> Option<Seq<char>> {
    match credits {
        Some(list) => Some(credit_sort_names(list@)),
        None => None,
    }
}

/// The name of the label of the first label entry.
pub open spec fn first_label_name(label_info: Option<Vec<ReleaseResLabelInfo>>) -> Option<
    Seq<char>,
> {
    match label_info {
        Some(list) => if list@.len() > 0 {
            match list@[0].label {
                Some(label) => Some(label.name@),
                None => None,
            }
        } else {
            None
        },
        None => None,
    }
}

/// The script of a release's text.
pub open spec fn script_text(representation: Option<ReleaseResTextRepresentation>) -> Option<
    Seq<char>,
> {
    match representation {
        Some(r) => text(r.script),
        None => None,
    }
}

/// The year of a date: what stands in front of its first `-`.
pub open spec fn year_text(date: Option<String>) -> Option<Seq<char>> {
    match date {
        Some(d) => Some(prefix_before(d@, '-')),
        None => None,
    }
}

/// The title of a release, followed by its disambiguation in round brackets
/// where it has one that is not empty.
pub open spec fn album_with_disambiguation(title: Seq<char>, disambiguation: Option<String>) -> Seq<
    char,
> {
    match disambiguation {
        Some(d) => if d@.len() > 0 {
            title + " ("@ + d@ + ")"@
        } else {
            title
        },
        None => title,
    }
}

/// The metadata of the track at `track` on the medium at `medium` of
/// `detail`, as a track of `recording`. The album title, the original date
/// and the ids of release and release group are given.
pub open spec fn metadata_at(
    recording: RecordingRes,
    detail: ReleaseRes,
    medium: int,
    track: int,
    album: Seq<char>,
    original_date: Option<Seq<char>>,
    release_id: Seq<char>,
    release_group_id: Seq<char>,
) -> MetadataView {
    let this_media = detail.media@[medium];
    let this_track = this_media.tracks@[track];
    MetadataView {
        title: Some(recording.title@),
        artist: credit_text(recording.artist_credit),
        artist_sort: credit_sort_text(recording.artist_credit),
        album: Some(album),
        album_artist: credit_text(detail.artist_credit),
        album_artist_sort: credit_sort_text(detail.artist_credit),
        track: Some(this_track.position),
        total_tracks: Some(this_media.track_count),
        disc: Some(this_media.position),
        total_discs: Some(detail.media@.len() as u32),
        original_date,
        date: text(detail.date),
        year: year_text(detail.date),
        label: first_label_name(detail.label_info),
        media: text(this_media.format),
        script: script_text(detail.text_representation),
        musicbrainz_track_id: Some(this_track.id@),
        musicbrainz_recording_id: Some(recording.id@),
        musicbrainz_artist_id: first_artist_id(recording.artist_credit),
        musicbrainz_release_id: Some(release_id),
        musicbrainz_release_artist_id: first_artist_id(detail.artist_credit),
        musicbrainz_release_group_id: Some(release_group_id),
    }
}

/// The metadata that `recording` has on the release `detail`, or `None`
/// where no medium of the release holds a track of the recording.
pub open spec fn metadata_on(
    recording: RecordingRes,
    detail: ReleaseRes,
    album: Seq<char>,
    original_date: Option<Seq<char>>,
    release_id: Seq<char>,
    release_group_id: Seq<char>,
) -> Option<MetadataView> {
    match media_index(detail.media@, recording.id@) {
        None => None,
        Some(m) => Some(
            metadata_at(
                recording,
                detail,
                m,
                track_index(detail.media@[m].tracks@, recording.id@).unwrap(),
                album,
                original_date,
                release_id,
                release_group_id,
            ),
        ),
    }
}

/// What `response_to_metadata` builds.
pub open spec fn response_metadata(recording: RecordingRes, release: ReleaseRes) -> Option<
    MetadataView,
> {
    metadata_on(
        recording,
        release,
        release.title@,
        text(release.release_group.first_release_date),
        release.id@,
        release.release_group.id@,
    )
}

/// What `format_to_metadata` builds.
pub open spec fn formatted_metadata(
    recording: RecordingRes,
    release: RecordingResRelease,
    release_additional: ReleaseRes,
) -> Option<MetadataView> {
    metadata_on(
        recording,
        release_additional,
        album_with_disambiguation(release_additional.title@, release_additional.disambiguation),
        text(release.release_group.first_release_date),
        release.id@,
        release.release_group.id@,
    )
}

/// The catalog's answers fit together exactly where some track of the
/// release plays the recording; the track that the metadata is taken from
/// then plays it, and so does no track before it on its medium nor any track
/// of an earlier medium.
pub proof fn lemma_track_plays_recording(media: Seq<ReleaseResMedia>, id: Seq<char>)
    ensures
        media_index(media, id) is Some <==> exists|m: int, t: int|
            0 <= m < media.len() && 0 <= t < media[m].tracks@.len()
                && #[trigger] media[m].tracks@[t].recording.id@ == id,
        media_index(media, id) matches Some(m) ==> {
            &&& 0 <= m < media.len()
            &&& track_index(media[m].tracks@, id) matches Some(t)
            &&& 0 <= t < media[m].tracks@.len()
            &&& media[m].tracks@[t].recording.id@ == id
            &&& forall|u: int| 0 <= u < t ==> (#[trigger] media[m].tracks@[u]).recording.id@ != id
            &&& forall|n: int, u: int|
                0 <= n < m && 0 <= u < media[n].tracks@.len() ==> (
                #[trigger] media[n].tracks@[u]).recording.id@ != id
        },
{
    let holds = media.map_values(|m: ReleaseResMedia| track_index(m.tracks@, id) is Some);
    holds.index_of_first_ensures(true);
    assert forall|n: int| 0 <= n < media.len() implies (#[trigger] holds[n] <==> exists|u: int|
        0 <= u < media[n].tracks@.len() && (#[trigger] media[n].tracks@[u]).recording.id@
            == id) by {
        let ids = media[n].tracks@.map_values(|t: ReleaseResMediaTrack| t.recording.id@);
        ids.index_of_first_ensures(id);
        if holds[n] {
            let t = track_index(media[n].tracks@, id).unwrap();
            assert(ids[t] == media[n].tracks@[t].recording.id@);
        }
        if exists|u: int|
            0 <= u < media[n].tracks@.len() && (#[trigger] media[n].tracks@[u]).recording.id@
                == id {
            let u = choose|u: int|
                0 <= u < media[n].tracks@.len() && (#[trigger] media[n].tracks@[u]).recording.id@
                    == id;
            assert(ids[u] == id);
            assert(ids.contains(id));
        }
    }
    if media_index(media, id) is Some {
        let m = media_index(media, id).unwrap();
        assert(holds[m]);
        let ids = media[m].tracks@.map_values(|t: ReleaseResMediaTrack| t.recording.id@);
        ids.index_of_first_ensures(id);
        let t = track_index(media[m].tracks@, id).unwrap();
        assert(ids[t] == media[m].tracks@[t].recording.id@);
        assert forall|u: int| 0 <= u < t implies (#[trigger] media[m].tracks@[u]).recording.id@
            != id by {
            assert(ids[u] == media[m].tracks@[u].recording.id@);
        }
        assert forall|n: int, u: int| 0 <= n < m && 0 <= u < media[n].tracks@.len() implies (
        #[trigger] media[n].tracks@[u]).recording.id@ != id by {
            assert(!holds[n]);
        }
    } else {
        assert(!holds.contains(true));
        if exists|m: int, t: int|
            0 <= m < media.len() && 0 <= t < media[m].tracks@.len()
                && #[trigger] media[m].tracks@[t].recording.id@ == id {
            let (m, t) = choose|m: int, t: int|
                0 <= m < media.len() && 0 <= t < media[m].tracks@.len()
                    && #[trigger] media[m].tracks@[t].recording.id@ == id;
            assert(holds[m]);
            assert(holds.contains(true));
        }
    }
}

/// Finds the first track that plays the recording `id`.
pub fn find_track(tracks: &Vec<ReleaseResMediaTrack>, id: &String) -> (r: Option<usize>)
    ensures
        r is Some <==> track_index(tracks@, id@) is Some,
        r matches Some(t) ==> track_index(tracks@, id@) == Some(t as int) && t < tracks@.len(),
{
    let ghost ids = tracks@.map_values(|t: ReleaseResMediaTrack| t.recording.id@);
    let mut t: usize = 0;
    while t < tracks.len()
        invariant
            t <= tracks.len(),
            ids == tracks@.map_values(|t: ReleaseResMediaTrack| t.recording.id@),
            forall|k: int| 0 <= k < t ==> #[trigger] ids[k] != id@,
        decreases tracks.len() - t,
    {
        assert(ids[t as int] == tracks@[t as int].recording.id@);
        if tracks[t].recording.id == *id {
            proof {
                ids.index_of_first_ensures(id@);
            }
            return Some(t);
        }
        t = t + 1;
    }
    proof {
        ids.index_of_first_ensures(id@);
    }
    None
}

/// Finds the first medium with a track that plays the recording `id`, and
/// that track.
pub fn find_media(media: &Vec<ReleaseResMedia>, id: &String) -> (r: Option<(usize, usize)>)
    ensures
        r is Some <==> media_index(media@, id@) is Some,
        r matches Some((m, t)) ==> {
            &&& media_index(media@, id@) == Some(m as int)
            &&& m < media@.len()
            &&& track_index(media@[m as int].tracks@, id@) == Some(t as int)
            &&& t < media@[m as int].tracks@.len()
        },
{
    let ghost holds = media@.map_values(
        |m: ReleaseResMedia| track_index(m.tracks@, id@) is Some,
    );
    let mut m: usize = 0;
    while m < media.len()
        invariant
            m <= media.len(),
            holds == media@.map_values(|m: ReleaseResMedia| track_index(m.tracks@, id@) is Some),
            forall|k: int| 0 <= k < m ==> !(#[trigger] holds[k]),
        decreases media.len() - m,
    {
        assert(holds[m as int] == (track_index(media@[m as int].tracks@, id@) is Some));
        match find_track(&media[m].tracks, id) {
            Some(t) => {
                proof {
                    holds.index_of_first_ensures(true);
                }
                return Some((m, t));
            },
            None => {},
        }
        m = m + 1;
    }
    proof {
        holds.index_of_first_ensures(true);
    }
    None
}

/// The display string of an optional credit list.
fn credit_string(credits: &Option<Vec<ArtistCredit>>) -> (r: Option<String>)
    ensures
        text(r) == credit_text(*credits),
{
    match credits {
        Some(list) => Some(list.to_string()),
        None => None,
    }
}

/// The sort string of an optional credit list.
fn credit_sort_string(credits: &Option<Vec<ArtistCredit>>) -> (r: Option<String>)
    ensures
        text(r) == credit_sort_text(*credits),
{
    match credits {
        Some(list) => Some(list.to_sort_string()),
        None => None,
    }
}

/// The catalog id of the first credited artist.
fn first_credit_id(credits: &Option<Vec<ArtistCredit>>) -> (r: Option<String>)
    ensures
        text(r) == first_artist_id(*credits),
{
    match credits {
        Some(list) => if list.len() > 0 {
            Some(list[0].artist.id.clone())
        } else {
            None
        },
        None => None,
    }
}

/// The name of the label of the first label entry.
fn first_label(label_info: &Option<Vec<ReleaseResLabelInfo>>) -> (r: Option<String>)
    ensures
        text(r) == first_label_name(*label_info),
{
    match label_info {
        Some(list) => if list.len() > 0 {
            match &list[0].label {
                Some(label) => Some(label.name.clone()),
                None => None,
            }
        } else {
            None
        },
        None => None,
    }
}

/// The year of a date: what stands in front of its first `-`.
pub fn year_of(date: &Option<String>) -> (r: Option<String>)
    ensures
        text(r) == year_text(*date),
{
    match date {
        Some(d) => Some(take_before(d.as_str(), '-')),
        None => None,
    }
}

/// Builds the metadata from the parts that the two public builders share.
fn build_metadata(
    recording: &RecordingRes,
    detail: &ReleaseRes,
    album: String,
    original_date: Option<String>,
    release_id: String,
    release_group_id: String,
) -> (r: Result<Metadata, ScanError>)
    ensures
        match metadata_on(
            *recording,
            *detail,
            album@,
            text(original_date),
            release_id@,
            release_group_id@,
        ) {
            Some(m) => r matches Ok(built) && built@ == m,
            None => r == Err::<Metadata, ScanError>(ScanError::InconsistentCatalogData),
        },
{
    let found = find_media(&detail.media, &recording.id);
    let (m, t) = match found {
        Some(pair) => pair,
        None => {
            return Err(ScanError::InconsistentCatalogData);
        },
    };
    let this_media = &detail.media[m];
    let this_track = &this_media.tracks[t];
    let script = match &detail.text_representation {
        Some(representation) => representation.script.clone(),
        None => None,
    };
    let total_discs: u32 = #[verifier::truncate]
    (detail.media.len() as u32);
    let metadata = Metadata {
        title: Some(recording.title.clone()),
        artist: credit_string(&recording.artist_credit),
        artist_sort: credit_sort_string(&recording.artist_credit),
        album: Some(album),
        album_artist: credit_string(&detail.artist_credit),
        album_artist_sort: credit_sort_string(&detail.artist_credit),
        track: Some(this_track.position),
        total_tracks: Some(this_media.track_count),
        disc: Some(this_media.position),
        total_discs: Some(total_discs),
        original_date,
        date: detail.date.clone(),
        year: year_of(&detail.date),
        label: first_label(&detail.label_info),
        media: this_media.format.clone(),
        script,
        musicbrainz_track_id: Some(this_track.id.clone()),
        musicbrainz_recording_id: Some(recording.id.clone()),
        musicbrainz_artist_id: first_credit_id(&recording.artist_credit),
        musicbrainz_release_id: Some(release_id),
        musicbrainz_release_artist_id: first_credit_id(&detail.artist_credit),
        musicbrainz_release_group_id: Some(release_group_id),
    };
    Ok(metadata)
}

/// Collects the metadata of `recording` as a track of `release`.
///
/// The track is the first one that plays the recording, on the first medium
/// that has such a track; track and disc numbers and their totals come from
/// that medium. Where no medium has one, the catalog's answers do not fit
/// together and the result is `InconsistentCatalogData`.
pub fn response_to_metadata(recording: RecordingRes, release: ReleaseRes) -> (r: Result<
    Metadata,
    ScanError,
>)
    ensures
        match response_metadata(recording, release) {
            Some(m) => r matches Ok(built) && built@ == m,
            None => r == Err::<Metadata, ScanError>(ScanError::InconsistentCatalogData),
        },
{
    let album = release.title.clone();
    let original_date = release.release_group.first_release_date.clone();
    let release_id = release.id.clone();
    let release_group_id = release.release_group.id.clone();
    build_metadata(&recording, &release, album, original_date, release_id, release_group_id)
}

/// Collects the metadata of `recording` as a track of the release that was
/// chosen for it: `release` as the recording lists it, `release_additional`
/// as the catalog describes it in full.
///
/// The album is the title of the release, followed by its disambiguation in
/// round brackets where it has one. Everything else is as in
/// `response_to_metadata`, with the ids of the release and its group and the
/// original date taken from `release`.
pub fn format_to_metadata(
    recording: RecordingRes,
    release: RecordingResRelease,
    release_additional: ReleaseRes,
) -> (r: Result<Metadata, ScanError>)
    ensures
        match formatted_metadata(recording, release, release_additional) {
            Some(m) => r matches Ok(built) && built@ == m,
            None => r == Err::<Metadata, ScanError>(ScanError::InconsistentCatalogData),
        },
{
    let mut album = release_additional.title.clone();
    match &release_additional.disambiguation {
        Some(disambiguation) => {
            if !disambiguation.as_str().is_empty() {
                album.append(" (");
                album.append(disambiguation.as_str());
                album.append(")");
            }
        },
        None => {},
    }
    let original_date = release.release_group.first_release_date.clone();
    let release_id = release.id.clone();
    let release_group_id = release.release_group.id.clone();
    build_metadata(
        &recording,
        &release_additional,
        album,
        original_date,
        release_id,
        release_group_id,
    )
}

/// The directory of the artist: the album artist, or the artist where there
/// is no album artist.
pub open spec fn path_artist(m: MetadataView) -> Option<Seq<char>> {
    match m.album_artist {
        Some(a) => Some(a),
        None => m.artist,
    }
}

/// The number of characters to which a number out of `total` is padded: the
/// number of decimal digits of `total`.
pub open spec fn padding_width(total: u32) -> nat {
    decimal(total as nat).len()
}

/// The name of the directory of the disc, for a release of more than one
/// disc.
pub open spec fn disc_name(m: MetadataView) -> Option<Seq<char>> {
    match (m.total_discs, m.disc) {
        (Some(total), Some(disc)) => if total > 1 {
            Some("Disc "@ + zero_padded_spec(disc as nat, padding_width(total)))
        } else {
            None
        },
        _ => None,
    }
}

/// What stands in front of the title in the name of the file: the padded
/// track number and `" - "`, or nothing without a track number.
pub open spec fn track_prefix(m: MetadataView) -> Seq<char> {
    match m.track {
        Some(track) => {
            let total = match m.total_tracks {
                Some(t) => t,
                None => 0u32,
            };
            zero_padded_spec(track as nat, padding_width(total)) + " - "@
        },
        None => Seq::empty(),
    }
}

/// The field that is missing for a path, if one is.
pub open spec fn missing_field(m: MetadataView) -> Option<MissingField> {
    if path_artist(m) is None {
        Some(MissingField::Artist)
    } else if m.album is None {
        Some(MissingField::Album)
    } else if m.title is None {
        Some(MissingField::Title)
    } else {
        None
    }
}

/// The names that a path is made of, as the metadata gives them.
#[derive(Debug)]
pub struct PathNames {
    /// The album artist, or the artist where there is none.
    pub artist: String,
    pub album: String,
    /// `Disc N`, for a release of more than one disc.
    pub disc: Option<String>,
    /// The name of the file without its extension: the padded track number,
    /// `" - "` and the title.
    pub stem: String,
}

/// The names of a path with their strings as characters.
pub struct PathNamesView {
    pub artist: Seq<char>,
    pub album: Seq<char>,
    pub disc: Option<Seq<char>>,
    pub stem: Seq<char>,
}

impl View for PathNames {
    type V = PathNamesView;

    open spec fn view(&self) -> PathNamesView {
        PathNamesView {
            artist: self.artist@,
            album: self.album@,
            disc: text(self.disc),
            stem: self.stem@,
        }
    }
}

/// The names that the path of a file with the metadata `m` is made of, or
/// the field that is missing for it.
pub open spec fn path_names_spec(m: MetadataView) -> Result<PathNamesView, ScanError> {
    match missing_field(m) {
        Some(field) => Err(ScanError::IncompleteMetadata(field)),
        None => Ok(
            PathNamesView {
                artist: path_artist(m).unwrap(),
                album: m.album.unwrap(),
                disc: disc_name(m),
                stem: track_prefix(m) + m.title.unwrap(),
            },
        ),
    }
}

/// The segments of a path: the target directory, the directories of artist
/// and album, that of the disc where there is one, and the name of the file
/// with its extension.
pub open spec fn assembled(
    ext: Seq<char>,
    target_dir: Seq<char>,
    artist: Seq<char>,
    album: Seq<char>,
    disc: Option<Seq<char>>,
    stem: Seq<char>,
) -> Seq<Seq<char>> {
    let front = seq![target_dir, artist, album];
    let file = stem + "."@ + ext;
    match disc {
        Some(disc) => front.push(disc).push(file),
        None => front.push(file),
    }
}

/// An optional name, sanitized.
pub open spec fn sanitized_name(name: Option<Seq<char>>) -> Option<Seq<char>> {
    match name {
        Some(n) => Some(sanitized(n)),
        None => None,
    }
}

/// The segments of the path that is made of the names `names`, each of them
/// sanitized.
pub open spec fn save_path_segments(ext: Seq<char>, target_dir: Seq<char>, names: PathNamesView) -> Seq<
    Seq<char>,
> {
    assembled(
        ext,
        target_dir,
        sanitized(names.artist),
        sanitized(names.album),
        sanitized_name(names.disc),
        sanitized(names.stem),
    )
}

/// The path of a file, or the field that is missing for it.
pub open spec fn save_path_spec(ext: Seq<char>, target_dir: Seq<char>, m: MetadataView) -> Result<
    Seq<Seq<char>>,
    ScanError,
> {
    match path_names_spec(m) {
        Ok(names) => Ok(save_path_segments(ext, target_dir, names)),
        Err(e) => Err(e),
    }
}

/// Whether a segment of a path keeps the path where it is: it holds no
/// separator and is neither `.` nor `..`.
pub open spec fn stays_inside(segment: Seq<char>) -> bool {
    &&& !segment.contains('/')
    &&& !segment.contains('\\')
    &&& segment != seq!['.']
    &&& segment != seq!['.', '.']
}

/// Whether an extension is what stands behind the last dot of the name of a
/// file: not empty, and without a dot or a separator.
pub open spec fn plain_extension(ext: Seq<char>) -> bool {
    &&& ext.len() > 0
    &&& !ext.contains('/')
    &&& !ext.contains('\\')
    &&& !ext.contains('.')
}

/// Whether a path lies inside its first segment: every directory below it
/// keeps the path where it is, and so does the name of the file if its
/// extension is a plain one.
pub open spec fn lies_inside(segments: Seq<Seq<char>>, ext: Seq<char>) -> bool {
    &&& forall|i: int| 1 <= i < segments.len() - 1 ==> stays_inside(#[trigger] segments[i])
    &&& plain_extension(ext) && segments.len() > 1 ==> stays_inside(segments.last())
}

/// A name without a separator, a dot and a plain extension make the name of
/// a file that keeps the path where it is.
pub proof fn lemma_file_stays_inside(stem: Seq<char>, ext: Seq<char>)
    requires
        !stem.contains('/'),
        !stem.contains('\\'),
        plain_extension(ext),
    ensures
        stays_inside(stem + seq!['.'] + ext),
{
    let file = stem + seq!['.'] + ext;
    assert forall|i: int| 0 <= i < file.len() implies file[i] != '/' && file[i] != '\\' by {
        if i < stem.len() {
            assert(stem.contains(stem[i]));
        } else if i > stem.len() {
            assert(ext.contains(ext[i - stem.len() - 1]));
        }
    }
    assert(file.last() == ext.last());
    assert(ext.contains(ext.last()));
    assert(file.len() >= 2);
    if file == seq!['.', '.'] {
        assert(file.last() == '.');
    }
}

/// A larger number has at least as many digits.
pub proof fn lemma_decimal_len_monotonic(a: nat, b: nat)
    requires
        a <= b,
    ensures
        decimal(a).len() <= decimal(b).len(),
    decreases b,
{
    if b >= 10 {
        if a >= 10 {
            lemma_decimal_len_monotonic(a / 10, b / 10);
        } else {
            lemma_decimal_digits(b / 10);
        }
    }
}

/// A number padded to the width of a total is as long as the longer of the
/// two, and as long as the total exactly where it does not exceed the total:
/// the width goes by the total, not by the number's own digits. The digits of
/// the number stand at the end, with nothing but zeros in front.
pub proof fn lemma_padding_width(value: u32, total: u32)
    ensures
        zero_padded_spec(value as nat, padding_width(total)).len() == if decimal(
            value as nat,
        ).len() >= padding_width(total) {
            decimal(value as nat).len()
        } else {
            padding_width(total)
        },
        value <= total ==> zero_padded_spec(value as nat, padding_width(total)).len()
            == padding_width(total),
        zero_padded_spec(value as nat, padding_width(total)) == zeros(
            (zero_padded_spec(value as nat, padding_width(total)).len() - decimal(
                value as nat,
            ).len()) as nat,
        ) + decimal(value as nat),
{
    let digits = decimal(value as nat);
    let width = padding_width(total);
    if value <= total {
        lemma_decimal_len_monotonic(value as nat, total as nat);
    }
    if digits.len() >= width {
        assert(zeros(0) + digits =~= digits);
    }
}

/// The same inputs give the same path: the result is a function of the
/// extension, the target directory and the metadata's fields.
pub proof fn lemma_save_path_stable(
    ext_a: Seq<char>,
    ext_b: Seq<char>,
    target_a: Seq<char>,
    target_b: Seq<char>,
    a: Metadata,
    b: Metadata,
)
    requires
        ext_a == ext_b,
        target_a == target_b,
        a@ == b@,
    ensures
        save_path_spec(ext_a, target_a, a@) == save_path_spec(ext_b, target_b, b@),
{
}

/// A path is owed to every record that has a title, an album and an artist
/// or album artist, and to no other.
pub proof fn lemma_save_path_owed(ext: Seq<char>, target_dir: Seq<char>, m: MetadataView)
    ensures
        save_path_spec(ext, target_dir, m) is Ok <==> (m.title is Some && m.album is Some && (
        m.artist is Some || m.album_artist is Some)),
        save_path_spec(ext, target_dir, m) matches Ok(segments) ==> {
            &&& 4 <= segments.len() <= 5
            &&& segments[0] == target_dir
            &&& segments.len() == 5 <==> (m.disc is Some && m.total_discs is Some
                && m.total_discs.unwrap() > 1)
        },
{
}

/// The number of the disc or track, padded to the width of `total`.
pub fn padded_number(value: u32, total: u32) -> (r: String)
    ensures
        r@ == zero_padded_spec(value as nat, padding_width(total)),
{
    zero_padded(value, decimal_len(total))
}

/// The names that the path of a file is made of: the album artist (or the
/// artist where there is none), the album, `Disc N` for a release of more
/// than one disc, and the track number, `" - "` and the title. Track and
/// disc numbers are padded with zeros to the number of digits of their
/// totals.
///
/// Fails with `IncompleteMetadata` where the artist (and album artist), the
/// album or the title is missing, in that order.
pub fn path_names(metadata: &Metadata) -> (r: Result<PathNames, ScanError>)
    ensures
        match path_names_spec(metadata@) {
            Ok(names) => r matches Ok(found) && found@ == names,
            Err(e) => r == Err::<PathNames, ScanError>(e),
        },
{
    let artist = match &metadata.album_artist {
        Some(a) => a.clone(),
        None => match &metadata.artist {
            Some(a) => a.clone(),
            None => {
                return Err(ScanError::IncompleteMetadata(MissingField::Artist));
            },
        },
    };
    let album = match &metadata.album {
        Some(a) => a.clone(),
        None => {
            return Err(ScanError::IncompleteMetadata(MissingField::Album));
        },
    };
    let title = match &metadata.title {
        Some(t) => t,
        None => {
            return Err(ScanError::IncompleteMetadata(MissingField::Title));
        },
    };
    let disc = match (metadata.total_discs, metadata.disc) {
        (Some(total_discs), Some(disc)) => {
            if total_discs > 1 {
                let mut name = String::from_str("Disc ");
                name.append(padded_number(disc, total_discs).as_str());
                Some(name)
            } else {
                None
            }
        },
        _ => None,
    };
    let mut stem = String::new();
    match metadata.track {
        Some(track) => {
            let total = match metadata.total_tracks {
                Some(t) => t,
                None => 0,
            };
            stem.append(padded_number(track, total).as_str());
            stem.append(" - ");
        },
        None => {},
    }
    stem.append(title.as_str());
    Ok(PathNames { artist, album, disc, stem })
}

/// Puts the segments of a path together: the target directory, the
/// directories of artist and album, that of the disc where there is one, and
/// the name of the file, which is `stem`, a dot and `ext`.
pub fn assemble_path(
    ext: &str,
    target_dir: &str,
    artist: String,
    album: String,
    disc: Option<String>,
    stem: String,
) -> (path: Vec<String>)
    ensures
        path.deep_view() == assembled(ext@, target_dir@, artist@, album@, text(disc), stem@),
        path@.len() == if disc is Some {
            5int
        } else {
            4int
        },
        path@[1] == artist,
        path@[2] == album,
        disc matches Some(d) ==> path@[3] == d,
{
    let mut path: Vec<String> = Vec::new();
    path.push(String::from_str(target_dir));
    path.push(artist);
    path.push(album);
    match disc {
        Some(d) => path.push(d),
        None => {},
    }
    let mut file = stem;
    file.append(".");
    file.append(ext);
    path.push(file);
    path
}

/// Determines where a file belongs from its metadata.
///
/// The result holds the segments of the path in order: `target_dir` as it
/// is, the album artist (or the artist where there is none), the album,
/// `Disc N` for a release of more than one disc, and the name of the file:
/// the track number, `" - "`, the title, a dot and `ext`. Track and disc
/// numbers are padded with zeros to the number of digits of their totals.
/// Every segment below `target_dir` is sanitized, the name of the file
/// before the dot and the extension are added. No directory below
/// `target_dir` holds a separator or is `.` or `..`, and neither does or is
/// the name of the file, if `ext` is not empty and holds neither a dot nor a
/// separator: the path lies inside `target_dir`.
///
/// Fails with `IncompleteMetadata` where the artist (and album artist), the
/// album or the title is missing, in that order.
pub fn get_save_path_from_metadata(ext: &str, target_dir: &str, metadata: &Metadata) -> (r: Result<
    Vec<String>,
    ScanError,
>)
    ensures
        match save_path_spec(ext@, target_dir@, metadata@) {
            Ok(segments) => r matches Ok(path) && path.deep_view() == segments,
            Err(e) => r == Err::<Vec<String>, ScanError>(e),
        },
        r matches Ok(path) ==> lies_inside(path.deep_view(), ext@),
{
    let names = match path_names(metadata) {
        Ok(names) => names,
        Err(e) => {
            return Err(e);
        },
    };
    let artist = sanitize(names.artist.as_str());
    let album = sanitize(names.album.as_str());
    let disc = match &names.disc {
        Some(d) => Some(sanitize(d.as_str())),
        None => None,
    };
    let stem = sanitize(names.stem.as_str());
    let ghost names_made = (artist@, album@, disc.deep_view(), stem@);
    let path = assemble_path(ext, target_dir, artist, album, disc, stem);
    proof {
        reveal_strlit(".");
        let segments = path.deep_view();
        assert("."@ =~= seq!['.']);
        assert(segments[1] == names_made.0);
        assert(segments[2] == names_made.1);
        if let Some(d) = names_made.2 {
            assert(segments[3] == d);
        }
        if plain_extension(ext@) {
            lemma_file_stays_inside(names_made.3, ext@);
            assert(segments.last() == names_made.3 + "."@ + ext@);
        }
    }
    Ok(path)
}

} // verus!
