//! The flat metadata record of one file.

use crate::interface::tag::{
    all_supported, inserted, lemma_inserted_stays_supported, lemma_text_of_inserted, same_format,
    text_of, Item,
};
use crate::trusted::{tag_items, tag_takes};
use lofty::tag::{ItemKey, Tag};
use crate::text::{decimal, lemma_parse_decimal, parse_u32, parse_u32_spec, u32_to_string};
use vstd::prelude::*;

verus! {

/// The metadata of one file: what is written to its tags and what its path
/// is derived from.
#[derive(Debug)]
pub struct Metadata {
    pub title: Option<String>,
    pub artist: Option<String>,
    pub artist_sort: Option<String>,
    pub album: Option<String>,
    pub album_artist: Option<String>,
    pub album_artist_sort: Option<String>,
    pub track: Option<u32>,
    pub total_tracks: Option<u32>,
    pub disc: Option<u32>,
    pub total_discs: Option<u32>,
    pub original_date: Option<String>,
    pub date: Option<String>,
    pub year: Option<String>,
    pub label: Option<String>,
    pub media: Option<String>,
    pub script: Option<String>,
    pub musicbrainz_track_id: Option<String>,
    pub musicbrainz_recording_id: Option<String>,
    pub musicbrainz_artist_id: Option<String>,
    pub musicbrainz_release_id: Option<String>,
    pub musicbrainz_release_artist_id: Option<String>,
    pub musicbrainz_release_group_id: Option<String>,
}

/// A metadata record with its strings as character sequences.
pub struct MetadataView {
    pub title: Option<Seq<char>>,
    pub artist: Option<Seq<char>>,
    pub artist_sort: Option<Seq<char>>,
    pub album: Option<Seq<char>>,
    pub album_artist: Option<Seq<char>>,
    pub album_artist_sort: Option<Seq<char>>,
    pub track: Option<u32>,
    pub total_tracks: Option<u32>,
    pub disc: Option<u32>,
    pub total_discs: Option<u32>,
    pub original_date: Option<Seq<char>>,
    pub date: Option<Seq<char>>,
    pub year: Option<Seq<char>>,
    pub label: Option<Seq<char>>,
    pub media: Option<Seq<char>>,
    pub script: Option<Seq<char>>,
    pub musicbrainz_track_id: Option<Seq<char>>,
    pub musicbrainz_recording_id: Option<Seq<char>>,
    pub musicbrainz_artist_id: Option<Seq<char>>,
    pub musicbrainz_release_id: Option<Seq<char>>,
    pub musicbrainz_release_artist_id: Option<Seq<char>>,
    pub musicbrainz_release_group_id: Option<Seq<char>>,
}

/// The characters of an optional string.
pub open spec fn text(s: Option<String>) -> Option<Seq<char>> {
    match s {
        Some(s) => Some(s@),
        None => None,
    }
}

impl View for Metadata {
    type V = MetadataView;

    open spec fn view(&self) -> MetadataView {
        MetadataView {
            title: text(self.title),
            artist: text(self.artist),
            artist_sort: text(self.artist_sort),
            album: text(self.album),
            album_artist: text(self.album_artist),
            album_artist_sort: text(self.album_artist_sort),
            track: self.track,
            total_tracks: self.total_tracks,
            disc: self.disc,
            total_discs: self.total_discs,
            original_date: text(self.original_date),
            date: text(self.date),
            year: text(self.year),
            label: text(self.label),
            media: text(self.media),
            script: text(self.script),
            musicbrainz_track_id: text(self.musicbrainz_track_id),
            musicbrainz_recording_id: text(self.musicbrainz_recording_id),
            musicbrainz_artist_id: text(self.musicbrainz_artist_id),
            musicbrainz_release_id: text(self.musicbrainz_release_id),
            musicbrainz_release_artist_id: text(self.musicbrainz_release_artist_id),
            musicbrainz_release_group_id: text(self.musicbrainz_release_group_id),
        }
    }
}

impl MetadataView {
    /// The record with no field set.
    pub open spec fn empty() -> MetadataView {
        MetadataView {
            title: None,
            artist: None,
            artist_sort: None,
            album: None,
            album_artist: None,
            album_artist_sort: None,
            track: None,
            total_tracks: None,
            disc: None,
            total_discs: None,
            original_date: None,
            date: None,
            year: None,
            label: None,
            media: None,
            script: None,
            musicbrainz_track_id: None,
            musicbrainz_recording_id: None,
            musicbrainz_artist_id: None,
            musicbrainz_release_id: None,
            musicbrainz_release_artist_id: None,
            musicbrainz_release_group_id: None,
        }
    }
}

impl Default for Metadata {
    fn default() -> (r: Self)
        ensures
            r@ == MetadataView::empty(),
    {
        Metadata {
            title: None,
            artist: None,
            artist_sort: None,
            album: None,
            album_artist: None,
            album_artist_sort: None,
            track: None,
            total_tracks: None,
            disc: None,
            total_discs: None,
            original_date: None,
            date: None,
            year: None,
            label: None,
            media: None,
            script: None,
            musicbrainz_track_id: None,
            musicbrainz_recording_id: None,
            musicbrainz_artist_id: None,
            musicbrainz_release_id: None,
            musicbrainz_release_artist_id: None,
            musicbrainz_release_group_id: None,
        }
    }
}

impl Clone for Metadata {
    fn clone(&self) -> (r: Self)
        ensures
            r == *self,
    {
        Metadata {
            title: copy_text(&self.title),
            artist: copy_text(&self.artist),
            artist_sort: copy_text(&self.artist_sort),
            album: copy_text(&self.album),
            album_artist: copy_text(&self.album_artist),
            album_artist_sort: copy_text(&self.album_artist_sort),
            track: self.track,
            total_tracks: self.total_tracks,
            disc: self.disc,
            total_discs: self.total_discs,
            original_date: copy_text(&self.original_date),
            date: copy_text(&self.date),
            year: copy_text(&self.year),
            label: copy_text(&self.label),
            media: copy_text(&self.media),
            script: copy_text(&self.script),
            musicbrainz_track_id: copy_text(&self.musicbrainz_track_id),
            musicbrainz_recording_id: copy_text(&self.musicbrainz_recording_id),
            musicbrainz_artist_id: copy_text(&self.musicbrainz_artist_id),
            musicbrainz_release_id: copy_text(&self.musicbrainz_release_id),
            musicbrainz_release_artist_id: copy_text(&self.musicbrainz_release_artist_id),
            musicbrainz_release_group_id: copy_text(&self.musicbrainz_release_group_id),
        }
    }
}

/// A copy of an optional string.
pub fn copy_text(s: &Option<String>) -> (r: Option<String>)
    ensures
        r == *s,
{
    match s {
        Some(t) => Some(t.clone()),
        None => None,
    }
}

/// The number that a tag holds for a key: its text read as a number, if it
/// reads as one.
pub open spec fn number_of(items: Seq<Item>, key: ItemKey) -> Option<u32> {
    match text_of(items, key) {
        Some(t) => parse_u32_spec(t),
        None => None,
    }
}

/// The metadata that a tag holds.
pub open spec fn metadata_of(items: Seq<Item>) -> MetadataView {
    MetadataView {
        title: text_of(items, ItemKey::TrackTitle),
        artist: text_of(items, ItemKey::TrackArtist),
        artist_sort: text_of(items, ItemKey::TrackArtistSortOrder),
        album: text_of(items, ItemKey::AlbumTitle),
        album_artist: text_of(items, ItemKey::AlbumArtist),
        album_artist_sort: text_of(items, ItemKey::AlbumArtistSortOrder),
        track: number_of(items, ItemKey::TrackNumber),
        total_tracks: number_of(items, ItemKey::TrackTotal),
        disc: number_of(items, ItemKey::DiscNumber),
        total_discs: number_of(items, ItemKey::DiscTotal),
        original_date: text_of(items, ItemKey::OriginalReleaseDate),
        date: text_of(items, ItemKey::RecordingDate),
        year: text_of(items, ItemKey::Year),
        label: text_of(items, ItemKey::Label),
        media: text_of(items, ItemKey::OriginalMediaType),
        script: text_of(items, ItemKey::Script),
        musicbrainz_track_id: text_of(items, ItemKey::MusicBrainzTrackId),
        musicbrainz_recording_id: text_of(items, ItemKey::MusicBrainzRecordingId),
        musicbrainz_artist_id: text_of(items, ItemKey::MusicBrainzArtistId),
        musicbrainz_release_id: text_of(items, ItemKey::MusicBrainzReleaseId),
        musicbrainz_release_artist_id: text_of(items, ItemKey::MusicBrainzReleaseArtistId),
        musicbrainz_release_group_id: text_of(items, ItemKey::MusicBrainzReleaseGroupId),
    }
}

/// What is written for a key into a tag: the value, where there is one and
/// the format of the tag has a place for the key.
pub open spec fn taken(tag: Tag, key: ItemKey, value: Option<Seq<char>>) -> Option<Seq<char>> {
    if tag_takes(tag, key) {
        value
    } else {
        None
    }
}

/// The items after a key has been set, where there is a value to set it to.
pub open spec fn put(items: Seq<Item>, key: ItemKey, value: Option<Seq<char>>) -> Seq<Item> {
    match value {
        Some(v) => inserted(items, key, v),
        None => items,
    }
}

/// A number as the text that is written for it.
pub open spec fn number_text(value: Option<u32>) -> Option<Seq<char>> {
    match value {
        Some(n) => Some(decimal(n as nat)),
        None => None,
    }
}

/// The metadata of which the tag `tag` takes every field: `m` without the
/// fields that the format of the tag has no place for.
pub open spec fn taken_metadata(tag: Tag, m: MetadataView) -> MetadataView {
    MetadataView {
        title: taken(tag, ItemKey::TrackTitle, m.title),
        artist: taken(tag, ItemKey::TrackArtist, m.artist),
        artist_sort: taken(tag, ItemKey::TrackArtistSortOrder, m.artist_sort),
        album: taken(tag, ItemKey::AlbumTitle, m.album),
        album_artist: taken(tag, ItemKey::AlbumArtist, m.album_artist),
        album_artist_sort: taken(tag, ItemKey::AlbumArtistSortOrder, m.album_artist_sort),
        track: if tag_takes(tag, ItemKey::TrackNumber) {
            m.track
        } else {
            None
        },
        total_tracks: if tag_takes(tag, ItemKey::TrackTotal) {
            m.total_tracks
        } else {
            None
        },
        disc: if tag_takes(tag, ItemKey::DiscNumber) {
            m.disc
        } else {
            None
        },
        total_discs: if tag_takes(tag, ItemKey::DiscTotal) {
            m.total_discs
        } else {
            None
        },
        original_date: taken(tag, ItemKey::OriginalReleaseDate, m.original_date),
        date: taken(tag, ItemKey::RecordingDate, m.date),
        year: taken(tag, ItemKey::Year, m.year),
        label: taken(tag, ItemKey::Label, m.label),
        media: taken(tag, ItemKey::OriginalMediaType, m.media),
        script: taken(tag, ItemKey::Script, m.script),
        musicbrainz_track_id: taken(tag, ItemKey::MusicBrainzTrackId, m.musicbrainz_track_id),
        musicbrainz_recording_id: taken(
            tag,
            ItemKey::MusicBrainzRecordingId,
            m.musicbrainz_recording_id,
        ),
        musicbrainz_artist_id: taken(tag, ItemKey::MusicBrainzArtistId, m.musicbrainz_artist_id),
        musicbrainz_release_id: taken(
            tag,
            ItemKey::MusicBrainzReleaseId,
            m.musicbrainz_release_id,
        ),
        musicbrainz_release_artist_id: taken(
            tag,
            ItemKey::MusicBrainzReleaseArtistId,
            m.musicbrainz_release_artist_id,
        ),
        musicbrainz_release_group_id: taken(
            tag,
            ItemKey::MusicBrainzReleaseGroupId,
            m.musicbrainz_release_group_id,
        ),
    }
}

/// The items after the names of track and album have been written.
pub open spec fn written_names(items: Seq<Item>, m: MetadataView) -> Seq<Item> {
    let s = put(items, ItemKey::TrackTitle, m.title);
    let s = put(s, ItemKey::TrackArtist, m.artist);
    let s = put(s, ItemKey::TrackArtistSortOrder, m.artist_sort);
    let s = put(s, ItemKey::AlbumTitle, m.album);
    let s = put(s, ItemKey::AlbumArtist, m.album_artist);
    put(s, ItemKey::AlbumArtistSortOrder, m.album_artist_sort)
}

/// The items after the numbers of track and disc have been written.
pub open spec fn written_numbers(items: Seq<Item>, m: MetadataView) -> Seq<Item> {
    let s = put(items, ItemKey::TrackNumber, number_text(m.track));
    let s = put(s, ItemKey::TrackTotal, number_text(m.total_tracks));
    let s = put(s, ItemKey::DiscNumber, number_text(m.disc));
    put(s, ItemKey::DiscTotal, number_text(m.total_discs))
}

/// The items after the dates and what else describes the release have been
/// written.
pub open spec fn written_release(items: Seq<Item>, m: MetadataView) -> Seq<Item> {
    let s = put(items, ItemKey::OriginalReleaseDate, m.original_date);
    let s = put(s, ItemKey::RecordingDate, m.date);
    let s = put(s, ItemKey::Year, m.year);
    let s = put(s, ItemKey::Label, m.label);
    let s = put(s, ItemKey::OriginalMediaType, m.media);
    put(s, ItemKey::Script, m.script)
}

/// The items after the ids of the catalog have been written.
pub open spec fn written_ids(items: Seq<Item>, m: MetadataView) -> Seq<Item> {
    let s = put(items, ItemKey::MusicBrainzArtistId, m.musicbrainz_artist_id);
    let s = put(s, ItemKey::MusicBrainzTrackId, m.musicbrainz_track_id);
    let s = put(s, ItemKey::MusicBrainzReleaseId, m.musicbrainz_release_id);
    let s = put(s, ItemKey::MusicBrainzReleaseArtistId, m.musicbrainz_release_artist_id);
    let s = put(s, ItemKey::MusicBrainzReleaseGroupId, m.musicbrainz_release_group_id);
    put(s, ItemKey::MusicBrainzRecordingId, m.musicbrainz_recording_id)
}

/// The items after the metadata has been written: every field that the
/// metadata has is set, in the order of the fields, and the others are left
/// as they are.
pub open spec fn written(items: Seq<Item>, m: MetadataView) -> Seq<Item> {
    written_ids(written_release(written_numbers(written_names(items, m), m), m), m)
}

/// `first`, or `second` where `first` is nothing.
pub open spec fn or_else<T>(first: Option<T>, second: Option<T>) -> Option<T> {
    match first {
        Some(v) => Some(v),
        None => second,
    }
}

/// The fields of `new` where it has them, those of `old` where it has not.
pub open spec fn merged(new: MetadataView, old: MetadataView) -> MetadataView {
    MetadataView {
        title: or_else(new.title, old.title),
        artist: or_else(new.artist, old.artist),
        artist_sort: or_else(new.artist_sort, old.artist_sort),
        album: or_else(new.album, old.album),
        album_artist: or_else(new.album_artist, old.album_artist),
        album_artist_sort: or_else(new.album_artist_sort, old.album_artist_sort),
        track: or_else(new.track, old.track),
        total_tracks: or_else(new.total_tracks, old.total_tracks),
        disc: or_else(new.disc, old.disc),
        total_discs: or_else(new.total_discs, old.total_discs),
        original_date: or_else(new.original_date, old.original_date),
        date: or_else(new.date, old.date),
        year: or_else(new.year, old.year),
        label: or_else(new.label, old.label),
        media: or_else(new.media, old.media),
        script: or_else(new.script, old.script),
        musicbrainz_track_id: or_else(new.musicbrainz_track_id, old.musicbrainz_track_id),
        musicbrainz_recording_id: or_else(
            new.musicbrainz_recording_id,
            old.musicbrainz_recording_id,
        ),
        musicbrainz_artist_id: or_else(new.musicbrainz_artist_id, old.musicbrainz_artist_id),
        musicbrainz_release_id: or_else(new.musicbrainz_release_id, old.musicbrainz_release_id),
        musicbrainz_release_artist_id: or_else(
            new.musicbrainz_release_artist_id,
            old.musicbrainz_release_artist_id,
        ),
        musicbrainz_release_group_id: or_else(
            new.musicbrainz_release_group_id,
            old.musicbrainz_release_group_id,
        ),
    }
}

/// The keys that metadata is kept under.
pub open spec fn is_metadata_key(key: ItemKey) -> bool {
    !(key is Unknown)
}

/// Setting a key is seen when that key is read, and changes nothing for any
/// other key.
pub proof fn lemma_put(items: Seq<Item>, key: ItemKey, value: Option<Seq<char>>)
    requires
        is_metadata_key(key),
    ensures
        forall|other: ItemKey|
            is_metadata_key(other) ==> #[trigger] text_of(put(items, key, value), other)
                == if other == key {
                or_else(value, text_of(items, key))
            } else {
                text_of(items, other)
            },
{
    assert forall|other: ItemKey| is_metadata_key(other) implies #[trigger] text_of(
        put(items, key, value),
        other,
    ) == if other == key {
        or_else(value, text_of(items, key))
    } else {
        text_of(items, other)
    } by {
        if let Some(v) = value {
            lemma_text_of_inserted(items, key, v, other);
        }
    }
}

/// What is read from a tag after metadata has been written to it is that
/// metadata, with the fields that it lacks as the tag had them before.
pub proof fn lemma_read_after_write(items: Seq<Item>, m: MetadataView)
    ensures
        metadata_of(written(items, m)) == merged(m, metadata_of(items)),
{
    let s0 = items;
    let s1 = put(s0, ItemKey::TrackTitle, m.title);
    lemma_put(s0, ItemKey::TrackTitle, m.title);
    let s2 = put(s1, ItemKey::TrackArtist, m.artist);
    lemma_put(s1, ItemKey::TrackArtist, m.artist);
    let s3 = put(s2, ItemKey::TrackArtistSortOrder, m.artist_sort);
    lemma_put(s2, ItemKey::TrackArtistSortOrder, m.artist_sort);
    let s4 = put(s3, ItemKey::AlbumTitle, m.album);
    lemma_put(s3, ItemKey::AlbumTitle, m.album);
    let s5 = put(s4, ItemKey::AlbumArtist, m.album_artist);
    lemma_put(s4, ItemKey::AlbumArtist, m.album_artist);
    let s6 = put(s5, ItemKey::AlbumArtistSortOrder, m.album_artist_sort);
    lemma_put(s5, ItemKey::AlbumArtistSortOrder, m.album_artist_sort);
    let s7 = put(s6, ItemKey::TrackNumber, number_text(m.track));
    lemma_put(s6, ItemKey::TrackNumber, number_text(m.track));
    let s8 = put(s7, ItemKey::TrackTotal, number_text(m.total_tracks));
    lemma_put(s7, ItemKey::TrackTotal, number_text(m.total_tracks));
    let s9 = put(s8, ItemKey::DiscNumber, number_text(m.disc));
    lemma_put(s8, ItemKey::DiscNumber, number_text(m.disc));
    let s10 = put(s9, ItemKey::DiscTotal, number_text(m.total_discs));
    lemma_put(s9, ItemKey::DiscTotal, number_text(m.total_discs));
    let s11 = put(s10, ItemKey::OriginalReleaseDate, m.original_date);
    lemma_put(s10, ItemKey::OriginalReleaseDate, m.original_date);
    let s12 = put(s11, ItemKey::RecordingDate, m.date);
    lemma_put(s11, ItemKey::RecordingDate, m.date);
    let s13 = put(s12, ItemKey::Year, m.year);
    lemma_put(s12, ItemKey::Year, m.year);
    let s14 = put(s13, ItemKey::Label, m.label);
    lemma_put(s13, ItemKey::Label, m.label);
    let s15 = put(s14, ItemKey::OriginalMediaType, m.media);
    lemma_put(s14, ItemKey::OriginalMediaType, m.media);
    let s16 = put(s15, ItemKey::Script, m.script);
    lemma_put(s15, ItemKey::Script, m.script);
    let s17 = put(s16, ItemKey::MusicBrainzArtistId, m.musicbrainz_artist_id);
    lemma_put(s16, ItemKey::MusicBrainzArtistId, m.musicbrainz_artist_id);
    let s18 = put(s17, ItemKey::MusicBrainzTrackId, m.musicbrainz_track_id);
    lemma_put(s17, ItemKey::MusicBrainzTrackId, m.musicbrainz_track_id);
    let s19 = put(s18, ItemKey::MusicBrainzReleaseId, m.musicbrainz_release_id);
    lemma_put(s18, ItemKey::MusicBrainzReleaseId, m.musicbrainz_release_id);
    let s20 = put(s19, ItemKey::MusicBrainzReleaseArtistId, m.musicbrainz_release_artist_id);
    lemma_put(s19, ItemKey::MusicBrainzReleaseArtistId, m.musicbrainz_release_artist_id);
    let s21 = put(s20, ItemKey::MusicBrainzReleaseGroupId, m.musicbrainz_release_group_id);
    lemma_put(s20, ItemKey::MusicBrainzReleaseGroupId, m.musicbrainz_release_group_id);
    lemma_put(s21, ItemKey::MusicBrainzRecordingId, m.musicbrainz_recording_id);
    if let Some(n) = m.track {
        lemma_parse_decimal(n);
    }
    if let Some(n) = m.total_tracks {
        lemma_parse_decimal(n);
    }
    if let Some(n) = m.disc {
        lemma_parse_decimal(n);
    }
    if let Some(n) = m.total_discs {
        lemma_parse_decimal(n);
    }
}

/// Setting one of the keys of metadata brings in nothing that must be kept
/// back from the tag library.
pub proof fn lemma_put_stays_supported(items: Seq<Item>, key: ItemKey, value: Option<Seq<char>>)
    requires
        is_metadata_key(key),
        all_supported(items),
    ensures
        all_supported(put(items, key, value)),
{
    if let Some(v) = value {
        lemma_inserted_stays_supported(items, key, v);
    }
}

/// Writing metadata brings in nothing that must be kept back from the tag
/// library: what was dropped when the tag was read stays away.
pub proof fn lemma_written_stays_supported(items: Seq<Item>, m: MetadataView)
    requires
        all_supported(items),
    ensures
        all_supported(written(items, m)),
{
    let s1 = put(items, ItemKey::TrackTitle, m.title);
    lemma_put_stays_supported(items, ItemKey::TrackTitle, m.title);
    let s2 = put(s1, ItemKey::TrackArtist, m.artist);
    lemma_put_stays_supported(s1, ItemKey::TrackArtist, m.artist);
    let s3 = put(s2, ItemKey::TrackArtistSortOrder, m.artist_sort);
    lemma_put_stays_supported(s2, ItemKey::TrackArtistSortOrder, m.artist_sort);
    let s4 = put(s3, ItemKey::AlbumTitle, m.album);
    lemma_put_stays_supported(s3, ItemKey::AlbumTitle, m.album);
    let s5 = put(s4, ItemKey::AlbumArtist, m.album_artist);
    lemma_put_stays_supported(s4, ItemKey::AlbumArtist, m.album_artist);
    let s6 = put(s5, ItemKey::AlbumArtistSortOrder, m.album_artist_sort);
    lemma_put_stays_supported(s5, ItemKey::AlbumArtistSortOrder, m.album_artist_sort);
    let s7 = put(s6, ItemKey::TrackNumber, number_text(m.track));
    lemma_put_stays_supported(s6, ItemKey::TrackNumber, number_text(m.track));
    let s8 = put(s7, ItemKey::TrackTotal, number_text(m.total_tracks));
    lemma_put_stays_supported(s7, ItemKey::TrackTotal, number_text(m.total_tracks));
    let s9 = put(s8, ItemKey::DiscNumber, number_text(m.disc));
    lemma_put_stays_supported(s8, ItemKey::DiscNumber, number_text(m.disc));
    let s10 = put(s9, ItemKey::DiscTotal, number_text(m.total_discs));
    lemma_put_stays_supported(s9, ItemKey::DiscTotal, number_text(m.total_discs));
    let s11 = put(s10, ItemKey::OriginalReleaseDate, m.original_date);
    lemma_put_stays_supported(s10, ItemKey::OriginalReleaseDate, m.original_date);
    let s12 = put(s11, ItemKey::RecordingDate, m.date);
    lemma_put_stays_supported(s11, ItemKey::RecordingDate, m.date);
    let s13 = put(s12, ItemKey::Year, m.year);
    lemma_put_stays_supported(s12, ItemKey::Year, m.year);
    let s14 = put(s13, ItemKey::Label, m.label);
    lemma_put_stays_supported(s13, ItemKey::Label, m.label);
    let s15 = put(s14, ItemKey::OriginalMediaType, m.media);
    lemma_put_stays_supported(s14, ItemKey::OriginalMediaType, m.media);
    let s16 = put(s15, ItemKey::Script, m.script);
    lemma_put_stays_supported(s15, ItemKey::Script, m.script);
    let s17 = put(s16, ItemKey::MusicBrainzArtistId, m.musicbrainz_artist_id);
    lemma_put_stays_supported(s16, ItemKey::MusicBrainzArtistId, m.musicbrainz_artist_id);
    let s18 = put(s17, ItemKey::MusicBrainzTrackId, m.musicbrainz_track_id);
    lemma_put_stays_supported(s17, ItemKey::MusicBrainzTrackId, m.musicbrainz_track_id);
    let s19 = put(s18, ItemKey::MusicBrainzReleaseId, m.musicbrainz_release_id);
    lemma_put_stays_supported(s18, ItemKey::MusicBrainzReleaseId, m.musicbrainz_release_id);
    let s20 = put(s19, ItemKey::MusicBrainzReleaseArtistId, m.musicbrainz_release_artist_id);
    lemma_put_stays_supported(
        s19,
        ItemKey::MusicBrainzReleaseArtistId,
        m.musicbrainz_release_artist_id,
    );
    let s21 = put(s20, ItemKey::MusicBrainzReleaseGroupId, m.musicbrainz_release_group_id);
    lemma_put_stays_supported(
        s20,
        ItemKey::MusicBrainzReleaseGroupId,
        m.musicbrainz_release_group_id,
    );
    lemma_put_stays_supported(s21, ItemKey::MusicBrainzRecordingId, m.musicbrainz_recording_id);
}

/// The text of a key, as a string of its own.
fn get(tag: &Tag, key: ItemKey) -> (r: Option<String>)
    ensures
        text(r) == text_of(tag_items(*tag), key),
{
    match tag.get_string(&key) {
        Some(t) => Some(t.to_owned()),
        None => None,
    }
}

/// The number of a key, where its text reads as one.
fn try_get(tag: &Tag, key: ItemKey) -> (r: Option<u32>)
    ensures
        r == number_of(tag_items(*tag), key),
{
    match tag.get_string(&key) {
        Some(t) => parse_u32(t),
        None => None,
    }
}

/// Sets a key where there is a value to set it to and the tag takes it.
fn insert(tag: &mut Tag, key: ItemKey, value: Option<String>)
    ensures
        tag_items(*final(tag)) == put(tag_items(*old(tag)), key, taken(*old(tag), key, text(value))),
        same_format(*final(tag), *old(tag)),
{
    match value {
        Some(v) => {
            let _ = tag.insert_text(key, v);
        },
        None => {},
    }
}

/// Sets a key to a number where there is one and the tag takes it.
fn insert_to_str(tag: &mut Tag, key: ItemKey, value: Option<u32>)
    ensures
        tag_items(*final(tag)) == put(
            tag_items(*old(tag)),
            key,
            taken(*old(tag), key, number_text(value)),
        ),
        same_format(*final(tag), *old(tag)),
{
    match value {
        Some(n) => {
            let _ = tag.insert_text(key, u32_to_string(n));
        },
        None => {},
    }
}

impl Metadata {
    /// Reads the metadata that a tag holds: for each field the text of the
    /// first item with its key, and for a number that text read as a number.
    /// A field without such an item, or whose text is no number, is not set.
    pub fn from_tag(tag: &Tag) -> (r: Metadata)
        ensures
            r@ == metadata_of(tag_items(*tag)),
    {
        Metadata {
            title: get(tag, ItemKey::TrackTitle),
            artist: get(tag, ItemKey::TrackArtist),
            artist_sort: get(tag, ItemKey::TrackArtistSortOrder),
            album: get(tag, ItemKey::AlbumTitle),
            album_artist: get(tag, ItemKey::AlbumArtist),
            album_artist_sort: get(tag, ItemKey::AlbumArtistSortOrder),
            track: try_get(tag, ItemKey::TrackNumber),
            total_tracks: try_get(tag, ItemKey::TrackTotal),
            disc: try_get(tag, ItemKey::DiscNumber),
            total_discs: try_get(tag, ItemKey::DiscTotal),
            original_date: get(tag, ItemKey::OriginalReleaseDate),
            date: get(tag, ItemKey::RecordingDate),
            year: get(tag, ItemKey::Year),
            label: get(tag, ItemKey::Label),
            media: get(tag, ItemKey::OriginalMediaType),
            script: get(tag, ItemKey::Script),
            musicbrainz_track_id: get(tag, ItemKey::MusicBrainzTrackId),
            musicbrainz_recording_id: get(tag, ItemKey::MusicBrainzRecordingId),
            musicbrainz_artist_id: get(tag, ItemKey::MusicBrainzArtistId),
            musicbrainz_release_id: get(tag, ItemKey::MusicBrainzReleaseId),
            musicbrainz_release_artist_id: get(tag, ItemKey::MusicBrainzReleaseArtistId),
            musicbrainz_release_group_id: get(tag, ItemKey::MusicBrainzReleaseGroupId),
        }
    }
}

/// Writes the names of track and album.
fn write_names(tag: &mut Tag, metadata: &Metadata)
    ensures
        tag_items(*final(tag)) == written_names(
            tag_items(*old(tag)),
            taken_metadata(*old(tag), metadata@),
        ),
        same_format(*final(tag), *old(tag)),
{
    insert(tag, ItemKey::TrackTitle, copy_text(&metadata.title));
    insert(tag, ItemKey::TrackArtist, copy_text(&metadata.artist));
    insert(tag, ItemKey::TrackArtistSortOrder, copy_text(&metadata.artist_sort));
    insert(tag, ItemKey::AlbumTitle, copy_text(&metadata.album));
    insert(tag, ItemKey::AlbumArtist, copy_text(&metadata.album_artist));
    insert(tag, ItemKey::AlbumArtistSortOrder, copy_text(&metadata.album_artist_sort));
}

/// Writes the numbers of track and disc.
fn write_numbers(tag: &mut Tag, metadata: &Metadata)
    ensures
        tag_items(*final(tag)) == written_numbers(
            tag_items(*old(tag)),
            taken_metadata(*old(tag), metadata@),
        ),
        same_format(*final(tag), *old(tag)),
{
    insert_to_str(tag, ItemKey::TrackNumber, metadata.track);
    insert_to_str(tag, ItemKey::TrackTotal, metadata.total_tracks);
    insert_to_str(tag, ItemKey::DiscNumber, metadata.disc);
    insert_to_str(tag, ItemKey::DiscTotal, metadata.total_discs);
}

/// Writes the dates and what else describes the release.
fn write_release(tag: &mut Tag, metadata: &Metadata)
    ensures
        tag_items(*final(tag)) == written_release(
            tag_items(*old(tag)),
            taken_metadata(*old(tag), metadata@),
        ),
        same_format(*final(tag), *old(tag)),
{
    insert(tag, ItemKey::OriginalReleaseDate, copy_text(&metadata.original_date));
    insert(tag, ItemKey::RecordingDate, copy_text(&metadata.date));
    insert(tag, ItemKey::Year, copy_text(&metadata.year));
    insert(tag, ItemKey::Label, copy_text(&metadata.label));
    insert(tag, ItemKey::OriginalMediaType, copy_text(&metadata.media));
    insert(tag, ItemKey::Script, copy_text(&metadata.script));
}

/// Writes the ids of the catalog.
fn write_ids(tag: &mut Tag, metadata: &Metadata)
    ensures
        tag_items(*final(tag)) == written_ids(
            tag_items(*old(tag)),
            taken_metadata(*old(tag), metadata@),
        ),
        same_format(*final(tag), *old(tag)),
{
    insert(tag, ItemKey::MusicBrainzArtistId, copy_text(&metadata.musicbrainz_artist_id));
    insert(tag, ItemKey::MusicBrainzTrackId, copy_text(&metadata.musicbrainz_track_id));
    insert(tag, ItemKey::MusicBrainzReleaseId, copy_text(&metadata.musicbrainz_release_id));
    insert(
        tag,
        ItemKey::MusicBrainzReleaseArtistId,
        copy_text(&metadata.musicbrainz_release_artist_id),
    );
    insert(
        tag,
        ItemKey::MusicBrainzReleaseGroupId,
        copy_text(&metadata.musicbrainz_release_group_id),
    );
    insert(tag, ItemKey::MusicBrainzRecordingId, copy_text(&metadata.musicbrainz_recording_id));
}

/// The fields that a tag takes depend on its format alone.
pub proof fn lemma_taken_alike(a: Tag, b: Tag, m: MetadataView)
    requires
        same_format(a, b),
    ensures
        taken_metadata(a, m) == taken_metadata(b, m),
{
}

/// Writes metadata into a tag: every field that the metadata has and that
/// the format of the tag has a place for is set, numbers in decimal, and
/// every other item of the tag stays.
pub fn write_metadata(tag: &mut Tag, metadata: Metadata)
    ensures
        tag_items(*final(tag)) == written(
            tag_items(*old(tag)),
            taken_metadata(*old(tag), metadata@),
        ),
        same_format(*final(tag), *old(tag)),
{
    write_names(tag, &metadata);
    proof {
        lemma_taken_alike(*tag, *old(tag), metadata@);
    }
    write_numbers(tag, &metadata);
    proof {
        lemma_taken_alike(*tag, *old(tag), metadata@);
    }
    write_release(tag, &metadata);
    proof {
        lemma_taken_alike(*tag, *old(tag), metadata@);
    }
    write_ids(tag, &metadata);
}

} // verus!
