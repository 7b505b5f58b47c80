use tagbrain::api::musicbrainz::recording::{
    RecordingRes, RecordingResRelease, RecordingResReleaseGroup,
};
use tagbrain::api::musicbrainz::release::{
    ReleaseRes, ReleaseResLabelInfo, ReleaseResLabelInfoLabel, ReleaseResMedia,
    ReleaseResMediaTrack, ReleaseResMediaTrackRecording, ReleaseResReleaseGroup,
    ReleaseResTextRepresentation,
};
use tagbrain::api::musicbrainz::{ArtistCredit, ArtistCreditArtist, ArtistCreditVecToString};
use tagbrain::error::ScanError;
use lofty::tag::{ItemKey, ItemValue, Tag, TagItem, TagType};
use tagbrain::interface::metadata::{write_metadata, Metadata};
use tagbrain::interface::tag::{drop_unsupported, is_supported};
use tagbrain::job::utils::{find_media, find_track, format_to_metadata, response_to_metadata};

fn credit(id: &str, name: &str, sort_name: &str, joinphrase: &str) -> ArtistCredit {
    ArtistCredit {
        artist: ArtistCreditArtist {
            id: id.to_string(),
            sort_name: sort_name.to_string(),
            name: name.to_string(),
        },
        joinphrase: joinphrase.to_string(),
    }
}

fn track(id: &str, position: u32, recording: &str) -> ReleaseResMediaTrack {
    ReleaseResMediaTrack {
        number: position.to_string(),
        title: format!("track {}", position),
        id: id.to_string(),
        position,
        recording: ReleaseResMediaTrackRecording { id: recording.to_string() },
    }
}

fn medium(position: u32, format: Option<&str>, tracks: Vec<ReleaseResMediaTrack>) -> ReleaseResMedia {
    ReleaseResMedia {
        position,
        format: format.map(|f| f.to_string()),
        track_count: tracks.len() as u32 + 10,
        tracks,
    }
}

fn the_recording() -> RecordingRes {
    RecordingRes {
        title: "Under Pressure".to_string(),
        id: "rec-1".to_string(),
        releases: Vec::new(),
        artist_credit: Some(vec![
            credit("artist-q", "Queen", "Queen", " & "),
            credit("artist-b", "David Bowie", "Bowie, David", ""),
        ]),
        first_release_date: Some("1981-10-26".to_string()),
    }
}

fn the_release() -> ReleaseRes {
    ReleaseRes {
        id: "rel-1".to_string(),
        label_info: Some(vec![
            ReleaseResLabelInfo {
                label: Some(ReleaseResLabelInfoLabel {
                    name: "EMI".to_string(),
                    id: "label-1".to_string(),
                }),
            },
            ReleaseResLabelInfo { label: None },
        ]),
        artist_credit: Some(vec![credit("artist-q", "Queen", "Queen", "")]),
        media: vec![
            medium(1, Some("CD"), vec![track("t-1", 1, "rec-0"), track("t-2", 2, "rec-9")]),
            medium(
                2,
                Some("Vinyl"),
                vec![track("t-3", 1, "rec-0"), track("t-4", 2, "rec-1"), track("t-5", 3, "rec-1")],
            ),
            medium(3, None, vec![track("t-6", 1, "rec-1")]),
        ],
        title: "Hot Space".to_string(),
        text_representation: Some(ReleaseResTextRepresentation {
            script: Some("Latn".to_string()),
            language: Some("eng".to_string()),
        }),
        date: Some("1982-05-21".to_string()),
        disambiguation: Some("remaster".to_string()),
        release_group: ReleaseResReleaseGroup {
            id: "rg-1".to_string(),
            title: "Hot Space".to_string(),
            primary_type: Some("Album".to_string()),
            first_release_date: Some("1982-05-21".to_string()),
        },
    }
}

fn listed_release() -> RecordingResRelease {
    RecordingResRelease {
        id: "listed-rel".to_string(),
        country: Some("GB".to_string()),
        release_group: RecordingResReleaseGroup {
            id: "listed-rg".to_string(),
            title: "Hot Space".to_string(),
            primary_type: Some("Album".to_string()),
            first_release_date: Some("1982-05-03".to_string()),
        },
    }
}

fn text(s: &str) -> Option<String> {
    Some(s.to_string())
}

#[test]
fn credits_are_joined_by_their_join_phrases() {
    let credits = vec![
        credit("1", "Queen", "Queen", " & "),
        credit("2", "David Bowie", "Bowie, David", " feat. "),
        credit("3", "Someone", "One, Some", ""),
    ];
    assert_eq!(credits.to_string(), "Queen & David Bowie feat. Someone");
    assert_eq!(credits.to_sort_string(), "Queen & Bowie, David feat. One, Some");
    let none: Vec<ArtistCredit> = Vec::new();
    assert_eq!(none.to_string(), "");
    assert_eq!(none.to_sort_string(), "");
    let trailing = vec![credit("1", "A", "a", ", ")];
    assert_eq!(trailing.to_string(), "A, ");
}

#[test]
fn response_is_turned_into_metadata() {
    let metadata = response_to_metadata(the_recording(), the_release()).unwrap();
    assert_eq!(metadata.title, text("Under Pressure"));
    assert_eq!(metadata.artist, text("Queen & David Bowie"));
    assert_eq!(metadata.artist_sort, text("Queen & Bowie, David"));
    assert_eq!(metadata.album, text("Hot Space"));
    assert_eq!(metadata.album_artist, text("Queen"));
    assert_eq!(metadata.album_artist_sort, text("Queen"));
    assert_eq!(metadata.track, Some(2));
    assert_eq!(metadata.total_tracks, Some(13));
    assert_eq!(metadata.disc, Some(2));
    assert_eq!(metadata.total_discs, Some(3));
    assert_eq!(metadata.original_date, text("1982-05-21"));
    assert_eq!(metadata.date, text("1982-05-21"));
    assert_eq!(metadata.year, text("1982"));
    assert_eq!(metadata.label, text("EMI"));
    assert_eq!(metadata.media, text("Vinyl"));
    assert_eq!(metadata.script, text("Latn"));
    assert_eq!(metadata.musicbrainz_track_id, text("t-4"));
    assert_eq!(metadata.musicbrainz_recording_id, text("rec-1"));
    assert_eq!(metadata.musicbrainz_artist_id, text("artist-q"));
    assert_eq!(metadata.musicbrainz_release_id, text("rel-1"));
    assert_eq!(metadata.musicbrainz_release_artist_id, text("artist-q"));
    assert_eq!(metadata.musicbrainz_release_group_id, text("rg-1"));
}

#[test]
fn formatted_metadata_takes_ids_from_the_listed_release() {
    let metadata = format_to_metadata(the_recording(), listed_release(), the_release()).unwrap();
    assert_eq!(metadata.title, text("Under Pressure"));
    assert_eq!(metadata.album, text("Hot Space (remaster)"));
    assert_eq!(metadata.original_date, text("1982-05-03"));
    assert_eq!(metadata.date, text("1982-05-21"));
    assert_eq!(metadata.year, text("1982"));
    assert_eq!(metadata.musicbrainz_release_id, text("listed-rel"));
    assert_eq!(metadata.musicbrainz_release_group_id, text("listed-rg"));
    assert_eq!(metadata.track, Some(2));
    assert_eq!(metadata.disc, Some(2));
    assert_eq!(metadata.total_discs, Some(3));
    assert_eq!(metadata.total_tracks, Some(13));
    assert_eq!(metadata.musicbrainz_track_id, text("t-4"));
    assert_eq!(metadata.media, text("Vinyl"));
}

#[test]
fn an_empty_disambiguation_is_not_shown() {
    let mut release = the_release();
    release.disambiguation = Some(String::new());
    let metadata = format_to_metadata(the_recording(), listed_release(), release).unwrap();
    assert_eq!(metadata.album, text("Hot Space"));
    let mut release = the_release();
    release.disambiguation = None;
    let metadata = format_to_metadata(the_recording(), listed_release(), release).unwrap();
    assert_eq!(metadata.album, text("Hot Space"));
}

#[test]
fn a_release_without_the_recording_is_inconsistent() {
    let mut recording = the_recording();
    recording.id = "rec-unknown".to_string();
    assert_eq!(
        response_to_metadata(recording, the_release()).err(),
        Some(ScanError::InconsistentCatalogData)
    );
    let mut release = the_release();
    release.media.clear();
    assert_eq!(
        response_to_metadata(the_recording(), release).err(),
        Some(ScanError::InconsistentCatalogData)
    );
    let mut release = the_release();
    release.media = vec![medium(1, None, Vec::new())];
    assert_eq!(
        format_to_metadata(the_recording(), listed_release(), release).err(),
        Some(ScanError::InconsistentCatalogData)
    );
}

#[test]
fn missing_parts_of_the_response_leave_fields_unset() {
    let mut recording = the_recording();
    recording.artist_credit = None;
    let mut release = the_release();
    release.artist_credit = Some(Vec::new());
    release.label_info = Some(vec![ReleaseResLabelInfo { label: None }]);
    release.text_representation = None;
    release.date = None;
    release.release_group.first_release_date = None;
    release.media = vec![medium(1, None, vec![track("t", 5, "rec-1")])];
    let metadata = response_to_metadata(recording, release).unwrap();
    assert_eq!(metadata.artist, None);
    assert_eq!(metadata.artist_sort, None);
    assert_eq!(metadata.musicbrainz_artist_id, None);
    assert_eq!(metadata.album_artist, text(""));
    assert_eq!(metadata.album_artist_sort, text(""));
    assert_eq!(metadata.musicbrainz_release_artist_id, None);
    assert_eq!(metadata.label, None);
    assert_eq!(metadata.script, None);
    assert_eq!(metadata.date, None);
    assert_eq!(metadata.year, None);
    assert_eq!(metadata.original_date, None);
    assert_eq!(metadata.media, None);
    assert_eq!(metadata.track, Some(5));
    assert_eq!(metadata.total_discs, Some(1));

    let mut release = the_release();
    release.label_info = None;
    release.text_representation =
        Some(ReleaseResTextRepresentation { script: None, language: None });
    let metadata = response_to_metadata(the_recording(), release).unwrap();
    assert_eq!(metadata.label, None);
    assert_eq!(metadata.script, None);
    let mut release = the_release();
    release.label_info = Some(Vec::new());
    assert_eq!(response_to_metadata(the_recording(), release).unwrap().label, None);
}

#[test]
fn the_first_medium_and_track_with_the_recording_are_found() {
    let release = the_release();
    assert_eq!(find_media(&release.media, &"rec-1".to_string()), Some((1, 1)));
    assert_eq!(find_media(&release.media, &"rec-0".to_string()), Some((0, 0)));
    assert_eq!(find_media(&release.media, &"rec-9".to_string()), Some((0, 1)));
    assert_eq!(find_media(&release.media, &"nothing".to_string()), None);
    assert_eq!(find_media(&Vec::new(), &"rec-1".to_string()), None);
    assert_eq!(find_track(&release.media[1].tracks, &"rec-1".to_string()), Some(1));
    assert_eq!(find_track(&release.media[2].tracks, &"rec-1".to_string()), Some(0));
    assert_eq!(find_track(&release.media[0].tracks, &"rec-1".to_string()), None);
    assert_eq!(find_track(&Vec::new(), &"rec-1".to_string()), None);
}

fn item(key: ItemKey, value: &str) -> TagItem {
    TagItem::new(key, ItemValue::Text(value.to_string()))
}

fn unknown(name: &str) -> ItemKey {
    ItemKey::Unknown(name.to_string())
}

fn keys(tag: &Tag) -> Vec<ItemKey> {
    tag.items().map(|i| i.key().clone()).collect()
}

const FIELDS: [ItemKey; 22] = [
    ItemKey::TrackTitle,
    ItemKey::TrackArtist,
    ItemKey::TrackArtistSortOrder,
    ItemKey::AlbumTitle,
    ItemKey::AlbumArtist,
    ItemKey::AlbumArtistSortOrder,
    ItemKey::TrackNumber,
    ItemKey::TrackTotal,
    ItemKey::DiscNumber,
    ItemKey::DiscTotal,
    ItemKey::OriginalReleaseDate,
    ItemKey::RecordingDate,
    ItemKey::Year,
    ItemKey::Label,
    ItemKey::OriginalMediaType,
    ItemKey::Script,
    ItemKey::MusicBrainzArtistId,
    ItemKey::MusicBrainzTrackId,
    ItemKey::MusicBrainzReleaseId,
    ItemKey::MusicBrainzReleaseArtistId,
    ItemKey::MusicBrainzReleaseGroupId,
    ItemKey::MusicBrainzRecordingId,
];

#[test]
fn an_unknown_asin_key_is_dropped_on_read() {
    let mut tag = Tag::new(TagType::VorbisComments);
    tag.push_unchecked(item(ItemKey::TrackTitle, "Song"));
    tag.push_unchecked(item(unknown("ASIN"), "B000002UAL"));
    tag.push_unchecked(item(unknown("BARCODE"), "123"));
    tag.push_unchecked(item(ItemKey::AlbumTitle, "Album"));
    tag.push_unchecked(TagItem::new(unknown("ASIN"), ItemValue::Binary(vec![1, 2, 3])));
    drop_unsupported(&mut tag);
    assert_eq!(keys(&tag), vec![ItemKey::TrackTitle, unknown("BARCODE"), ItemKey::AlbumTitle]);
    assert!(tag.get_string(&unknown("ASIN")).is_none());
    assert_eq!(tag.get_string(&unknown("BARCODE")), Some("123"));

    let metadata = Metadata {
        title: text("New"),
        track: Some(3),
        musicbrainz_recording_id: text("rec"),
        ..Metadata::default()
    };
    write_metadata(&mut tag, metadata);
    assert!(tag.items().all(|i| is_supported(i.key())));
    assert!(keys(&tag).iter().all(|k| k != &unknown("ASIN")));
    assert_eq!(
        keys(&tag),
        vec![
            unknown("BARCODE"),
            ItemKey::AlbumTitle,
            ItemKey::TrackTitle,
            ItemKey::TrackNumber,
            ItemKey::MusicBrainzRecordingId,
        ]
    );
    assert_eq!(tag.get_string(&ItemKey::TrackTitle), Some("New"));
    assert_eq!(tag.get_string(&ItemKey::TrackNumber), Some("3"));
}

#[test]
fn keys_are_supported_unless_they_are_the_unknown_asin() {
    assert!(!is_supported(&unknown("ASIN")));
    assert!(is_supported(&unknown("asin")));
    assert!(is_supported(&unknown("ASIN2")));
    assert!(is_supported(&unknown("")));
    for key in FIELDS {
        assert!(is_supported(&key));
    }
    assert!(is_supported(&ItemKey::Genre));
}

#[test]
fn dropping_keeps_the_order_of_what_stays() {
    let mut tag = Tag::new(TagType::Id3v2);
    drop_unsupported(&mut tag);
    assert_eq!(tag.item_count(), 0);
    tag.push_unchecked(item(unknown("ASIN"), "x"));
    drop_unsupported(&mut tag);
    assert_eq!(tag.item_count(), 0);
    tag.push_unchecked(item(ItemKey::Year, "1990"));
    tag.push_unchecked(item(ItemKey::Genre, "Rock"));
    tag.push_unchecked(item(ItemKey::Year, "1991"));
    drop_unsupported(&mut tag);
    assert_eq!(keys(&tag), vec![ItemKey::Year, ItemKey::Genre, ItemKey::Year]);
    assert_eq!(tag.get_string(&ItemKey::Year), Some("1990"));
}

#[test]
fn metadata_is_read_from_the_first_item_of_each_key() {
    let mut tag = Tag::new(TagType::VorbisComments);
    tag.push_unchecked(item(ItemKey::TrackTitle, "first"));
    tag.push_unchecked(item(ItemKey::TrackTitle, "second"));
    tag.push_unchecked(TagItem::new(ItemKey::AlbumTitle, ItemValue::Binary(vec![0])));
    tag.push_unchecked(item(ItemKey::AlbumTitle, "text after binary"));
    tag.push_unchecked(TagItem::new(ItemKey::Label, ItemValue::Locator("http://x".to_string())));
    tag.push_unchecked(item(ItemKey::TrackNumber, "7"));
    tag.push_unchecked(item(ItemKey::TrackTotal, "7/12"));
    tag.push_unchecked(item(ItemKey::DiscNumber, "+2"));
    tag.push_unchecked(item(ItemKey::DiscTotal, "4294967296"));
    tag.push_unchecked(item(ItemKey::RecordingDate, "1999-01-02"));
    tag.push_unchecked(item(ItemKey::OriginalReleaseDate, "1998"));
    tag.push_unchecked(item(unknown("TrackArtist"), "not the artist"));
    tag.push_unchecked(item(ItemKey::Genre, "not read"));
    let metadata = Metadata::from_tag(&tag);
    assert_eq!(metadata.title, text("first"));
    assert_eq!(metadata.album, None);
    assert_eq!(metadata.label, None);
    assert_eq!(metadata.artist, None);
    assert_eq!(metadata.track, Some(7));
    assert_eq!(metadata.total_tracks, None);
    assert_eq!(metadata.disc, Some(2));
    assert_eq!(metadata.total_discs, None);
    assert_eq!(metadata.date, text("1999-01-02"));
    assert_eq!(metadata.original_date, text("1998"));
    assert_eq!(metadata.year, None);
    assert_eq!(tag.item_count(), 13);
}

#[test]
fn an_empty_tag_holds_no_metadata() {
    let metadata = Metadata::from_tag(&Tag::new(TagType::Id3v2));
    assert_eq!(format!("{:?}", metadata), format!("{:?}", Metadata::default()));
    assert_eq!(metadata.title, None);
    assert_eq!(metadata.track, None);
}

fn full_metadata() -> Metadata {
    Metadata {
        title: text("title"),
        artist: text("artist"),
        artist_sort: text("artist_sort"),
        album: text("album"),
        album_artist: text("album_artist"),
        album_artist_sort: text("album_artist_sort"),
        track: Some(1),
        total_tracks: Some(12),
        disc: Some(2),
        total_discs: Some(u32::MAX),
        original_date: text("original_date"),
        date: text("date"),
        year: text("year"),
        label: text("label"),
        media: text("media"),
        script: text("script"),
        musicbrainz_track_id: text("musicbrainz_track_id"),
        musicbrainz_recording_id: text("musicbrainz_recording_id"),
        musicbrainz_artist_id: text("musicbrainz_artist_id"),
        musicbrainz_release_id: text("musicbrainz_release_id"),
        musicbrainz_release_artist_id: text("musicbrainz_release_artist_id"),
        musicbrainz_release_group_id: text("musicbrainz_release_group_id"),
    }
}

/// The metadata with the fields left out that a tag of the given type has
/// no place for.
fn taken_by(tag_type: TagType, metadata: Metadata) -> Metadata {
    let probe = |key: ItemKey| {
        Tag::new(tag_type).insert_text(key, String::new())
    };
    let keep = |key: ItemKey, value: Option<String>| if probe(key) { value } else { None };
    let keep_number = |key: ItemKey, value: Option<u32>| if probe(key) { value } else { None };
    Metadata {
        title: keep(ItemKey::TrackTitle, metadata.title),
        artist: keep(ItemKey::TrackArtist, metadata.artist),
        artist_sort: keep(ItemKey::TrackArtistSortOrder, metadata.artist_sort),
        album: keep(ItemKey::AlbumTitle, metadata.album),
        album_artist: keep(ItemKey::AlbumArtist, metadata.album_artist),
        album_artist_sort: keep(ItemKey::AlbumArtistSortOrder, metadata.album_artist_sort),
        track: keep_number(ItemKey::TrackNumber, metadata.track),
        total_tracks: keep_number(ItemKey::TrackTotal, metadata.total_tracks),
        disc: keep_number(ItemKey::DiscNumber, metadata.disc),
        total_discs: keep_number(ItemKey::DiscTotal, metadata.total_discs),
        original_date: keep(ItemKey::OriginalReleaseDate, metadata.original_date),
        date: keep(ItemKey::RecordingDate, metadata.date),
        year: keep(ItemKey::Year, metadata.year),
        label: keep(ItemKey::Label, metadata.label),
        media: keep(ItemKey::OriginalMediaType, metadata.media),
        script: keep(ItemKey::Script, metadata.script),
        musicbrainz_track_id: keep(ItemKey::MusicBrainzTrackId, metadata.musicbrainz_track_id),
        musicbrainz_recording_id: keep(
            ItemKey::MusicBrainzRecordingId,
            metadata.musicbrainz_recording_id,
        ),
        musicbrainz_artist_id: keep(ItemKey::MusicBrainzArtistId, metadata.musicbrainz_artist_id),
        musicbrainz_release_id: keep(
            ItemKey::MusicBrainzReleaseId,
            metadata.musicbrainz_release_id,
        ),
        musicbrainz_release_artist_id: keep(
            ItemKey::MusicBrainzReleaseArtistId,
            metadata.musicbrainz_release_artist_id,
        ),
        musicbrainz_release_group_id: keep(
            ItemKey::MusicBrainzReleaseGroupId,
            metadata.musicbrainz_release_group_id,
        ),
    }
}

#[test]
fn written_metadata_is_read_back() {
    let mut tag = Tag::new(TagType::VorbisComments);
    tag.push_unchecked(item(ItemKey::TrackTitle, "old title"));
    tag.push_unchecked(item(ItemKey::TrackTitle, "older title"));
    tag.push_unchecked(item(unknown("X"), "kept"));
    write_metadata(&mut tag, full_metadata());
    let read = Metadata::from_tag(&tag);
    let expected = taken_by(TagType::VorbisComments, full_metadata());
    assert_eq!(format!("{:?}", read), format!("{:?}", expected));
    assert_eq!(read.title, text("title"));
    assert_eq!(read.total_discs, Some(u32::MAX));
    assert_eq!(tag.get_string(&unknown("X")), Some("kept"));
    assert_eq!(tag.get_string(&ItemKey::TrackNumber), Some("1"));
    assert_eq!(keys(&tag).iter().filter(|k| **k == ItemKey::TrackTitle).count(), 1);
    assert_eq!(keys(&tag)[0], unknown("X"));
}

#[test]
fn a_format_takes_the_fields_that_it_has_a_place_for() {
    for tag_type in [
        TagType::Id3v1,
        TagType::Id3v2,
        TagType::VorbisComments,
        TagType::Mp4Ilst,
        TagType::Ape,
        TagType::RiffInfo,
        TagType::AiffText,
    ] {
        let mut tag = Tag::new(tag_type);
        write_metadata(&mut tag, full_metadata());
        let read = Metadata::from_tag(&tag);
        let expected = taken_by(tag_type, full_metadata());
        assert_eq!(format!("{:?}", read), format!("{:?}", expected), "{:?}", tag_type);
        assert_eq!(read.title, text("title"), "{:?}", tag_type);
    }
    let mut tag = Tag::new(TagType::Id3v1);
    tag.push_unchecked(item(ItemKey::Label, "stays"));
    write_metadata(&mut tag, full_metadata());
    let read = Metadata::from_tag(&tag);
    assert_eq!(read.label, text("stays"));
    assert_eq!(read.album, text("album"));
    assert_eq!(read.script, None);
    assert_eq!(read.musicbrainz_recording_id, None);
}

#[test]
fn fields_that_are_not_written_stay_as_they_were() {
    let mut tag = Tag::new(TagType::VorbisComments);
    write_metadata(&mut tag, full_metadata());
    let before = tag.item_count();
    let update = Metadata { title: text("other"), disc: Some(9), ..Metadata::default() };
    write_metadata(&mut tag, update);
    let read = Metadata::from_tag(&tag);
    let mut expected = taken_by(TagType::VorbisComments, full_metadata());
    expected.title = text("other");
    expected.disc = Some(9);
    assert_eq!(format!("{:?}", read), format!("{:?}", expected));
    assert_eq!(tag.item_count(), before);
    write_metadata(&mut tag, Metadata::default());
    assert_eq!(format!("{:?}", Metadata::from_tag(&tag)), format!("{:?}", expected));
}
