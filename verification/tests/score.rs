use tagbrain::api::musicbrainz::recording::{
    RecordingRes, RecordingResRelease, RecordingResReleaseGroup,
};
use tagbrain::config::{DistanceReleaseSelector, MatchReleaseSelector, ReleaseSelector};
use tagbrain::fraction::{Fraction, MICROS_PER_UNIT};
use lofty::tag::{ItemKey, Tag, TagType};
use tagbrain::job::rank::Score;
use tagbrain::job::score::{
    best_release, calc_score, clamp_below, country_preference_score, distance_score,
    distance_score_at, find_best_release_and_recording, preference_score,
    release_group_type_preference_score, score_parts, similarity, total_score, ScoreParts,
};

fn strings(list: &[&str]) -> Vec<String> {
    list.iter().map(|s| s.to_string()).collect()
}

fn selector(countries: &[&str], types: &[&str]) -> ReleaseSelector {
    ReleaseSelector {
        release_group_type: MatchReleaseSelector { preferred: strings(types), weight: 1_000_000 },
        country: MatchReleaseSelector { preferred: strings(countries), weight: 1_000_000 },
        release_title_distance: DistanceReleaseSelector { threshold: 500_000, weight: 1_000_000 },
        recording_title_distance: DistanceReleaseSelector { threshold: 500_000, weight: 1_000_000 },
    }
}

fn release(id: &str, country: Option<&str>, primary_type: Option<&str>, title: &str) -> RecordingResRelease {
    RecordingResRelease {
        id: id.to_string(),
        country: country.map(|c| c.to_string()),
        release_group: RecordingResReleaseGroup {
            id: format!("group-{}", id),
            title: title.to_string(),
            primary_type: primary_type.map(|t| t.to_string()),
            first_release_date: None,
        },
    }
}

fn recording(id: &str, title: &str, releases: Vec<RecordingResRelease>) -> RecordingRes {
    RecordingRes {
        title: title.to_string(),
        id: id.to_string(),
        releases,
        artist_credit: None,
        first_release_date: None,
    }
}

fn tag_with(album: Option<&str>, title: Option<&str>) -> Tag {
    let mut tag = Tag::new(TagType::VorbisComments);
    if let Some(album) = album {
        tag.insert_text(ItemKey::AlbumTitle, album.to_string());
    }
    if let Some(title) = title {
        tag.insert_text(ItemKey::TrackTitle, title.to_string());
    }
    tag
}

fn parts(f: &Fraction) -> (u64, u64) {
    (f.num(), f.den())
}

fn best_micros(best: Option<(usize, Score)>) -> Option<(usize, u64)> {
    best.map(|(index, score)| (index, score.micros()))
}

fn same(a: &Score, b: &Score) -> bool {
    !a.lt(b) && !b.lt(a)
}

fn as_float(f: &Fraction) -> f64 {
    f.num() as f64 / f.den() as f64
}

#[test]
fn preference_is_one_over_the_place() {
    let preferred = strings(&["US", "JP", "XW", "DE"]);
    assert_eq!(parts(&preference_score(Some(&"US".to_string()), &preferred)), (1, 1));
    assert_eq!(parts(&preference_score(Some(&"JP".to_string()), &preferred)), (1, 2));
    assert_eq!(parts(&preference_score(Some(&"XW".to_string()), &preferred)), (1, 3));
    assert_eq!(parts(&preference_score(Some(&"DE".to_string()), &preferred)), (1, 4));
}

#[test]
fn preference_is_zero_for_absent_values() {
    let preferred = strings(&["US", "JP"]);
    assert!(preference_score(None, &preferred).is_zero());
    assert!(preference_score(Some(&"FR".to_string()), &preferred).is_zero());
    assert!(preference_score(Some(&"us".to_string()), &preferred).is_zero());
    assert!(preference_score(Some(&"US".to_string()), &Vec::new()).is_zero());
    assert!(preference_score(None, &Vec::new()).is_zero());
}

#[test]
fn preference_decreases_along_the_list() {
    let preferred: Vec<String> = (0..50).map(|i| format!("C{}", i)).collect();
    let scores: Vec<Fraction> =
        preferred.iter().map(|value| preference_score(Some(value), &preferred)).collect();
    for i in 0..scores.len() {
        for j in (i + 1)..scores.len() {
            assert!(scores[j].lt(&scores[i]));
            assert!(!scores[i].lt(&scores[j]));
        }
    }
    let absent = preference_score(Some(&"none".to_string()), &preferred);
    assert!(absent.lt(scores.last().unwrap()));
}

#[test]
fn a_repeated_entry_counts_at_its_first_place() {
    let preferred = strings(&["US", "JP", "US"]);
    assert_eq!(parts(&preference_score(Some(&"US".to_string()), &preferred)), (1, 1));
}

#[test]
fn country_is_compared_in_upper_case() {
    let preferred = strings(&["US", "JP"]);
    assert_eq!(parts(&country_preference_score(&Some("jp".to_string()), &preferred)), (1, 2));
    assert_eq!(parts(&country_preference_score(&Some("Us".to_string()), &preferred)), (1, 1));
    assert!(country_preference_score(&None, &preferred).is_zero());
    // The entries of the list are taken in upper case too.
    let lower = strings(&["de", "us"]);
    assert_eq!(parts(&country_preference_score(&Some("us".to_string()), &lower)), (1, 2));
    assert_eq!(parts(&country_preference_score(&Some("US".to_string()), &lower)), (1, 2));
    assert_eq!(parts(&country_preference_score(&Some("De".to_string()), &lower)), (1, 1));
    assert!(country_preference_score(&Some("FR".to_string()), &lower).is_zero());
}

#[test]
fn release_group_type_is_compared_in_lower_case() {
    let preferred = strings(&["album", "ep", "single"]);
    assert_eq!(
        parts(&release_group_type_preference_score(&Some("Album".to_string()), &preferred)),
        (1, 1)
    );
    assert_eq!(
        parts(&release_group_type_preference_score(&Some("EP".to_string()), &preferred)),
        (1, 2)
    );
    assert!(release_group_type_preference_score(&Some("Live".to_string()), &preferred).is_zero());
    // The entries of the list are taken in lower case too.
    let upper = strings(&["Album"]);
    assert_eq!(
        parts(&release_group_type_preference_score(&Some("Album".to_string()), &upper)),
        (1, 1)
    );
    let mixed = strings(&["ALBUM", "Ep"]);
    assert_eq!(
        parts(&release_group_type_preference_score(&Some("album".to_string()), &mixed)),
        (1, 1)
    );
    assert_eq!(
        parts(&release_group_type_preference_score(&Some("EP".to_string()), &mixed)),
        (1, 2)
    );
    assert!(release_group_type_preference_score(&Some("Single".to_string()), &mixed).is_zero());
}

#[test]
fn a_type_written_with_a_capital_in_the_list_is_met() {
    let mut selector = selector(&[], &["Album"]);
    selector.country.weight = 0;
    selector.release_title_distance.weight = 0;
    selector.recording_title_distance.weight = 0;
    let tag = tag_with(None, None);
    let rel = release("a", None, Some("Album"), "x");
    let rec = recording("r", "y", vec![rel.clone()]);
    assert_eq!(calc_score(&rel, &rec, &tag, &selector).micros(), 1_000_000);
}

#[test]
fn a_country_written_in_lower_case_in_the_list_is_met() {
    let mut selector = selector(&["jp", "us"], &[]);
    selector.release_title_distance.weight = 0;
    selector.recording_title_distance.weight = 0;
    let tag = tag_with(None, None);
    let rel = release("a", Some("US"), None, "x");
    let rec = recording("r", "y", vec![rel.clone()]);
    assert_eq!(calc_score(&rel, &rec, &tag, &selector).micros(), 500_000);
}

#[test]
fn similarity_is_one_minus_distance_over_longest() {
    assert_eq!(parts(&similarity(6, 7, 3)), (4, 7));
    assert_eq!(parts(&similarity(7, 6, 3)), (4, 7));
    assert_eq!(parts(&similarity(0, 0, 0)), (1, 1));
    assert_eq!(parts(&similarity(0, 6, 6)), (0, 6));
    assert_eq!(parts(&similarity(5, 0, 5)), (0, 5));
    assert_eq!(parts(&similarity(6, 6, 0)), (6, 6));
    // A distance beyond the longer string counts as no similarity at all.
    assert_eq!(parts(&similarity(3, 4, 9)), (0, 4));
}

#[test]
fn distance_score_is_zero_strictly_below_the_threshold() {
    // 4 / 7 = 0.571428...
    assert!(distance_score_at(6, 7, 3, 571_429).is_zero());
    assert!(distance_score_at(6, 7, 3, 600_000).is_zero());
    assert!(distance_score_at(6, 7, 3, 1_000_000).is_zero());
    assert_eq!(parts(&distance_score_at(6, 7, 3, 571_428)), (4, 7));
    assert_eq!(parts(&distance_score_at(6, 7, 3, 0)), (4, 7));
}

#[test]
fn a_similarity_at_the_threshold_is_kept() {
    // 1 / 2 against a threshold of one half.
    assert_eq!(parts(&distance_score_at(4, 2, 2, 500_000)), (2, 4));
    assert!(distance_score_at(4, 2, 2, 500_001).is_zero());
    assert_eq!(parts(&distance_score_at(4, 2, 2, 499_999)), (2, 4));
    // 1 / 1 against a threshold of one.
    assert_eq!(parts(&distance_score_at(3, 3, 0, 1_000_000)), (3, 3));
    // 0 against a threshold of zero.
    assert_eq!(parts(&distance_score_at(3, 3, 3, 0)), (0, 3));
    let half = Fraction::new(1, 2).unwrap();
    assert_eq!(parts(&clamp_below(half, 500_000)), (1, 2));
    assert!(clamp_below(half, 500_001).is_zero());
}

#[test]
fn distance_score_uses_the_edit_distance() {
    let score = distance_score(Some("kitten"), "sitting", 0);
    assert_eq!(parts(&score), (4, 7));
    let same = distance_score(Some("string"), "string", 0);
    assert_eq!(parts(&same), (6, 6));
    let none = distance_score(Some(""), "second", 0);
    assert_eq!(parts(&none), (0, 6));
    let both_empty = distance_score(Some(""), "", 1_000_000);
    assert_eq!(parts(&both_empty), (1, 1));
    assert!(distance_score(None, "anything", 0).is_zero());
}

#[test]
fn distance_score_counts_characters_not_bytes() {
    let score = distance_score(Some("日本語"), "日本", 0);
    assert_eq!(parts(&score), (2, 3));
}

#[test]
fn distance_score_agrees_with_the_normalized_distance() {
    let pairs = [
        ("kitten", "sitting"),
        ("", ""),
        ("", "second"),
        ("first", ""),
        ("string", "string"),
        ("Abbey Road", "Abbey Road (Remastered)"),
        ("héllo", "hello"),
    ];
    for (a, b) in pairs {
        let score = distance_score(Some(a), b, 0);
        let expected = strsim::normalized_levenshtein(a, b);
        assert!((as_float(&score) - expected).abs() < 1e-12, "{:?} {:?}", a, b);
    }
}

#[test]
fn total_is_the_weighted_sum_in_millionths() {
    let mut selector = selector(&[], &[]);
    selector.country.weight = 1_000_000;
    selector.release_group_type.weight = 2_000_000;
    selector.release_title_distance.weight = 500_000;
    selector.recording_title_distance.weight = 3;
    let parts = ScoreParts {
        country: Fraction::new(1, 2).unwrap(),
        release_group_type: Fraction::new(1, 3).unwrap(),
        release_title: Fraction::new(4, 7).unwrap(),
        recording_title: Fraction::new(2, 3).unwrap(),
    };
    // 500_000 + 666_666 + 285_714 + 2
    assert_eq!(total_score(&parts, &selector).micros(), 1_452_382);
    let zero = ScoreParts {
        country: Fraction::zero(),
        release_group_type: Fraction::zero(),
        release_title: Fraction::zero(),
        recording_title: Fraction::zero(),
    };
    assert_eq!(total_score(&zero, &selector).micros(), 0);
    let one = ScoreParts {
        country: Fraction::one(),
        release_group_type: Fraction::one(),
        release_title: Fraction::one(),
        recording_title: Fraction::one(),
    };
    selector.country.weight = u32::MAX;
    selector.release_group_type.weight = u32::MAX;
    selector.release_title_distance.weight = u32::MAX;
    selector.recording_title_distance.weight = u32::MAX;
    assert_eq!(total_score(&one, &selector).micros(), 4 * (u32::MAX as u64));
}

#[test]
fn preferred_country_wins_all_else_equal() {
    let selector = selector(&["US", "JP"], &[]);
    let tag = tag_with(None, None);
    let a = release("a", Some("US"), None, "Album");
    let b = release("b", Some("JP"), None, "Album");
    let rec = recording("r", "Song", vec![b.clone(), a.clone()]);
    assert_eq!(calc_score(&a, &rec, &tag, &selector).micros(), 1_000_000);
    assert_eq!(calc_score(&b, &rec, &tag, &selector).micros(), 500_000);
    let parts_a = score_parts(&a, &rec, &tag, &selector);
    let parts_b = score_parts(&b, &rec, &tag, &selector);
    assert_eq!(parts(&parts_a.country), (1, 1));
    assert_eq!(parts(&parts_b.country), (1, 2));
    assert_eq!(best_micros(best_release(&rec, &tag, &selector)), Some((1, 1_000_000)));
    let (_, best, score) = find_best_release_and_recording(vec![rec], &tag, &selector).unwrap();
    assert_eq!(best.id, "a");
    assert_eq!(score.micros(), 1_000_000);
}

#[test]
fn score_adds_all_four_parts() {
    let selector = selector(&["US", "JP"], &["album", "single"]);
    let tag = tag_with(Some("kitten"), Some("Song"));
    let rel = release("a", Some("jp"), Some("Single"), "sitting");
    let rec = recording("r", "Song", vec![rel.clone()]);
    // 1/2 + 1/2 + 4/7 + 1
    assert_eq!(calc_score(&rel, &rec, &tag, &selector).micros(), 500_000 + 500_000 + 571_428 + 1_000_000);
}

#[test]
fn a_title_too_far_from_the_tag_adds_nothing() {
    let mut selector = selector(&[], &[]);
    selector.release_title_distance.threshold = 600_000;
    let tag = tag_with(Some("kitten"), None);
    let rel = release("a", None, None, "sitting");
    let rec = recording("r", "Song", vec![rel.clone()]);
    assert_eq!(calc_score(&rel, &rec, &tag, &selector).micros(), 0);
    selector.release_title_distance.threshold = 571_428;
    assert_eq!(calc_score(&rel, &rec, &tag, &selector).micros(), 571_428);
}

#[test]
fn weights_scale_the_parts() {
    let mut selector = selector(&["US", "JP"], &[]);
    selector.country.weight = 3_000_000;
    let tag = tag_with(None, None);
    let rel = release("a", Some("JP"), None, "x");
    let rec = recording("r", "y", vec![rel.clone()]);
    assert_eq!(calc_score(&rel, &rec, &tag, &selector).micros(), 1_500_000);
    selector.country.weight = 0;
    assert_eq!(calc_score(&rel, &rec, &tag, &selector).micros(), 0);
}

#[test]
fn first_release_wins_a_tie_within_a_recording() {
    let selector = selector(&["US"], &[]);
    let tag = tag_with(None, None);
    let rec = recording(
        "r",
        "Song",
        vec![
            release("first", Some("DE"), None, "x"),
            release("second", Some("US"), None, "x"),
            release("third", Some("US"), None, "x"),
        ],
    );
    assert_eq!(best_micros(best_release(&rec, &tag, &selector)), Some((1, 1_000_000)));
    let all_equal = recording(
        "r",
        "Song",
        vec![release("first", None, None, "x"), release("second", None, None, "x")],
    );
    assert_eq!(best_micros(best_release(&all_equal, &tag, &selector)), Some((0, 0)));
}

#[test]
fn last_recording_wins_a_tie_among_recordings() {
    let selector = selector(&["US"], &[]);
    let tag = tag_with(None, None);
    let recordings = vec![
        recording("r1", "Song", vec![release("a", Some("US"), None, "x")]),
        recording("r2", "Song", vec![release("b", Some("DE"), None, "x")]),
        recording("r3", "Song", vec![release("c", Some("US"), None, "x")]),
        recording("r4", "Song", vec![]),
    ];
    let (rec, rel, score) = find_best_release_and_recording(recordings, &tag, &selector).unwrap();
    assert_eq!(rec.id, "r3");
    assert_eq!(rel.id, "c");
    assert_eq!(score.micros(), 1_000_000);
}

#[test]
fn highest_score_wins_among_recordings() {
    let selector = selector(&["US", "JP"], &[]);
    let tag = tag_with(None, Some("Song"));
    let recordings = vec![
        recording("r1", "Other", vec![release("a", Some("US"), None, "x")]),
        recording(
            "r2",
            "Song",
            vec![release("b", Some("JP"), None, "x"), release("c", Some("US"), None, "x")],
        ),
        recording("r3", "Song", vec![release("d", Some("JP"), None, "x")]),
    ];
    let (rec, rel, score) = find_best_release_and_recording(recordings, &tag, &selector).unwrap();
    assert_eq!(rec.id, "r2");
    assert_eq!(rec.releases.len(), 2);
    assert_eq!(rel.id, "c");
    assert_eq!(score.micros(), 2_000_000);
}

#[test]
fn recordings_without_releases_are_passed_over() {
    let selector = selector(&[], &[]);
    let tag = tag_with(None, None);
    assert!(find_best_release_and_recording(Vec::new(), &tag, &selector).is_none());
    let empty = vec![recording("r1", "a", vec![]), recording("r2", "b", vec![])];
    assert!(find_best_release_and_recording(empty, &tag, &selector).is_none());
    assert!(best_release(&recording("r", "a", vec![]), &tag, &selector).is_none());
    let one = vec![
        recording("r1", "a", vec![]),
        recording("r2", "b", vec![release("x", None, None, "t")]),
        recording("r3", "c", vec![]),
    ];
    let (rec, rel, score) = find_best_release_and_recording(one, &tag, &selector).unwrap();
    assert_eq!(rec.id, "r2");
    assert_eq!(rel.id, "x");
    assert_eq!(score.micros(), 0);
}

#[test]
fn fractions_compare_exactly() {
    let third = Fraction::new(1, 3).unwrap();
    let two_sixths = Fraction::new(2, 6).unwrap();
    let half = Fraction::new(1, 2).unwrap();
    assert!(third.lt(&half));
    assert!(!half.lt(&third));
    assert!(!third.lt(&two_sixths));
    assert!(third.eq_value(&two_sixths));
    assert!(!third.eq_value(&half));
    assert!(Fraction::zero().lt(&third));
    assert!(third.lt(&Fraction::one()));
    assert!(Fraction::zero().is_zero());
    assert!(!Fraction::one().is_zero());
    let big = Fraction::new(u64::MAX - 1, u64::MAX).unwrap();
    let bigger = Fraction::new(u64::MAX, u64::MAX).unwrap();
    assert!(big.lt(&bigger));
    assert!(bigger.eq_value(&Fraction::one()));
}

#[test]
fn fractions_are_between_zero_and_one() {
    assert!(Fraction::new(0, 0).is_none());
    assert!(Fraction::new(1, 0).is_none());
    assert!(Fraction::new(2, 1).is_none());
    assert!(Fraction::new(0, 1).is_some());
    assert!(Fraction::new(1, 1).is_some());
    assert!(Fraction::new(u64::MAX, u64::MAX).is_some());
}

#[test]
fn fractions_round_down_to_millionths() {
    assert_eq!(MICROS_PER_UNIT, 1_000_000);
    assert_eq!(Fraction::new(1, 3).unwrap().to_micros(), 333_333);
    assert_eq!(Fraction::new(2, 3).unwrap().to_micros(), 666_666);
    assert_eq!(Fraction::one().to_micros(), 1_000_000);
    assert_eq!(Fraction::zero().to_micros(), 0);
    assert_eq!(Fraction::new(1, u64::MAX).unwrap().to_micros(), 0);
    assert_eq!(Fraction::new(1, 3).unwrap().scaled(10), 3);
    assert_eq!(Fraction::new(1, 3).unwrap().scaled(u32::MAX), (u32::MAX / 3) as u64);
    assert_eq!(Fraction::one().scaled(u32::MAX), u32::MAX as u64);
    assert!(Fraction::new(1, 2).unwrap().is_below(500_001));
    assert!(!Fraction::new(1, 2).unwrap().is_below(500_000));
    assert!(!Fraction::zero().is_below(0));
    assert!(Fraction::zero().is_below(1));
}

#[test]
fn the_smallest_weight_still_orders_the_countries() {
    let mut selector = selector(&["US", "JP"], &[]);
    selector.country.weight = 1;
    let tag = tag_with(Some("Album"), Some("Song"));
    let first = release("a", Some("US"), Some("Album"), "Album");
    let second = release("b", Some("JP"), Some("Album"), "Album");
    let absent = release("c", Some("FR"), Some("Album"), "Album");
    let none = release("d", None, Some("Album"), "Album");
    let rec = recording(
        "r",
        "Song",
        vec![none.clone(), absent.clone(), second.clone(), first.clone()],
    );
    let score_first = calc_score(&first, &rec, &tag, &selector);
    let score_second = calc_score(&second, &rec, &tag, &selector);
    let score_absent = calc_score(&absent, &rec, &tag, &selector);
    let score_none = calc_score(&none, &rec, &tag, &selector);
    assert!(score_second.lt(&score_first));
    assert!(score_absent.lt(&score_second));
    assert!(score_none.lt(&score_second));
    assert!(!score_first.lt(&score_second));
    assert!(!score_second.lt(&score_absent));
    assert!(same(&score_absent, &score_none));
    // Shown in whole millionths, half a millionth is nothing.
    assert_eq!(score_first.micros(), 2_000_001);
    assert_eq!(score_second.micros(), 2_000_000);
    assert_eq!(score_absent.micros(), 2_000_000);
    let best = best_release(&rec, &tag, &selector).unwrap();
    assert_eq!(best.0, 3);
    let without_first = recording("r", "Song", vec![none, absent, second]);
    assert_eq!(best_release(&without_first, &tag, &selector).unwrap().0, 2);
}

#[test]
fn the_smallest_weight_decides_among_recordings() {
    let mut selector = selector(&["US", "JP", "DE"], &[]);
    selector.country.weight = 1;
    let tag = tag_with(None, None);
    let recordings = vec![
        recording("r1", "Song", vec![release("a", Some("DE"), None, "x")]),
        recording("r2", "Song", vec![release("b", Some("JP"), None, "x")]),
        recording("r3", "Song", vec![release("c", Some("DE"), None, "x")]),
    ];
    let (rec, rel, score) = find_best_release_and_recording(recordings, &tag, &selector).unwrap();
    assert_eq!(rec.id, "r2");
    assert_eq!(rel.id, "b");
    assert_eq!(score.micros(), 0);
}

#[test]
fn scores_compare_as_their_exact_sums() {
    let mut selector = selector(&[], &[]);
    selector.country.weight = 1;
    selector.release_group_type.weight = 1;
    selector.release_title_distance.weight = 1;
    selector.recording_title_distance.weight = 1;
    let of = |a: (u64, u64), b: (u64, u64), c: (u64, u64), d: (u64, u64)| ScoreParts {
        country: Fraction::new(a.0, a.1).unwrap(),
        release_group_type: Fraction::new(b.0, b.1).unwrap(),
        release_title: Fraction::new(c.0, c.1).unwrap(),
        recording_title: Fraction::new(d.0, d.1).unwrap(),
    };
    // 1/2 + 1/3 = 5/6 and 1/6 + 2/3 = 5/6.
    let x = total_score(&of((1, 2), (1, 3), (0, 1), (0, 1)), &selector);
    let y = total_score(&of((0, 1), (0, 5), (1, 6), (2, 3)), &selector);
    assert!(same(&x, &y));
    assert_eq!(x.micros(), 0);
    // 1/3 + 1/3 + 1/3 = 1, which each part rounded down does not show.
    let thirds = total_score(&of((1, 3), (1, 3), (1, 3), (0, 1)), &selector);
    let whole = total_score(&of((1, 1), (0, 1), (0, 1), (0, 1)), &selector);
    assert!(same(&thirds, &whole));
    assert_eq!(thirds.micros(), 0);
    assert_eq!(whole.micros(), 1);
    assert!(x.lt(&whole));
    assert!(!whole.lt(&x));
    // The largest denominators and weights there are.
    selector.country.weight = u32::MAX;
    selector.release_group_type.weight = u32::MAX;
    selector.release_title_distance.weight = u32::MAX;
    selector.recording_title_distance.weight = u32::MAX;
    let m = u64::MAX;
    let low = total_score(&of((m - 1, m), (m - 2, m - 1), (m - 1, m), (m - 1, m)), &selector);
    let high = total_score(&of((m - 1, m), (m - 1, m), (m - 1, m), (m - 1, m)), &selector);
    let top = total_score(&of((m, m), (m - 1, m - 1), (1, 1), (7, 7)), &selector);
    assert!(low.lt(&high));
    assert!(!high.lt(&low));
    assert!(high.lt(&top));
    assert!(low.lt(&top));
    assert!(!top.lt(&high));
    assert_eq!(top.micros(), 4 * (u32::MAX as u64));
}

#[test]
fn a_weight_of_zero_makes_the_country_count_for_nothing() {
    let mut selector = selector(&["US", "JP"], &[]);
    selector.country.weight = 0;
    let tag = tag_with(None, None);
    let first = release("a", Some("US"), None, "x");
    let second = release("b", Some("JP"), None, "x");
    let rec = recording("r", "y", vec![second.clone(), first.clone()]);
    let score_first = calc_score(&first, &rec, &tag, &selector);
    let score_second = calc_score(&second, &rec, &tag, &selector);
    assert!(same(&score_first, &score_second));
    assert_eq!(best_release(&rec, &tag, &selector).unwrap().0, 0);
}
