//! The score of one release of one recording, and the choice of the best
//! pair among all candidates.
//!
//! A score is the weighted sum of four parts: how far up the country and the
//! release group type stand in the operator's lists of preferences, and how
//! similar the album and the title in the file's tags are to those of the
//! candidate. Each part is an exact fraction and so is their weighted sum:
//! scores compare as their exact values do.

use crate::api::musicbrainz::recording::{RecordingRes, RecordingResRelease};
use crate::config::ReleaseSelector;
use crate::fraction::{lemma_of, lemma_scaled_bound, Fraction};
use crate::interface::tag::text_of;
use crate::job::rank::{
    all_defined, all_defined_where_present, first_max, last_max, lemma_first_max, lemma_last_max,
    lemma_last_max_found, lemma_order, Exact, Score,
};
use crate::natural::Natural;
use crate::text::{edit_distance, lemma_edit_distance_bound, lemma_edit_distance_same};
use crate::trusted::{levenshtein, lowercase, tag_items, to_lowercase, to_uppercase, uppercase};
use lofty::tag::{ItemKey, Tag};
use vstd::prelude::*;

verus! {

/// The characters of an optional borrowed string.
pub open spec fn string_text(s: Option<&String>) -> Option<Seq<char>> {
    match s {
        Some(s) => Some(s@),
        None => None,
    }
}

/// The characters of an optional string slice.
pub open spec fn str_text(s: Option<&str>) -> Option<Seq<char>> {
    match s {
        Some(s) => Some(s@),
        None => None,
    }
}

/// The place of `value` in the list of preferences: the index of its first
/// occurrence.
pub open spec fn preference_index(value: Option<Seq<char>>, preferred: Seq<Seq<char>>) -> Option<
    int,
> {
    match value {
        Some(v) => preferred.index_of_first(v),
        None => None,
    }
}

/// The score of a place in the list of preferences: `1 / (index + 1)`, and
/// zero for no place.
pub open spec fn preference_at(index: Option<int>) -> Fraction {
    match index {
        Some(i) => Fraction::of(1, (i + 1) as nat),
        None => Fraction::of(0, 1),
    }
}

/// The preference score of `value`: zero if it is absent or not in the list,
/// else one over its place, counted from one.
pub open spec fn preference_spec(value: Option<Seq<char>>, preferred: Seq<Seq<char>>) -> Fraction {
    preference_at(preference_index(value, preferred))
}

/// The similarity of two strings of the given lengths at the given edit
/// distance: `1 - distance / longest`, and one for two empty strings.
pub open spec fn similarity_spec(len_a: nat, len_b: nat, distance: nat) -> Fraction {
    let longest = if len_a >= len_b {
        len_a
    } else {
        len_b
    };
    if longest == 0 {
        Fraction::of(1, 1)
    } else if distance > longest {
        Fraction::of(0, longest)
    } else {
        Fraction::of((longest - distance) as nat, longest)
    }
}

/// A similarity with everything strictly below the threshold set to zero.
pub open spec fn clamped_spec(similarity: Fraction, threshold: u32) -> Fraction {
    if similarity.below_spec(threshold) {
        Fraction::of(0, 1)
    } else {
        similarity
    }
}

/// The distance score of a candidate's title against the value in the tags:
/// zero without a tag value, else the clamped similarity.
pub open spec fn distance_score_spec(
    tag_value: Option<Seq<char>>,
    candidate: Seq<char>,
    threshold: u32,
) -> Fraction {
    match tag_value {
        None => Fraction::of(0, 1),
        Some(t) => clamped_spec(
            similarity_spec(t.len(), candidate.len(), edit_distance(t, candidate)),
            threshold,
        ),
    }
}

/// An optional string in upper case.
pub open spec fn upper_text(s: Option<String>) -> Option<Seq<char>> {
    match s {
        Some(s) => Some(uppercase(s@)),
        None => None,
    }
}

/// An optional string in lower case.
pub open spec fn lower_text(s: Option<String>) -> Option<Seq<char>> {
    match s {
        Some(s) => Some(lowercase(s@)),
        None => None,
    }
}

/// A list with each of its entries in upper case.
pub open spec fn upper_list(list: Seq<Seq<char>>) -> Seq<Seq<char>> {
    list.map_values(|entry: Seq<char>| uppercase(entry))
}

/// A list with each of its entries in lower case.
pub open spec fn lower_list(list: Seq<Seq<char>>) -> Seq<Seq<char>> {
    list.map_values(|entry: Seq<char>| lowercase(entry))
}

/// The four parts of a score, each between zero and one.
#[derive(Clone, Copy, Debug)]
pub struct ScoreParts {
    /// The preference score of the country of the release.
    pub country: Fraction,
    /// The preference score of the type of the release group.
    pub release_group_type: Fraction,
    /// The distance score of the title of the release group against the
    /// album in the tags.
    pub release_title: Fraction,
    /// The distance score of the title of the recording against the title
    /// in the tags.
    pub recording_title: Fraction,
}

impl ScoreParts {
    /// Whether each part is a fraction between zero and one.
    pub open spec fn wf(self) -> bool {
        &&& self.country.wf()
        &&& self.release_group_type.wf()
        &&& self.release_title.wf()
        &&& self.recording_title.wf()
    }
}

/// The parts of the score of `release` as a release of `recording`. The
/// country and the entries of its list are compared in upper case, the type
/// of the release group and the entries of its list in lower case.
pub open spec fn parts_spec(
    release: RecordingResRelease,
    recording: RecordingRes,
    current_tag: Tag,
    selector: ReleaseSelector,
) -> ScoreParts {
    ScoreParts {
        country: preference_spec(
            upper_text(release.country),
            upper_list(selector.country.preferred.deep_view()),
        ),
        release_group_type: preference_spec(
            lower_text(release.release_group.primary_type),
            lower_list(selector.release_group_type.preferred.deep_view()),
        ),
        release_title: distance_score_spec(
            text_of(tag_items(current_tag), ItemKey::AlbumTitle),
            release.release_group.title@,
            selector.release_title_distance.threshold,
        ),
        recording_title: distance_score_spec(
            text_of(tag_items(current_tag), ItemKey::TrackTitle),
            recording.title@,
            selector.recording_title_distance.threshold,
        ),
    }
}

/// The weighted sum of the parts of a score in whole millionths: each part
/// times its weight, rounded down, and the four of them added. This is the
/// number that is shown for a score; scores are compared by `total_exact`.
pub open spec fn total_rounded(parts: ScoreParts, selector: ReleaseSelector) -> nat {
    parts.country.scaled_spec(selector.country.weight) + parts.release_group_type.scaled_spec(
        selector.release_group_type.weight,
    ) + parts.release_title.scaled_spec(selector.release_title_distance.weight)
        + parts.recording_title.scaled_spec(selector.recording_title_distance.weight)
}

/// The weighted sum of the parts of a score, exactly: the four weighted
/// fractions brought to their common denominator and added.
pub open spec fn total_exact(parts: ScoreParts, selector: ReleaseSelector) -> Exact {
    let (a1, b1) = (parts.country.numer(), parts.country.denom());
    let (a2, b2) = (parts.release_group_type.numer(), parts.release_group_type.denom());
    let (a3, b3) = (parts.release_title.numer(), parts.release_title.denom());
    let (a4, b4) = (parts.recording_title.numer(), parts.recording_title.denom());
    let w1 = selector.country.weight as nat;
    let w2 = selector.release_group_type.weight as nat;
    let w3 = selector.release_title_distance.weight as nat;
    let w4 = selector.recording_title_distance.weight as nat;
    Exact {
        num: ((w1 * a1 * b2 + w2 * a2 * b1) * b3 + w3 * a3 * b1 * b2) * b4 + w4 * a4 * b1 * b2
            * b3,
        den: b1 * b2 * b3 * b4,
    }
}

/// The score of `release` as a release of `recording`.
pub open spec fn score_spec(
    release: RecordingResRelease,
    recording: RecordingRes,
    current_tag: Tag,
    selector: ReleaseSelector,
) -> Exact {
    total_exact(parts_spec(release, recording, current_tag, selector), selector)
}

/// The scores of the releases of a recording, in their order.
pub open spec fn release_scores(
    recording: RecordingRes,
    current_tag: Tag,
    selector: ReleaseSelector,
) -> Seq<Exact> {
    Seq::new(
        recording.releases@.len(),
        |j: int| score_spec(recording.releases@[j], recording, current_tag, selector),
    )
}

/// The score of the best release of a recording; `None` where it has no
/// release.
pub open spec fn best_release_score(
    recording: RecordingRes,
    current_tag: Tag,
    selector: ReleaseSelector,
) -> Option<Exact> {
    let scores = release_scores(recording, current_tag, selector);
    if scores.len() == 0 {
        None
    } else {
        Some(scores[first_max(scores)])
    }
}

/// The best score of each recording, in their order.
pub open spec fn recording_scores(
    recordings: Seq<RecordingRes>,
    current_tag: Tag,
    selector: ReleaseSelector,
) -> Seq<Option<Exact>> {
    Seq::new(recordings.len(), |i: int| best_release_score(recordings[i], current_tag, selector))
}

/// Whether every release of every recording has a score with a denominator,
/// as every score that `calc_score` computes has.
pub open spec fn scores_defined(
    recordings: Seq<RecordingRes>,
    current_tag: Tag,
    selector: ReleaseSelector,
) -> bool {
    forall|k: int|
        0 <= k < recordings.len() ==> all_defined(
            #[trigger] release_scores(recordings[k], current_tag, selector),
        )
}

/// The pair that is chosen scores highest: no release of any candidate
/// recording scores more than the chosen release of the chosen recording.
pub proof fn lemma_choice_is_maximal(
    recordings: Seq<RecordingRes>,
    current_tag: Tag,
    selector: ReleaseSelector,
    k: int,
    l: int,
)
    requires
        scores_defined(recordings, current_tag, selector),
        0 <= k < recordings.len(),
        0 <= l < recordings[k].releases@.len(),
    ensures
        last_max(recording_scores(recordings, current_tag, selector)) matches Some(i) && {
            let scores = release_scores(recordings[i], current_tag, selector);
            &&& 0 <= i < recordings.len()
            &&& 0 <= first_max(scores) < recordings[i].releases@.len()
            &&& !scores[first_max(scores)].lt(
                score_spec(recordings[k].releases@[l], recordings[k], current_tag, selector),
            )
        },
{
    let all = recording_scores(recordings, current_tag, selector);
    assert forall|n: int| 0 <= n < all.len() && (#[trigger] all[n]) is Some implies all[n].unwrap().den
        > 0 by {
        let theirs = release_scores(recordings[n], current_tag, selector);
        assert(all_defined(theirs));
        lemma_first_max(theirs);
    }
    lemma_last_max(all);
    lemma_last_max_found(all);
    let theirs = release_scores(recordings[k], current_tag, selector);
    assert(all_defined(theirs));
    lemma_first_max(theirs);
    assert(all[k] == Some(theirs[first_max(theirs)]));
    let i = last_max(all).unwrap();
    let scores = release_scores(recordings[i], current_tag, selector);
    assert(all[i] is Some);
    assert(all_defined(scores));
    lemma_first_max(scores);
    assert(all[i] == Some(scores[first_max(scores)]));
    lemma_order(theirs[l], theirs[first_max(theirs)], scores[first_max(scores)]);
}

/// The score of an entry that stands in the list of preferences exactly once
/// is strictly higher than that of every later such entry, and the score of
/// an absent value is zero.
pub proof fn lemma_preference_decreasing(preferred: Seq<Seq<char>>, i: int, j: int)
    requires
        preferred.len() <= usize::MAX,
        preferred.no_duplicates(),
        0 <= i < j < preferred.len(),
    ensures
        preference_spec(Some(preferred[j]), preferred).lt_spec(
            preference_spec(Some(preferred[i]), preferred),
        ),
        preference_spec(None, preferred).numer() == 0,
{
    preferred.index_of_first_ensures(preferred[i]);
    preferred.index_of_first_ensures(preferred[j]);
    assert(preferred.contains(preferred[i]));
    assert(preferred.contains(preferred[j]));
    assert(preferred.index_of_first(preferred[i]) == Some(i));
    assert(preferred.index_of_first(preferred[j]) == Some(j));
    lemma_of(1, (i + 1) as nat);
    lemma_of(1, (j + 1) as nat);
    lemma_of(0, 1);
    let earlier = preference_spec(Some(preferred[i]), preferred);
    let later = preference_spec(Some(preferred[j]), preferred);
    assert(earlier == Fraction::of(1, (i + 1) as nat));
    assert(later == Fraction::of(1, (j + 1) as nat));
    assert(later.numer() * earlier.denom() == i + 1);
    assert(earlier.numer() * later.denom() == j + 1);
}

/// A value that is not in the list of preferences scores zero.
pub proof fn lemma_preference_absent(value: Seq<char>, preferred: Seq<Seq<char>>)
    requires
        !preferred.contains(value),
    ensures
        preference_spec(Some(value), preferred).numer() == 0,
{
    preferred.index_of_first_ensures(value);
    lemma_of(0, 1);
}

/// The similarity of two strings is what is left of the longer one after
/// the edits that part them, over its length: the distance never exceeds
/// that length. A string is wholly alike to itself.
pub proof fn lemma_similarity_of_strings(a: Seq<char>, b: Seq<char>)
    requires
        a.len() <= usize::MAX,
        b.len() <= usize::MAX,
    ensures
        ({
            let alike = similarity_spec(a.len(), b.len(), edit_distance(a, b));
            let longest = if a.len() >= b.len() {
                a.len()
            } else {
                b.len()
            };
            &&& alike.wf()
            &&& edit_distance(a, b) <= longest
            &&& longest > 0 ==> alike.numer() + edit_distance(a, b) == longest && alike.denom()
                == longest
            &&& a == b ==> alike.numer() == alike.denom()
        }),
{
    let longest = if a.len() >= b.len() {
        a.len()
    } else {
        b.len()
    };
    lemma_edit_distance_bound(a, b);
    if a == b {
        lemma_edit_distance_same(a);
    }
    if longest == 0 {
        lemma_of(1, 1);
    } else {
        lemma_of((longest - edit_distance(a, b)) as nat, longest);
    }
}

/// A score is a fraction with a denominator.
pub proof fn lemma_total_defined(parts: ScoreParts, selector: ReleaseSelector)
    requires
        parts.wf(),
    ensures
        total_exact(parts, selector).den > 0,
{
    let (b1, b2, b3, b4) = (
        parts.country.denom(),
        parts.release_group_type.denom(),
        parts.release_title.denom(),
        parts.recording_title.denom(),
    );
    assert(b1 * b2 > 0) by (nonlinear_arith)
        requires
            b1 > 0,
            b2 > 0,
    ;
    assert(b1 * b2 * b3 > 0) by (nonlinear_arith)
        requires
            b1 * b2 > 0,
            b3 > 0,
    ;
    assert(b1 * b2 * b3 * b4 > 0) by (nonlinear_arith)
        requires
            b1 * b2 * b3 > 0,
            b4 > 0,
    ;
}

/// The number that is shown for a score is at most the sum of the weights.
pub proof fn lemma_total_bounded(parts: ScoreParts, selector: ReleaseSelector)
    requires
        parts.wf(),
    ensures
        total_rounded(parts, selector) <= selector.country.weight
            + selector.release_group_type.weight + selector.release_title_distance.weight
            + selector.recording_title_distance.weight,
{
    lemma_scaled_bound(
        selector.country.weight as nat,
        parts.country.numer(),
        parts.country.denom(),
    );
    lemma_scaled_bound(
        selector.release_group_type.weight as nat,
        parts.release_group_type.numer(),
        parts.release_group_type.denom(),
    );
    lemma_scaled_bound(
        selector.release_title_distance.weight as nat,
        parts.release_title.numer(),
        parts.release_title.denom(),
    );
    lemma_scaled_bound(
        selector.recording_title_distance.weight as nat,
        parts.recording_title.numer(),
        parts.recording_title.denom(),
    );
}

/// The exact sum with the first part set apart from the three others.
proof fn lemma_total_shape(p1: nat, p2: nat, p3: nat, p4: nat, b1: nat, b2: nat, b3: nat, b4: nat)
    ensures
        ((p1 * b2 + p2 * b1) * b3 + p3 * b1 * b2) * b4 + p4 * b1 * b2 * b3 == p1 * (b2 * b3
            * b4) + b1 * (p2 * b3 * b4 + p3 * b2 * b4 + p4 * b2 * b3),
        b1 * b2 * b3 * b4 == b1 * (b2 * b3 * b4),
{
    let u = p1 * b2 + p2 * b1;
    let v = u * b3 + p3 * b1 * b2;
    assert(u * b3 == p1 * b2 * b3 + p2 * b1 * b3) by (nonlinear_arith)
        requires
            u == p1 * b2 + p2 * b1,
    ;
    assert(v * b4 == p1 * b2 * b3 * b4 + p2 * b1 * b3 * b4 + p3 * b1 * b2 * b4)
        by (nonlinear_arith)
        requires
            v == p1 * b2 * b3 + p2 * b1 * b3 + p3 * b1 * b2,
    ;
    assert(p1 * b2 * b3 * b4 == p1 * (b2 * b3 * b4)) by (nonlinear_arith);
    assert(p2 * b1 * b3 * b4 == b1 * (p2 * b3 * b4)) by (nonlinear_arith);
    assert(p3 * b1 * b2 * b4 == b1 * (p3 * b2 * b4)) by (nonlinear_arith);
    assert(p4 * b1 * b2 * b3 == b1 * (p4 * b2 * b3)) by (nonlinear_arith);
    let (x, y, z) = (p2 * b3 * b4, p3 * b2 * b4, p4 * b2 * b3);
    assert(b1 * x + b1 * y + b1 * z == b1 * (x + y + z)) by (nonlinear_arith);
    assert(b1 * b2 * b3 * b4 == b1 * (b2 * b3 * b4)) by (nonlinear_arith);
}

/// Two sums that share all but the first part compare as their first parts
/// do, under a weight that is not zero.
proof fn lemma_strictly_more(w: nat, a: nat, b: nat, c: nat, d: nat, y: nat, r: nat)
    requires
        w > 0,
        y > 0,
        c * b < a * d,
    ensures
        (w * c * y + d * r) * (b * y) < (w * a * y + b * r) * (d * y),
{
    let k = w * y * y;
    assert(k > 0) by (nonlinear_arith)
        requires
            k == w * y * y,
            w > 0,
            y > 0,
    ;
    assert(k * (c * b) < k * (a * d)) by (nonlinear_arith)
        requires
            k > 0,
            c * b < a * d,
    ;
    let (p, q) = (w * c * y, d * r);
    assert((p + q) * (b * y) == p * (b * y) + q * (b * y)) by (nonlinear_arith);
    assert(w * c * y * (b * y) == w * y * y * (c * b)) by (nonlinear_arith);
    assert(d * r * (b * y) == d * r * b * y) by (nonlinear_arith);
    let (p2, q2) = (w * a * y, b * r);
    assert((p2 + q2) * (d * y) == p2 * (d * y) + q2 * (d * y)) by (nonlinear_arith);
    assert(w * a * y * (d * y) == w * y * y * (a * d)) by (nonlinear_arith);
    assert(b * r * (d * y) == d * r * b * y) by (nonlinear_arith);
}

/// A better place counts, whatever the weight: of two scores under the same
/// selector that differ in the country's part only, the one with the higher
/// part is strictly higher, as long as the weight of the country is not zero.
/// So a release from the first country of the list scores more than one from
/// the second, and that one more than one from a country that is not in the
/// list.
pub proof fn lemma_better_place_scores_more(a: ScoreParts, b: ScoreParts, selector: ReleaseSelector)
    requires
        a.wf(),
        b.wf(),
        b.country.lt_spec(a.country),
        a.release_group_type == b.release_group_type,
        a.release_title == b.release_title,
        a.recording_title == b.recording_title,
        selector.country.weight > 0,
    ensures
        total_exact(b, selector).lt(total_exact(a, selector)),
{
    let (b2, b3, b4) = (
        a.release_group_type.denom(),
        a.release_title.denom(),
        a.recording_title.denom(),
    );
    let w1 = selector.country.weight as nat;
    let p2 = (selector.release_group_type.weight as nat) * a.release_group_type.numer();
    let p3 = (selector.release_title_distance.weight as nat) * a.release_title.numer();
    let p4 = (selector.recording_title_distance.weight as nat) * a.recording_title.numer();
    let y = b2 * b3 * b4;
    let r = p2 * b3 * b4 + p3 * b2 * b4 + p4 * b2 * b3;
    lemma_total_shape(w1 * a.country.numer(), p2, p3, p4, a.country.denom(), b2, b3, b4);
    lemma_total_shape(w1 * b.country.numer(), p2, p3, p4, b.country.denom(), b2, b3, b4);
    assert(y > 0) by (nonlinear_arith)
        requires
            y == b2 * b3 * b4,
            b2 > 0,
            b3 > 0,
            b4 > 0,
    ;
    lemma_strictly_more(
        w1,
        a.country.numer(),
        a.country.denom(),
        b.country.numer(),
        b.country.denom(),
        y,
        r,
    );
}

/// The country counts, whatever its weight, as long as that is not zero: of
/// two releases of one recording that differ in their country only, the one
/// whose country stands earlier in the list of preferences scores strictly
/// more, and one whose country stands in the list scores strictly more than
/// one without a country or with a country that the list does not hold. The
/// countries and the list are taken in upper case.
pub proof fn lemma_preferred_country_scores_more(
    a: RecordingResRelease,
    b: RecordingResRelease,
    recording: RecordingRes,
    current_tag: Tag,
    selector: ReleaseSelector,
)
    requires
        selector.country.weight > 0,
        selector.country.preferred@.len() <= usize::MAX,
        parts_spec(a, recording, current_tag, selector).wf(),
        parts_spec(b, recording, current_tag, selector).wf(),
        a.release_group == b.release_group,
        ({
            let list = upper_list(selector.country.preferred.deep_view());
            match preference_index(upper_text(a.country), list) {
                Some(i) => match preference_index(upper_text(b.country), list) {
                    Some(j) => i < j,
                    None => true,
                },
                None => false,
            }
        }),
    ensures
        score_spec(b, recording, current_tag, selector).lt(
            score_spec(a, recording, current_tag, selector),
        ),
{
    let list = upper_list(selector.country.preferred.deep_view());
    let i = preference_index(upper_text(a.country), list).unwrap();
    list.index_of_first_ensures(upper_text(a.country).unwrap());
    lemma_of(1, (i + 1) as nat);
    match preference_index(upper_text(b.country), list) {
        Some(j) => {
            list.index_of_first_ensures(upper_text(b.country).unwrap());
            lemma_of(1, (j + 1) as nat);
        },
        None => {
            lemma_of(0, 1);
        },
    }
    lemma_better_place_scores_more(
        parts_spec(a, recording, current_tag, selector),
        parts_spec(b, recording, current_tag, selector),
        selector,
    );
}

/// The preference score of `value`: one over the place of its first
/// occurrence in `preferred`, counted from one; zero if it is absent or not in
/// the list. The strings are compared as they are.
pub fn preference_score(value: Option<&String>, preferred: &Vec<String>) -> (r: Fraction)
    ensures
        r == preference_spec(string_text(value), preferred.deep_view()),
        r.wf(),
{
    let ghost list = preferred.deep_view();
    match value {
        None => Fraction::zero(),
        Some(v) => {
            let mut i: usize = 0;
            while i < preferred.len()
                invariant
                    i <= preferred.len(),
                    list == preferred.deep_view(),
                    value == Some(v),
                    forall|k: int| 0 <= k < i ==> #[trigger] list[k] != v@,
                decreases preferred.len() - i,
            {
                assert(list[i as int] == preferred@[i as int]@);
                if preferred[i] == *v {
                    proof {
                        list.index_of_first_ensures(v@);
                        lemma_of(1, (i + 1) as nat);
                    }
                    let place: u64 = i as u64 + 1;
                    return Fraction::new(1, place).unwrap();
                }
                i = i + 1;
            }
            proof {
                list.index_of_first_ensures(v@);
            }
            Fraction::zero()
        },
    }
}

/// A list with each of its entries in upper case.
pub fn upper_cased(list: &Vec<String>) -> (r: Vec<String>)
    ensures
        r.deep_view() == upper_list(list.deep_view()),
{
    let mut r: Vec<String> = Vec::new();
    let mut i: usize = 0;
    while i < list.len()
        invariant
            i <= list.len(),
            r@.len() == i,
            forall|k: int| 0 <= k < i ==> (#[trigger] r@[k])@ == uppercase(list@[k]@),
        decreases list.len() - i,
    {
        r.push(to_uppercase(list[i].as_str()));
        i = i + 1;
    }
    assert(r.deep_view() =~= upper_list(list.deep_view()));
    r
}

/// A list with each of its entries in lower case.
pub fn lower_cased(list: &Vec<String>) -> (r: Vec<String>)
    ensures
        r.deep_view() == lower_list(list.deep_view()),
{
    let mut r: Vec<String> = Vec::new();
    let mut i: usize = 0;
    while i < list.len()
        invariant
            i <= list.len(),
            r@.len() == i,
            forall|k: int| 0 <= k < i ==> (#[trigger] r@[k])@ == lowercase(list@[k]@),
        decreases list.len() - i,
    {
        r.push(to_lowercase(list[i].as_str()));
        i = i + 1;
    }
    assert(r.deep_view() =~= lower_list(list.deep_view()));
    r
}

/// The preference score of a country: the place of the country in the list,
/// both taken in upper case.
pub fn country_preference_score(country: &Option<String>, preferred: &Vec<String>) -> (r:
    Fraction)
    ensures
        r == preference_spec(upper_text(*country), upper_list(preferred.deep_view())),
        r.wf(),
{
    let list = upper_cased(preferred);
    match country {
        None => preference_score(None, &list),
        Some(c) => {
            let upper = to_uppercase(c.as_str());
            preference_score(Some(&upper), &list)
        },
    }
}

/// The preference score of a release group type: the place of the type in
/// the list, both taken in lower case.
pub fn release_group_type_preference_score(
    primary_type: &Option<String>,
    preferred: &Vec<String>,
) -> (r: Fraction)
    ensures
        r == preference_spec(lower_text(*primary_type), lower_list(preferred.deep_view())),
        r.wf(),
{
    let list = lower_cased(preferred);
    match primary_type {
        None => preference_score(None, &list),
        Some(t) => {
            let lower = to_lowercase(t.as_str());
            preference_score(Some(&lower), &list)
        },
    }
}

/// The similarity of two strings with `len_a` and `len_b` characters that are
/// `distance` edits apart.
pub fn similarity(len_a: usize, len_b: usize, distance: usize) -> (r: Fraction)
    ensures
        r == similarity_spec(len_a as nat, len_b as nat, distance as nat),
        r.wf(),
{
    let longest = if len_a >= len_b {
        len_a
    } else {
        len_b
    };
    if longest == 0 {
        Fraction::one()
    } else if distance > longest {
        proof {
            lemma_of(0, longest as nat);
        }
        Fraction::new(0, longest as u64).unwrap()
    } else {
        proof {
            lemma_of((longest - distance) as nat, longest as nat);
        }
        Fraction::new((longest - distance) as u64, longest as u64).unwrap()
    }
}

/// Sets a similarity strictly below `threshold` millionths to zero and leaves
/// every other one as it is: one that equals the threshold stays.
pub fn clamp_below(similarity: Fraction, threshold: u32) -> (r: Fraction)
    ensures
        r == clamped_spec(similarity, threshold),
        similarity.below_spec(threshold) ==> r.numer() == 0,
        !similarity.below_spec(threshold) ==> r == similarity,
        r.wf(),
{
    if similarity.is_below(threshold) {
        proof {
            lemma_of(0, 1);
        }
        Fraction::zero()
    } else {
        similarity
    }
}

/// The distance score for a known edit distance between the tag value and
/// the candidate.
pub fn distance_score_at(len_tag: usize, len_candidate: usize, distance: usize, threshold: u32) -> (r:
    Fraction)
    ensures
        r == clamped_spec(
            similarity_spec(len_tag as nat, len_candidate as nat, distance as nat),
            threshold,
        ),
        r.wf(),
{
    clamp_below(similarity(len_tag, len_candidate, distance), threshold)
}

/// The distance score of a candidate's title against the value in the file's
/// tags: zero where the tags have no value, else the similarity of the two,
/// set to zero where it is strictly below `threshold`.
pub fn distance_score(tag_value: Option<&str>, candidate: &str, threshold: u32) -> (r:
    Fraction)
    ensures
        r == distance_score_spec(str_text(tag_value), candidate@, threshold),
        r.wf(),
{
    match tag_value {
        None => Fraction::zero(),
        Some(t) => {
            let distance = levenshtein(t, candidate);
            distance_score_at(t.unicode_len(), candidate.unicode_len(), distance, threshold)
        },
    }
}

/// The parts of the score of `release` as a release of `recording` for a
/// file with the tags `current_tag`.
///
/// The country is looked for in its list with both in upper case, the type
/// of the release group in its list with both in lower case. The titles are
/// held against the album and the title in the tags.
pub fn score_parts(
    release: &RecordingResRelease,
    recording: &RecordingRes,
    current_tag: &Tag,
    release_selector: &ReleaseSelector,
) -> (parts: ScoreParts)
    ensures
        parts == parts_spec(*release, *recording, *current_tag, *release_selector),
        parts.wf(),
{
    ScoreParts {
        country: country_preference_score(&release.country, &release_selector.country.preferred),
        release_group_type: release_group_type_preference_score(
            &release.release_group.primary_type,
            &release_selector.release_group_type.preferred,
        ),
        release_title: distance_score(
            current_tag.get_string(&ItemKey::AlbumTitle),
            release.release_group.title.as_str(),
            release_selector.release_title_distance.threshold,
        ),
        recording_title: distance_score(
            current_tag.get_string(&ItemKey::TrackTitle),
            recording.title.as_str(),
            release_selector.recording_title_distance.threshold,
        ),
    }
}

/// The product of a weight and a numerator.
fn weighted(weight: u32, numer: u64) -> (r: Natural)
    ensures
        r@ == (weight as nat) * (numer as nat),
{
    Natural::from_u64(weight as u64).mul_u64(numer)
}

/// Adds the parts of a score up, each weighted as the selector says. The sum
/// is exact.
pub fn total_score(parts: &ScoreParts, release_selector: &ReleaseSelector) -> (score: Score)
    ensures
        score.exact() == total_exact(*parts, *release_selector),
        score.exact().den > 0,
        score.rounded() == total_rounded(*parts, *release_selector),
{
    let (a1, b1) = (parts.country.num(), parts.country.den());
    let (a2, b2) = (parts.release_group_type.num(), parts.release_group_type.den());
    let (a3, b3) = (parts.release_title.num(), parts.release_title.den());
    let (a4, b4) = (parts.recording_title.num(), parts.recording_title.den());
    let first = weighted(release_selector.country.weight, a1).mul_u64(b2);
    let second = weighted(release_selector.release_group_type.weight, a2).mul_u64(b1);
    let third = weighted(release_selector.release_title_distance.weight, a3).mul_u64(b1).mul_u64(
        b2,
    );
    let fourth = weighted(release_selector.recording_title_distance.weight, a4).mul_u64(
        b1,
    ).mul_u64(b2).mul_u64(b3);
    let num = first.add(&second).mul_u64(b3).add(&third).mul_u64(b4).add(&fourth);
    let micros = parts.country.scaled(release_selector.country.weight)
        + parts.release_group_type.scaled(release_selector.release_group_type.weight)
        + parts.release_title.scaled(release_selector.release_title_distance.weight)
        + parts.recording_title.scaled(release_selector.recording_title_distance.weight);
    Score::new(num, b1, b2, b3, b4, micros)
}

/// The score of `release` as a release of `recording` for a file with the
/// tags `current_tag`.
pub fn calc_score(
    release: &RecordingResRelease,
    recording: &RecordingRes,
    current_tag: &Tag,
    release_selector: &ReleaseSelector,
) -> (score: Score)
    ensures
        score.exact() == score_spec(*release, *recording, *current_tag, *release_selector),
        score.exact().den > 0,
        score.rounded() == total_rounded(
            parts_spec(*release, *recording, *current_tag, *release_selector),
            *release_selector,
        ),
{
    let parts = score_parts(release, recording, current_tag, release_selector);
    total_score(&parts, release_selector)
}

/// The best release of one recording: its index and its score. Of several
/// releases with the highest score the first is the best. `None` where the
/// recording has no release.
pub fn best_release(
    recording: &RecordingRes,
    current_tag: &Tag,
    release_selector: &ReleaseSelector,
) -> (r: Option<(usize, Score)>)
    ensures
        r is None <==> recording.releases@.len() == 0,
        r matches Some((j, score)) ==> {
            &&& j == first_max(release_scores(*recording, *current_tag, *release_selector))
            &&& j < recording.releases@.len()
            &&& score.exact() == release_scores(*recording, *current_tag, *release_selector)[j as int]
            &&& score.exact().den > 0
            &&& Some(score.exact()) == best_release_score(
                *recording,
                *current_tag,
                *release_selector,
            )
        },
{
    let ghost scores = release_scores(*recording, *current_tag, *release_selector);
    if recording.releases.len() == 0 {
        return None;
    }
    let mut best: usize = 0;
    let mut best_score = calc_score(&recording.releases[0], recording, current_tag, release_selector);
    let mut j: usize = 1;
    while j < recording.releases.len()
        invariant
            1 <= j <= recording.releases.len(),
            scores == release_scores(*recording, *current_tag, *release_selector),
            scores.len() == recording.releases@.len(),
            best == first_max(scores.subrange(0, j as int)),
            best < j,
            best_score.exact() == scores[best as int],
            best_score.exact().den > 0,
        decreases recording.releases.len() - j,
    {
        let score = calc_score(&recording.releases[j], recording, current_tag, release_selector);
        assert(scores.subrange(0, j + 1).drop_last() =~= scores.subrange(0, j as int));
        if best_score.lt(&score) {
            best = j;
            best_score = score;
        }
        j = j + 1;
    }
    assert(scores.subrange(0, j as int) =~= scores);
    Some((best, best_score))
}

/// Chooses among the candidate recordings the one whose best release scores
/// highest, and hands it back with that release and its score.
///
/// Scores are compared exactly. Within a recording the first of several
/// equally good releases is taken; among recordings the last of several
/// equally good ones. A recording without a release is passed over. The
/// result is `None` exactly where no recording has a release.
pub fn find_best_release_and_recording(
    recordings: Vec<RecordingRes>,
    crr_tag: &Tag,
    release_selector: &ReleaseSelector,
) -> (r: Option<(RecordingRes, RecordingResRelease, Score)>)
    ensures
        r is None <==> forall|i: int|
            0 <= i < recordings@.len() ==> (#[trigger] recordings@[i]).releases@.len() == 0,
        match last_max(recording_scores(recordings@, *crr_tag, *release_selector)) {
            None => r is None,
            Some(i) => {
                let recording = recordings@[i];
                let scores = release_scores(recording, *crr_tag, *release_selector);
                let j = first_max(scores);
                &&& r matches Some((found, release, score))
                &&& found == recording
                &&& release == recording.releases@[j]
                &&& score.exact() == scores[j]
                &&& score.exact().den > 0
            },
        },
{
    let ghost all = recording_scores(recordings@, *crr_tag, *release_selector);
    let mut best: Option<(usize, usize, Score)> = None;
    let mut i: usize = 0;
    while i < recordings.len()
        invariant
            i <= recordings.len(),
            all == recording_scores(recordings@, *crr_tag, *release_selector),
            all.len() == recordings@.len(),
            match best {
                None => last_max(all.subrange(0, i as int)) is None,
                Some((bi, bj, score)) => {
                    &&& last_max(all.subrange(0, i as int)) == Some(bi as int)
                    &&& bi < i
                    &&& bj == first_max(
                        release_scores(recordings@[bi as int], *crr_tag, *release_selector),
                    )
                    &&& bj < recordings@[bi as int].releases@.len()
                    &&& all[bi as int] == Some(score.exact())
                    &&& score.exact().den > 0
                    &&& score.exact() == release_scores(
                        recordings@[bi as int],
                        *crr_tag,
                        *release_selector,
                    )[bj as int]
                },
            },
        decreases recordings.len() - i,
    {
        let candidate = best_release(&recordings[i], crr_tag, release_selector);
        assert(all.subrange(0, i + 1).drop_last() =~= all.subrange(0, i as int));
        match candidate {
            None => {},
            Some((j, score)) => {
                let replace = match &best {
                    None => true,
                    Some((_, _, best_score)) => !score.lt(best_score),
                };
                if replace {
                    best = Some((i, j, score));
                }
            },
        }
        i = i + 1;
    }
    proof {
        assert(all.subrange(0, i as int) =~= all);
        lemma_last_max_found(all);
        if last_max(all) is None {
            assert forall|k: int| 0 <= k < recordings@.len() implies (
            #[trigger] recordings@[k]).releases@.len() == 0 by {
                assert(all[k] is None);
            }
        }
    }
    match best {
        None => None,
        Some((bi, bj, score)) => {
            let mut rest = recordings;
            let recording = rest.swap_remove(bi);
            let release = recording.releases[bj].clone();
            Some((recording, release, score))
        },
    }
}

} // verus!
