//! The metadata catalog: artist credits, recordings and releases.

use crate::api::{address, address_text, param, request_address};
use crate::error::ScanError;
use vstd::prelude::*;

pub mod recording;
pub mod release;

verus! {

/// One entry of an ordered artist credit list.
#[derive(Debug)]
pub struct ArtistCredit {
    pub artist: ArtistCreditArtist,
    pub joinphrase: String,
}

/// The artist of a credit entry.
#[derive(Debug)]
pub struct ArtistCreditArtist {
    pub id: String,
    pub sort_name: String,
    pub name: String,
}

impl Clone for ArtistCreditArtist {
    fn clone(&self) -> (r: Self)
        ensures
            r == *self,
    {
        ArtistCreditArtist {
            id: self.id.clone(),
            sort_name: self.sort_name.clone(),
            name: self.name.clone(),
        }
    }
}

impl Clone for ArtistCredit {
    fn clone(&self) -> (r: Self)
        ensures
            r == *self,
    {
        ArtistCredit { artist: self.artist.clone(), joinphrase: self.joinphrase.clone() }
    }
}

/// The display string of a credit list: each name followed by its join
/// phrase, in order.
pub open spec fn credit_names(credits: Seq<ArtistCredit>) -> Seq<char>
    decreases credits.len(),
{
    if credits.len() == 0 {
        Seq::empty()
    } else {
        credit_names(credits.drop_last()) + credits.last().artist.name@
            + credits.last().joinphrase@
    }
}

/// The sort string of a credit list: each sort name followed by its join
/// phrase, in order.
pub open spec fn credit_sort_names(credits: Seq<ArtistCredit>) -> Seq<char>
    decreases credits.len(),
{
    if credits.len() == 0 {
        Seq::empty()
    } else {
        credit_sort_names(credits.drop_last()) + credits.last().artist.sort_name@
            + credits.last().joinphrase@
    }
}

/// The catalog id of the first credited artist.
pub open spec fn first_artist_id(credits: Option<Vec<ArtistCredit>>) -> Option<Seq<char>> {
    match credits {
        Some(list) if list@.len() > 0 => Some(list@[0].artist.id@),
        _ => None,
    }
}

/// Turns an ordered credit list into the strings shown for it.
pub trait ArtistCreditVecToString {
    /// The credit list that the strings are made from.
    spec fn credits(&self) -> Seq<ArtistCredit>;

    /// Every name followed by its join phrase.
    fn to_string(&self) -> (r: String)
        ensures
            r@ == credit_names(self.credits()),
    ;

    /// Every sort name followed by its join phrase.
    fn to_sort_string(&self) -> (r: String)
        ensures
            r@ == credit_sort_names(self.credits()),
    ;
}

impl ArtistCreditVecToString for Vec<ArtistCredit> {
    open spec fn credits(&self) -> Seq<ArtistCredit> {
        self@
    }

    fn to_string(&self) -> (r: String) {
        let mut acc = String::new();
        let mut i: usize = 0;
        while i < self.len()
            invariant
                i <= self.len(),
                acc@ == credit_names(self@.subrange(0, i as int)),
            decreases self.len() - i,
        {
            let ac = &self[i];
            acc.append(ac.artist.name.as_str());
            acc.append(ac.joinphrase.as_str());
            proof {
                let next = self@.subrange(0, i + 1);
                assert(next.drop_last() =~= self@.subrange(0, i as int));
            }
            i = i + 1;
        }
        assert(self@.subrange(0, self.len() as int) =~= self@);
        acc
    }

    fn to_sort_string(&self) -> (r: String) {
        let mut acc = String::new();
        let mut i: usize = 0;
        while i < self.len()
            invariant
                i <= self.len(),
                acc@ == credit_sort_names(self@.subrange(0, i as int)),
            decreases self.len() - i,
        {
            let ac = &self[i];
            acc.append(ac.artist.sort_name.as_str());
            acc.append(ac.joinphrase.as_str());
            proof {
                let next = self@.subrange(0, i + 1);
                assert(next.drop_last() =~= self@.subrange(0, i as int));
            }
            i = i + 1;
        }
        assert(self@.subrange(0, self.len() as int) =~= self@);
        acc
    }
}

/// The least time between two requests to the catalog, in milliseconds.
pub const MIN_SPACING_MS: u64 = 1000;

/// The parameters of a request for a recording.
pub open spec fn recording_params() -> Seq<(Seq<char>, Seq<char>)> {
    seq![("fmt"@, "json"@), ("inc"@, "releases+release-groups+artists"@)]
}

/// The parameters of a search for recordings.
pub open spec fn search_params(query: Seq<char>) -> Seq<(Seq<char>, Seq<char>)> {
    seq![("fmt"@, "json"@), ("query"@, query), ("limit"@, "15"@)]
}

/// The parameters of a request for a release.
pub open spec fn release_params() -> Seq<(Seq<char>, Seq<char>)> {
    seq![("fmt"@, "json"@), ("inc"@, "artists+recordings+labels+release-groups"@)]
}

/// The address of the recording `id`, with its releases, their groups and
/// its artists.
pub fn recording_url(id: &str) -> (r: Result<String, ScanError>)
    ensures
        address_text(r) == request_address(
            "https://musicbrainz.org/ws/2/recording/"@ + id@,
            recording_params(),
        ),
{
    let mut base = String::from_str("https://musicbrainz.org/ws/2/recording/");
    base.append(id);
    let mut params: Vec<(String, String)> = Vec::new();
    params.push(param("fmt", "json"));
    params.push(param("inc", "releases+release-groups+artists"));
    assert(params.deep_view() =~= recording_params());
    address(base.as_str(), &params)
}

/// The address of a search for recordings, for at most fifteen of them.
pub fn recording_search_url(query: &str) -> (r: Result<String, ScanError>)
    ensures
        address_text(r) == request_address(
            "https://musicbrainz.org/ws/2/recording"@,
            search_params(query@),
        ),
{
    let mut params: Vec<(String, String)> = Vec::new();
    params.push(param("fmt", "json"));
    params.push(param("query", query));
    params.push(param("limit", "15"));
    assert(params.deep_view() =~= search_params(query@));
    address("https://musicbrainz.org/ws/2/recording", &params)
}

/// The address of the release `id`, with its artists, recordings, labels
/// and release group.
pub fn release_url(id: &str) -> (r: Result<String, ScanError>)
    ensures
        address_text(r) == request_address(
            "https://musicbrainz.org/ws/2/release/"@ + id@,
            release_params(),
        ),
{
    let mut base = String::from_str("https://musicbrainz.org/ws/2/release/");
    base.append(id);
    let mut params: Vec<(String, String)> = Vec::new();
    params.push(param("fmt", "json"));
    params.push(param("inc", "artists+recordings+labels+release-groups"));
    assert(params.deep_view() =~= release_params());
    address(base.as_str(), &params)
}

/// The limiter through which every request to the catalog goes: one request at
/// a time, and the next one no sooner than `MIN_SPACING_MS` after the last
/// one has ended. Times are milliseconds on a clock that does not go back.
#[derive(Clone, Copy, Debug)]
pub struct RateLimiter {
    /// Whether a request is under way.
    pub busy: bool,
    /// The time from which on a request is let through.
    pub open_at: u64,
}

/// What the limiter says to a request.
#[derive(Clone, Copy, Debug, PartialEq, Eq, Structural)]
pub enum Admission {
    /// The request may go now. Until it has ended no other may.
    Admitted,
    /// Another request is under way: ask again when it has ended.
    Busy,
    /// The last request has ended too short a time ago: ask again at the
    /// given time.
    WaitUntil(u64),
}

/// `now + MIN_SPACING_MS`, or the latest time there is where that lies
/// beyond it.
pub open spec fn spaced(now: u64) -> u64 {
    if now + MIN_SPACING_MS <= u64::MAX {
        (now + MIN_SPACING_MS) as u64
    } else {
        u64::MAX
    }
}

impl RateLimiter {
    /// What the limiter says to a request at the time `now`.
    pub open spec fn answer(self, now: u64) -> Admission {
        if self.busy {
            Admission::Busy
        } else if now < self.open_at {
            Admission::WaitUntil(self.open_at)
        } else {
            Admission::Admitted
        }
    }

    /// The limiter after it was asked at the time `now`.
    pub open spec fn asked(self, now: u64) -> RateLimiter {
        RateLimiter { busy: self.busy || self.answer(now) == Admission::Admitted, open_at: self.open_at }
    }

    /// The limiter after the request under way has ended at the time `now`.
    pub open spec fn released(self, now: u64) -> RateLimiter {
        RateLimiter { busy: false, open_at: spaced(now) }
    }

    /// A limiter that lets the first request through at once.
    pub fn new() -> (r: RateLimiter)
        ensures
            r == (RateLimiter { busy: false, open_at: 0 }),
    {
        RateLimiter { busy: false, open_at: 0 }
    }

    /// Asks for a request to be let through at the time `now`.
    pub fn acquire(&mut self, now: u64) -> (r: Admission)
        ensures
            r == old(self).answer(now),
            *final(self) == old(self).asked(now),
    {
        if self.busy {
            Admission::Busy
        } else if now < self.open_at {
            Admission::WaitUntil(self.open_at)
        } else {
            self.busy = true;
            Admission::Admitted
        }
    }

    /// Notes that the request that was let through has ended at the time
    /// `now`. The next request is let through `MIN_SPACING_MS` later.
    pub fn release(&mut self, now: u64)
        ensures
            *final(self) == old(self).released(now),
    {
        self.busy = false;
        self.open_at = now.saturating_add(MIN_SPACING_MS);
    }
}

/// While a request is under way no other is let through, whenever it asks.
pub proof fn lemma_one_at_a_time(limiter: RateLimiter, first: u64, second: u64)
    requires
        limiter.answer(first) == Admission::Admitted,
    ensures
        limiter.asked(first).answer(second) == Admission::Busy,
{
}

/// Between the end of one request and the start of the next lie at least
/// `MIN_SPACING_MS`: after a request has ended at `ended`, a request that is
/// let through at `now` comes no sooner than `MIN_SPACING_MS` later, and one
/// that comes sooner is told to wait until then.
pub proof fn lemma_spacing(limiter: RateLimiter, ended: u64, now: u64)
    requires
        ended + MIN_SPACING_MS <= u64::MAX,
    ensures
        limiter.released(ended).answer(now) == Admission::Admitted ==> now >= ended
            + MIN_SPACING_MS,
        now < ended + MIN_SPACING_MS ==> limiter.released(ended).answer(now)
            == Admission::WaitUntil((ended + MIN_SPACING_MS) as u64),
        now >= ended + MIN_SPACING_MS ==> limiter.released(ended).answer(now)
            == Admission::Admitted,
{
}

} // verus!
