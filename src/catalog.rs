//! The media server's catalog: items, labels, freshness and external ids.

use vstd::prelude::*;
use crate::text::{first_occurrence, lower_of, lowercase, matches_at, occurs_at, same_text};

verus! {

/// A field that the media server sends either as one object or as a list of them.
pub enum OneOrMany<T> {
    One(T),
    Many(Vec<T>),
}

impl<T> OneOrMany<T> {
    /// The objects, in the order the server sent them.
    pub open spec fn items(&self) -> Seq<T> {
        match self {
            OneOrMany::One(x) => seq![*x],
            OneOrMany::Many(v) => v@,
        }
    }

    pub fn len(&self) -> (r: usize)
        ensures
            r == self.items().len(),
    {
        match self {
            OneOrMany::One(_) => 1,
            OneOrMany::Many(v) => v.len(),
        }
    }

    pub fn get(&self, i: usize) -> (r: &T)
        requires
            i < self.items().len(),
        ensures
            *r == self.items()[i as int],
    {
        match self {
            OneOrMany::One(x) => x,
            OneOrMany::Many(v) => &v[i],
        }
    }
}

/// One label attached to a catalog item.
pub struct PlexLabel {
    pub tag: String,
}

/// One external identifier of a catalog item, such as `tmdb://438631`.
pub struct PlexGuid {
    pub id: String,
}

/// One stream of a media part, reduced to the probes the badge logic reads.
/// A probe the server left out reads as `0` or as the empty text.
pub struct PlexStream {
    /// 1 for video, 2 for audio.
    pub stream_type: u64,
    pub display_title: String,
    pub title: String,
    pub codec: String,
    pub audio_profile: String,
    /// One of the Dolby Vision profile keys is present on the stream.
    pub dolby_vision_key: bool,
}

/// One part of a media variant.
pub struct PlexPart {
    /// `None` when the part carries no stream entry at all.
    pub streams: Option<OneOrMany<PlexStream>>,
}

/// One media variant of a movie.
pub struct PlexMedia {
    pub video_resolution: Option<String>,
    pub audio_codec: Option<String>,
    pub parts: Option<OneOrMany<PlexPart>>,
}

/// Where the media server is reached, and the token that authorizes each request.
pub struct PlexClient {
    pub base_url: String,
    pub token: String,
}

/// A movie of the catalog. The audience rating is kept in hundredths of a point
/// (850 for 8.5).
pub struct PlexMovie {
    pub title: String,
    pub rating_key: String,
    pub audience_rating: Option<u32>,
    pub guids: Option<Vec<PlexGuid>>,
    pub guid_str: Option<String>,
    pub year: Option<u16>,
    pub media: Option<Vec<PlexMedia>>,
    pub added_at: Option<u64>,
    pub labels: Option<OneOrMany<PlexLabel>>,
}

/// A show of the catalog. The audience rating is kept in hundredths of a point.
pub struct PlexShow {
    pub title: String,
    pub rating_key: String,
    pub year: Option<u32>,
    pub audience_rating: Option<u32>,
    pub added_at: Option<u64>,
    pub guid: Option<Vec<PlexGuid>>,
    pub label: Option<OneOrMany<PlexLabel>>,
    pub media: Option<Vec<PlexMedia>>,
}

/// A season of a show. The audience rating is kept in hundredths of a point.
pub struct PlexSeason {
    pub title: String,
    pub rating_key: String,
    pub season_number: u32,
    pub show_title: String,
    pub show_rating_key: String,
    pub audience_rating: Option<u32>,
    pub added_at: Option<u64>,
    pub media: Option<Vec<PlexMedia>>,
    pub label: Option<OneOrMany<PlexLabel>>,
}

/// Seconds in a day.
pub const DAY_SECS: u64 = 86400;

/// How many days a movie counts as recently added.
pub const MOVIE_FRESH_DAYS: u64 = 7;

/// How many days a show or a season counts as recently added.
pub const SERIES_FRESH_DAYS: u64 = 30;

/// Prefix of an external id of the film/TV service in the guid list.
pub const TMDB_PREFIX: &'static str = "tmdb://";

/// Marker of the film/TV service id in the legacy guid text.
pub const LEGACY_MARKER: &'static str = "themoviedb://";

/// Some label carries `tag`, compared case-insensitively.
pub open spec fn labels_hold(labels: Option<OneOrMany<PlexLabel>>, tag: Seq<char>) -> bool {
    match labels {
        Some(o) => exists|i: int|
            0 <= i < o.items().len() && lower_of((#[trigger] o.items()[i]).tag@) == lower_of(tag),
        None => false,
    }
}

/// Whole days from `added` to `now`; an instant in the future counts as zero days.
pub open spec fn days_since(added: u64, now: u64) -> nat {
    if now >= added {
        ((now - added) as nat / DAY_SECS as nat) as nat
    } else {
        0
    }
}

/// The item was added at most `window` whole days before `now`.
pub open spec fn added_within_spec(added_at: Option<u64>, now: u64, window: nat) -> bool {
    match added_at {
        Some(a) => days_since(a, now) <= window,
        None => false,
    }
}

/// Whether some label carries `tag`, compared case-insensitively.
pub fn labels_contain(labels: &Option<OneOrMany<PlexLabel>>, tag: &str) -> (r: bool)
    ensures
        r == labels_hold(*labels, tag@),
{
    match labels {
        None => false,
        Some(o) => {
            let target = lowercase(tag);
            let n = o.len();
            let mut i: usize = 0;
            while i < n
                invariant
                    n == o.items().len(),
                    *labels == Some(*o),
                    i <= n,
                    target@ == lower_of(tag@),
                    forall|k: int| 0 <= k < i ==> lower_of((#[trigger] o.items()[k]).tag@) != lower_of(tag@),
                decreases n - i,
            {
                let l = lowercase(o.get(i).tag.as_str());
                if same_text(l.as_str(), target.as_str()) {
                    assert(lower_of(o.items()[i as int].tag@) == lower_of(tag@));
                    return true;
                }
                i += 1;
            }
            false
        },
    }
}

/// Whether an item added at `added_at` is at most `days` whole days old at `now`.
pub fn added_within(added_at: Option<u64>, now: u64, days: u64) -> (r: bool)
    ensures
        r == added_within_spec(added_at, now, days as nat),
{
    match added_at {
        Some(a) => {
            let age = if now >= a { (now - a) / DAY_SECS } else { 0 };
            age <= days
        },
        None => false,
    }
}

/// The rest of the first guid that begins with the service prefix.
pub open spec fn first_tmdb_guid(g: Seq<PlexGuid>) -> Option<Seq<char>>
    decreases g.len(),
{
    if g.len() == 0 {
        None
    } else if occurs_at(TMDB_PREFIX@, g[0].id@, 0) {
        Some(g[0].id@.skip(TMDB_PREFIX@.len() as int))
    } else {
        first_tmdb_guid(g.skip(1))
    }
}

/// The legacy guid text stops an id at a `?` or at another marker.
pub open spec fn legacy_stop(s: Seq<char>, j: int) -> bool {
    s[j] == '?' || occurs_at(LEGACY_MARKER@, s, j)
}

/// `e` is where the id that starts at `st` ends: the first stop at or after `st`, or the end.
pub open spec fn legacy_end(s: Seq<char>, st: int, e: int) -> bool {
    &&& st <= e <= s.len()
    &&& (e == s.len() || legacy_stop(s, e))
    &&& forall|j: int| st <= j < e ==> !#[trigger] legacy_stop(s, j)
}

/// `r` is the id of a legacy guid text: what follows its first marker, up to the next
/// `?` or marker.
pub open spec fn legacy_id(s: Seq<char>, r: Seq<char>) -> bool {
    exists|i: int, e: int|
        #[trigger] first_occurrence(LEGACY_MARKER@, s, i) && #[trigger] legacy_end(s, i + LEGACY_MARKER@.len(), e)
            && r == s.subrange(i + LEGACY_MARKER@.len(), e)
}

/// What the guid list offers, if it holds a guid with the service prefix.
pub open spec fn guid_list_id(g: Option<Vec<PlexGuid>>) -> Option<Seq<char>> {
    match g {
        Some(v) => first_tmdb_guid(v@),
        None => None,
    }
}

/// `r` is the external id of a movie: from the guid list first, else from the legacy text.
pub open spec fn movie_tmdb_id(m: PlexMovie, r: Option<Seq<char>>) -> bool {
    if guid_list_id(m.guids) is Some {
        r == guid_list_id(m.guids)
    } else {
        match m.guid_str {
            Some(s) => if crate::text::is_substring(LEGACY_MARKER@, s@) {
                r is Some && legacy_id(s@, r->0)
            } else {
                r is None
            },
            None => r is None,
        }
    }
}

/// The rest of the first guid that begins with the service prefix.
pub fn tmdb_id_from_guids(guids: &Vec<PlexGuid>) -> (r: Option<String>)
    ensures
        crate::badges::opt_view(r) == first_tmdb_guid(guids@),
{
    let n = guids.len();
    let plen = TMDB_PREFIX.unicode_len();
    let mut i: usize = 0;
    proof {
        assert(guids@.skip(0) =~= guids@);
    }
    while i < n
        invariant
            n == guids@.len(),
            i <= n,
            plen == TMDB_PREFIX@.len(),
            first_tmdb_guid(guids@) == first_tmdb_guid(guids@.skip(i as int)),
        decreases n - i,
    {
        let id = guids[i].id.as_str();
        proof {
            let rest = guids@.skip(i as int);
            assert(rest[0] == guids@[i as int]);
            assert(rest.skip(1) =~= guids@.skip(i + 1));
        }
        if matches_at(id, TMDB_PREFIX, 0) {
            let len = id.unicode_len();
            let tail = id.substring_char(plen, len);
            proof {
                assert(tail@ =~= id@.skip(plen as int));
            }
            return Some(String::from_str(tail));
        }
        i += 1;
    }
    proof {
        assert(guids@.skip(n as int).len() == 0);
    }
    None
}

/// The id of a legacy guid text that holds the marker.
pub fn legacy_tmdb_id(s: &str) -> (r: String)
    requires
        crate::text::is_substring(LEGACY_MARKER@, s@),
    ensures
        legacy_id(s@, r@),
{
    let n = s.unicode_len();
    let mlen = LEGACY_MARKER.unicode_len();
    let i = crate::text::find(s, LEGACY_MARKER);
    let i = match i {
        Some(i) => i,
        None => {
            proof {
                assert(false);
            }
            0
        },
    };
    let st = i + mlen;
    let mut e: usize = st;
    while e < n && s.get_char(e) != '?' && !matches_at(s, LEGACY_MARKER, e)
        invariant
            n == s@.len(),
            mlen == LEGACY_MARKER@.len(),
            st <= e <= n,
            forall|j: int| st <= j < e ==> !#[trigger] legacy_stop(s@, j),
        decreases n - e,
    {
        e += 1;
    }
    let r = String::from_str(s.substring_char(st, e));
    proof {
        assert(first_occurrence(LEGACY_MARKER@, s@, i as int));
        assert(legacy_end(s@, st as int, e as int));
    }
    r
}

impl PlexClient {
    pub fn new(base_url: String, token: String) -> (r: PlexClient)
        ensures
            r.base_url@ == base_url@,
            r.token@ == token@,
    {
        PlexClient { base_url, token }
    }

    /// The listing of a library section: movies (type 1) or shows (type 2), external ids inline.
    pub fn section_url(&self, library_id: &str, shows: bool) -> (r: String)
        ensures
            r@ == self.base_url@ + "/library/sections/"@ + library_id@ + (if shows {
                "/all?type=2&includeGuids=1"@
            } else {
                "/all?type=1&includeGuids=1"@
            }),
    {
        let tail = if shows { "/all?type=2&includeGuids=1" } else { "/all?type=1&includeGuids=1" };
        self.base_url.clone().concat("/library/sections/").concat(library_id).concat(tail)
    }

    /// The details of one item.
    pub fn metadata_url(&self, rating_key: &str) -> (r: String)
        ensures
            r@ == self.base_url@ + "/library/metadata/"@ + rating_key@,
    {
        self.base_url.clone().concat("/library/metadata/").concat(rating_key)
    }

    /// The children of an item: the seasons of a show.
    pub fn children_url(&self, rating_key: &str) -> (r: String)
        ensures
            r@ == self.base_url@ + "/library/metadata/"@ + rating_key@ + "/children"@,
    {
        self.metadata_url(rating_key).concat("/children")
    }

    /// Where a poster is uploaded, as a raw JPEG body.
    pub fn posters_url(&self, rating_key: &str) -> (r: String)
        ensures
            r@ == self.base_url@ + "/library/metadata/"@ + rating_key@ + "/posters"@,
    {
        self.metadata_url(rating_key).concat("/posters")
    }

    /// The label-append request for an item.
    pub fn add_label_url(&self, rating_key: &str, label: &str) -> (r: String)
        ensures
            r@ == self.base_url@ + "/library/metadata/"@ + rating_key@ + "?label%5B0%5D.tag.tag="@ + label@,
    {
        self.metadata_url(rating_key).concat("?label%5B0%5D.tag.tag=").concat(label)
    }

    /// The thumbnail of an item, authorized by the token in the query.
    pub fn thumb_url(&self, rating_key: &str) -> (r: String)
        ensures
            r@ == self.base_url@ + "/library/metadata/"@ + rating_key@ + "/thumb?X-Plex-Token="@ + self.token@,
    {
        self.metadata_url(rating_key).concat("/thumb?X-Plex-Token=").concat(self.token.as_str())
    }

    /// Where a thumbnail redirect leads: an absolute location as it is, a relative one
    /// below the server's base URL.
    pub fn redirect_target(&self, location: &str) -> (r: String)
        ensures
            r@ == if occurs_at("http"@, location@, 0) {
                location@
            } else {
                self.base_url@ + location@
            },
    {
        if matches_at(location, "http", 0) {
            String::from_str(location)
        } else {
            self.base_url.clone().concat(location)
        }
    }

    /// The external id of a movie: the first guid with the service prefix, else the
    /// legacy guid text.
    pub fn extract_tmdb_id(movie: &PlexMovie) -> (r: Option<String>)
        ensures
            movie_tmdb_id(*movie, crate::badges::opt_view(r)),
    {
        if let Some(g) = &movie.guids {
            let r = tmdb_id_from_guids(g);
            if r.is_some() {
                return r;
            }
        }
        match &movie.guid_str {
            Some(s) => {
                if crate::text::contains(s.as_str(), LEGACY_MARKER) {
                    Some(legacy_tmdb_id(s.as_str()))
                } else {
                    None
                }
            },
            None => None,
        }
    }

    /// The tags of a label field, in the order the server sent them.
    pub fn label_tags(labels: &Option<OneOrMany<PlexLabel>>) -> (r: Vec<String>)
        ensures
            r@.len() == match *labels {
                Some(o) => o.items().len(),
                None => 0,
            },
            forall|k: int| 0 <= k < r@.len() ==> (#[trigger] r@[k])@ == labels->0.items()[k].tag@,
    {
        let mut out: Vec<String> = Vec::new();
        match labels {
            None => {},
            Some(o) => {
                let n = o.len();
                let mut i: usize = 0;
                while i < n
                    invariant
                        n == o.items().len(),
                        *labels == Some(*o),
                        i <= n,
                        out@.len() == i,
                        forall|k: int| 0 <= k < i ==> (#[trigger] out@[k])@ == o.items()[k].tag@,
                    decreases n - i,
                {
                    out.push(o.get(i).tag.clone());
                    i += 1;
                }
            },
        }
        out
    }

    /// The external id of a show: the first guid with the service prefix.
    pub fn extract_tmdb_id_from_show(show: &PlexShow) -> (r: Option<String>)
        ensures
            crate::badges::opt_view(r) == guid_list_id(show.guid),
    {
        match &show.guid {
            Some(g) => tmdb_id_from_guids(g),
            None => None,
        }
    }
}

impl PlexMovie {
    /// Whether the movie carries the label `tag_to_find`, compared case-insensitively.
    pub fn has_label(&self, tag_to_find: &str) -> (r: bool)
        ensures
            r == labels_hold(self.labels, tag_to_find@),
    {
        labels_contain(&self.labels, tag_to_find)
    }

    /// Whether the movie was added at most seven whole days before `now`.
    pub fn is_recently_added(&self, now: u64) -> (r: bool)
        ensures
            r == added_within_spec(self.added_at, now, MOVIE_FRESH_DAYS as nat),
    {
        added_within(self.added_at, now, MOVIE_FRESH_DAYS)
    }
}

impl PlexShow {
    /// Whether the show carries the label `tag_to_find`, compared case-insensitively.
    pub fn has_label(&self, tag_to_find: &str) -> (r: bool)
        ensures
            r == labels_hold(self.label, tag_to_find@),
    {
        labels_contain(&self.label, tag_to_find)
    }

    /// Whether the show was added at most thirty whole days before `now`.
    pub fn is_recently_added(&self, now: u64) -> (r: bool)
        ensures
            r == added_within_spec(self.added_at, now, SERIES_FRESH_DAYS as nat),
    {
        added_within(self.added_at, now, SERIES_FRESH_DAYS)
    }
}

impl PlexSeason {
    /// Whether the season carries the label `label_name`, compared case-insensitively.
    pub fn has_label(&self, label_name: &str) -> (r: bool)
        ensures
            r == labels_hold(self.label, label_name@),
    {
        labels_contain(&self.label, label_name)
    }

    /// Whether the season was added at most thirty whole days before `now`.
    pub fn is_recently_added(&self, now: u64) -> (r: bool)
        ensures
            r == added_within_spec(self.added_at, now, SERIES_FRESH_DAYS as nat),
    {
        added_within(self.added_at, now, SERIES_FRESH_DAYS)
    }
}

} // verus!
