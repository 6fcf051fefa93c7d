//! What each poster is made of: title, badges and border, chosen from the item.

use vstd::prelude::*;
use crate::badges::{
    audience_badge, audio_component, codec_badge, coarse_audio_component, edition_badge,
    get_audience_badge_filename, get_codec_combo_filename, get_edition_filename,
    get_resolution_filename, get_status_filename, opt_str_view, opt_view, resolution_badge,
    resolution_token, status_border, video_component, CodecFlags,
};
use crate::catalog::{
    added_within_spec, PlexMedia, PlexMovie, PlexSeason, PlexShow, DAY_SECS, MOVIE_FRESH_DAYS,
    SERIES_FRESH_DAYS,
};
use crate::text::{decimal, decimal_text, is_substring, lower_of, upper_of, uppercase};

verus! {

/// Which of the three borders a poster takes.
#[derive(Clone, Copy, Debug, PartialEq, Eq, Structural)]
pub enum BorderKind {
    Status,
    RecentlyAdded,
    InnerGlow,
}

/// The border of a poster and its asset path below the overlay root.
pub struct Border {
    pub kind: BorderKind,
    pub file: String,
}

/// The audience badge asset and the rating text drawn on it.
pub struct AudienceBadge {
    pub file: String,
    pub score: String,
}

/// The layers of one poster, applied in this order: gradients, title, top-left
/// resolution and edition badges, bottom-left codec badge, bottom-right audience badge,
/// border. Asset paths are relative to the overlay root.
pub struct PosterPlan {
    /// The title text, upper-cased.
    pub title: String,
    pub resolution: Option<String>,
    pub edition: Option<String>,
    pub codec: Option<String>,
    pub audience: Option<AudienceBadge>,
    pub border: Border,
}

/// One compositing stage of a poster.
#[derive(Clone, Copy, Debug, PartialEq, Eq, Structural)]
pub enum Stage {
    Gradients,
    Title,
    /// The resolution badge, first slot of the top-left stack.
    Resolution,
    /// The edition badge, in the given slot of the top-left stack.
    Edition(u32),
    Codec,
    Audience,
    Border,
}

/// The stages a plan runs, in order: gradients, title, resolution and edition badges
/// stacked top-left, codec badge, audience badge, border. A badge the plan lacks has no
/// stage; the edition badge takes the slot after a resolution badge.
pub open spec fn stages_of(p: PosterPlan) -> Seq<Stage> {
    let res: Seq<Stage> = if p.resolution is Some { seq![Stage::Resolution] } else { Seq::empty() };
    let ed: Seq<Stage> = if p.edition is Some {
        seq![Stage::Edition(if p.resolution is Some { 1u32 } else { 0u32 })]
    } else {
        Seq::empty()
    };
    let codec: Seq<Stage> = if p.codec is Some { seq![Stage::Codec] } else { Seq::empty() };
    let aud: Seq<Stage> = if p.audience is Some { seq![Stage::Audience] } else { Seq::empty() };
    seq![Stage::Gradients, Stage::Title] + res + ed + codec + aud + seq![Stage::Border]
}

impl PosterPlan {
    /// The stages of this plan, in the order they are applied.
    pub fn stages(&self) -> (r: Vec<Stage>)
        ensures
            r@ == stages_of(*self),
    {
        let mut v: Vec<Stage> = Vec::new();
        v.push(Stage::Gradients);
        v.push(Stage::Title);
        let ghost base = v@;
        if self.resolution.is_some() {
            v.push(Stage::Resolution);
        }
        let ghost after_res = v@;
        if self.edition.is_some() {
            v.push(Stage::Edition(if self.resolution.is_some() { 1 } else { 0 }));
        }
        let ghost after_ed = v@;
        if self.codec.is_some() {
            v.push(Stage::Codec);
        }
        let ghost after_codec = v@;
        if self.audience.is_some() {
            v.push(Stage::Audience);
        }
        let ghost after_aud = v@;
        v.push(Stage::Border);
        proof {
            let p = *self;
            let res: Seq<Stage> = if p.resolution is Some { seq![Stage::Resolution] } else { Seq::empty() };
            let ed: Seq<Stage> = if p.edition is Some {
                seq![Stage::Edition(if p.resolution is Some { 1u32 } else { 0u32 })]
            } else {
                Seq::empty()
            };
            let codec: Seq<Stage> = if p.codec is Some { seq![Stage::Codec] } else { Seq::empty() };
            let aud: Seq<Stage> = if p.audience is Some { seq![Stage::Audience] } else { Seq::empty() };
            assert(base =~= seq![Stage::Gradients, Stage::Title]);
            assert(after_res =~= base + res);
            assert(after_ed =~= base + res + ed);
            assert(after_codec =~= base + res + ed + codec);
            assert(after_aud =~= base + res + ed + codec + aud);
            assert(v@ =~= stages_of(p));
        }
        v
    }
}

/// The border to use when a border's asset is missing: the inner glow for a status or
/// recently-added border, nothing for the inner glow itself.
pub fn border_fallback(kind: BorderKind) -> (r: Option<&'static str>)
    ensures
        opt_str_view(r) == if kind == BorderKind::InnerGlow {
            None
        } else {
            Some("overlay-innerglow.png"@)
        },
{
    match kind {
        BorderKind::InnerGlow => None,
        _ => Some("overlay-innerglow.png"),
    }
}

/// The status border wins, then the recently-added border, then the inner glow.
pub open spec fn border_kind(has_status: bool, recent: bool) -> BorderKind {
    if has_status {
        BorderKind::Status
    } else if recent {
        BorderKind::RecentlyAdded
    } else {
        BorderKind::InnerGlow
    }
}

/// The asset path of the border.
pub open spec fn border_path(status: Option<Seq<char>>, recent: bool) -> Seq<char> {
    match status {
        Some(s) => "Status/"@ + status_border(lower_of(s)),
        None => if recent {
            "recently_added.png"@
        } else {
            "overlay-innerglow.png"@
        },
    }
}

/// The border of a poster: the status border when a show status is known, else the
/// recently-added border for a fresh item, else the inner glow.
pub fn choose_border(status: Option<&str>, recent: bool) -> (r: Border)
    ensures
        r.kind == border_kind(status is Some, recent),
        r.file@ == border_path(opt_str_view(status), recent),
{
    match status {
        Some(s) => Border {
            kind: BorderKind::Status,
            file: String::from_str("Status/").concat(get_status_filename(s)),
        },
        None => if recent {
            Border { kind: BorderKind::RecentlyAdded, file: String::from_str("recently_added.png") }
        } else {
            Border { kind: BorderKind::InnerGlow, file: String::from_str("overlay-innerglow.png") }
        },
    }
}

/// A rating in hundredths written with one decimal, rounded half up, as `8.5`.
pub open spec fn score_spec(hundredths: nat) -> Seq<char> {
    let tenths = (hundredths + 5) / 10;
    decimal(tenths / 10) + "."@ + decimal(tenths % 10)
}

/// A rating in hundredths written with one decimal, rounded half up, as `8.5`.
pub fn score_text(hundredths: u32) -> (r: String)
    ensures
        r@ == score_spec(hundredths as nat),
{
    let tenths = (hundredths as u64 + 5) / 10;
    let whole = decimal_text((tenths / 10) as u32);
    let frac = decimal_text((tenths % 10) as u32);
    whole.concat(".").concat(frac.as_str())
}

pub open spec fn audience_path(hundredths: nat) -> Seq<char> {
    "audience_score/"@ + audience_badge(hundredths)
}

/// The audience badge of an optional rating.
pub fn audience_for(rating: Option<u32>) -> (r: Option<AudienceBadge>)
    ensures
        r is Some == rating is Some,
        r matches Some(b) ==> b.file@ == audience_path(rating->0 as nat) && b.score@ == score_spec(
            rating->0 as nat,
        ),
{
    match rating {
        Some(t) => Some(
            AudienceBadge {
                file: String::from_str("audience_score/").concat(get_audience_badge_filename(t)),
                score: score_text(t),
            },
        ),
        None => None,
    }
}

fn prefixed(dir: &str, file: Option<String>) -> (r: Option<String>)
    ensures
        opt_view(r) == match opt_view(file) {
            Some(f) => Some(dir@ + f),
            None => None,
        },
{
    match file {
        Some(f) => Some(String::from_str(dir).concat(f.as_str())),
        None => None,
    }
}

/// The first media variant of a movie, if it has one.
pub open spec fn first_media(m: Option<Vec<PlexMedia>>) -> Option<PlexMedia> {
    match m {
        Some(v) => if v@.len() > 0 {
            Some(v@[0])
        } else {
            None
        },
        None => None,
    }
}

pub open spec fn in_dir(dir: Seq<char>, f: Option<Seq<char>>) -> Option<Seq<char>> {
    match f {
        Some(f) => Some(dir + f),
        None => None,
    }
}

/// The resolution badge path of a movie, from its first media variant.
pub open spec fn movie_resolution(m: PlexMovie) -> Option<Seq<char>> {
    match first_media(m.media) {
        Some(md) => in_dir("media_info/resolution/"@, resolution_badge(lower_of(resolution_token(md)))),
        None => None,
    }
}

/// The codec badge path of a movie, from its first media variant.
pub open spec fn movie_codec(m: PlexMovie) -> Option<Seq<char>> {
    match first_media(m.media) {
        Some(md) => in_dir("media_info/codec/"@, codec_badge(md)),
        None => None,
    }
}

/// The layers of a movie poster at time `now`. Movies have no status, so the border is
/// the recently-added one (seven days) or the inner glow.
pub fn movie_plan(movie: &PlexMovie, now: u64) -> (r: PosterPlan)
    ensures
        r.title@ == upper_of(movie.title@),
        opt_view(r.resolution) == movie_resolution(*movie),
        opt_view(r.edition) == in_dir("media_info/edition/"@, edition_badge(lower_of(movie.title@))),
        opt_view(r.codec) == movie_codec(*movie),
        r.audience is Some == movie.audience_rating is Some,
        r.audience matches Some(b) ==> b.file@ == audience_path(movie.audience_rating->0 as nat)
            && b.score@ == score_spec(movie.audience_rating->0 as nat),
        r.border.kind == border_kind(false, added_within_spec(movie.added_at, now, MOVIE_FRESH_DAYS as nat)),
        r.border.file@ == border_path(None, added_within_spec(movie.added_at, now, MOVIE_FRESH_DAYS as nat)),
{
    let (resolution, codec) = match &movie.media {
        Some(list) => if list.len() > 0 {
            let md = &list[0];
            (
                prefixed("media_info/resolution/", get_resolution_filename(md)),
                prefixed("media_info/codec/", get_codec_combo_filename(md)),
            )
        } else {
            (None, None)
        },
        None => (None, None),
    };
    let edition = match get_edition_filename(movie) {
        Some(e) => Some(String::from_str("media_info/edition/").concat(e)),
        None => None,
    };
    PosterPlan {
        title: uppercase(movie.title.as_str()),
        resolution,
        edition,
        codec,
        audience: audience_for(movie.audience_rating),
        border: choose_border(None, movie.is_recently_added(now)),
    }
}

/// The layers of a show poster at time `now`, given the status the film/TV service
/// reports. Shows take no resolution, edition or codec badge.
pub fn show_plan(show: &PlexShow, status: Option<&str>, now: u64) -> (r: PosterPlan)
    ensures
        r.title@ == upper_of(show.title@),
        r.resolution is None && r.edition is None && r.codec is None,
        r.audience is Some == show.audience_rating is Some,
        r.audience matches Some(b) ==> b.file@ == audience_path(show.audience_rating->0 as nat)
            && b.score@ == score_spec(show.audience_rating->0 as nat),
        r.border.kind == border_kind(status is Some, added_within_spec(show.added_at, now, SERIES_FRESH_DAYS as nat)),
        r.border.file@ == border_path(opt_str_view(status), added_within_spec(show.added_at, now, SERIES_FRESH_DAYS as nat)),
{
    PosterPlan {
        title: uppercase(show.title.as_str()),
        resolution: None,
        edition: None,
        codec: None,
        audience: audience_for(show.audience_rating),
        border: choose_border(status, show.is_recently_added(now)),
    }
}

/// The title of a season poster: the show title, then ` - Saison ` and the season number.
pub open spec fn season_title(season: PlexSeason) -> Seq<char> {
    season.show_title@ + " - Saison "@ + decimal(season.season_number as nat)
}

/// The title text of a season poster, before upper-casing.
pub fn season_title_text(season: &PlexSeason) -> (r: String)
    ensures
        r@ == season_title(*season),
{
    let n = decimal_text(season.season_number);
    season.show_title.clone().concat(" - Saison ").concat(n.as_str())
}

/// The layers of a season poster at time `now`, given the status of its show. Seasons
/// take no resolution, edition or codec badge.
pub fn season_plan(season: &PlexSeason, status: Option<&str>, now: u64) -> (r: PosterPlan)
    ensures
        r.title@ == upper_of(season_title(*season)),
        r.resolution is None && r.edition is None && r.codec is None,
        r.audience is Some == season.audience_rating is Some,
        r.audience matches Some(b) ==> b.file@ == audience_path(season.audience_rating->0 as nat)
            && b.score@ == score_spec(season.audience_rating->0 as nat),
        r.border.kind == border_kind(status is Some, added_within_spec(season.added_at, now, SERIES_FRESH_DAYS as nat)),
        r.border.file@ == border_path(opt_str_view(status), added_within_spec(season.added_at, now, SERIES_FRESH_DAYS as nat)),
{
    let t = season_title_text(season);
    PosterPlan {
        title: uppercase(t.as_str()),
        resolution: None,
        edition: None,
        codec: None,
        audience: audience_for(season.audience_rating),
        border: choose_border(status, season.is_recently_added(now)),
    }
}

// ----- laws -----

/// Exactly one border applies to each item: the status border when a status is known,
/// the recently-added border when none is and the item is fresh, the inner glow otherwise.
pub proof fn lemma_one_border(has_status: bool, recent: bool)
    ensures
        (if border_kind(has_status, recent) == BorderKind::Status { 1int } else { 0 })
            + (if border_kind(has_status, recent) == BorderKind::RecentlyAdded { 1int } else { 0 })
            + (if border_kind(has_status, recent) == BorderKind::InnerGlow { 1int } else { 0 }) == 1,
        (border_kind(has_status, recent) == BorderKind::Status) == has_status,
        (border_kind(has_status, recent) == BorderKind::RecentlyAdded) == (!has_status && recent),
        (border_kind(has_status, recent) == BorderKind::InnerGlow) == (!has_status && !recent),
{
}

/// An item added exactly `k` days before `now` counts as fresh iff `k` is within the
/// window: seven days for movies, thirty for shows and seasons. Without a status, that
/// decides between the recently-added border and the inner glow.
pub proof fn lemma_freshness_window(now: u64, k: nat, window: nat)
    requires
        k * DAY_SECS <= now,
    ensures
        added_within_spec(Some((now - k * DAY_SECS) as u64), now, window) == (k <= window),
        (border_kind(false, added_within_spec(Some((now - k * DAY_SECS) as u64), now, window))
            == BorderKind::RecentlyAdded) == (k <= window),
{
    let a = (now - k * DAY_SECS) as u64;
    let d = DAY_SECS as int;
    assert(now - a == k * d);
    assert((k * d) / d == k) by (nonlinear_arith)
        requires d > 0;
}

/// Every input listed in the mapping tables yields a badge.
pub proof fn lemma_tables_total()
    ensures
        forall|l: Seq<char>|
            l == "4k"@ || l == "ultra hd"@ || l == "1080"@ || l == "1080p"@ || l == "fhd"@
                ==> #[trigger] resolution_badge(l) is Some,
        forall|t: Seq<char>|
            is_substring("director's cut"@, t) || is_substring("director cut"@, t)
                || is_substring("extended"@, t) || is_substring("remastered"@, t)
                || is_substring("uncut"@, t) || is_substring("imax"@, t)
                ==> #[trigger] edition_badge(t) is Some,
        forall|c: Seq<char>|
            c == "truehd"@ || c == "dca"@ || c == "dts"@ || c == "eac3"@ || c == "ac3"@
                ==> #[trigger] coarse_audio_component(c) is Some,
        forall|f: CodecFlags|
            f.dolby_vision || f.hdr || f.hdr_plus ==> #[trigger] video_component(f) is Some,
        forall|f: CodecFlags|
            f.atmos || f.truehd || f.dts_hd || f.dts_x || f.digital_plus
                ==> #[trigger] audio_component(f) is Some,
{
}

} // verus!
