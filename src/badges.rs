//! The badge and border mapping tables, and the codec scan of media streams.

use vstd::prelude::*;
use crate::catalog::{OneOrMany, PlexMedia, PlexMovie, PlexPart, PlexStream};
use crate::text::{contains, is_substring, lower_of, lowercase, same_text};

verus! {

/// The view of an optional text.
pub open spec fn opt_view(o: Option<String>) -> Option<Seq<char>> {
    match o {
        Some(s) => Some(s@),
        None => None,
    }
}

/// The view of an optional text slice.
pub open spec fn opt_str_view(o: Option<&str>) -> Option<Seq<char>> {
    match o {
        Some(s) => Some(s@),
        None => None,
    }
}

// ----- resolution -----

/// The resolution badge for an already lower-cased resolution token.
pub open spec fn resolution_badge(l: Seq<char>) -> Option<Seq<char>> {
    if l == "4k"@ || l == "ultra hd"@ {
        Some("Ultra-HD.png"@)
    } else if l == "1080"@ || l == "1080p"@ || l == "fhd"@ {
        Some("1080P.png"@)
    } else {
        None
    }
}

/// The resolution badge for a lower-cased resolution token.
pub fn resolution_file_for(lowered: &str) -> (r: Option<String>)
    ensures
        opt_view(r) == resolution_badge(lowered@),
{
    if same_text(lowered, "4k") || same_text(lowered, "ultra hd") {
        Some(String::from_str("Ultra-HD.png"))
    } else if same_text(lowered, "1080") || same_text(lowered, "1080p") || same_text(lowered, "fhd") {
        Some(String::from_str("1080P.png"))
    } else {
        None
    }
}

/// The resolution token of a media variant; an absent token reads as the empty text.
pub open spec fn resolution_token(media: PlexMedia) -> Seq<char> {
    match media.video_resolution {
        Some(s) => s@,
        None => Seq::empty(),
    }
}

/// The resolution badge of a media variant, matched case-insensitively.
pub fn get_resolution_filename(media: &PlexMedia) -> (r: Option<String>)
    ensures
        opt_view(r) == resolution_badge(lower_of(resolution_token(*media))),
{
    let lowered = match &media.video_resolution {
        Some(s) => lowercase(s.as_str()),
        None => lowercase(""),
    };
    proof {
        reveal_strlit("");
        assert(""@ =~= Seq::<char>::empty());
    }
    resolution_file_for(lowered.as_str())
}

// ----- edition -----

/// The edition badge for an already lower-cased title.
pub open spec fn edition_badge(t: Seq<char>) -> Option<Seq<char>> {
    if is_substring("director's cut"@, t) || is_substring("director cut"@, t) {
        Some("Directors-Cut.png"@)
    } else if is_substring("extended"@, t) {
        Some("Extended-Edition.png"@)
    } else if is_substring("remastered"@, t) {
        Some("Remastered.png"@)
    } else if is_substring("uncut"@, t) {
        Some("Uncut.png"@)
    } else if is_substring("imax"@, t) {
        Some("IMAX.png"@)
    } else {
        None
    }
}

/// The edition badge for a lower-cased title.
pub fn edition_file_for(t: &str) -> (r: Option<&'static str>)
    ensures
        opt_str_view(r) == edition_badge(t@),
{
    if contains(t, "director's cut") || contains(t, "director cut") {
        Some("Directors-Cut.png")
    } else if contains(t, "extended") {
        Some("Extended-Edition.png")
    } else if contains(t, "remastered") {
        Some("Remastered.png")
    } else if contains(t, "uncut") {
        Some("Uncut.png")
    } else if contains(t, "imax") {
        Some("IMAX.png")
    } else {
        None
    }
}

/// The edition badge named by a keyword in the movie's title, matched case-insensitively.
pub fn get_edition_filename(movie: &PlexMovie) -> (r: Option<&'static str>)
    ensures
        opt_str_view(r) == edition_badge(lower_of(movie.title@)),
{
    let t = lowercase(movie.title.as_str());
    edition_file_for(t.as_str())
}

// ----- audience score -----

/// The audience badge for a rating in hundredths of a point.
pub open spec fn audience_badge(hundredths: nat) -> Seq<char> {
    if hundredths >= 800 {
        "audience_score_high.png"@
    } else if hundredths >= 600 {
        "audience_score_mid.png"@
    } else {
        "audience_score_low.png"@
    }
}

/// The audience badge for a rating in hundredths of a point: high from 8.00, mid from 6.00,
/// else low.
pub fn get_audience_badge_filename(rating: u32) -> (r: &'static str)
    ensures
        r@ == audience_badge(rating as nat),
{
    if rating >= 800 {
        "audience_score_high.png"
    } else if rating >= 600 {
        "audience_score_mid.png"
    } else {
        "audience_score_low.png"
    }
}

// ----- show status -----

/// The status border for an already lower-cased show status.
pub open spec fn status_border(l: Seq<char>) -> Seq<char> {
    if l == "returning series"@ || l == "returning"@ {
        "returning_border.png"@
    } else if l == "canceled"@ || l == "cancelled"@ {
        "cancelled_full.png"@
    } else if l == "ended"@ {
        "ended_border.png"@
    } else {
        "airing_border.png"@
    }
}

/// The status border for a lower-cased show status.
pub fn status_file_for(l: &str) -> (r: &'static str)
    ensures
        r@ == status_border(l@),
{
    if same_text(l, "returning series") || same_text(l, "returning") {
        "returning_border.png"
    } else if same_text(l, "canceled") || same_text(l, "cancelled") {
        "cancelled_full.png"
    } else if same_text(l, "ended") {
        "ended_border.png"
    } else {
        "airing_border.png"
    }
}

/// The status border for a show status, matched case-insensitively; an unknown
/// status takes the airing border.
pub fn get_status_filename(status: &str) -> (r: &'static str)
    ensures
        r@ == status_border(lower_of(status@)),
{
    let l = lowercase(status);
    status_file_for(l.as_str())
}

// ----- title overrides -----

/// The external id that a lower-cased title is pinned to, if any.
pub open spec fn forced_id(l: Seq<char>) -> Option<Seq<char>> {
    if l == "abyss"@ {
        Some("1025527"@)
    } else if l == "kingsman : le cercle d'or"@ || l == "kingsman the golden circle"@ {
        Some("343668"@)
    } else {
        None
    }
}

/// The external id that a lower-cased title is pinned to, if any.
pub fn forced_id_for(l: &str) -> (r: Option<String>)
    ensures
        opt_view(r) == forced_id(l@),
{
    if same_text(l, "abyss") {
        Some(String::from_str("1025527"))
    } else if same_text(l, "kingsman : le cercle d'or") || same_text(l, "kingsman the golden circle") {
        Some(String::from_str("343668"))
    } else {
        None
    }
}

/// The external id pinned to a movie title (case-insensitive), which takes
/// precedence over the ids the media server reports.
pub fn get_forced_tmdb_id(title: &str) -> (r: Option<String>)
    ensures
        opt_view(r) == forced_id(lower_of(title@)),
{
    let l = lowercase(title);
    forced_id_for(l.as_str())
}

// ----- codec combination -----

/// What the streams of a media variant say about its video and audio.
#[derive(Clone, Copy)]
pub struct CodecFlags {
    pub dolby_vision: bool,
    pub hdr: bool,
    pub hdr_plus: bool,
    pub atmos: bool,
    pub truehd: bool,
    pub dts_hd: bool,
    pub dts_x: bool,
    pub digital_plus: bool,
}

pub open spec fn no_flags() -> CodecFlags {
    CodecFlags {
        dolby_vision: false,
        hdr: false,
        hdr_plus: false,
        atmos: false,
        truehd: false,
        dts_hd: false,
        dts_x: false,
        digital_plus: false,
    }
}

/// Field-wise union of two flag sets.
pub open spec fn merge_flags(a: CodecFlags, b: CodecFlags) -> CodecFlags {
    CodecFlags {
        dolby_vision: a.dolby_vision || b.dolby_vision,
        hdr: a.hdr || b.hdr,
        hdr_plus: a.hdr_plus || b.hdr_plus,
        atmos: a.atmos || b.atmos,
        truehd: a.truehd || b.truehd,
        dts_hd: a.dts_hd || b.dts_hd,
        dts_x: a.dts_x || b.dts_x,
        digital_plus: a.digital_plus || b.digital_plus,
    }
}

pub open spec fn mentions(p: Seq<char>, a: Seq<char>, b: Seq<char>) -> bool {
    is_substring(p, a) || is_substring(p, b)
}

/// The flags that one stream sets. Titles, codec and profile are compared lower-cased.
pub open spec fn stream_flags(s: PlexStream) -> CodecFlags {
    let d = lower_of(s.display_title@);
    let t = lower_of(s.title@);
    let c = lower_of(s.codec@);
    let p = lower_of(s.audio_profile@);
    let video = s.stream_type == 1;
    let audio = s.stream_type == 2;
    let plus = mentions("hdr10+"@, d, t);
    let dts = c == "dca"@ || c == "dts"@;
    CodecFlags {
        dolby_vision: video && (s.dolby_vision_key || mentions("dolby vision"@, d, t)
            || mentions("dovi"@, d, t)),
        hdr_plus: video && plus,
        hdr: video && !plus && mentions("hdr"@, d, t),
        atmos: audio && mentions("atmos"@, t, d),
        truehd: audio && c == "truehd"@,
        dts_hd: audio && dts,
        dts_x: audio && dts && p == "dts:x"@,
        digital_plus: audio && (c == "eac3"@ || c == "ac3"@),
    }
}

/// The union of the flags of a sequence of streams.
pub open spec fn flags_of(ss: Seq<PlexStream>) -> CodecFlags
    decreases ss.len(),
{
    if ss.len() == 0 {
        no_flags()
    } else {
        merge_flags(flags_of(ss.drop_last()), stream_flags(ss.last()))
    }
}

/// The streams of a part; none when it has no stream entry.
pub open spec fn streams_of_part(p: PlexPart) -> Seq<PlexStream> {
    match p.streams {
        Some(o) => o.items(),
        None => Seq::empty(),
    }
}

/// All streams of a sequence of parts, part after part.
pub open spec fn streams_of_parts(ps: Seq<PlexPart>) -> Seq<PlexStream>
    decreases ps.len(),
{
    if ps.len() == 0 {
        Seq::empty()
    } else {
        streams_of_parts(ps.drop_last()) + streams_of_part(ps.last())
    }
}

/// The parts of a media variant; none when the variant has no part entry.
pub open spec fn parts_of(m: PlexMedia) -> Seq<PlexPart> {
    match m.parts {
        Some(o) => o.items(),
        None => Seq::empty(),
    }
}

/// Some part of the variant carries a stream entry, so the streams decide the badge.
pub open spec fn streams_reachable(m: PlexMedia) -> bool {
    exists|i: int| 0 <= i < parts_of(m).len() && (#[trigger] parts_of(m)[i]).streams is Some
}

/// The video half of the codec badge, by precedence.
pub open spec fn video_component(f: CodecFlags) -> Option<Seq<char>> {
    if f.dolby_vision && f.hdr {
        Some("DV-HDR"@)
    } else if f.dolby_vision && f.hdr_plus {
        Some("DV-Plus"@)
    } else if f.dolby_vision {
        Some("DV"@)
    } else if f.hdr_plus {
        Some("Plus"@)
    } else if f.hdr {
        Some("HDR"@)
    } else {
        None
    }
}

/// The audio half of the codec badge, by precedence.
pub open spec fn audio_component(f: CodecFlags) -> Option<Seq<char>> {
    if f.truehd && f.atmos {
        Some("TrueHD-Atmos"@)
    } else if f.truehd {
        Some("TrueHD"@)
    } else if f.dts_x {
        Some("DTS-X"@)
    } else if f.dts_hd {
        Some("DTS-HD"@)
    } else if f.atmos {
        Some("Atmos"@)
    } else if f.digital_plus {
        Some("DigitalPlus"@)
    } else {
        None
    }
}

/// The audio half of the codec badge from the variant's coarse, lower-cased codec token.
pub open spec fn coarse_audio_component(c: Seq<char>) -> Option<Seq<char>> {
    if c == "truehd"@ {
        Some("TrueHD"@)
    } else if c == "dca"@ || c == "dts"@ {
        Some("DTS-HD"@)
    } else if c == "eac3"@ || c == "ac3"@ {
        Some("DigitalPlus"@)
    } else {
        None
    }
}

/// The badge file named by its two halves.
pub open spec fn combo_name(v: Option<Seq<char>>, a: Option<Seq<char>>) -> Option<Seq<char>> {
    match (v, a) {
        (Some(v), Some(a)) => Some(v + "-"@ + a + ".png"@),
        (Some(v), None) => Some(v + ".png"@),
        (None, Some(a)) => Some(a + ".png"@),
        (None, None) => None,
    }
}

/// The coarse audio codec token of a variant; an absent token reads as the empty text.
pub open spec fn coarse_codec(m: PlexMedia) -> Seq<char> {
    match m.audio_codec {
        Some(s) => s@,
        None => Seq::empty(),
    }
}

/// The combined codec badge of a media variant.
pub open spec fn codec_badge(m: PlexMedia) -> Option<Seq<char>> {
    if streams_reachable(m) {
        let f = flags_of(streams_of_parts(parts_of(m)));
        combo_name(video_component(f), audio_component(f))
    } else {
        combo_name(None, coarse_audio_component(lower_of(coarse_codec(m))))
    }
}

impl CodecFlags {
    pub fn none() -> (r: CodecFlags)
        ensures
            r == no_flags(),
    {
        CodecFlags {
            dolby_vision: false,
            hdr: false,
            hdr_plus: false,
            atmos: false,
            truehd: false,
            dts_hd: false,
            dts_x: false,
            digital_plus: false,
        }
    }

    pub fn merge(self, o: CodecFlags) -> (r: CodecFlags)
        ensures
            r == merge_flags(self, o),
    {
        CodecFlags {
            dolby_vision: self.dolby_vision || o.dolby_vision,
            hdr: self.hdr || o.hdr,
            hdr_plus: self.hdr_plus || o.hdr_plus,
            atmos: self.atmos || o.atmos,
            truehd: self.truehd || o.truehd,
            dts_hd: self.dts_hd || o.dts_hd,
            dts_x: self.dts_x || o.dts_x,
            digital_plus: self.digital_plus || o.digital_plus,
        }
    }
}

/// The flags that one stream sets.
pub fn scan_stream(s: &PlexStream) -> (r: CodecFlags)
    ensures
        r == stream_flags(*s),
{
    let d = lowercase(s.display_title.as_str());
    let t = lowercase(s.title.as_str());
    let video = s.stream_type == 1;
    let audio = s.stream_type == 2;
    let plus = contains(d.as_str(), "hdr10+") || contains(t.as_str(), "hdr10+");
    let mut f = CodecFlags::none();
    if video {
        f.dolby_vision = s.dolby_vision_key || contains(d.as_str(), "dolby vision")
            || contains(t.as_str(), "dolby vision") || contains(d.as_str(), "dovi")
            || contains(t.as_str(), "dovi");
        f.hdr_plus = plus;
        f.hdr = !plus && (contains(d.as_str(), "hdr") || contains(t.as_str(), "hdr"));
    }
    if audio {
        let c = lowercase(s.codec.as_str());
        let p = lowercase(s.audio_profile.as_str());
        let dts = same_text(c.as_str(), "dca") || same_text(c.as_str(), "dts");
        f.atmos = contains(t.as_str(), "atmos") || contains(d.as_str(), "atmos");
        f.truehd = same_text(c.as_str(), "truehd");
        f.dts_hd = dts;
        f.dts_x = dts && same_text(p.as_str(), "dts:x");
        f.digital_plus = same_text(c.as_str(), "eac3") || same_text(c.as_str(), "ac3");
    }
    f
}

/// Text of the badge named by its two halves.
fn combo_text(v: Option<&str>, a: Option<&str>) -> (r: Option<String>)
    ensures
        opt_view(r) == combo_name(opt_str_view(v), opt_str_view(a)),
{
    match (v, a) {
        (Some(v), Some(a)) => Some(String::from_str(v).concat("-").concat(a).concat(".png")),
        (Some(v), None) => Some(String::from_str(v).concat(".png")),
        (None, Some(a)) => Some(String::from_str(a).concat(".png")),
        (None, None) => None,
    }
}

fn video_text(f: CodecFlags) -> (r: Option<&'static str>)
    ensures
        opt_str_view(r) == video_component(f),
{
    if f.dolby_vision && f.hdr {
        Some("DV-HDR")
    } else if f.dolby_vision && f.hdr_plus {
        Some("DV-Plus")
    } else if f.dolby_vision {
        Some("DV")
    } else if f.hdr_plus {
        Some("Plus")
    } else if f.hdr {
        Some("HDR")
    } else {
        None
    }
}

fn audio_text(f: CodecFlags) -> (r: Option<&'static str>)
    ensures
        opt_str_view(r) == audio_component(f),
{
    if f.truehd && f.atmos {
        Some("TrueHD-Atmos")
    } else if f.truehd {
        Some("TrueHD")
    } else if f.dts_x {
        Some("DTS-X")
    } else if f.dts_hd {
        Some("DTS-HD")
    } else if f.atmos {
        Some("Atmos")
    } else if f.digital_plus {
        Some("DigitalPlus")
    } else {
        None
    }
}

/// The audio half of the badge for a lower-cased coarse codec token.
pub fn coarse_audio_text(c: &str) -> (r: Option<&'static str>)
    ensures
        opt_str_view(r) == coarse_audio_component(c@),
{
    if same_text(c, "truehd") {
        Some("TrueHD")
    } else if same_text(c, "dca") || same_text(c, "dts") {
        Some("DTS-HD")
    } else if same_text(c, "eac3") || same_text(c, "ac3") {
        Some("DigitalPlus")
    } else {
        None
    }
}

/// The union of the flags of all streams of all parts, and whether any part had a
/// stream entry.
pub fn scan_parts(parts: &OneOrMany<PlexPart>) -> (r: (CodecFlags, bool))
    ensures
        r.0 == flags_of(streams_of_parts(parts.items())),
        r.1 == exists|i: int|
            0 <= i < parts.items().len() && (#[trigger] parts.items()[i]).streams is Some,
{
    let n = parts.len();
    let mut acc = CodecFlags::none();
    let mut reachable = false;
    let mut i: usize = 0;
    proof {
        assert(parts.items().take(0) =~= Seq::<PlexPart>::empty());
    }
    while i < n
        invariant
            n == parts.items().len(),
            i <= n,
            acc == flags_of(streams_of_parts(parts.items().take(i as int))),
            reachable == exists|k: int| 0 <= k < i && (#[trigger] parts.items()[k]).streams is Some,
        decreases n - i,
    {
        let part = parts.get(i);
        let ghost before = streams_of_parts(parts.items().take(i as int));
        proof {
            assert(parts.items().take(i + 1).drop_last() =~= parts.items().take(i as int));
            assert(parts.items().take(i + 1).last() == parts.items()[i as int]);
        }
        match &part.streams {
            Some(ss) => {
                reachable = true;
                let m = ss.len();
                let mut j: usize = 0;
                proof {
                    assert(before + ss.items().take(0) =~= before);
                }
                while j < m
                    invariant
                        m == ss.items().len(),
                        j <= m,
                        acc == flags_of(before + ss.items().take(j as int)),
                    decreases m - j,
                {
                    let f = scan_stream(ss.get(j));
                    proof {
                        let next = before + ss.items().take(j + 1);
                        assert(next.drop_last() =~= before + ss.items().take(j as int));
                        assert(next.last() == ss.items()[j as int]);
                    }
                    acc = acc.merge(f);
                    j += 1;
                }
                proof {
                    assert(ss.items().take(m as int) =~= ss.items());
                }
            },
            None => {
                proof {
                    assert(before + streams_of_part(*part) =~= before);
                }
            },
        }
        i += 1;
    }
    proof {
        assert(parts.items().take(n as int) =~= parts.items());
    }
    (acc, reachable)
}

/// The combined video+audio codec badge of a media variant. The streams decide when
/// some part carries them; otherwise the coarse audio codec token alone does.
pub fn get_codec_combo_filename(media: &PlexMedia) -> (r: Option<String>)
    ensures
        opt_view(r) == codec_badge(*media),
{
    let scanned = match &media.parts {
        Some(parts) => scan_parts(parts),
        None => (CodecFlags::none(), false),
    };
    let (flags, reachable) = scanned;
    if reachable {
        combo_text(video_text(flags), audio_text(flags))
    } else {
        let c = match &media.audio_codec {
            Some(s) => lowercase(s.as_str()),
            None => lowercase(""),
        };
        proof {
            reveal_strlit("");
            assert(""@ =~= Seq::<char>::empty());
        }
        combo_text(None, coarse_audio_text(c.as_str()))
    }
}

} // verus!
