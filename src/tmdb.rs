//! The film/TV service: request URLs and the choice of a poster among candidates.

use vstd::prelude::*;
use crate::badges::opt_view;
use crate::text::{decimal, decimal_text, same_text};

verus! {

/// Root of the film/TV service's API.
pub const TMDB_API_BASE: &'static str = "https://api.themoviedb.org/3";

/// Prefix of every poster URL: the image base followed by `/original`.
pub const TMDB_IMAGE_BASE: &'static str = "https://image.tmdb.org/t/p/original";

/// Where the film/TV service is reached, and the key sent with each request.
pub struct TmdbClient {
    pub api_key: String,
    pub base_url: String,
}

/// A poster candidate that the service lists for an entity. The vote average is kept
/// in thousandths of a point.
pub struct PosterImage {
    pub file_path: String,
    pub iso_639_1: Option<String>,
    pub width: u32,
    pub height: u32,
    pub vote_thousandths: u32,
}

/// The poster carries no title text: its language is `xx`, `null` or absent.
pub open spec fn is_textless(p: PosterImage) -> bool {
    match p.iso_639_1 {
        Some(l) => l@ == "xx"@ || l@ == "null"@,
        None => true,
    }
}

/// The poster's language is French.
pub open spec fn is_french(p: PosterImage) -> bool {
    match p.iso_639_1 {
        Some(l) => l@ == "fr"@,
        None => false,
    }
}

pub open spec fn area(p: PosterImage) -> nat {
    p.width as nat * p.height as nat
}

/// Among textless posters, `a` ranks strictly above `b`: larger area, then higher vote.
/// Among French posters only the area counts.
pub open spec fn ranks_above(a: PosterImage, b: PosterImage, french: bool) -> bool {
    area(a) > area(b) || (!french && area(a) == area(b) && a.vote_thousandths > b.vote_thousandths)
}

pub open spec fn eligible(p: PosterImage, french: bool) -> bool {
    if french { is_french(p) } else { is_textless(p) }
}

/// `i` is the first of the best eligible posters: none ranks above it, and each earlier
/// eligible one ranks below it.
pub open spec fn best_at(ps: Seq<PosterImage>, french: bool, i: int) -> bool {
    &&& 0 <= i < ps.len()
    &&& eligible(ps[i], french)
    &&& forall|j: int|
        0 <= j < ps.len() && #[trigger] eligible(ps[j], french) ==> !ranks_above(ps[j], ps[i], french)
            && (j < i ==> ranks_above(ps[i], ps[j], french))
}

pub open spec fn any_eligible(ps: Seq<PosterImage>, french: bool) -> bool {
    exists|i: int| 0 <= i < ps.len() && #[trigger] eligible(ps[i], french)
}

/// The URL of a poster file.
pub open spec fn poster_url(file_path: Seq<char>) -> Seq<char> {
    TMDB_IMAGE_BASE@ + file_path
}

/// `r` is the poster chosen among `ps`: the best textless one, else the largest French
/// one, else none.
pub open spec fn chosen_poster(ps: Seq<PosterImage>, r: Option<Seq<char>>) -> bool {
    if any_eligible(ps, false) {
        exists|i: int| best_at(ps, false, i) && r == Some(poster_url(ps[i].file_path@))
    } else if any_eligible(ps, true) {
        exists|i: int| best_at(ps, true, i) && r == Some(poster_url(ps[i].file_path@))
    } else {
        r is None
    }
}

fn eligible_exec(p: &PosterImage, french: bool) -> (r: bool)
    ensures
        r == eligible(*p, french),
{
    match &p.iso_639_1 {
        Some(l) => if french {
            same_text(l.as_str(), "fr")
        } else {
            same_text(l.as_str(), "xx") || same_text(l.as_str(), "null")
        },
        None => !french,
    }
}

fn ranks_above_exec(a: &PosterImage, b: &PosterImage, french: bool) -> (r: bool)
    ensures
        r == ranks_above(*a, *b, french),
{
    let (aw, ah, bw, bh) = (a.width as u64, a.height as u64, b.width as u64, b.height as u64);
    assert(aw * ah <= u32::MAX as u64 * u32::MAX as u64) by (nonlinear_arith)
        requires aw <= u32::MAX, ah <= u32::MAX;
    assert(bw * bh <= u32::MAX as u64 * u32::MAX as u64) by (nonlinear_arith)
        requires bw <= u32::MAX, bh <= u32::MAX;
    let aa = aw * ah;
    let ab = bw * bh;
    aa > ab || (!french && aa == ab && a.vote_thousandths > b.vote_thousandths)
}

/// The position of the first of the best eligible posters, if any is eligible.
pub fn best_poster_index(ps: &Vec<PosterImage>, french: bool) -> (r: Option<usize>)
    ensures
        r is None <==> !any_eligible(ps@, french),
        r matches Some(i) ==> best_at(ps@, french, i as int),
{
    let n = ps.len();
    let mut best: Option<usize> = None;
    let mut i: usize = 0;
    while i < n
        invariant
            n == ps@.len(),
            i <= n,
            best is None ==> forall|j: int| 0 <= j < i ==> !#[trigger] eligible(ps@[j], french),
            best matches Some(b) ==> b < i && best_at(ps@.take(i as int), french, b as int),
        decreases n - i,
    {
        if eligible_exec(&ps[i], french) {
            match best {
                None => {
                    best = Some(i);
                    proof {
                        let t = ps@.take(i + 1);
                        assert forall|j: int| 0 <= j < t.len() && #[trigger] eligible(t[j], french) implies
                            !ranks_above(t[j], t[i as int], french) && (j < i ==> ranks_above(t[i as int], t[j], french)) by {
                            assert(t[j] == ps@[j]);
                        }
                    }
                },
                Some(b) => {
                    let above = ranks_above_exec(&ps[i], &ps[b], french);
                    proof {
                        let t0 = ps@.take(i as int);
                        let t = ps@.take(i + 1);
                        assert forall|j: int| 0 <= j < i implies t[j] == t0[j] by {}
                    }
                    if above {
                        best = Some(i);
                    }
                },
            }
        } else {
            proof {
                let t0 = ps@.take(i as int);
                let t = ps@.take(i + 1);
                assert forall|j: int| 0 <= j < i implies t[j] == t0[j] by {}
            }
        }
        i += 1;
    }
    proof {
        assert(ps@.take(n as int) =~= ps@);
        if best is None {
            assert forall|j: int| 0 <= j < ps@.len() implies !#[trigger] eligible(ps@[j], french) by {}
        }
    }
    best
}

/// The URL of a poster file.
pub fn poster_url_of(file_path: &str) -> (r: String)
    ensures
        r@ == poster_url(file_path@),
{
    String::from_str(TMDB_IMAGE_BASE).concat(file_path)
}

/// The poster to use among the candidates the service lists: the textless one of the
/// largest area (then highest vote), else the French one of the largest area, else
/// none. Ties go to the earlier candidate.
pub fn select_textless_poster(posters: &Vec<PosterImage>) -> (r: Option<String>)
    ensures
        chosen_poster(posters@, opt_view(r)),
{
    match best_poster_index(posters, false) {
        Some(i) => Some(poster_url_of(posters[i].file_path.as_str())),
        None => match best_poster_index(posters, true) {
            Some(i) => Some(poster_url_of(posters[i].file_path.as_str())),
            None => None,
        },
    }
}

/// The URL of an optional `poster_path`.
pub fn standard_poster_url(poster_path: &Option<String>) -> (r: Option<String>)
    ensures
        opt_view(r) == match *poster_path {
            Some(p) => Some(poster_url(p@)),
            None => None,
        },
{
    match poster_path {
        Some(p) => Some(poster_url_of(p.as_str())),
        None => None,
    }
}

impl TmdbClient {
    pub fn new(api_key: String) -> (r: TmdbClient)
        ensures
            r.api_key@ == api_key@,
            r.base_url@ == TMDB_API_BASE@,
    {
        TmdbClient { api_key, base_url: String::from_str(TMDB_API_BASE) }
    }

    pub open spec fn entity_url(&self, kind: Seq<char>, id: Seq<char>, tail: Seq<char>) -> Seq<char> {
        self.base_url@ + kind + id + tail + "?api_key="@ + self.api_key@
    }

    fn entity(&self, kind: &str, id: &str, tail: &str) -> (r: String)
        ensures
            r@ == self.entity_url(kind@, id@, tail@),
    {
        self.base_url.clone().concat(kind).concat(id).concat(tail).concat("?api_key=").concat(
            self.api_key.as_str(),
        )
    }

    /// The image list of a movie.
    pub fn movie_images_url(&self, id: &str) -> (r: String)
        ensures
            r@ == self.entity_url("/movie/"@, id@, "/images"@),
    {
        self.entity("/movie/", id, "/images")
    }

    /// The details of a movie.
    pub fn movie_url(&self, id: &str) -> (r: String)
        ensures
            r@ == self.entity_url("/movie/"@, id@, ""@),
    {
        self.entity("/movie/", id, "")
    }

    /// The image list of a show.
    pub fn show_images_url(&self, id: &str) -> (r: String)
        ensures
            r@ == self.entity_url("/tv/"@, id@, "/images"@),
    {
        self.entity("/tv/", id, "/images")
    }

    /// The details of a show, which carry its poster and its status.
    pub fn show_url(&self, id: &str) -> (r: String)
        ensures
            r@ == self.entity_url("/tv/"@, id@, ""@),
    {
        self.entity("/tv/", id, "")
    }

    /// The details of season `n` of a show.
    pub fn season_url(&self, show_id: &str, n: u32) -> (r: String)
        ensures
            r@ == self.entity_url("/tv/"@, show_id@, "/season/"@ + decimal(n as nat)),
    {
        let num = decimal_text(n);
        let tail = String::from_str("/season/").concat(num.as_str());
        self.entity("/tv/", show_id, tail.as_str())
    }

    /// The image list of season `n` of a show.
    pub fn season_images_url(&self, show_id: &str, n: u32) -> (r: String)
        ensures
            r@ == self.entity_url("/tv/"@, show_id@, "/season/"@ + decimal(n as nat) + "/images"@),
    {
        let num = decimal_text(n);
        let tail = String::from_str("/season/").concat(num.as_str()).concat("/images");
        self.entity("/tv/", show_id, tail.as_str())
    }
}

} // verus!
