//! The compositor's geometry on the standard canvas, and the title word-wrap.

use vstd::prelude::*;

verus! {

/// Every poster is resampled to this width before any stage runs.
pub const CANVAS_WIDTH: u32 = 2000;

/// Every poster is resampled to this height before any stage runs.
pub const CANVAS_HEIGHT: u32 = 3000;

/// Distance of every badge from the canvas edges.
pub const BADGE_MARGIN: u32 = 30;

/// Gap between two badges of the top-left stack.
pub const BADGE_SPACING: u32 = 12;

/// Height of a top-left or audience badge, in thousandths of the canvas height.
pub const TOP_BADGE_PERMILLE: u32 = 65;

/// Height of the codec badge, in thousandths of the canvas height.
pub const CODEC_BADGE_PERMILLE: u32 = 50;

/// Title font size in pixels.
pub const TITLE_FONT_PX: u32 = 250;

/// The bottom of the title block stands this far above the canvas bottom.
pub const TITLE_MARGIN_BOTTOM: u32 = 430;

/// A title line may take this share of the canvas width, in percent.
pub const TITLE_WIDTH_PERCENT: u32 = 92;

/// The rating text is drawn this many pixels below the badge's centre.
pub const SCORE_NUDGE: i64 = 2;

#[verifier::external_type_specification]
#[verifier::external_body]
pub struct ExFont<'a>(rusttype::Font<'a>);

#[verifier::external_type_specification]
#[verifier::external_body]
pub struct ExDynamicImage(image::DynamicImage);

#[verifier::external_type_specification]
#[verifier::external_body]
pub struct ExScale(rusttype::Scale);

/// The width and height of an image, as its `dimensions` reports them.
pub uninterp spec fn image_size(img: image::DynamicImage) -> (nat, nat);

/// Relies on image's `DynamicImage::resize_exact` (Lanczos3): it resamples into a fresh
/// buffer of exactly `w` by `h` pixels, ignoring the aspect ratio.
#[verifier::external_body]
fn resize_exact(img: &image::DynamicImage, w: u32, h: u32) -> (r: image::DynamicImage)
    ensures
        image_size(r) == (w as nat, h as nat),
{
    img.resize_exact(w, h, image::imageops::FilterType::Lanczos3)
}

/// What `rusttype::Font::try_from_vec` was given for a font it accepted.
pub uninterp spec fn font_file(font: rusttype::Font<'static>) -> Seq<u8>;

/// ttf-parser reads a face at index 0 of the font file.
pub uninterp spec fn face_parses(data: Seq<u8>) -> bool;

/// The glyph that the face's character map gives `c`, if any.
pub uninterp spec fn face_cmap(data: Seq<u8>, c: char) -> Option<u16>;

/// The number of glyphs the face declares.
pub uninterp spec fn face_glyph_count(data: Seq<u8>) -> u16;

/// The face gives glyph `id` a horizontal advance.
pub uninterp spec fn face_has_advance(data: Seq<u8>, id: u16) -> bool;

/// The face gives glyph `id` a horizontal side bearing.
pub uninterp spec fn face_has_bearing(data: Seq<u8>, id: u16) -> bool;

/// The pixel width that imageproc's `text_size` gives `text` in `font` at `scale`.
pub uninterp spec fn text_width(font: rusttype::Font<'static>, scale: rusttype::Scale, text: Seq<char>) -> int;

/// Relies on rusttype's `Font::try_from_vec`: it keeps the bytes it was given and
/// accepts them only where ttf-parser's `Face::from_slice(data, 0)` parses them.
#[verifier::external_body]
fn font_from_vec(data: Vec<u8>) -> (r: Option<rusttype::Font<'static>>)
    ensures
        r is Some == face_parses(data@),
        r matches Some(f) ==> font_file(f) == data@,
{
    rusttype::Font::try_from_vec(data)
}

/// Relies on ttf-parser's `Face::from_slice` and `Face::glyph_index`: the character map's
/// glyph for `c`; `None` when the face does not parse.
#[verifier::external_body]
fn cmap_glyph(data: &Vec<u8>, c: char) -> (r: Option<Option<u16>>)
    ensures
        r is Some == face_parses(data@),
        r matches Some(g) ==> g == face_cmap(data@, c),
{
    match ttf_parser::Face::from_slice(data, 0) {
        Ok(face) => Some(face.glyph_index(c).map(|g| g.0)),
        Err(_) => None,
    }
}

/// Relies on ttf-parser's `Face::from_slice` and `Face::number_of_glyphs`.
#[verifier::external_body]
fn glyph_count(data: &Vec<u8>) -> (r: Option<u16>)
    ensures
        r is Some == face_parses(data@),
        r matches Some(n) ==> n == face_glyph_count(data@),
{
    match ttf_parser::Face::from_slice(data, 0) {
        Ok(face) => Some(face.number_of_glyphs()),
        Err(_) => None,
    }
}

/// Relies on ttf-parser's `Face::from_slice` and `Face::glyph_hor_advance`: whether it
/// gives glyph `id` an advance.
#[verifier::external_body]
fn has_advance(data: &Vec<u8>, id: u16) -> (r: Option<bool>)
    ensures
        r is Some == face_parses(data@),
        r matches Some(b) ==> b == face_has_advance(data@, id),
{
    match ttf_parser::Face::from_slice(data, 0) {
        Ok(face) => Some(face.glyph_hor_advance(ttf_parser::GlyphId(id)).is_some()),
        Err(_) => None,
    }
}

/// Relies on ttf-parser's `Face::from_slice` and `Face::glyph_hor_side_bearing`: whether
/// it gives glyph `id` a side bearing.
#[verifier::external_body]
fn has_bearing(data: &Vec<u8>, id: u16) -> (r: Option<bool>)
    ensures
        r is Some == face_parses(data@),
        r matches Some(b) ==> b == face_has_bearing(data@, id),
{
    match ttf_parser::Face::from_slice(data, 0) {
        Ok(face) => Some(face.glyph_hor_side_bearing(ttf_parser::GlyphId(id)).is_some()),
        Err(_) => None,
    }
}

/// rusttype lays `c` out with the character map's glyph, or glyph 0 when the map has
/// none; it asserts that glyph is in range and unwraps its advance and side bearing.
pub open spec fn char_measurable(data: Seq<u8>, c: char) -> bool {
    let id = match face_cmap(data, c) {
        Some(g) => g,
        None => 0u16,
    };
    id < face_glyph_count(data) && face_has_advance(data, id) && face_has_bearing(data, id)
}

/// Every character of `t` can be laid out without a panic.
pub open spec fn text_measurable(data: Seq<u8>, t: Seq<char>) -> bool {
    forall|i: int| 0 <= i < t.len() ==> #[trigger] char_measurable(data, t[i])
}

/// Relies on imageproc's `text_size`: the pixel width and height of `text` laid out in
/// `font` at `scale`. Both start at zero and only grow by taking maxima. rusttype's
/// layout asserts each glyph is in range and unwraps its horizontal metrics, hence the
/// precondition.
#[verifier::external_body]
fn measure_text(scale: rusttype::Scale, font: &rusttype::Font<'static>, text: &str) -> (r: (i32, i32))
    requires
        text_measurable(font_file(*font), text@),
    ensures
        r.0 as int == text_width(*font, scale, text@),
        r.0 >= 0,
        r.1 >= 0,
{
    imageproc::drawing::text_size(scale, font, text)
}

/// Whether one character of a face can be laid out; `false` when the face does not parse.
pub fn char_measurable_exec(data: &Vec<u8>, c: char) -> (r: bool)
    ensures
        r == (face_parses(data@) && char_measurable(data@, c)),
{
    let id = match cmap_glyph(data, c) {
        None => return false,
        Some(Some(g)) => g,
        Some(None) => 0,
    };
    let n = match glyph_count(data) {
        None => return false,
        Some(n) => n,
    };
    if id >= n {
        return false;
    }
    match (has_advance(data, id), has_bearing(data, id)) {
        (Some(a), Some(b)) => a && b,
        _ => false,
    }
}

/// Whether every character of `text` can be laid out in the face.
pub fn text_measurable_exec(data: &Vec<u8>, text: &str) -> (r: bool)
    ensures
        r == (face_parses(data@) && text_measurable(data@, text@)),
{
    let n = text.unicode_len();
    let mut i: usize = 0;
    if n == 0 {
        return glyph_count(data).is_some();
    }
    while i < n
        invariant
            n == text@.len(),
            n > 0,
            i <= n,
            i > 0 ==> face_parses(data@),
            forall|k: int| 0 <= k < i ==> #[trigger] char_measurable(data@, text@[k]),
        decreases n - i,
    {
        let c = text.get_char(i);
        if !char_measurable_exec(data, c) {
            return false;
        }
        i += 1;
    }
    true
}

/// Halves `v`, rounding toward zero.
pub open spec fn half_toward_zero(v: int) -> int {
    if v >= 0 {
        v / 2
    } else {
        -((-v) / 2)
    }
}

/// Words joined by single spaces; empty words add nothing.
pub open spec fn joined(ws: Seq<Seq<char>>) -> Seq<char>
    decreases ws.len(),
{
    if ws.len() == 0 {
        Seq::empty()
    } else if ws.last().len() == 0 {
        joined(ws.drop_last())
    } else if joined(ws.drop_last()).len() == 0 {
        ws.last()
    } else {
        joined(ws.drop_last()) + " "@ + ws.last()
    }
}

pub open spec fn views(v: Seq<String>) -> Seq<Seq<char>> {
    v.map_values(|s: String| s@)
}

/// The compositor: where each layer of a poster goes on the standard canvas.
pub struct ImageProcessor;

impl ImageProcessor {
    /// Resamples a downloaded poster to the standard canvas, whatever its size.
    pub fn standardize(img: &image::DynamicImage) -> (r: image::DynamicImage)
        ensures
            image_size(r) == (CANVAS_WIDTH as nat, CANVAS_HEIGHT as nat),
    {
        resize_exact(img, CANVAS_WIDTH, CANVAS_HEIGHT)
    }

    /// Height of a badge that takes `permille` thousandths of the canvas height.
    pub fn badge_height(canvas_h: u32, permille: u32) -> (r: u32)
        requires
            permille <= 1000,
        ensures
            r == canvas_h as int * permille as int / 1000,
    {
        let (a, b) = (canvas_h as u64, permille as u64);
        assert(a * b <= a * 1000) by (nonlinear_arith)
            requires b <= 1000;
        assert(a * 1000 <= 0xffff_ffff * 1000) by (nonlinear_arith)
            requires a <= 0xffff_ffff;
        let v = a * b / 1000;
        assert(v <= a) by (nonlinear_arith)
            requires v == a * b / 1000, a * b <= a * 1000;
        v as u32
    }

    /// Width of an asset of `src_w` by `src_h` pixels scaled to height `target_h`, keeping
    /// its aspect; at most `u32::MAX`, and zero for an asset without height.
    pub fn scaled_width(src_w: u32, src_h: u32, target_h: u32) -> (r: u32)
        ensures
            src_h == 0 ==> r == 0,
            src_h > 0 ==> r == if src_w as int * target_h as int / src_h as int > u32::MAX {
                u32::MAX as int
            } else {
                src_w as int * target_h as int / src_h as int
            },
    {
        if src_h == 0 {
            return 0;
        }
        let (a, b) = (src_w as u64, target_h as u64);
        assert(a * b <= 0xffff_ffff * 0xffff_ffff) by (nonlinear_arith)
            requires a <= 0xffff_ffff, b <= 0xffff_ffff;
        let v = a * b / src_h as u64;
        if v > u32::MAX as u64 {
            u32::MAX
        } else {
            v as u32
        }
    }

    /// Top-left corner of badge `slot` of the top-left stack, or `None` past `u32::MAX`.
    pub fn top_left_origin(slot: u32, badge_w: u32) -> (r: Option<(u32, u32)>)
        ensures
            r is Some == (BADGE_MARGIN + slot as int * (badge_w as int + BADGE_SPACING) <= u32::MAX),
            r matches Some(p) ==> p.0 == BADGE_MARGIN + slot as int * (badge_w as int + BADGE_SPACING)
                && p.1 == BADGE_MARGIN,
    {
        let step = badge_w as u128 + BADGE_SPACING as u128;
        let k = slot as u128;
        assert(k * step <= 0xffff_ffff * 0x1_0000_000c) by (nonlinear_arith)
            requires k <= 0xffff_ffff, step <= 0x1_0000_000c;
        let x = BADGE_MARGIN as u128 + k * step;
        if x > u32::MAX as u128 {
            None
        } else {
            Some((x as u32, BADGE_MARGIN))
        }
    }

    /// Top-left corner of the codec badge, flush with the bottom margin; `None` when the
    /// badge is taller than the canvas allows.
    pub fn bottom_left_origin(canvas_h: u32, badge_h: u32) -> (r: Option<(u32, u32)>)
        ensures
            r is Some == (badge_h as int + BADGE_MARGIN <= canvas_h),
            r matches Some(p) ==> p.0 == BADGE_MARGIN && p.1 == canvas_h - badge_h - BADGE_MARGIN,
    {
        if badge_h as u64 + BADGE_MARGIN as u64 <= canvas_h as u64 {
            Some((BADGE_MARGIN, canvas_h - badge_h - BADGE_MARGIN))
        } else {
            None
        }
    }

    /// Top-left corner of the audience badge, flush with the bottom and right margins;
    /// `None` when the badge does not fit.
    pub fn bottom_right_origin(canvas_w: u32, canvas_h: u32, badge_w: u32, badge_h: u32) -> (r: Option<(u32, u32)>)
        ensures
            r is Some == (badge_w as int + BADGE_MARGIN <= canvas_w && badge_h as int + BADGE_MARGIN <= canvas_h),
            r matches Some(p) ==> p.0 == canvas_w - badge_w - BADGE_MARGIN && p.1 == canvas_h - badge_h
                - BADGE_MARGIN,
    {
        if badge_w as u64 + BADGE_MARGIN as u64 <= canvas_w as u64 && badge_h as u64 + BADGE_MARGIN as u64
            <= canvas_h as u64 {
            Some((canvas_w - badge_w - BADGE_MARGIN, canvas_h - badge_h - BADGE_MARGIN))
        } else {
            None
        }
    }

    fn half_toward_zero_exec(v: i64) -> (r: i64)
        requires
            v > i64::MIN,
        ensures
            r == half_toward_zero(v as int),
    {
        if v >= 0 {
            v / 2
        } else {
            -((-v) / 2)
        }
    }

    /// Where the rating text goes: centred on the badge, nudged down by two pixels.
    pub fn score_origin(badge_x: u32, badge_y: u32, badge_w: u32, badge_h: u32, text_w: i32, text_h: i32) -> (r: (i64, i64))
        ensures
            r.0 == badge_x + half_toward_zero(badge_w - text_w),
            r.1 == badge_y + half_toward_zero(badge_h - text_h) + SCORE_NUDGE,
    {
        let dx = Self::half_toward_zero_exec(badge_w as i64 - text_w as i64);
        let dy = Self::half_toward_zero_exec(badge_h as i64 - text_h as i64);
        (badge_x as i64 + dx, badge_y as i64 + dy + SCORE_NUDGE)
    }

    /// The widest a title line may be.
    pub fn title_max_width(canvas_w: u32) -> (r: i64)
        ensures
            r == canvas_w as int * TITLE_WIDTH_PERCENT / 100,
    {
        let w = canvas_w as i64;
        assert(w * 92 <= 0xffff_ffff * 92) by (nonlinear_arith)
            requires 0 <= w <= 0xffff_ffff;
        w * TITLE_WIDTH_PERCENT as i64 / 100
    }

    /// Top of a title block of `lines` lines whose bottom stands 430 pixels above the
    /// canvas bottom; lines are 0.85 of the font size apart (212.5 pixels), and the
    /// result is rounded toward zero.
    pub fn title_top(canvas_h: u32, lines: u32) -> (r: i64)
        ensures
            r == half_toward_zero(2 * canvas_h - 2 * TITLE_MARGIN_BOTTOM - 425 * lines),
    {
        let v = 2 * canvas_h as i64 - 2 * TITLE_MARGIN_BOTTOM as i64 - 425 * lines as i64;
        Self::half_toward_zero_exec(v)
    }

    /// Top of title line `i`, below the block's top.
    pub fn title_line_y(top: i64, i: u32) -> (r: i64)
        requires
            i64::MIN / 2 <= top <= i64::MAX / 2,
        ensures
            r == top + (425 * i) / 2,
    {
        top + (425 * i as i64) / 2
    }

    /// Left edge of a centred title line of width `w`, rounded toward zero.
    pub fn title_line_x(canvas_w: u32, w: i32) -> (r: i64)
        ensures
            r == half_toward_zero(canvas_w - w),
    {
        Self::half_toward_zero_exec(canvas_w as i64 - w as i64)
    }

    /// The overlay root: the configured path when it exists, else the per-user
    /// configuration directory's one when it exists, else `overlays` below the working
    /// directory (whether or not it exists; stages then warn and skip).
    pub fn overlay_root(configured: Option<String>, configured_exists: bool, user_dir: Option<String>, user_dir_exists: bool) -> (r: String)
        ensures
            r@ == match (configured, user_dir) {
                (Some(c), _) if configured_exists => c@,
                (_, Some(u)) if user_dir_exists => u@,
                _ => "overlays"@,
            },
    {
        match configured {
            Some(c) if configured_exists => c,
            _ => match user_dir {
                Some(u) if user_dir_exists => u,
                _ => String::from_str("overlays"),
            },
        }
    }

    /// Height of a gradient asset of `src_w` by `src_h` pixels scaled to the canvas width,
    /// keeping its aspect; at most `u32::MAX`, and zero for an asset without width.
    pub fn gradient_height(src_w: u32, src_h: u32, canvas_w: u32) -> (r: u32)
        ensures
            src_w == 0 ==> r == 0,
            src_w > 0 ==> r == if src_h as int * canvas_w as int / src_w as int > u32::MAX {
                u32::MAX as int
            } else {
                src_h as int * canvas_w as int / src_w as int
            },
    {
        Self::scaled_width(src_h, src_w, canvas_w)
    }

    /// Top of the bottom gradient, flush with the canvas bottom; `None` when it is taller
    /// than the canvas.
    pub fn bottom_gradient_y(canvas_h: u32, gradient_h: u32) -> (r: Option<u32>)
        ensures
            r is Some == (gradient_h <= canvas_h),
            r matches Some(y) ==> y == canvas_h - gradient_h,
    {
        if gradient_h <= canvas_h {
            Some(canvas_h - gradient_h)
        } else {
            None
        }
    }

    /// Breaks a title into lines greedily: each word joins the current line when the
    /// joined line, measured in `font` at `scale`, is at most `max_width` wide, and starts
    /// a new line otherwise. `starts` holds where each line begins among the words.
    pub fn wrap_title(words: &Vec<String>, font: &rusttype::Font<'static>, scale: rusttype::Scale, max_width: i64) -> (r: (Vec<String>, Ghost<Seq<int>>))
        requires
            forall|k: int| 0 <= k < words@.len() ==> (#[trigger] words@[k])@.len() > 0,
            forall|k: int| 0 <= k < words@.len() ==> text_measurable(font_file(*font), (#[trigger] words@[k])@),
            char_measurable(font_file(*font), ' '),
        ensures
            wrapped(views(words@), r.1@, views(r.0@), *font, scale, max_width as int),
    {
        let ghost data = font_file(*font);
        let ghost ws = views(words@);
        proof {
            reveal_strlit(" ");
            assert(" "@[0] == ' ');
            assert(text_measurable(data, " "@));
            assert(ws.subrange(0, 0) =~= Seq::<Seq<char>>::empty());
            assert(joined(Seq::<Seq<char>>::empty()) == Seq::<char>::empty());
        }
        let mut lines: Vec<String> = Vec::new();
        let mut current = String::new();
        proof {
            assert(current@ =~= Seq::<char>::empty());
        }
        let ghost mut st: Seq<int> = Seq::empty();
        let ghost mut cs: int = 0;
        let n = words.len();
        let mut i: usize = 0;
        while i < n
            invariant
                n == words@.len(),
                ws == views(words@),
                data == font_file(*font),
                forall|k: int| 0 <= k < words@.len() ==> (#[trigger] words@[k])@.len() > 0,
                forall|k: int| 0 <= k < words@.len() ==> text_measurable(data, (#[trigger] words@[k])@),
                char_measurable(data, ' '),
                i <= n,
                0 <= cs <= i,
                i == 0 ==> current@.len() == 0 && cs == 0 && lines@.len() == 0,
                i > 0 ==> cs < i && current@.len() > 0,
                current@ == joined(ws.subrange(cs, i as int)),
                text_measurable(data, current@),
                i - cs >= 2 ==> text_width(*font, scale, current@) <= max_width,
                st.len() == lines@.len(),
                lines@.len() > 0 ==> st[0] == 0,
                i > 0 && lines@.len() == 0 ==> cs == 0,
                forall|k: int| 0 <= k < st.len() ==> #[trigger] st[k] < line_end(st, k, cs),
                forall|k: int| 0 <= k < st.len() ==> (#[trigger] lines@[k])@ == joined(ws.subrange(st[k], line_end(st, k, cs))),
                forall|k: int| 0 <= k < st.len() && line_end(st, k, cs) - st[k] >= 2 ==>
                    text_width(*font, scale, (#[trigger] lines@[k])@) <= max_width,
                forall|k: int| 0 <= k < st.len() ==>
                    text_width(*font, scale, (#[trigger] lines@[k])@ + " "@ + ws[line_end(st, k, cs)]) > max_width,
            decreases n - i,
        {
            let word = words[i].as_str();
            proof {
                lemma_seg_extend(ws, cs, i as int);
                assert(ws[i as int] == word@);
            }
            if current.unicode_len() == 0 {
                current = String::from_str(word);
                proof {
                    assert(cs == i);
                    assert(ws.subrange(cs, i + 1) =~= seq![word@]);
                    lemma_joined_one(word@);
                }
            } else {
                let attempt = current.clone().concat(" ").concat(word);
                proof {
                    reveal_strlit(" ");
                    assert(" "@[0] == ' ');
                    assert(text_measurable(data, " "@));
                    lemma_measurable_concat(data, current@, " "@, word@);
                }
                let (w, _) = measure_text(scale, font, attempt.as_str());
                if w as i64 > max_width {
                    let ghost old_st = st;
                    let ghost old_cs = cs;
                    lines.push(current);
                    proof {
                        st = st.push(cs);
                        cs = i as int;
                        assert forall|k: int| 0 <= k < st.len() implies line_end(st, k, cs) == if k + 1 < st.len() { st[k + 1] } else { cs } by {}
                        assert forall|k: int| 0 <= k < old_st.len() implies line_end(st, k, cs) == line_end(old_st, k, old_cs) by {}
                        assert(ws.subrange(cs, i + 1) =~= seq![word@]);
                        lemma_joined_one(word@);
                    }
                    current = String::from_str(word);
                } else {
                    current = attempt;
                }
            }
            i += 1;
        }
        let ghost fin = st;
        let ghost fin_lines = lines@;
        let ghost last = current@;
        if current.unicode_len() > 0 {
            lines.push(current);
            proof {
                st = st.push(cs);
                assert forall|k: int| 0 <= k < fin.len() implies line_end(st, k, n as int) == line_end(fin, k, cs) by {}
                assert(line_end(st, fin.len() as int, n as int) == n);
                assert forall|k: int| 0 <= k < fin.len() implies lines@[k] == fin_lines[k] by {}
                assert(lines@[fin.len() as int]@ == last);
            }
        } else {
            proof {
                assert(n == 0);
            }
        }
        proof {
            let ls = views(lines@);
            let nn = ws.len() as int;
            assert(ls.len() == lines@.len());
            assert(st.len() == ls.len());
            assert(nn == n);
            assert((nn == 0) == (ls.len() == 0));
            assert(ls.len() > 0 ==> st[0] == 0);
            assert forall|k: int| 0 <= k < st.len() implies ls[k] == lines@[k]@ by {}
            assert forall|k: int| 0 <= k < st.len() implies #[trigger] st[k] < line_end(st, k, nn) by {
                if k < fin.len() {
                    assert(line_end(st, k, nn) == line_end(fin, k, cs));
                }
            }
            assert forall|k: int| 0 <= k < st.len() implies #[trigger] ls[k] == joined(ws.subrange(st[k], line_end(st, k, nn))) by {
                assert(ls[k] == lines@[k]@);
                if k < fin.len() {
                    assert(line_end(st, k, nn) == line_end(fin, k, cs));
                }
            }
            assert forall|k: int| 0 <= k < st.len() && line_end(st, k, nn) - st[k] >= 2 implies
                text_width(*font, scale, #[trigger] ls[k]) <= max_width by {
                assert(ls[k] == lines@[k]@);
                if k < fin.len() {
                    assert(line_end(st, k, nn) == line_end(fin, k, cs));
                }
            }
            assert forall|k: int| 0 <= k && k + 1 < st.len() implies
                text_width(*font, scale, #[trigger] ls[k] + " "@ + ws[st[k + 1]]) > max_width by {
                assert(ls[k] == lines@[k]@);
                assert(k < fin.len());
                assert(line_end(fin, k, cs) == st[k + 1]);
            }
        }
        (lines, Ghost(st))
    }

    /// Loads the title font from its file and breaks the title's words into lines as
    /// `wrap_title` does. `None` when the file is no font, when a word is empty, or when
    /// a character of the title or the space has a glyph without horizontal metrics.
    pub fn lay_out_title(font_data: Vec<u8>, words: &Vec<String>, scale: rusttype::Scale, max_width: i64) -> (r: Option<(rusttype::Font<'static>, Vec<String>, Ghost<Seq<int>>)>)
        ensures
            r is Some == (face_parses(font_data@) && char_measurable(font_data@, ' ')
                && forall|k: int| 0 <= k < words@.len() ==> (#[trigger] words@[k])@.len() > 0
                    && text_measurable(font_data@, words@[k]@)),
            r matches Some(t) ==> font_file(t.0) == font_data@
                && wrapped(views(words@), t.2@, views(t.1@), t.0, scale, max_width as int),
    {
        if !text_measurable_exec(&font_data, " ") {
            proof {
                reveal_strlit(" ");
            }
            return None;
        }
        proof {
            reveal_strlit(" ");
            assert(" "@[0] == ' ');
        }
        let n = words.len();
        let mut i: usize = 0;
        while i < n
            invariant
                n == words@.len(),
                i <= n,
                forall|k: int| 0 <= k < i ==> (#[trigger] words@[k])@.len() > 0
                    && text_measurable(font_data@, words@[k]@),
            decreases n - i,
        {
            let w = words[i].as_str();
            if w.unicode_len() == 0 || !text_measurable_exec(&font_data, w) {
                return None;
            }
            i += 1;
        }
        let ghost data = font_data@;
        match font_from_vec(font_data) {
            None => None,
            Some(font) => {
                let (lines, starts) = Self::wrap_title(words, &font, scale, max_width);
                Some((font, lines, starts))
            },
        }
    }
}

/// Where line `k` ends among the words: the next line's start, or `last` for the last line.
pub open spec fn line_end(st: Seq<int>, k: int, last: int) -> int {
    if k + 1 < st.len() {
        st[k + 1]
    } else {
        last
    }
}

/// `lines` is the greedy wrap of the words `ws`, line `k` holding the words from `st[k]`
/// up to the next line's start: the lines cover the words in order, a line of two or
/// more words measures at most `max`, and each line but the last would measure more than
/// `max` with the next line's first word added.
pub open spec fn wrapped(ws: Seq<Seq<char>>, st: Seq<int>, lines: Seq<Seq<char>>, font: rusttype::Font<'static>, scale: rusttype::Scale, max: int) -> bool {
    &&& st.len() == lines.len()
    &&& ws.len() == 0 <==> lines.len() == 0
    &&& lines.len() > 0 ==> st[0] == 0
    &&& forall|k: int| 0 <= k < st.len() ==> #[trigger] st[k] < line_end(st, k, ws.len() as int)
    &&& forall|k: int| 0 <= k < st.len() ==> #[trigger] lines[k] == joined(ws.subrange(st[k], line_end(st, k, ws.len() as int)))
    &&& forall|k: int| 0 <= k < st.len() && line_end(st, k, ws.len() as int) - st[k] >= 2 ==>
        text_width(font, scale, #[trigger] lines[k]) <= max
    &&& forall|k: int| 0 <= k && k + 1 < st.len() ==>
        text_width(font, scale, #[trigger] lines[k] + " "@ + ws[st[k + 1]]) > max
}

proof fn lemma_joined_one(w: Seq<char>)
    requires
        w.len() > 0,
    ensures
        joined(seq![w]) == w,
{
    assert(seq![w].drop_last() =~= Seq::<Seq<char>>::empty());
    assert(joined(Seq::<Seq<char>>::empty()) == Seq::<char>::empty());
    assert(seq![w].last() == w);
}

/// A run of non-empty words joins to a non-empty text, and one more word adds a space
/// and that word.
proof fn lemma_seg_extend(ws: Seq<Seq<char>>, a: int, b: int)
    requires
        0 <= a <= b < ws.len(),
        forall|k: int| 0 <= k < ws.len() ==> (#[trigger] ws[k]).len() > 0,
    ensures
        a < b ==> joined(ws.subrange(a, b + 1)) == joined(ws.subrange(a, b)) + " "@ + ws[b],
        a < b ==> joined(ws.subrange(a, b)).len() > 0,
    decreases b - a,
{
    assert(ws.subrange(a, b + 1).drop_last() =~= ws.subrange(a, b));
    if a < b {
        lemma_seg_extend(ws, a, b - 1);
        assert(ws.subrange(a, b).last() == ws[b - 1]);
        if a == b - 1 {
            assert(ws.subrange(a, b).drop_last() =~= Seq::<Seq<char>>::empty());
        }
    }
}

proof fn lemma_measurable_concat(data: Seq<u8>, a: Seq<char>, b: Seq<char>, c: Seq<char>)
    requires
        text_measurable(data, a),
        text_measurable(data, b),
        text_measurable(data, c),
    ensures
        text_measurable(data, a + b + c),
{
    let t = a + b + c;
    assert forall|i: int| 0 <= i < t.len() implies #[trigger] char_measurable(data, t[i]) by {
        if i < a.len() {
            assert(t[i] == a[i]);
        } else if i < a.len() + b.len() {
            assert(t[i] == b[i - a.len()]);
        } else {
            assert(t[i] == c[i - a.len() - b.len()]);
        }
    }
}

} // verus!
