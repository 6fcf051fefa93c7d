use image::GenericImageView;
use rustizarr::cache::{LibraryCache, CACHE_TTL_SECS};
use rustizarr::catalog::PlexClient;
use rustizarr::layout::{ImageProcessor, CANVAS_HEIGHT, CANVAS_WIDTH, CODEC_BADGE_PERMILLE, TOP_BADGE_PERMILLE};
use rustizarr::pipeline::{clamp_concurrency, Outcome};
use rustizarr::tmdb::{select_textless_poster, standard_poster_url, PosterImage, TmdbClient};

fn poster(path: &str, lang: Option<&str>, w: u32, h: u32, vote: u32) -> PosterImage {
    PosterImage {
        file_path: path.to_string(),
        iso_639_1: lang.map(|s| s.to_string()),
        width: w,
        height: h,
        vote_thousandths: vote,
    }
}

#[test]
fn textless_poster_by_area_then_vote() {
    let ps = vec![
        poster("/en.jpg", Some("en"), 4000, 6000, 9000),
        poster("/a.jpg", Some("xx"), 1000, 1500, 8000),
        poster("/b.jpg", None, 2000, 3000, 5000),
        poster("/c.jpg", Some("null"), 2000, 3000, 6000),
        poster("/d.jpg", Some("xx"), 2000, 3000, 6000),
    ];
    assert_eq!(select_textless_poster(&ps).as_deref(), Some("https://image.tmdb.org/t/p/original/c.jpg"));
}

#[test]
fn french_poster_when_no_textless() {
    let ps = vec![
        poster("/en.jpg", Some("en"), 4000, 6000, 9000),
        poster("/fr1.jpg", Some("fr"), 1000, 1500, 9000),
        poster("/fr2.jpg", Some("fr"), 2000, 3000, 1000),
        poster("/fr3.jpg", Some("fr"), 2000, 3000, 9000),
    ];
    assert_eq!(select_textless_poster(&ps).as_deref(), Some("https://image.tmdb.org/t/p/original/fr2.jpg"));
    assert_eq!(select_textless_poster(&vec![poster("/en.jpg", Some("en"), 1, 1, 1)]), None);
    assert_eq!(select_textless_poster(&Vec::new()), None);
}

#[test]
fn standard_poster() {
    assert_eq!(
        standard_poster_url(&Some("/p.jpg".to_string())).as_deref(),
        Some("https://image.tmdb.org/t/p/original/p.jpg")
    );
    assert_eq!(standard_poster_url(&None), None);
}

#[test]
fn service_urls() {
    let t = TmdbClient::new("KEY".to_string());
    assert_eq!(t.movie_images_url("438631"), "https://api.themoviedb.org/3/movie/438631/images?api_key=KEY");
    assert_eq!(t.movie_url("438631"), "https://api.themoviedb.org/3/movie/438631?api_key=KEY");
    assert_eq!(t.show_url("1399"), "https://api.themoviedb.org/3/tv/1399?api_key=KEY");
    assert_eq!(t.show_images_url("1399"), "https://api.themoviedb.org/3/tv/1399/images?api_key=KEY");
    assert_eq!(t.season_url("1399", 12), "https://api.themoviedb.org/3/tv/1399/season/12?api_key=KEY");
    assert_eq!(t.season_images_url("1399", 2), "https://api.themoviedb.org/3/tv/1399/season/2/images?api_key=KEY");
}

#[test]
fn media_server_urls() {
    let p = PlexClient::new("http://plex:32400".to_string(), "tok".to_string());
    assert_eq!(p.section_url("1", false), "http://plex:32400/library/sections/1/all?type=1&includeGuids=1");
    assert_eq!(p.section_url("2", true), "http://plex:32400/library/sections/2/all?type=2&includeGuids=1");
    assert_eq!(p.children_url("5"), "http://plex:32400/library/metadata/5/children");
    assert_eq!(p.posters_url("5"), "http://plex:32400/library/metadata/5/posters");
    assert_eq!(p.add_label_url("5", "Rustizarr"), "http://plex:32400/library/metadata/5?label%5B0%5D.tag.tag=Rustizarr");
    assert_eq!(p.thumb_url("5"), "http://plex:32400/library/metadata/5/thumb?X-Plex-Token=tok");
    assert_eq!(p.redirect_target("/photo/x.jpg"), "http://plex:32400/photo/x.jpg");
    assert_eq!(p.redirect_target("https://cdn/x.jpg"), "https://cdn/x.jpg");
}

#[test]
fn concurrency_is_clamped() {
    assert_eq!(clamp_concurrency(0), 1);
    assert_eq!(clamp_concurrency(1), 1);
    assert_eq!(clamp_concurrency(4), 4);
    assert_eq!(clamp_concurrency(10), 10);
    assert_eq!(clamp_concurrency(64), 10);
}

#[test]
fn cache_ttl() {
    let mut c = LibraryCache::new();
    assert_eq!(c.cache_duration, CACHE_TTL_SECS);
    assert!(c.get(0).is_none());
    c.update(Vec::new(), 1000);
    assert!(c.get(1000).is_some());
    assert!(c.is_valid(1299));
    assert!(!c.is_valid(1300));
    c.note_outcome(Outcome::NoImage);
    assert!(c.is_valid(1100));
    c.note_outcome(Outcome::ProcessedUnlabeled);
    assert!(!c.is_valid(1100));
    c.update(Vec::new(), 2000);
    c.invalidate();
    assert!(c.get(2001).is_none());
}

#[test]
fn canvas_and_badge_geometry() {
    assert_eq!((CANVAS_WIDTH, CANVAS_HEIGHT), (2000, 3000));
    let h = ImageProcessor::badge_height(CANVAS_HEIGHT, TOP_BADGE_PERMILLE);
    assert_eq!(h, 195);
    assert_eq!(ImageProcessor::badge_height(CANVAS_HEIGHT, CODEC_BADGE_PERMILLE), 150);
    assert_eq!(ImageProcessor::scaled_width(400, 200, 195), 390);
    assert_eq!(ImageProcessor::scaled_width(400, 0, 195), 0);
    assert_eq!(ImageProcessor::top_left_origin(0, 390), Some((30, 30)));
    assert_eq!(ImageProcessor::top_left_origin(1, 390), Some((432, 30)));
    assert_eq!(ImageProcessor::bottom_left_origin(3000, 150), Some((30, 2820)));
    assert_eq!(ImageProcessor::bottom_left_origin(100, 150), None);
    assert_eq!(ImageProcessor::bottom_right_origin(2000, 3000, 390, 195), Some((1580, 2775)));
    assert_eq!(ImageProcessor::score_origin(1580, 2775, 390, 195, 100, 90), (1725, 2829));
}

#[test]
fn any_poster_becomes_the_standard_canvas() {
    let img = image::DynamicImage::new_luma8(3, 2);
    let out = ImageProcessor::standardize(&img);
    assert_eq!((out.width(), out.height()), (2000, 3000));
}

#[test]
fn title_geometry() {
    assert_eq!(ImageProcessor::title_max_width(2000), 1840);
    assert_eq!(ImageProcessor::title_top(3000, 1), 2357);
    assert_eq!(ImageProcessor::title_top(3000, 2), 2145);
    assert_eq!(ImageProcessor::title_top(100, 1), -542);
    assert_eq!(ImageProcessor::title_line_y(2145, 1), 2357);
    assert_eq!(ImageProcessor::title_line_x(2000, 1500), 250);
    assert_eq!(ImageProcessor::title_line_x(2000, 2101), -50);
}

#[test]
fn gradient_geometry_and_overlay_root() {
    assert_eq!(ImageProcessor::gradient_height(1000, 600, 2000), 1200);
    assert_eq!(ImageProcessor::bottom_gradient_y(3000, 1200), Some(1800));
    assert_eq!(ImageProcessor::bottom_gradient_y(3000, 3001), None);
    assert_eq!(ImageProcessor::overlay_root(Some("/env".to_string()), true, Some("/cfg".to_string()), true), "/env");
    assert_eq!(ImageProcessor::overlay_root(Some("/env".to_string()), false, Some("/cfg".to_string()), true), "/cfg");
    assert_eq!(ImageProcessor::overlay_root(None, false, Some("/cfg".to_string()), false), "overlays");
}

#[test]
fn title_layout_refuses_bytes_that_are_no_font() {
    let words = vec!["DUNE".to_string()];
    let scale = rusttype::Scale::uniform(250.0);
    assert!(ImageProcessor::lay_out_title(vec![0, 1, 2, 3], &words, scale, 1840).is_none());
    assert!(ImageProcessor::lay_out_title(Vec::new(), &Vec::new(), scale, 1840).is_none());
}
