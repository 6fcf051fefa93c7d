use rustizarr::badges::{
    coarse_audio_text, get_audience_badge_filename, get_codec_combo_filename,
    get_edition_filename, get_forced_tmdb_id, get_resolution_filename, get_status_filename,
};
use rustizarr::catalog::{OneOrMany, PlexClient, PlexGuid, PlexLabel, PlexMedia, PlexMovie, PlexPart, PlexShow, PlexStream, DAY_SECS};
use rustizarr::plan::{border_fallback, choose_border, movie_plan, score_text, BorderKind, Stage};

fn media(res: Option<&str>, audio: Option<&str>, parts: Option<OneOrMany<PlexPart>>) -> PlexMedia {
    PlexMedia {
        video_resolution: res.map(|s| s.to_string()),
        audio_codec: audio.map(|s| s.to_string()),
        parts,
    }
}

fn stream(kind: u64, display: &str, title: &str, codec: &str, profile: &str, dv: bool) -> PlexStream {
    PlexStream {
        stream_type: kind,
        display_title: display.to_string(),
        title: title.to_string(),
        codec: codec.to_string(),
        audio_profile: profile.to_string(),
        dolby_vision_key: dv,
    }
}

fn one_part(streams: Vec<PlexStream>) -> Option<OneOrMany<PlexPart>> {
    Some(OneOrMany::One(PlexPart { streams: Some(OneOrMany::Many(streams)) }))
}

fn movie(title: &str) -> PlexMovie {
    PlexMovie {
        title: title.to_string(),
        rating_key: "1".to_string(),
        audience_rating: None,
        guids: None,
        guid_str: None,
        year: None,
        media: None,
        added_at: None,
        labels: None,
    }
}

#[test]
fn resolution_table() {
    for (input, want) in [
        ("4k", Some("Ultra-HD.png")),
        ("Ultra HD", Some("Ultra-HD.png")),
        ("1080", Some("1080P.png")),
        ("1080P", Some("1080P.png")),
        ("fhd", Some("1080P.png")),
        ("720", None),
    ] {
        assert_eq!(get_resolution_filename(&media(Some(input), None, None)).as_deref(), want, "{}", input);
    }
    assert_eq!(get_resolution_filename(&media(None, None, None)), None);
}

#[test]
fn edition_table() {
    for (title, want) in [
        ("Blade Runner Director's Cut", Some("Directors-Cut.png")),
        ("Aliens DIRECTOR CUT", Some("Directors-Cut.png")),
        ("The Hobbit Extended", Some("Extended-Edition.png")),
        ("Jaws Remastered", Some("Remastered.png")),
        ("Gladiator Uncut", Some("Uncut.png")),
        ("Oppenheimer IMAX", Some("IMAX.png")),
        ("Dune", None),
    ] {
        assert_eq!(get_edition_filename(&movie(title)), want, "{}", title);
    }
}

#[test]
fn audience_table() {
    assert_eq!(get_audience_badge_filename(850), "audience_score_high.png");
    assert_eq!(get_audience_badge_filename(800), "audience_score_high.png");
    assert_eq!(get_audience_badge_filename(799), "audience_score_mid.png");
    assert_eq!(get_audience_badge_filename(795), "audience_score_mid.png");
    assert_eq!(get_audience_badge_filename(600), "audience_score_mid.png");
    assert_eq!(get_audience_badge_filename(599), "audience_score_low.png");
    assert_eq!(get_audience_badge_filename(0), "audience_score_low.png");
}

#[test]
fn score_text_has_one_decimal() {
    assert_eq!(score_text(850), "8.5");
    assert_eq!(score_text(1000), "10.0");
    assert_eq!(score_text(70), "0.7");
    assert_eq!(score_text(795), "8.0");
    assert_eq!(score_text(794), "7.9");
}

#[test]
fn status_table() {
    assert_eq!(get_status_filename("Returning Series"), "returning_border.png");
    assert_eq!(get_status_filename("returning"), "returning_border.png");
    assert_eq!(get_status_filename("Canceled"), "cancelled_full.png");
    assert_eq!(get_status_filename("CANCELLED"), "cancelled_full.png");
    assert_eq!(get_status_filename("Ended"), "ended_border.png");
    assert_eq!(get_status_filename("In Production"), "airing_border.png");
    assert_eq!(get_status_filename("Pilot"), "airing_border.png");
}

#[test]
fn forced_ids() {
    assert_eq!(get_forced_tmdb_id("Abyss").as_deref(), Some("1025527"));
    assert_eq!(get_forced_tmdb_id("KINGSMAN : LE CERCLE D'OR").as_deref(), Some("343668"));
    assert_eq!(get_forced_tmdb_id("Kingsman The Golden Circle").as_deref(), Some("343668"));
    assert_eq!(get_forced_tmdb_id("The Abyss"), None);
}

#[test]
fn codec_video_precedence() {
    let cases = [
        (vec![stream(1, "HDR10+", "", "", "", false)], Some("Plus.png")),
        (vec![stream(1, "4K HDR10", "", "", "", false)], Some("HDR.png")),
        (vec![stream(1, "", "", "", "", true)], Some("DV.png")),
        (vec![stream(1, "DoVi", "", "", "", false), stream(1, "HDR10+", "", "", "", false)], Some("DV-Plus.png")),
        (vec![stream(1, "SDR", "", "", "", false)], None),
    ];
    for (streams, want) in cases {
        assert_eq!(get_codec_combo_filename(&media(None, None, one_part(streams))).as_deref(), want);
    }
}

#[test]
fn codec_audio_precedence() {
    let cases = [
        (vec![stream(2, "", "", "TrueHD", "", false)], Some("TrueHD.png")),
        (vec![stream(2, "", "", "dca", "DTS:X", false)], Some("DTS-X.png")),
        (vec![stream(2, "", "", "dts", "ma", false)], Some("DTS-HD.png")),
        (vec![stream(2, "Atmos", "", "opus", "", false)], Some("Atmos.png")),
        (vec![stream(2, "", "", "eac3", "", false)], Some("DigitalPlus.png")),
        (vec![stream(2, "", "", "aac", "", false)], None),
        (vec![stream(1, "HDR", "", "", "", false), stream(2, "", "", "ac3", "", false)], Some("HDR-DigitalPlus.png")),
    ];
    for (streams, want) in cases {
        assert_eq!(get_codec_combo_filename(&media(None, Some("truehd"), one_part(streams))).as_deref(), want);
    }
}

#[test]
fn codec_single_stream_object() {
    let part = PlexPart { streams: Some(OneOrMany::One(stream(1, "Dolby Vision", "", "", "", false))) };
    let m = media(None, None, Some(OneOrMany::Many(vec![PlexPart { streams: None }, part])));
    assert_eq!(get_codec_combo_filename(&m).as_deref(), Some("DV.png"));
}

#[test]
fn codec_falls_back_to_coarse_token() {
    assert_eq!(get_codec_combo_filename(&media(None, Some("DCA"), None)).as_deref(), Some("DTS-HD.png"));
    assert_eq!(get_codec_combo_filename(&media(None, Some("truehd"), None)).as_deref(), Some("TrueHD.png"));
    assert_eq!(get_codec_combo_filename(&media(None, Some("eac3"), None)).as_deref(), Some("DigitalPlus.png"));
    assert_eq!(get_codec_combo_filename(&media(None, Some("aac"), None)), None);
    assert_eq!(get_codec_combo_filename(&media(None, None, None)), None);
    let no_streams = Some(OneOrMany::One(PlexPart { streams: None }));
    assert_eq!(get_codec_combo_filename(&media(None, Some("ac3"), no_streams)).as_deref(), Some("DigitalPlus.png"));
    assert_eq!(coarse_audio_text("dts"), Some("DTS-HD"));
}

#[test]
fn documented_table_inputs_all_map() {
    for r in ["4k", "ultra hd", "1080", "1080p", "fhd"] {
        assert!(get_resolution_filename(&media(Some(r), None, None)).is_some());
    }
    for c in ["truehd", "dca", "dts", "eac3", "ac3"] {
        assert!(coarse_audio_text(c).is_some());
    }
    for t in ["director's cut", "director cut", "extended", "remastered", "uncut", "imax"] {
        assert!(get_edition_filename(&movie(t)).is_some());
    }
}

#[test]
fn labels_match_case_insensitively_in_both_shapes() {
    let mut m = movie("X");
    assert!(!m.has_label("Rustizarr"));
    m.labels = Some(OneOrMany::One(PlexLabel { tag: "RUSTIZARR".to_string() }));
    assert!(m.has_label("Rustizarr"));
    m.labels = Some(OneOrMany::Many(vec![
        PlexLabel { tag: "4K".to_string() },
        PlexLabel { tag: "rustizarr".to_string() },
    ]));
    assert!(m.has_label("Rustizarr"));
    m.labels = Some(OneOrMany::Many(vec![PlexLabel { tag: "Other".to_string() }]));
    assert!(!m.has_label("Rustizarr"));
    assert_eq!(PlexClient::label_tags(&m.labels), vec!["Other".to_string()]);
}

#[test]
fn freshness_window_edges() {
    let now: u64 = 1_700_000_000;
    let mut m = movie("X");
    m.added_at = Some(now - 7 * DAY_SECS);
    assert!(m.is_recently_added(now));
    m.added_at = Some(now - 8 * DAY_SECS);
    assert!(!m.is_recently_added(now));
    m.added_at = Some(now - 7 * DAY_SECS - DAY_SECS + 1);
    assert!(m.is_recently_added(now));
    m.added_at = Some(now + 100);
    assert!(m.is_recently_added(now));
    m.added_at = None;
    assert!(!m.is_recently_added(now));
    let mut s = PlexShow {
        title: "S".to_string(),
        rating_key: "2".to_string(),
        year: None,
        audience_rating: None,
        added_at: Some(now - 30 * DAY_SECS),
        guid: None,
        label: None,
        media: None,
    };
    assert!(s.is_recently_added(now));
    s.added_at = Some(now - 31 * DAY_SECS);
    assert!(!s.is_recently_added(now));
}

#[test]
fn one_border_by_priority() {
    let b = choose_border(Some("Canceled"), true);
    assert!(b.kind == BorderKind::Status);
    assert_eq!(b.file, "Status/cancelled_full.png");
    let b = choose_border(None, true);
    assert!(b.kind == BorderKind::RecentlyAdded);
    assert_eq!(b.file, "recently_added.png");
    let b = choose_border(None, false);
    assert!(b.kind == BorderKind::InnerGlow);
    assert_eq!(b.file, "overlay-innerglow.png");
}

#[test]
fn edition_badge_follows_resolution_in_the_stack() {
    let mut m = movie("Gladiator Extended");
    m.media = Some(vec![media(Some("1080p"), None, None)]);
    let plan = movie_plan(&m, 0);
    assert_eq!(
        plan.stages(),
        vec![Stage::Gradients, Stage::Title, Stage::Resolution, Stage::Edition(1), Stage::Border]
    );
    m.media = None;
    let plan = movie_plan(&m, 0);
    assert_eq!(plan.stages(), vec![Stage::Gradients, Stage::Title, Stage::Edition(0), Stage::Border]);
    assert_eq!(border_fallback(BorderKind::Status), Some("overlay-innerglow.png"));
    assert_eq!(border_fallback(BorderKind::InnerGlow), None);
}

#[test]
fn external_ids() {
    let mut m = movie("Matrix");
    m.guids = Some(vec![
        PlexGuid { id: "imdb://tt0133093".to_string() },
        PlexGuid { id: "tmdb://603".to_string() },
    ]);
    assert_eq!(PlexClient::extract_tmdb_id(&m).as_deref(), Some("603"));
    m.guids = None;
    m.guid_str = Some("com.plexapp.agents.themoviedb://604?lang=en".to_string());
    assert_eq!(PlexClient::extract_tmdb_id(&m).as_deref(), Some("604"));
    m.guid_str = Some("com.plexapp.agents.themoviedb://605".to_string());
    assert_eq!(PlexClient::extract_tmdb_id(&m).as_deref(), Some("605"));
    m.guid_str = Some("com.plexapp.agents.imdb://tt1".to_string());
    assert_eq!(PlexClient::extract_tmdb_id(&m), None);
    let s = PlexShow {
        title: "S".to_string(),
        rating_key: "2".to_string(),
        year: None,
        audience_rating: None,
        added_at: None,
        guid: Some(vec![PlexGuid { id: "tvdb://81189".to_string() }, PlexGuid { id: "tmdb://1396".to_string() }]),
        label: None,
        media: None,
    };
    assert_eq!(PlexClient::extract_tmdb_id_from_show(&s).as_deref(), Some("1396"));
}
