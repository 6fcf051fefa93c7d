use rustizarr::badges::get_codec_combo_filename;
use rustizarr::cache::LibraryCache;
use rustizarr::catalog::{
    OneOrMany, PlexClient, PlexGuid, PlexLabel, PlexMedia, PlexMovie, PlexPart, PlexSeason,
    PlexShow, PlexStream, DAY_SECS,
};
use rustizarr::pipeline::{
    begin, pending, start_movie, start_season, start_show, step, webhook_job, Action, Event,
    ItemKind, Lookup, Outcome, RunState, PROCESSED_LABEL, WEBHOOK_DELAY_SECS,
};
use rustizarr::plan::{movie_plan, season_plan, show_plan, season_title_text, BorderKind, Stage};

const NOW: u64 = 1_700_000_000;

fn stream(kind: u64, display: &str, title: &str, codec: &str, profile: &str) -> PlexStream {
    PlexStream {
        stream_type: kind,
        display_title: display.to_string(),
        title: title.to_string(),
        codec: codec.to_string(),
        audio_profile: profile.to_string(),
        dolby_vision_key: false,
    }
}

fn dune(labels: Option<OneOrMany<PlexLabel>>) -> PlexMovie {
    let streams = vec![
        stream(2, "", "Atmos 7.1", "truehd", ""),
        stream(1, "Dolby Vision · HDR10", "", "", ""),
    ];
    PlexMovie {
        title: "Dune".to_string(),
        rating_key: "M1".to_string(),
        audience_rating: Some(850),
        guids: Some(vec![PlexGuid { id: "tmdb://438631".to_string() }]),
        guid_str: None,
        year: Some(2021),
        media: Some(vec![PlexMedia {
            video_resolution: Some("4k".to_string()),
            audio_codec: Some("truehd".to_string()),
            parts: Some(OneOrMany::Many(vec![PlexPart { streams: Some(OneOrMany::Many(streams)) }])),
        }]),
        added_at: Some(NOW - 2 * DAY_SECS),
        labels,
    }
}

fn show(title: &str, label: Option<OneOrMany<PlexLabel>>, added_at: Option<u64>) -> PlexShow {
    PlexShow {
        title: title.to_string(),
        rating_key: "S1".to_string(),
        year: None,
        audience_rating: None,
        added_at,
        guid: Some(vec![PlexGuid { id: "tmdb://1399".to_string() }]),
        label,
        media: None,
    }
}

/// Drives a run to its end, answering every action with success.
fn run_all_ok(mut s: RunState) -> (Outcome, usize) {
    let mut uploads = 0;
    loop {
        let e = match pending(s) {
            Action::FetchTextless | Action::FetchStandard => Event::Looked(Lookup::Found),
            Action::Download => Event::Downloaded(true),
            Action::Compose => Event::Composed(true),
            Action::Upload => {
                uploads += 1;
                Event::Uploaded(true)
            }
            Action::AddLabel => Event::Labeled(true),
            Action::Finish(o) => return (o, uploads),
        };
        s = step(s, e);
    }
}

#[test]
fn scenario_movie_fully_processed() {
    let movie = dune(None);
    let media = &movie.media.as_ref().unwrap()[0];
    assert_eq!(get_codec_combo_filename(media).as_deref(), Some("DV-HDR-TrueHD-Atmos.png"));
    let plan = movie_plan(&movie, NOW);
    assert_eq!(plan.title, "DUNE");
    assert_eq!(plan.resolution.as_deref(), Some("media_info/resolution/Ultra-HD.png"));
    assert_eq!(plan.codec.as_deref(), Some("media_info/codec/DV-HDR-TrueHD-Atmos.png"));
    assert_eq!(plan.edition, None);
    let audience = plan.audience.as_ref().unwrap();
    assert_eq!(audience.file, "audience_score/audience_score_high.png");
    assert_eq!(audience.score, "8.5");
    assert!(plan.border.kind == BorderKind::RecentlyAdded);
    assert_eq!(plan.border.file, "recently_added.png");
    assert_eq!(
        plan.stages(),
        vec![Stage::Gradients, Stage::Title, Stage::Resolution, Stage::Codec, Stage::Audience, Stage::Border]
    );
    let (s, id) = start_movie(&movie, false);
    assert_eq!(id.as_deref(), Some("438631"));
    assert!(s == RunState::LookingTextless);
    assert!(pending(s) == Action::FetchTextless);
    assert_eq!(run_all_ok(s), (Outcome::Processed, 1));
}

#[test]
fn scenario_replay_is_skipped() {
    let labels = Some(OneOrMany::Many(vec![PlexLabel { tag: PROCESSED_LABEL.to_string() }]));
    let movie = dune(labels);
    let (s, _) = start_movie(&movie, false);
    assert!(s == RunState::Done(Outcome::AlreadyProcessed));
    assert_eq!(Outcome::AlreadyProcessed.message(), "⏭️ already processed");
    assert_eq!(run_all_ok(s), (Outcome::AlreadyProcessed, 0));
}

#[test]
fn scenario_ended_show_takes_status_border() {
    for added in [Some(NOW), Some(NOW - 400 * DAY_SECS), None] {
        let s = show("Breaking Bad", None, added);
        let plan = show_plan(&s, Some("Ended"), NOW);
        assert!(plan.border.kind == BorderKind::Status);
        assert_eq!(plan.border.file, "Status/ended_border.png");
        assert!(plan.resolution.is_none() && plan.codec.is_none() && plan.edition.is_none());
    }
    let (st, id) = start_show(&show("Breaking Bad", None, None), false);
    assert!(st == RunState::LookingTextless);
    assert_eq!(id.as_deref(), Some("1399"));
}

#[test]
fn scenario_season_title_and_border() {
    let season = PlexSeason {
        title: "Season 2".to_string(),
        rating_key: "S1-2".to_string(),
        season_number: 2,
        show_title: "Severance".to_string(),
        show_rating_key: "S1".to_string(),
        audience_rating: None,
        added_at: None,
        media: None,
        label: None,
    };
    assert_eq!(season_title_text(&season), "Severance - Saison 2");
    let plan = season_plan(&season, Some("Returning Series"), NOW);
    assert_eq!(plan.title, "SEVERANCE - SAISON 2");
    assert_eq!(plan.border.file, "Status/returning_border.png");
    assert_eq!(plan.stages(), vec![Stage::Gradients, Stage::Title, Stage::Border]);
    assert!(start_season(&season, false) == RunState::LookingTextless);
}

#[test]
fn scenario_movie_without_id_is_skipped_softly() {
    let mut movie = dune(None);
    movie.title = "Some Obscure Film".to_string();
    movie.guids = Some(vec![PlexGuid { id: "imdb://tt0000001".to_string() }]);
    movie.guid_str = Some("plex://movie/5d776".to_string());
    let (s, id) = start_movie(&movie, false);
    assert_eq!(id, None);
    assert!(s == RunState::Done(Outcome::NoExternalId));
    assert_eq!(run_all_ok(s), (Outcome::NoExternalId, 0));
}

#[test]
fn scenario_webhook_runs_and_invalidates() {
    let job = webhook_job("library.new", "99", "movie").unwrap();
    assert_eq!(job.rating_key, "99");
    assert!(job.kind == ItemKind::Movie);
    assert_eq!(WEBHOOK_DELAY_SECS, 10);
    let plex = PlexClient::new("http://plex:32400".to_string(), "tok".to_string());
    assert_eq!(plex.metadata_url(&job.rating_key), "http://plex:32400/library/metadata/99");
    let mut cache = LibraryCache::new();
    cache.update(Vec::new(), NOW);
    assert!(cache.is_valid(NOW + 5));
    cache.note_outcome(Outcome::Processed);
    assert!(!cache.is_valid(NOW + 5));
    assert!(cache.get(NOW + 5).is_none());
}

#[test]
fn webhook_ignores_other_events() {
    assert!(webhook_job("library.new", "7", "show").unwrap().kind == ItemKind::Show);
    assert!(webhook_job("library.new", "7", "episode").is_none());
    assert!(webhook_job("media.play", "7", "movie").is_none());
}

#[test]
fn second_run_without_force_uploads_nothing() {
    let movie = dune(None);
    let (s, _) = start_movie(&movie, false);
    let (o1, u1) = run_all_ok(s);
    assert_eq!(o1, Outcome::Processed);
    let labeled = dune(Some(OneOrMany::One(PlexLabel { tag: PROCESSED_LABEL.to_string() })));
    let (s2, _) = start_movie(&labeled, false);
    let (o2, u2) = run_all_ok(s2);
    assert_eq!(o2, Outcome::AlreadyProcessed);
    assert_eq!(u1 + u2, 1);
}

#[test]
fn forced_runs_upload_twice() {
    let labeled = dune(Some(OneOrMany::One(PlexLabel { tag: "rustizarr".to_string() })));
    assert!(labeled.has_label(PROCESSED_LABEL));
    let (s1, _) = start_movie(&labeled, true);
    let (s2, _) = start_movie(&labeled, true);
    let (o1, u1) = run_all_ok(s1);
    let (o2, u2) = run_all_ok(s2);
    assert_eq!((o1, o2), (Outcome::Processed, Outcome::Processed));
    assert_eq!(u1 + u2, 2);
    assert!(labeled.has_label(PROCESSED_LABEL));
}

#[test]
fn failures_end_runs_before_upload() {
    let s = begin(false, false, true);
    let s = step(s, Event::Looked(Lookup::Missing));
    assert!(pending(s) == Action::FetchStandard);
    assert!(step(s, Event::Looked(Lookup::Missing)) == RunState::Done(Outcome::NoImage));
    assert!(step(RunState::LookingTextless, Event::Looked(Lookup::Failed)) == RunState::Done(Outcome::NoImage));
    assert!(step(RunState::Downloading, Event::Downloaded(false)) == RunState::Done(Outcome::DownloadFailed));
    assert!(step(RunState::Composing, Event::Composed(false)) == RunState::Done(Outcome::ComposeFailed));
    assert!(step(RunState::Uploading, Event::Uploaded(false)) == RunState::Done(Outcome::UploadFailed));
    let unlabeled = step(RunState::Labeling, Event::Labeled(false));
    assert!(unlabeled == RunState::Done(Outcome::ProcessedUnlabeled));
    assert!(Outcome::ProcessedUnlabeled.is_success());
    assert!(!Outcome::UploadFailed.is_success());
    assert!(step(RunState::Uploading, Event::Composed(true)) == RunState::Uploading);
}

#[test]
fn batch_order_does_not_change_outcomes() {
    let movies = vec![
        dune(None),
        dune(Some(OneOrMany::One(PlexLabel { tag: "Rustizarr".to_string() }))),
        {
            let mut m = dune(None);
            m.guids = None;
            m.title = "Nothing".to_string();
            m
        },
    ];
    let forward: Vec<Outcome> = movies.iter().map(|m| run_all_ok(start_movie(m, false).0).0).collect();
    let backward: Vec<Outcome> = movies.iter().rev().map(|m| run_all_ok(start_movie(m, false).0).0).collect();
    let mut reversed = backward.clone();
    reversed.reverse();
    assert_eq!(forward, reversed);
    assert_eq!(forward, vec![Outcome::Processed, Outcome::AlreadyProcessed, Outcome::NoExternalId]);
}
