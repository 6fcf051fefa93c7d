//! The per-item pipeline as a state machine, and the laws of its runs.

use vstd::prelude::*;
use crate::badges::{forced_id, get_forced_tmdb_id, opt_view};
use crate::catalog::{
    guid_list_id, labels_hold, movie_tmdb_id, OneOrMany, PlexClient, PlexLabel, PlexMovie,
    PlexSeason, PlexShow,
};
use crate::text::{lower_of, same_text};

verus! {

/// The label that marks an item whose poster this pipeline has published.
pub const PROCESSED_LABEL: &'static str = "Rustizarr";

/// The most pipelines a batch runs at once.
pub const MAX_CONCURRENCY: usize = 10;

/// How long a webhook-triggered run waits for the media server's own analysis.
pub const WEBHOOK_DELAY_SECS: u64 = 10;

/// How one run of the per-item pipeline ended.
#[derive(Clone, Copy, Debug, PartialEq, Eq, Structural)]
pub enum Outcome {
    /// The item carries the processed label and the run was not forced.
    AlreadyProcessed,
    /// No external id could be found for the item.
    NoExternalId,
    /// The film/TV service offered no poster.
    NoImage,
    /// The poster could not be downloaded or decoded.
    DownloadFailed,
    /// A compositing stage or the encoding failed.
    ComposeFailed,
    /// The media server refused the poster.
    UploadFailed,
    /// The poster was published but the label could not be set.
    ProcessedUnlabeled,
    /// The poster was published and the item labeled.
    Processed,
}

impl Outcome {
    /// The report line of an outcome.
    pub open spec fn message_spec(&self) -> Seq<char> {
        match self {
            Outcome::AlreadyProcessed => "⏭️ already processed"@,
            Outcome::NoExternalId => "⚠️ no external id"@,
            Outcome::NoImage => "❌ no image"@,
            Outcome::DownloadFailed => "❌ poster download failed"@,
            Outcome::ComposeFailed => "❌ compositing failed"@,
            Outcome::UploadFailed => "❌ upload failed"@,
            Outcome::ProcessedUnlabeled => "✅ processed (label not set)"@,
            Outcome::Processed => "✅ processed"@,
        }
    }

    /// A short report line for the outcome.
    pub fn message(&self) -> (r: &'static str)
        ensures
            r@ == self.message_spec(),
    {
        match self {
            Outcome::AlreadyProcessed => "⏭️ already processed",
            Outcome::NoExternalId => "⚠️ no external id",
            Outcome::NoImage => "❌ no image",
            Outcome::DownloadFailed => "❌ poster download failed",
            Outcome::ComposeFailed => "❌ compositing failed",
            Outcome::UploadFailed => "❌ upload failed",
            Outcome::ProcessedUnlabeled => "✅ processed (label not set)",
            Outcome::Processed => "✅ processed",
        }
    }

    /// The run published a poster.
    pub open spec fn is_success_spec(&self) -> bool {
        *self == Outcome::Processed || *self == Outcome::ProcessedUnlabeled
    }

    /// The run published a poster.
    pub fn is_success(&self) -> (r: bool)
        ensures
            r == self.is_success_spec(),
    {
        match self {
            Outcome::Processed | Outcome::ProcessedUnlabeled => true,
            _ => false,
        }
    }
}

/// Where a run of the per-item pipeline stands.
#[derive(Clone, Copy, Debug, PartialEq, Eq, Structural)]
pub enum RunState {
    LookingTextless,
    LookingStandard,
    Downloading,
    Composing,
    Uploading,
    Labeling,
    Done(Outcome),
}

/// What the caller performs next for a run.
#[derive(Clone, Copy, Debug, PartialEq, Eq, Structural)]
pub enum Action {
    /// Ask the film/TV service for a textless poster.
    FetchTextless,
    /// Ask the film/TV service for its standard poster.
    FetchStandard,
    /// Download the poster found and standardize its canvas.
    Download,
    /// Run the compositing stages and encode the result.
    Compose,
    /// Upload the encoded poster to the media server.
    Upload,
    /// Add the processed label to the item.
    AddLabel,
    /// Report the outcome; the run is over.
    Finish(Outcome),
}

/// The answer of a poster lookup.
#[derive(Clone, Copy, Debug, PartialEq, Eq, Structural)]
pub enum Lookup {
    Found,
    Missing,
    Failed,
}

/// What came back from the last action.
#[derive(Clone, Copy, Debug, PartialEq, Eq, Structural)]
pub enum Event {
    Looked(Lookup),
    Downloaded(bool),
    Composed(bool),
    Uploaded(bool),
    Labeled(bool),
}

/// The first state of a run: a labeled item is skipped unless forced; an item without
/// external id gives up; any other looks for a textless poster.
pub open spec fn begin_spec(labeled: bool, force: bool, has_id: bool) -> RunState {
    if labeled && !force {
        RunState::Done(Outcome::AlreadyProcessed)
    } else if !has_id {
        RunState::Done(Outcome::NoExternalId)
    } else {
        RunState::LookingTextless
    }
}

/// One transition. An event that does not answer the pending action leaves the state as it is.
pub open spec fn step_spec(s: RunState, e: Event) -> RunState {
    match (s, e) {
        (RunState::LookingTextless, Event::Looked(Lookup::Found)) => RunState::Downloading,
        (RunState::LookingTextless, Event::Looked(Lookup::Missing)) => RunState::LookingStandard,
        (RunState::LookingTextless, Event::Looked(Lookup::Failed)) => RunState::Done(Outcome::NoImage),
        (RunState::LookingStandard, Event::Looked(Lookup::Found)) => RunState::Downloading,
        (RunState::LookingStandard, Event::Looked(_)) => RunState::Done(Outcome::NoImage),
        (RunState::Downloading, Event::Downloaded(ok)) => if ok {
            RunState::Composing
        } else {
            RunState::Done(Outcome::DownloadFailed)
        },
        (RunState::Composing, Event::Composed(ok)) => if ok {
            RunState::Uploading
        } else {
            RunState::Done(Outcome::ComposeFailed)
        },
        (RunState::Uploading, Event::Uploaded(ok)) => if ok {
            RunState::Labeling
        } else {
            RunState::Done(Outcome::UploadFailed)
        },
        (RunState::Labeling, Event::Labeled(ok)) => if ok {
            RunState::Done(Outcome::Processed)
        } else {
            RunState::Done(Outcome::ProcessedUnlabeled)
        },
        _ => s,
    }
}

/// The action a state waits on.
pub open spec fn pending_spec(s: RunState) -> Action {
    match s {
        RunState::LookingTextless => Action::FetchTextless,
        RunState::LookingStandard => Action::FetchStandard,
        RunState::Downloading => Action::Download,
        RunState::Composing => Action::Compose,
        RunState::Uploading => Action::Upload,
        RunState::Labeling => Action::AddLabel,
        RunState::Done(o) => Action::Finish(o),
    }
}

/// Where a run ends after a sequence of events.
pub open spec fn run(s: RunState, evs: Seq<Event>) -> RunState
    decreases evs.len(),
{
    if evs.len() == 0 {
        s
    } else {
        run(step_spec(s, evs[0]), evs.skip(1))
    }
}

/// How many uploads a run performs: how often it enters the uploading state.
pub open spec fn uploads(s: RunState, evs: Seq<Event>) -> nat
    decreases evs.len(),
{
    if evs.len() == 0 {
        0
    } else {
        let s2 = step_spec(s, evs[0]);
        (if s != RunState::Uploading && s2 == RunState::Uploading { 1nat } else { 0nat })
            + uploads(s2, evs.skip(1))
    }
}

/// The first state of a run.
pub fn begin(labeled: bool, force: bool, has_id: bool) -> (r: RunState)
    ensures
        r == begin_spec(labeled, force, has_id),
{
    if labeled && !force {
        RunState::Done(Outcome::AlreadyProcessed)
    } else if !has_id {
        RunState::Done(Outcome::NoExternalId)
    } else {
        RunState::LookingTextless
    }
}

/// The state after `e` answers the action that `s` waits on.
pub fn step(s: RunState, e: Event) -> (r: RunState)
    ensures
        r == step_spec(s, e),
{
    match (s, e) {
        (RunState::LookingTextless, Event::Looked(Lookup::Found)) => RunState::Downloading,
        (RunState::LookingTextless, Event::Looked(Lookup::Missing)) => RunState::LookingStandard,
        (RunState::LookingTextless, Event::Looked(Lookup::Failed)) => RunState::Done(Outcome::NoImage),
        (RunState::LookingStandard, Event::Looked(Lookup::Found)) => RunState::Downloading,
        (RunState::LookingStandard, Event::Looked(_)) => RunState::Done(Outcome::NoImage),
        (RunState::Downloading, Event::Downloaded(ok)) => if ok {
            RunState::Composing
        } else {
            RunState::Done(Outcome::DownloadFailed)
        },
        (RunState::Composing, Event::Composed(ok)) => if ok {
            RunState::Uploading
        } else {
            RunState::Done(Outcome::ComposeFailed)
        },
        (RunState::Uploading, Event::Uploaded(ok)) => if ok {
            RunState::Labeling
        } else {
            RunState::Done(Outcome::UploadFailed)
        },
        (RunState::Labeling, Event::Labeled(ok)) => if ok {
            RunState::Done(Outcome::Processed)
        } else {
            RunState::Done(Outcome::ProcessedUnlabeled)
        },
        _ => s,
    }
}

/// The action that `s` waits on.
pub fn pending(s: RunState) -> (r: Action)
    ensures
        r == pending_spec(s),
{
    match s {
        RunState::LookingTextless => Action::FetchTextless,
        RunState::LookingStandard => Action::FetchStandard,
        RunState::Downloading => Action::Download,
        RunState::Composing => Action::Compose,
        RunState::Uploading => Action::Upload,
        RunState::Labeling => Action::AddLabel,
        RunState::Done(o) => Action::Finish(o),
    }
}

/// The external id a movie run uses: the pinned id of its title, else the one its guids give.
pub open spec fn movie_run_id(m: PlexMovie, r: Option<Seq<char>>) -> bool {
    match forced_id(lower_of(m.title@)) {
        Some(f) => r == Some(f),
        None => movie_tmdb_id(m, r),
    }
}

/// The first state of a movie run, and the external id it looks posters up by.
pub fn start_movie(movie: &PlexMovie, force: bool) -> (r: (RunState, Option<String>))
    ensures
        movie_run_id(*movie, opt_view(r.1)),
        r.0 == begin_spec(labels_hold(movie.labels, PROCESSED_LABEL@), force, r.1 is Some),
{
    let labeled = movie.has_label(PROCESSED_LABEL);
    let id = match get_forced_tmdb_id(movie.title.as_str()) {
        Some(f) => Some(f),
        None => PlexClient::extract_tmdb_id(movie),
    };
    (begin(labeled, force, id.is_some()), id)
}

/// The first state of a show run, and the external id it looks posters up by.
pub fn start_show(show: &PlexShow, force: bool) -> (r: (RunState, Option<String>))
    ensures
        opt_view(r.1) == guid_list_id(show.guid),
        r.0 == begin_spec(labels_hold(show.label, PROCESSED_LABEL@), force, r.1 is Some),
{
    let labeled = show.has_label(PROCESSED_LABEL);
    let id = PlexClient::extract_tmdb_id_from_show(show);
    (begin(labeled, force, id.is_some()), id)
}

/// The first state of a season run; it looks posters up by its show's external id.
pub fn start_season(season: &PlexSeason, force: bool) -> (r: RunState)
    ensures
        r == begin_spec(labels_hold(season.label, PROCESSED_LABEL@), force, true),
{
    begin(season.has_label(PROCESSED_LABEL), force, true)
}

/// The number of pipelines a batch runs at once: the request, kept within one and the cap.
pub fn clamp_concurrency(requested: usize) -> (r: usize)
    ensures
        1 <= r <= MAX_CONCURRENCY,
        1 <= requested <= MAX_CONCURRENCY ==> r == requested,
        requested > MAX_CONCURRENCY ==> r == MAX_CONCURRENCY,
        requested == 0 ==> r == 1,
{
    if requested > MAX_CONCURRENCY {
        MAX_CONCURRENCY
    } else if requested == 0 {
        1
    } else {
        requested
    }
}

/// The kind of catalog item a webhook asks to process.
#[derive(Clone, Copy, Debug, PartialEq, Eq, Structural)]
pub enum ItemKind {
    Movie,
    Show,
    Season,
}

/// A background run that a webhook asks for.
pub struct WebhookJob {
    pub rating_key: String,
    pub kind: ItemKind,
}

/// The run a webhook event asks for: a `library.new` event about a movie or a show.
pub fn webhook_job(event: &str, rating_key: &str, media_type: &str) -> (r: Option<WebhookJob>)
    ensures
        r is Some == (event@ == "library.new"@ && (media_type@ == "movie"@ || media_type@ == "show"@)),
        r matches Some(j) ==> j.rating_key@ == rating_key@ && (j.kind == ItemKind::Movie) == (
        media_type@ == "movie"@) && (j.kind == ItemKind::Show) == (media_type@ == "show"@),
{
    if !same_text(event, "library.new") {
        return None;
    }
    proof {
        reveal_strlit("movie");
        reveal_strlit("show");
        assert("movie"@[0] != "show"@[0]);
    }
    if same_text(media_type, "movie") {
        Some(WebhookJob { rating_key: String::from_str(rating_key), kind: ItemKind::Movie })
    } else if same_text(media_type, "show") {
        Some(WebhookJob { rating_key: String::from_str(rating_key), kind: ItemKind::Show })
    } else {
        None
    }
}

// ----- laws -----

/// Some tag of the list equals `tag` case-insensitively.
pub open spec fn tags_hold(tags: Seq<Seq<char>>, tag: Seq<char>) -> bool {
    exists|i: int| 0 <= i < tags.len() && lower_of(#[trigger] tags[i]) == lower_of(tag)
}

/// The tags of a label field.
pub open spec fn tags_of(labels: Option<OneOrMany<PlexLabel>>) -> Seq<Seq<char>> {
    match labels {
        Some(o) => o.items().map_values(|l: PlexLabel| l.tag@),
        None => Seq::empty(),
    }
}

/// An item's labels hold a tag exactly when its list of tags does.
pub proof fn lemma_labels_are_tags(labels: Option<OneOrMany<PlexLabel>>, tag: Seq<char>)
    ensures
        labels_hold(labels, tag) == tags_hold(tags_of(labels), tag),
{
    if let Some(o) = labels {
        let t = tags_of(labels);
        if labels_hold(labels, tag) {
            let i = choose|i: int|
                0 <= i < o.items().len() && lower_of((#[trigger] o.items()[i]).tag@) == lower_of(tag);
            assert(t[i] == o.items()[i].tag@);
        }
        if tags_hold(t, tag) {
            let i = choose|i: int| 0 <= i < t.len() && lower_of(#[trigger] t[i]) == lower_of(tag);
            assert(t[i] == o.items()[i].tag@);
        }
    }
}

pub open spec fn rank(s: RunState) -> nat {
    match s {
        RunState::LookingTextless => 0,
        RunState::LookingStandard => 1,
        RunState::Downloading => 2,
        RunState::Composing => 3,
        RunState::Uploading => 4,
        RunState::Labeling => 5,
        RunState::Done(_) => 6,
    }
}

/// A finished run stays finished.
pub proof fn lemma_done_stays(o: Outcome, evs: Seq<Event>)
    ensures
        run(RunState::Done(o), evs) == RunState::Done(o),
        uploads(RunState::Done(o), evs) == 0,
    decreases evs.len(),
{
    if evs.len() > 0 {
        lemma_done_stays(o, evs.skip(1));
    }
}

/// Once the poster is uploaded, no further upload happens.
proof fn lemma_no_upload_after(s: RunState, evs: Seq<Event>)
    requires
        rank(s) >= 4,
    ensures
        uploads(s, evs) == 0,
    decreases evs.len(),
{
    if evs.len() > 0 {
        lemma_no_upload_after(step_spec(s, evs[0]), evs.skip(1));
    }
}

/// A run that starts before the upload and ends labeled uploads exactly once.
proof fn lemma_one_upload(s: RunState, evs: Seq<Event>)
    requires
        rank(s) < 4,
        run(s, evs) == RunState::Done(Outcome::Processed),
    ensures
        uploads(s, evs) == 1,
    decreases evs.len(),
{
    if evs.len() == 0 {
        assert(false);
    } else {
        let s2 = step_spec(s, evs[0]);
        if s2 == RunState::Uploading {
            lemma_no_upload_after(s2, evs.skip(1));
        } else if rank(s2) < 4 {
            lemma_one_upload(s2, evs.skip(1));
        } else {
            let o = s2->Done_0;
            lemma_done_stays(o, evs.skip(1));
        }
    }
}

/// Running the pipeline twice on one item without forcing uploads exactly once: a first
/// run that publishes and labels the poster uploads once, and the second run, which
/// sees the label, is skipped and uploads nothing.
pub proof fn lemma_idempotent_runs(
    tags: Seq<Seq<char>>,
    has_id: bool,
    first: Seq<Event>,
    second: Seq<Event>,
)
    requires
        run(begin_spec(tags_hold(tags, PROCESSED_LABEL@), false, has_id), first)
            == RunState::Done(Outcome::Processed),
    ensures
        uploads(begin_spec(tags_hold(tags, PROCESSED_LABEL@), false, has_id), first) == 1,
        begin_spec(tags_hold(tags.push(PROCESSED_LABEL@), PROCESSED_LABEL@), false, has_id)
            == RunState::Done(Outcome::AlreadyProcessed),
        run(begin_spec(tags_hold(tags.push(PROCESSED_LABEL@), PROCESSED_LABEL@), false, has_id), second)
            == RunState::Done(Outcome::AlreadyProcessed),
        uploads(begin_spec(tags_hold(tags, PROCESSED_LABEL@), false, has_id), first)
            + uploads(begin_spec(tags_hold(tags.push(PROCESSED_LABEL@), PROCESSED_LABEL@), false, has_id), second)
            == 1,
{
    let s1 = begin_spec(tags_hold(tags, PROCESSED_LABEL@), false, has_id);
    if rank(s1) == 6 {
        lemma_done_stays(s1->Done_0, first);
    }
    lemma_one_upload(s1, first);
    let t2 = tags.push(PROCESSED_LABEL@);
    assert(t2[tags.len() as int] == PROCESSED_LABEL@);
    assert(tags_hold(t2, PROCESSED_LABEL@));
    lemma_done_stays(Outcome::AlreadyProcessed, second);
}

/// The same law for a movie: when a run of `m` without forcing publishes and labels its
/// poster, the movie as the server then lists it (`m2`, its tags extended by the
/// processed label) starts skipped, and the two runs upload exactly once in all.
pub proof fn lemma_movie_idempotent(m: PlexMovie, m2: PlexMovie, has_id: bool, first: Seq<Event>, second: Seq<Event>)
    requires
        tags_of(m2.labels) == tags_of(m.labels).push(PROCESSED_LABEL@),
        run(begin_spec(labels_hold(m.labels, PROCESSED_LABEL@), false, has_id), first)
            == RunState::Done(Outcome::Processed),
    ensures
        begin_spec(labels_hold(m2.labels, PROCESSED_LABEL@), false, has_id)
            == RunState::Done(Outcome::AlreadyProcessed),
        uploads(begin_spec(labels_hold(m.labels, PROCESSED_LABEL@), false, has_id), first)
            + uploads(begin_spec(labels_hold(m2.labels, PROCESSED_LABEL@), false, has_id), second)
            == 1,
{
    lemma_labels_are_tags(m.labels, PROCESSED_LABEL@);
    lemma_labels_are_tags(m2.labels, PROCESSED_LABEL@);
    lemma_idempotent_runs(tags_of(m.labels), has_id, first, second);
}

/// Forcing reprocesses: two forced runs that each publish and label the poster upload
/// twice in all, and the item still carries the label after both.
pub proof fn lemma_forced_runs(
    tags: Seq<Seq<char>>,
    has_id: bool,
    first: Seq<Event>,
    second: Seq<Event>,
)
    requires
        run(begin_spec(tags_hold(tags, PROCESSED_LABEL@), true, has_id), first)
            == RunState::Done(Outcome::Processed),
        run(begin_spec(tags_hold(tags.push(PROCESSED_LABEL@), PROCESSED_LABEL@), true, has_id), second)
            == RunState::Done(Outcome::Processed),
    ensures
        uploads(begin_spec(tags_hold(tags, PROCESSED_LABEL@), true, has_id), first)
            + uploads(begin_spec(tags_hold(tags.push(PROCESSED_LABEL@), PROCESSED_LABEL@), true, has_id), second)
            == 2,
        tags_hold(tags.push(PROCESSED_LABEL@).push(PROCESSED_LABEL@), PROCESSED_LABEL@),
{
    let s1 = begin_spec(tags_hold(tags, PROCESSED_LABEL@), true, has_id);
    let t2 = tags.push(PROCESSED_LABEL@);
    let s2 = begin_spec(tags_hold(t2, PROCESSED_LABEL@), true, has_id);
    if rank(s1) == 6 {
        lemma_done_stays(s1->Done_0, first);
    }
    if rank(s2) == 6 {
        lemma_done_stays(s2->Done_0, second);
    }
    lemma_one_upload(s1, first);
    lemma_one_upload(s2, second);
    let t3 = t2.push(PROCESSED_LABEL@);
    assert(t3[t2.len() as int] == PROCESSED_LABEL@);
}

/// A run never uploads more than once, whatever comes back from each action.
pub proof fn lemma_at_most_one_upload(s: RunState, evs: Seq<Event>)
    requires
        rank(s) < 4,
    ensures
        uploads(s, evs) <= 1,
    decreases evs.len(),
{
    if evs.len() > 0 {
        let s2 = step_spec(s, evs[0]);
        if s2 == RunState::Uploading {
            lemma_no_upload_after(s2, evs.skip(1));
        } else if rank(s2) < 4 {
            lemma_at_most_one_upload(s2, evs.skip(1));
        } else {
            lemma_no_upload_after(s2, evs.skip(1));
        }
    }
}

} // verus!
