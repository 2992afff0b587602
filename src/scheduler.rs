//! The poll scheduler: decides, cycle after cycle, whether to keep a local
//! picture, resolve and download a new one, or back off after a failure, and
//! when to look again. It performs no I/O: each step takes the outcome of the
//! last request and names the next one.

use vstd::prelude::*;
use crate::cache::LocalPicture;
use crate::date::{
    decoded_instant, has_valid_date, is_instant, next_default_hour, parse_bing_date,
    predict_next_poll_time, SECONDS_PER_HOUR, SECONDS_PER_MINUTE,
};
use crate::picture::{
    image_file_name, BingImage, DownloadImageError, ImageOfTheDayError, BING_BASE_URL, UHD_SUFFIX,
};
use crate::text::{join_path, joined};

verus! {

/// Delay before a cycle that failed is tried again.
pub const RETRY_DELAY: i64 = SECONDS_PER_HOUR;

/// Delay before today's picture is fetched when yesterday's was found at start.
pub const YESTERDAY_GRACE: i64 = SECONDS_PER_MINUTE;

/// Where a cycle stands.
#[derive(Debug, Clone, PartialEq, Eq)]
pub enum PollStage {
    /// Between cycles, waiting for the next poll instant.
    Idle,
    /// Waiting for the metadata of today's picture.
    AwaitingImage,
    /// Waiting to learn whether the picture is already stored at `path`.
    AwaitingExists { path: String, url: String, end_date: String },
    /// Waiting for the download of `url` into `path`.
    AwaitingDownload { path: String, url: String, end_date: String },
}

/// The outcome of the request a cycle made.
#[derive(Debug, PartialEq, Eq)]
pub enum PollEvent {
    Image(Result<BingImage, ImageOfTheDayError>),
    Exists(bool),
    Downloaded(Result<(), DownloadImageError>),
}

/// What the scheduler asks for next.
#[derive(Debug, Clone, PartialEq, Eq)]
pub enum PollAction {
    /// Fetch the metadata of today's picture.
    QueryImage,
    /// Tell whether a file is stored at `path`.
    CheckExists { path: String },
    /// Store the image at `url` in the file `path`.
    Download { url: String, path: String },
    /// Show the picture at `path` on every output, then sleep until `until`.
    Apply { path: String, until: i64 },
    /// Keep the picture shown and sleep until `until`.
    Sleep { until: i64 },
}

/// The scheduler's state: the picture it shows, when it polls next, and the
/// cycle in progress.
#[derive(Debug, Clone, PartialEq, Eq)]
pub struct Scheduler {
    pub directory: String,
    pub current_picture: String,
    pub next_poll: i64,
    pub stage: PollStage,
}

pub enum StageView {
    Idle,
    AwaitingImage,
    AwaitingExists { path: Seq<char>, url: Seq<char>, end_date: Seq<char> },
    AwaitingDownload { path: Seq<char>, url: Seq<char>, end_date: Seq<char> },
}

pub enum EventView {
    ImageFound { start_date: Seq<char>, end_date: Seq<char>, title: Seq<char>, url_base: Seq<char> },
    ImageFailed,
    Exists(bool),
    DownloadDone,
    DownloadFailed,
}

pub enum ActionView {
    QueryImage,
    CheckExists(Seq<char>),
    Download(Seq<char>, Seq<char>),
    Apply(Seq<char>, int),
    Sleep(int),
}

pub struct SchedulerView {
    pub directory: Seq<char>,
    pub current_picture: Seq<char>,
    pub next_poll: int,
    pub stage: StageView,
}

impl View for PollStage {
    type V = StageView;

    open spec fn view(&self) -> StageView {
        match self {
            PollStage::Idle => StageView::Idle,
            PollStage::AwaitingImage => StageView::AwaitingImage,
            PollStage::AwaitingExists { path, url, end_date } => StageView::AwaitingExists {
                path: path@,
                url: url@,
                end_date: end_date@,
            },
            PollStage::AwaitingDownload { path, url, end_date } => StageView::AwaitingDownload {
                path: path@,
                url: url@,
                end_date: end_date@,
            },
        }
    }
}

impl View for PollEvent {
    type V = EventView;

    open spec fn view(&self) -> EventView {
        match self {
            PollEvent::Image(Ok(img)) => EventView::ImageFound {
                start_date: img.start_date@,
                end_date: img.end_date@,
                title: img.title@,
                url_base: img.url_base@,
            },
            PollEvent::Image(Err(_)) => EventView::ImageFailed,
            PollEvent::Exists(b) => EventView::Exists(*b),
            PollEvent::Downloaded(Ok(_)) => EventView::DownloadDone,
            PollEvent::Downloaded(Err(_)) => EventView::DownloadFailed,
        }
    }
}

impl View for PollAction {
    type V = ActionView;

    open spec fn view(&self) -> ActionView {
        match self {
            PollAction::QueryImage => ActionView::QueryImage,
            PollAction::CheckExists { path } => ActionView::CheckExists(path@),
            PollAction::Download { url, path } => ActionView::Download(url@, path@),
            PollAction::Apply { path, until } => ActionView::Apply(path@, *until as int),
            PollAction::Sleep { until } => ActionView::Sleep(*until as int),
        }
    }
}

impl View for Scheduler {
    type V = SchedulerView;

    open spec fn view(&self) -> SchedulerView {
        SchedulerView {
            directory: self.directory@,
            current_picture: self.current_picture@,
            next_poll: self.next_poll as int,
            stage: self.stage@,
        }
    }
}

/// When to poll after a picture with the encoded end date `end_date` was
/// obtained at `now`: the end date itself unless it cannot be decoded or has
/// already passed, in which case the next 07:00 UTC boundary.
pub open spec fn next_poll_after(end_date: Seq<char>, now: int) -> int {
    if has_valid_date(end_date) && decoded_instant(end_date) >= now {
        decoded_instant(end_date)
    } else {
        next_default_hour(now)
    }
}

/// The request a stage is waiting on.
pub open spec fn pending_action(s: SchedulerView) -> ActionView {
    match s.stage {
        StageView::Idle => ActionView::Sleep(s.next_poll),
        StageView::AwaitingImage => ActionView::QueryImage,
        StageView::AwaitingExists { path, .. } => ActionView::CheckExists(path),
        StageView::AwaitingDownload { path, url, .. } => ActionView::Download(url, path),
    }
}

/// The cycle ends with the picture at `path` shown and the next poll set.
pub open spec fn finish(s: SchedulerView, path: Seq<char>, end_date: Seq<char>, now: int) -> (
    SchedulerView,
    ActionView,
) {
    let next = next_poll_after(end_date, now);
    (
        SchedulerView { current_picture: path, next_poll: next, stage: StageView::Idle, ..s },
        ActionView::Apply(path, next),
    )
}

/// The cycle ends in failure: the picture stays and the next poll is an hour away.
pub open spec fn back_off(s: SchedulerView, now: int) -> (SchedulerView, ActionView) {
    let next = now + RETRY_DELAY;
    (SchedulerView { next_poll: next, stage: StageView::Idle, ..s }, ActionView::Sleep(next))
}

/// One transition of a cycle: the stage and the outcome of its request give
/// the next state and the next request. An outcome that the stage is not
/// waiting for changes nothing.
pub open spec fn poll_step(s: SchedulerView, e: EventView, now: int) -> (SchedulerView, ActionView) {
    match (s.stage, e) {
        (StageView::AwaitingImage, EventView::ImageFailed) => back_off(s, now),
        (
            StageView::AwaitingImage,
            EventView::ImageFound { start_date, end_date, title, url_base },
        ) => {
            let path = joined(s.directory, image_file_name(start_date, title));
            let url = BING_BASE_URL@ + url_base + UHD_SUFFIX@;
            (
                SchedulerView {
                    stage: StageView::AwaitingExists { path, url, end_date },
                    ..s
                },
                ActionView::CheckExists(path),
            )
        },
        (StageView::AwaitingExists { path, url, end_date }, EventView::Exists(true)) => finish(
            s,
            path,
            end_date,
            now,
        ),
        (StageView::AwaitingExists { path, url, end_date }, EventView::Exists(false)) => (
            SchedulerView { stage: StageView::AwaitingDownload { path, url, end_date }, ..s },
            ActionView::Download(url, path),
        ),
        (StageView::AwaitingDownload { path, url, end_date }, EventView::DownloadDone) => finish(
            s,
            path,
            end_date,
            now,
        ),
        (StageView::AwaitingDownload { .. }, EventView::DownloadFailed) => back_off(s, now),
        _ => (s, pending_action(s)),
    }
}

/// The state at start-up and its first request, from what the local store
/// holds: today's picture is shown until the next 07:00 UTC; yesterday's is
/// shown and today's is fetched a minute later; with neither, the fallback is
/// shown and a cycle starts at once.
pub open spec fn bootstrap_state(
    directory: Seq<char>,
    fallback: Seq<char>,
    local: Option<Seq<char>>,
    today: bool,
    now: int,
) -> (SchedulerView, ActionView) {
    match local {
        Some(p) => {
            let next = if today { next_default_hour(now) } else { now + YESTERDAY_GRACE };
            (
                SchedulerView {
                    directory,
                    current_picture: p,
                    next_poll: next,
                    stage: StageView::Idle,
                },
                ActionView::Apply(p, next),
            )
        },
        None => (
            SchedulerView {
                directory,
                current_picture: fallback,
                next_poll: now,
                stage: StageView::AwaitingImage,
            },
            ActionView::QueryImage,
        ),
    }
}

pub open spec fn local_view(local: Option<LocalPicture>) -> Option<Seq<char>> {
    match local {
        Some(LocalPicture::Today(p)) => Some(p@),
        Some(LocalPicture::Yesterday(p)) => Some(p@),
        None => None,
    }
}

/// A failed resolution backs off: the next poll is exactly one hour after
/// `now`, the picture shown stays, and no picture is handed on to be applied.
pub proof fn lemma_failed_resolution_backs_off(s: SchedulerView, now: int)
    requires
        s.stage == StageView::AwaitingImage,
    ensures
        poll_step(s, EventView::ImageFailed, now).0.next_poll == now + 3600,
        poll_step(s, EventView::ImageFailed, now).0.current_picture == s.current_picture,
        poll_step(s, EventView::ImageFailed, now).1 == ActionView::Sleep(now + 3600),
{
}

/// A failed download backs off in the same way.
pub proof fn lemma_failed_download_backs_off(s: SchedulerView, now: int)
    requires
        s.stage is AwaitingDownload,
    ensures
        poll_step(s, EventView::DownloadFailed, now).0.next_poll == now + 3600,
        poll_step(s, EventView::DownloadFailed, now).0.current_picture == s.current_picture,
        poll_step(s, EventView::DownloadFailed, now).1 == ActionView::Sleep(now + 3600),
{
}

/// An end date that decodes to an instant before `now` is not used: the cycle
/// that stored the picture polls next at the coming 07:00 UTC boundary.
pub proof fn lemma_stale_end_date_falls_back(
    s: SchedulerView,
    e: EventView,
    path: Seq<char>,
    url: Seq<char>,
    end_date: Seq<char>,
    now: int,
)
    requires
        (s.stage == StageView::AwaitingExists { path, url, end_date } && e == EventView::Exists(
            true,
        )) || (s.stage == StageView::AwaitingDownload { path, url, end_date } && e
            == EventView::DownloadDone),
        has_valid_date(end_date),
        decoded_instant(end_date) < now,
    ensures
        poll_step(s, e, now).0.next_poll == next_default_hour(now),
        poll_step(s, e, now).1 == ActionView::Apply(path, next_default_hour(now)),
{
}

/// An end date that does not decode falls back in the same way.
pub proof fn lemma_malformed_end_date_falls_back(
    s: SchedulerView,
    e: EventView,
    path: Seq<char>,
    url: Seq<char>,
    end_date: Seq<char>,
    now: int,
)
    requires
        (s.stage == StageView::AwaitingExists { path, url, end_date } && e == EventView::Exists(
            true,
        )) || (s.stage == StageView::AwaitingDownload { path, url, end_date } && e
            == EventView::DownloadDone),
        !has_valid_date(end_date),
    ensures
        poll_step(s, e, now).0.next_poll == next_default_hour(now),
{
}

/// The file a cycle looks for depends on the picture's start date and title
/// alone, and a cycle that finds it stored applies it without a download.
pub proof fn lemma_stored_picture_is_not_downloaded(
    s: SchedulerView,
    start_date: Seq<char>,
    end_date: Seq<char>,
    title: Seq<char>,
    url_base: Seq<char>,
    now: int,
    later: int,
)
    requires
        s.stage == StageView::AwaitingImage,
    ensures
        ({
            let found = EventView::ImageFound { start_date, end_date, title, url_base };
            let path = joined(s.directory, image_file_name(start_date, title));
            let (checking, ask) = poll_step(s, found, now);
            let (done, act) = poll_step(checking, EventView::Exists(true), later);
            &&& ask == ActionView::CheckExists(path)
            &&& act == ActionView::Apply(path, next_poll_after(end_date, later))
            &&& done.current_picture == path
            &&& done.stage == StageView::Idle
        }),
{
}

/// When to poll after a picture whose end date is `end_date` was obtained at `now`.
pub fn next_poll_time(end_date: &str, now: i64) -> (r: i64)
    requires
        is_instant(now as int),
    ensures
        r == next_poll_after(end_date@, now as int),
{
    match parse_bing_date(end_date) {
        Ok(end) => {
            if end >= now {
                end
            } else {
                predict_next_poll_time(now)
            }
        },
        Err(_) => predict_next_poll_time(now),
    }
}

impl Scheduler {
    /// The scheduler at start-up, with pictures stored in `directory`, the
    /// fallback picture `fallback`, and what the local store held at `now`.
    pub fn bootstrap(directory: String, fallback: String, local: Option<LocalPicture>, now: i64) -> (r: (
        Scheduler,
        PollAction,
    ))
        requires
            is_instant(now as int),
        ensures
            (r.0@, r.1@) == bootstrap_state(
                directory@,
                fallback@,
                local_view(local),
                local is Some && local->0 is Today,
                now as int,
            ),
    {
        match local {
            Some(LocalPicture::Today(p)) => {
                let next = predict_next_poll_time(now);
                let path = p.clone();
                (
                    Scheduler { directory, current_picture: p, next_poll: next, stage: PollStage::Idle },
                    PollAction::Apply { path, until: next },
                )
            },
            Some(LocalPicture::Yesterday(p)) => {
                let next = now + YESTERDAY_GRACE;
                let path = p.clone();
                (
                    Scheduler { directory, current_picture: p, next_poll: next, stage: PollStage::Idle },
                    PollAction::Apply { path, until: next },
                )
            },
            None => (
                Scheduler {
                    directory,
                    current_picture: fallback,
                    next_poll: now,
                    stage: PollStage::AwaitingImage,
                },
                PollAction::QueryImage,
            ),
        }
    }

    /// Starts a cycle: the picture stays, and today's metadata is asked for.
    pub fn start_cycle(&mut self) -> (r: PollAction)
        ensures
            final(self)@ == (SchedulerView { stage: StageView::AwaitingImage, ..old(self)@ }),
            r@ == ActionView::QueryImage,
    {
        self.stage = PollStage::AwaitingImage;
        PollAction::QueryImage
    }

    fn pending(&self) -> (r: PollAction)
        ensures
            r@ == pending_action(self@),
    {
        match &self.stage {
            PollStage::Idle => PollAction::Sleep { until: self.next_poll },
            PollStage::AwaitingImage => PollAction::QueryImage,
            PollStage::AwaitingExists { path, .. } => PollAction::CheckExists { path: path.clone() },
            PollStage::AwaitingDownload { path, url, .. } => PollAction::Download {
                url: url.clone(),
                path: path.clone(),
            },
        }
    }

    fn back_off(&mut self, now: i64) -> (r: PollAction)
        requires
            is_instant(now as int),
        ensures
            (final(self)@, r@) == back_off(old(self)@, now as int),
    {
        let next = now + RETRY_DELAY;
        self.next_poll = next;
        self.stage = PollStage::Idle;
        PollAction::Sleep { until: next }
    }

    fn finish(&mut self, path: String, end_date: &str, now: i64) -> (r: PollAction)
        requires
            is_instant(now as int),
        ensures
            (final(self)@, r@) == finish(old(self)@, path@, end_date@, now as int),
    {
        let next = next_poll_time(end_date, now);
        let shown = path.clone();
        self.current_picture = path;
        self.next_poll = next;
        self.stage = PollStage::Idle;
        PollAction::Apply { path: shown, until: next }
    }

    /// Takes the outcome of the last request at the instant `now` and names
    /// the next request.
    pub fn step(&mut self, event: PollEvent, now: i64) -> (r: PollAction)
        requires
            is_instant(now as int),
        ensures
            (final(self)@, r@) == poll_step(old(self)@, event@, now as int),
    {
        let mut stage = PollStage::Idle;
        core::mem::swap(&mut stage, &mut self.stage);
        match (stage, event) {
            (PollStage::AwaitingImage, PollEvent::Image(Err(_))) => self.back_off(now),
            (PollStage::AwaitingImage, PollEvent::Image(Ok(image))) => {
                let name = image.get_image_file_name();
                let path = join_path(self.directory.as_str(), name.as_str());
                let url = image.get_image_url();
                let checked = path.clone();
                self.stage = PollStage::AwaitingExists { path, url, end_date: image.end_date };
                PollAction::CheckExists { path: checked }
            },
            (PollStage::AwaitingExists { path, url, end_date }, PollEvent::Exists(exists)) => {
                if exists {
                    self.finish(path, end_date.as_str(), now)
                } else {
                    let target = path.clone();
                    let source = url.clone();
                    self.stage = PollStage::AwaitingDownload { path, url, end_date };
                    PollAction::Download { url: source, path: target }
                }
            },
            (PollStage::AwaitingDownload { path, url, end_date }, PollEvent::Downloaded(result)) => {
                match result {
                    Ok(_) => self.finish(path, end_date.as_str(), now),
                    Err(_) => self.back_off(now),
                }
            },
            (stage, _) => {
                self.stage = stage;
                self.pending()
            },
        }
    }
}

} // verus!
