use vstd::prelude::*;

pub mod album_art;
pub mod albums;
pub mod command;
pub mod context;
pub mod event_loop;
pub mod idle;
pub mod mpd_client;
pub mod query;
pub mod scheduler;
pub mod text;
pub mod ui;

use crate::event_loop::EventEffect;
use crate::idle::IdleEvent;
use crate::query::QueryResultEvent;
use crate::ui::{KeyEvent, KeyHandleResult, Level};

verus! {

/// A long-running job for the work pool.
#[derive(Debug, Clone, PartialEq, Eq)]
pub enum WorkRequest {
    /// Fetch the media at this locator into the cache directory.
    DownloadYoutube { url: String },
}

/// The result of a finished job.
#[derive(Debug, Clone, PartialEq, Eq)]
pub enum WorkDone {
    /// The fetched media, stored at this path.
    YoutubeDowloaded { file_path: String },
}

/// A job ready to run: what to fetch and where to store it.
#[derive(Debug, Clone, PartialEq, Eq)]
pub struct DownloadJob {
    pub url: String,
    pub cache_dir: String,
}

/// A mouse action, already told apart from raw mouse noise.
#[derive(Debug, Clone, Copy, PartialEq, Eq, Structural)]
pub enum MouseEventKind {
    LeftClick,
    DoubleClick,
    MiddleClick,
    RightClick,
    ScrollUp,
    ScrollDown,
}

/// A mouse action at a terminal cell.
#[derive(Debug, Clone, Copy, PartialEq, Eq, Structural)]
pub struct MouseEvent {
    pub kind: MouseEventKind,
    pub x: u16,
    pub y: u16,
}

/// Everything the event loop reacts to.
#[derive(Debug)]
pub enum AppEvent {
    UserKeyInput(KeyEvent),
    UserMouseInput(MouseEvent),
    Status(String, Level),
    Log(Vec<u8>),
    IdleEvent(IdleEvent),
    RequestStatusUpdate,
    /// A render; `true` asks for the screen to be cleared first.
    RequestRender(bool),
    Resized { columns: u16, rows: u16 },
    /// A finished job, or why it failed.
    WorkDone(Result<WorkDone, String>),
    QueryResult(QueryResultEvent),
}

/// The error of a job that cannot run without a cache directory.
pub open spec fn no_cache_dir_message() -> Seq<char> {
    "Youtube support requires 'cache_dir' to be configured"@
}

/// Plans a job: fetching needs a cache directory to store into.
pub fn handle_work_request(request: &WorkRequest, cache_dir: Option<&str>) -> (r: Result<DownloadJob, String>)
    ensures
        cache_dir is None ==> (r matches Err(m) && m@ == no_cache_dir_message()),
        cache_dir matches Some(d) ==> (r matches Ok(job) && job.cache_dir@ == d@ && (request matches WorkRequest::DownloadYoutube { url } && job.url == url)),
{
    match request {
        WorkRequest::DownloadYoutube { url } => match cache_dir {
            None => Err(String::from_str("Youtube support requires 'cache_dir' to be configured")),
            Some(d) => Ok(DownloadJob { url: url.clone(), cache_dir: String::from_str(d) }),
        },
    }
}

/// The one event a job ends in: its result when it ran, else why it could not.
/// A failure is data on the bus, never a fault of the worker.
pub fn work_done_event(plan: Result<DownloadJob, String>, outcome: Result<String, String>) -> (r: AppEvent)
    ensures
        plan matches Err(e) ==> r == AppEvent::WorkDone(Err(e)),
        plan is Ok ==> (outcome matches Ok(p) ==> r == AppEvent::WorkDone(
            Ok(WorkDone::YoutubeDowloaded { file_path: p }),
        )),
        plan is Ok ==> (outcome matches Err(e) ==> r == AppEvent::WorkDone(Err(e))),
{
    match plan {
        Err(e) => AppEvent::WorkDone(Err(e)),
        Ok(_) => match outcome {
            Ok(file_path) => AppEvent::WorkDone(Ok(WorkDone::YoutubeDowloaded { file_path })),
            Err(e) => AppEvent::WorkDone(Err(e)),
        },
    }
}

pub open spec fn key_effect_spec(r: Result<KeyHandleResult, String>) -> EventEffect {
    match r {
        Ok(KeyHandleResult::SkipRender) => EventEffect::SkipRender,
        Ok(KeyHandleResult::Quit) => EventEffect::Quit,
        Ok(KeyHandleResult::RenderRequested) => EventEffect::Render,
        Ok(KeyHandleResult::FullRenderRequested) => EventEffect::FullRender,
        Err(_) => EventEffect::Render,
    }
}

/// The render effect of the UI's answer to a key or mouse input; an error is
/// shown in the status bar, so it asks for a render.
pub fn key_effect(r: &Result<KeyHandleResult, String>) -> (e: EventEffect)
    ensures
        e == key_effect_spec(*r),
{
    match r {
        Ok(KeyHandleResult::SkipRender) => EventEffect::SkipRender,
        Ok(KeyHandleResult::Quit) => EventEffect::Quit,
        Ok(KeyHandleResult::RenderRequested) => EventEffect::Render,
        Ok(KeyHandleResult::FullRenderRequested) => EventEffect::FullRender,
        Err(_) => EventEffect::Render,
    }
}

pub open spec fn event_effect_spec(event: AppEvent) -> Option<EventEffect> {
    match event {
        AppEvent::UserKeyInput(_) | AppEvent::UserMouseInput(_) => None,
        AppEvent::Status(_, _) => Some(EventEffect::Render),
        AppEvent::Log(_) => Some(EventEffect::Unchanged),
        AppEvent::IdleEvent(_) => Some(EventEffect::Render),
        AppEvent::RequestStatusUpdate => Some(EventEffect::Render),
        AppEvent::RequestRender(full) => Some(if full { EventEffect::FullRender } else { EventEffect::Render }),
        AppEvent::Resized { .. } => Some(EventEffect::FullRender),
        AppEvent::WorkDone(_) => Some(EventEffect::Unchanged),
        AppEvent::QueryResult(_) => Some(EventEffect::Render),
    }
}

/// The render effect of an event, for every event but inputs, whose effect
/// is the UI's answer (see `key_effect`).
pub fn event_effect(event: &AppEvent) -> (r: Option<EventEffect>)
    ensures
        r == event_effect_spec(*event),
{
    match event {
        AppEvent::UserKeyInput(_) | AppEvent::UserMouseInput(_) => None,
        AppEvent::Status(_, _) => Some(EventEffect::Render),
        AppEvent::Log(_) => Some(EventEffect::Unchanged),
        AppEvent::IdleEvent(_) => Some(EventEffect::Render),
        AppEvent::RequestStatusUpdate => Some(EventEffect::Render),
        AppEvent::RequestRender(full) => Some(if *full { EventEffect::FullRender } else { EventEffect::Render }),
        AppEvent::Resized { .. } => Some(EventEffect::FullRender),
        AppEvent::WorkDone(_) => Some(EventEffect::Unchanged),
        AppEvent::QueryResult(_) => Some(EventEffect::Render),
    }
}

} // verus!
