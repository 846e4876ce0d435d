use vstd::prelude::*;

use crate::album_art::AlbumArtPane;
use crate::albums::AlbumsScreen;
use crate::command::{ClientCommand, Version, version_lt};
use crate::context::{AppContext, Song, Status, on_off_next, on_off_oneshot_next};
use crate::idle::{IdleEvent, PlayState};
use crate::query::MpdQuery;

verus! {

/// The severity of a status message.
#[derive(Debug, Clone, Copy, PartialEq, Eq, Structural)]
pub enum Level {
    Trace,
    Debug,
    Warn,
    Error,
    Info,
}

/// A message shown in the status bar, with the time it was created (in
/// milliseconds on a monotonic clock).
#[derive(Debug, Clone, PartialEq, Eq)]
pub struct StatusMessage {
    pub message: String,
    pub level: Level,
    pub created: u64,
}

/// What a UI surface is told about.
#[derive(Debug, Clone, PartialEq, Eq)]
pub enum UiEvent {
    Player,
    Mixer,
    Playlist,
    Options,
    Database,
    StoredPlaylist,
    Update,
    LogAdded(Vec<u8>),
    Resized { columns: u16, rows: u16 },
    SongChanged,
    Reconnected,
    ModalOpened,
    ModalClosed,
    Exit,
}

pub open spec fn ui_event_spec(e: IdleEvent) -> Option<UiEvent> {
    match e {
        IdleEvent::Player => Some(UiEvent::Player),
        IdleEvent::Update => Some(UiEvent::Update),
        IdleEvent::Mixer => Some(UiEvent::Mixer),
        IdleEvent::Playlist => Some(UiEvent::Playlist),
        IdleEvent::Options => Some(UiEvent::Options),
        IdleEvent::Database => Some(UiEvent::Database),
        IdleEvent::StoredPlaylist => Some(UiEvent::StoredPlaylist),
        _ => None,
    }
}

/// The UI event for a change notification; none for subsystems the UI ignores.
pub fn ui_event_of(e: IdleEvent) -> (r: Option<UiEvent>)
    ensures
        r == ui_event_spec(e),
{
    match e {
        IdleEvent::Player => Some(UiEvent::Player),
        IdleEvent::Update => Some(UiEvent::Update),
        IdleEvent::Mixer => Some(UiEvent::Mixer),
        IdleEvent::Playlist => Some(UiEvent::Playlist),
        IdleEvent::Options => Some(UiEvent::Options),
        IdleEvent::Database => Some(UiEvent::Database),
        IdleEvent::StoredPlaylist => Some(UiEvent::StoredPlaylist),
        _ => None,
    }
}

/// The result of handing an input to the UI.
#[derive(Debug, Clone, Copy, PartialEq, Eq, Structural)]
pub enum KeyHandleResult {
    /// Action warrants a render
    RenderRequested,
    /// Action warrants a render that first clears the screen
    FullRenderRequested,
    /// Action does NOT warrant a render
    SkipRender,
    /// Exit the application
    Quit,
}

/// How long a status message stays, in milliseconds.
pub const STATUS_MESSAGE_TTL_MS: u64 = 5000;

/// The seconds a seek action moves.
pub const SEEK_STEP_SECS: u32 = 5;

/// The largest volume.
pub const MAX_VOLUME: u32 = 100;

/// A key the user pressed.
#[derive(Debug, Clone, Copy, PartialEq, Eq, Structural)]
pub enum KeyCode {
    Char(char),
    Enter,
    Esc,
    Tab,
    BackTab,
    Backspace,
    Delete,
    Up,
    Down,
    Left,
    Right,
    Home,
    End,
    PageUp,
    PageDown,
    F(u8),
    Other,
}

/// A key press with its modifier bits (shift 1, control 2, alt 4).
#[derive(Debug, Clone, Copy, PartialEq, Eq, Structural)]
pub struct KeyEvent {
    pub code: KeyCode,
    pub modifiers: u8,
}

/// An action bound to a key everywhere in the UI.
#[derive(Debug, PartialEq, Eq, Hash, Clone, Copy, Structural)]
pub enum GlobalAction {
    Quit,
    NextTrack,
    PreviousTrack,
    Stop,
    ToggleRepeat,
    ToggleSingle,
    ToggleRandom,
    ToggleConsume,
    TogglePause,
    VolumeUp,
    VolumeDown,
    SeekForward,
    SeekBack,
    NextTab,
    PreviousTab,
    QueueTab,
    DirectoriesTab,
    ArtistsTab,
    AlbumsTab,
    PlaylistsTab,
    SearchTab,
}

/// The screens, in tab order.
#[derive(Debug, Clone, Copy, PartialEq, Eq, Structural)]
pub enum Screens {
    Queue,
    Directories,
    Artists,
    Albums,
    Playlists,
    Search,
}

pub open spec fn next_screen(s: Screens) -> Screens {
    match s {
        Screens::Queue => Screens::Directories,
        Screens::Directories => Screens::Artists,
        Screens::Artists => Screens::Albums,
        Screens::Albums => Screens::Playlists,
        Screens::Playlists => Screens::Search,
        Screens::Search => Screens::Queue,
    }
}

pub open spec fn prev_screen(s: Screens) -> Screens {
    match s {
        Screens::Queue => Screens::Search,
        Screens::Directories => Screens::Queue,
        Screens::Artists => Screens::Directories,
        Screens::Albums => Screens::Artists,
        Screens::Playlists => Screens::Albums,
        Screens::Search => Screens::Playlists,
    }
}

impl Screens {
    pub fn next(self) -> (r: Self)
        ensures
            r == next_screen(self),
    {
        match self {
            Screens::Queue => Screens::Directories,
            Screens::Directories => Screens::Artists,
            Screens::Artists => Screens::Albums,
            Screens::Albums => Screens::Playlists,
            Screens::Playlists => Screens::Search,
            Screens::Search => Screens::Queue,
        }
    }

    pub fn prev(self) -> (r: Self)
        ensures
            r == prev_screen(self),
    {
        match self {
            Screens::Queue => Screens::Search,
            Screens::Directories => Screens::Queue,
            Screens::Artists => Screens::Directories,
            Screens::Albums => Screens::Artists,
            Screens::Playlists => Screens::Albums,
            Screens::Search => Screens::Playlists,
        }
    }
}

/// The dialogs that can be stacked over the screens.
#[derive(Debug, Clone, Copy, PartialEq, Eq, Structural)]
pub enum Modals {
    ConfirmQueueClear,
    SaveQueue,
    RenamePlaylist,
    AddToPlaylist,
    Confirm,
}

/// What a screen or a modal answers to an input.
#[derive(Debug, Clone, Copy, PartialEq, Eq, Structural)]
pub enum KeyHandleResultInternal {
    /// Action warrants a render
    RenderRequested,
    /// Action does NOT warrant a render
    SkipRender,
    /// Event was not handled and should bubble up
    KeyNotHandled,
    /// Open a modal, or close the top one (`None`)
    Modal(Option<Modals>),
}

/// The key bindings of the global actions; the first binding of a key counts.
#[derive(Debug, Clone)]
pub struct Keybinds {
    pub global: Vec<(KeyEvent, GlobalAction)>,
}

pub open spec fn binding_of(bs: Seq<(KeyEvent, GlobalAction)>, key: KeyEvent) -> Option<GlobalAction>
    decreases bs.len(),
{
    if bs.len() == 0 {
        None
    } else if bs[0].0 == key {
        Some(bs[0].1)
    } else {
        binding_of(bs.drop_first(), key)
    }
}

impl Keybinds {
    /// The global action bound to `key`.
    pub fn global_action(&self, key: KeyEvent) -> (r: Option<GlobalAction>)
        ensures
            r == binding_of(self.global@, key),
    {
        let mut i: usize = 0;
        assert(self.global@.subrange(0, self.global@.len() as int) =~= self.global@);
        while i < self.global.len()
            invariant
                i <= self.global@.len(),
                binding_of(self.global@, key) == binding_of(self.global@.subrange(i as int, self.global@.len() as int), key),
            decreases self.global@.len() - i,
        {
            let ghost rest = self.global@.subrange(i as int, self.global@.len() as int);
            assert(rest.drop_first() =~= self.global@.subrange(i + 1, self.global@.len() as int));
            assert(rest[0] == self.global@[i as int]);
            if self.global[i].0 == key {
                return Some(self.global[i].1);
            }
            i = i + 1;
        }
        assert(self.global@.subrange(i as int, self.global@.len() as int).len() == 0);
        None
    }
}

/// What the event loop does for a global action.
#[derive(Debug, Clone, PartialEq, Eq)]
pub struct GlobalOutcome {
    /// A command to send to the server.
    pub command: Option<ClientCommand>,
    /// The screen that became active, whose data is to be loaded.
    pub shown: Option<Screens>,
    pub result: KeyHandleResult,
}

pub open spec fn volume_up(v: u32, step: u32) -> u32 {
    if v + step > MAX_VOLUME { MAX_VOLUME } else { (v + step) as u32 }
}

pub open spec fn volume_down(v: u32, step: u32) -> u32 {
    if v < step { 0 } else { (v - step) as u32 }
}

pub open spec fn switch_to(active: Screens, target: Screens) -> GlobalOutcome {
    if active == target {
        GlobalOutcome { command: None, shown: None, result: KeyHandleResult::SkipRender }
    } else {
        GlobalOutcome { command: None, shown: Some(target), result: KeyHandleResult::RenderRequested }
    }
}

pub open spec fn only(c: ClientCommand) -> GlobalOutcome {
    GlobalOutcome { command: Some(c), shown: None, result: KeyHandleResult::SkipRender }
}

pub open spec fn nothing() -> GlobalOutcome {
    GlobalOutcome { command: None, shown: None, result: KeyHandleResult::SkipRender }
}

/// What a global action does, given the active screen, the status, the
/// volume step and the server version.
pub open spec fn global_outcome(
    action: GlobalAction,
    active: Screens,
    status: Status,
    volume_step: u32,
    version: Version,
) -> GlobalOutcome {
    let playing = status.state == PlayState::Play;
    match action {
        GlobalAction::Quit => GlobalOutcome { command: None, shown: None, result: KeyHandleResult::Quit },
        GlobalAction::NextTrack => if playing { only(ClientCommand::Next) } else { nothing() },
        GlobalAction::PreviousTrack => if playing { only(ClientCommand::Prev) } else { nothing() },
        GlobalAction::Stop => if playing { only(ClientCommand::Stop) } else { nothing() },
        GlobalAction::ToggleRepeat => only(ClientCommand::Repeat(!status.repeat)),
        GlobalAction::ToggleSingle => only(ClientCommand::Single(on_off_oneshot_next(status.single))),
        GlobalAction::ToggleRandom => only(ClientCommand::Random(!status.random)),
        GlobalAction::ToggleConsume => if version_lt(version, Version { major: 0, minor: 24, patch: 0 }) {
            only(ClientCommand::Consume(on_off_next(status.consume)))
        } else {
            only(ClientCommand::Consume(on_off_oneshot_next(status.consume)))
        },
        GlobalAction::TogglePause => if playing || status.state == PlayState::Pause {
            only(ClientCommand::PauseToggle)
        } else {
            nothing()
        },
        GlobalAction::VolumeUp => only(ClientCommand::SetVolume(volume_up(status.volume, volume_step))),
        GlobalAction::VolumeDown => only(ClientCommand::SetVolume(volume_down(status.volume, volume_step))),
        GlobalAction::SeekForward => if playing { only(ClientCommand::SeekForward(SEEK_STEP_SECS)) } else { nothing() },
        GlobalAction::SeekBack => if playing { only(ClientCommand::SeekBack(SEEK_STEP_SECS)) } else { nothing() },
        GlobalAction::NextTab => GlobalOutcome {
            command: None,
            shown: Some(next_screen(active)),
            result: KeyHandleResult::RenderRequested,
        },
        GlobalAction::PreviousTab => GlobalOutcome {
            command: None,
            shown: Some(prev_screen(active)),
            result: KeyHandleResult::RenderRequested,
        },
        GlobalAction::QueueTab => switch_to(active, Screens::Queue),
        GlobalAction::DirectoriesTab => switch_to(active, Screens::Directories),
        GlobalAction::ArtistsTab => switch_to(active, Screens::Artists),
        GlobalAction::AlbumsTab => switch_to(active, Screens::Albums),
        GlobalAction::PlaylistsTab => switch_to(active, Screens::Playlists),
        GlobalAction::SearchTab => switch_to(active, Screens::Search),
    }
}

/// What the event loop fetches for a change notification before the surfaces see it.
#[derive(Debug, Clone, Copy, PartialEq, Eq, Structural)]
pub enum UiRefresh {
    Volume,
    Status,
    CurrentSong,
    Nothing,
}

/// Whether a screen's answer asks for a render.
pub open spec fn asks_render(r: Result<KeyHandleResultInternal, String>) -> bool {
    r == Ok::<KeyHandleResultInternal, String>(KeyHandleResultInternal::RenderRequested) || r matches Ok(
        KeyHandleResultInternal::Modal(_),
    )
}

/// The reaction of the UI to an event.
#[derive(Debug, Clone)]
pub struct UiEventOutcome {
    pub refresh: UiRefresh,
    /// A query asked for by a surface.
    pub query: Option<MpdQuery>,
    pub result: KeyHandleResult,
}

pub open spec fn ui_refresh_of(e: UiEvent) -> UiRefresh {
    match e {
        UiEvent::Mixer => UiRefresh::Volume,
        UiEvent::Options => UiRefresh::Status,
        UiEvent::Player => UiRefresh::CurrentSong,
        _ => UiRefresh::Nothing,
    }
}

/// The top-level UI: the active screen, the stack of modals, the status bar
/// message, the frame counter, the current song and the cover art pane.
#[derive(Debug, Clone)]
pub struct Ui {
    pub active_screen: Screens,
    pub modals: Vec<Modals>,
    pub status_message: Option<StatusMessage>,
    pub rendered_frames_count: u32,
    pub current_song: Option<Song>,
    pub album_art: AlbumArtPane,
    pub albums: AlbumsScreen,
}

impl Ui {
    pub fn new(context: &AppContext) -> (r: Self)
        ensures
            r.active_screen == Screens::Queue,
            r.modals@.len() == 0,
            r.status_message is None,
            r.rendered_frames_count == 0,
            r.current_song is None,
            r.album_art.method == context.image_method,
            !r.album_art.visible,
            r.albums.path@.len() == 0,
            r.albums.items@.len() == 0,
            r.albums.wf(),
    {
        Ui {
            active_screen: Screens::Queue,
            modals: Vec::new(),
            status_message: None,
            rendered_frames_count: 0,
            current_song: None,
            album_art: AlbumArtPane::new(context),
            albums: AlbumsScreen::new(),
        }
    }

    /// Before the first render: takes the current song from the queue and lets
    /// the cover art pane ask for its art.
    pub fn before_show(&mut self, context: &AppContext) -> (r: Option<MpdQuery>)
        ensures
            crate::album_art::art_query_for(*context, r),
            final(self).active_screen == old(self).active_screen,
            final(self).modals == old(self).modals,
            context.status.song_id is None ==> final(self).current_song is None,
            final(self).current_song matches Some(s) ==> context.status.song_id == Some(s.id)
                && context.queue@.contains(s),
    {
        self.current_song = match context.find_current_song_in_queue() {
            Some((_, s)) => Some(s.duplicate()),
            None => None,
        };
        self.album_art.before_show(context)
    }

    /// Shows a message in the status bar from time `now` on.
    pub fn display_message(&mut self, message: String, level: Level, now: u64)
        ensures
            final(self).status_message == Some(StatusMessage { message, level, created: now }),
            final(self).active_screen == old(self).active_screen,
            final(self).modals == old(self).modals,
    {
        self.status_message = Some(StatusMessage { message, level, created: now });
    }

    /// Before drawing a frame at time `now`: counts the frame and drops a
    /// status message older than its time to live.
    pub fn on_frame(&mut self, now: u64)
        ensures
            final(self).rendered_frames_count == (if old(self).rendered_frames_count < u32::MAX {
                old(self).rendered_frames_count + 1
            } else {
                old(self).rendered_frames_count as int
            }),
            final(self).status_message == (match old(self).status_message {
                Some(m) => if now > m.created && now - m.created > STATUS_MESSAGE_TTL_MS {
                    None
                } else {
                    Some(m)
                },
                None => None,
            }),
            final(self).active_screen == old(self).active_screen,
            final(self).modals == old(self).modals,
    {
        if self.rendered_frames_count < u32::MAX {
            self.rendered_frames_count = self.rendered_frames_count + 1;
        }
        let expired = match &self.status_message {
            Some(m) => now > m.created && now - m.created > STATUS_MESSAGE_TTL_MS,
            None => false,
        };
        if expired {
            self.status_message = None;
        }
    }

    /// Applies a screen's answer: a modal is pushed or the top one popped (and a
    /// render asked for); an unhandled key asks for nothing; errors pass through.
    pub fn handle_screen_event_result(&mut self, result: Result<KeyHandleResultInternal, String>) -> (r:
        Result<KeyHandleResult, String>)
        ensures
            result matches Err(e) ==> (r == Err::<KeyHandleResult, String>(e)
                && final(self).modals == old(self).modals),
            result == Ok::<KeyHandleResultInternal, String>(KeyHandleResultInternal::SkipRender)
                || result == Ok::<KeyHandleResultInternal, String>(KeyHandleResultInternal::KeyNotHandled)
                ==> r == Ok::<KeyHandleResult, String>(KeyHandleResult::SkipRender)
                && final(self).modals == old(self).modals,
            result == Ok::<KeyHandleResultInternal, String>(KeyHandleResultInternal::RenderRequested)
                ==> r == Ok::<KeyHandleResult, String>(KeyHandleResult::RenderRequested)
                && final(self).modals == old(self).modals,
            result matches Ok(KeyHandleResultInternal::Modal(Some(m))) ==> (r == Ok::<
                KeyHandleResult,
                String,
            >(KeyHandleResult::RenderRequested) && final(self).modals@ == old(self).modals@.push(m)),
            result == Ok::<KeyHandleResultInternal, String>(KeyHandleResultInternal::Modal(None)) ==> r
                == Ok::<KeyHandleResult, String>(KeyHandleResult::RenderRequested) && final(self).modals@ == (if old(self).modals@.len() > 0 {
                old(self).modals@.drop_last()
            } else {
                old(self).modals@
            }),
            final(self).active_screen == old(self).active_screen,
    {
        match result {
            Ok(KeyHandleResultInternal::SkipRender) => Ok(KeyHandleResult::SkipRender),
            Ok(KeyHandleResultInternal::RenderRequested) => Ok(KeyHandleResult::RenderRequested),
            Ok(KeyHandleResultInternal::Modal(modal)) => {
                match modal {
                    Some(m) => self.modals.push(m),
                    None => {
                        self.modals.pop();
                    },
                }
                Ok(KeyHandleResult::RenderRequested)
            },
            Ok(KeyHandleResultInternal::KeyNotHandled) => Ok(KeyHandleResult::SkipRender),
            Err(err) => Err(err),
        }
    }

    /// A global action: the command to send, the tab switch, and whether to render.
    pub fn handle_global_action(
        &mut self,
        action: GlobalAction,
        status: &Status,
        volume_step: u32,
        version: Version,
    ) -> (r: GlobalOutcome)
        ensures
            r == global_outcome(action, old(self).active_screen, *status, volume_step, version),
            final(self).active_screen == (match r.shown {
                Some(s) => s,
                None => old(self).active_screen,
            }),
            final(self).modals == old(self).modals,
    {
        let playing = match status.state {
            PlayState::Play => true,
            _ => false,
        };
        let skip = GlobalOutcome { command: None, shown: None, result: KeyHandleResult::SkipRender };
        let target = match action {
            GlobalAction::Quit => {
                return GlobalOutcome { command: None, shown: None, result: KeyHandleResult::Quit };
            },
            GlobalAction::NextTrack => {
                return if playing {
                    GlobalOutcome { command: Some(ClientCommand::Next), ..skip }
                } else {
                    skip
                };
            },
            GlobalAction::PreviousTrack => {
                return if playing {
                    GlobalOutcome { command: Some(ClientCommand::Prev), ..skip }
                } else {
                    skip
                };
            },
            GlobalAction::Stop => {
                return if playing {
                    GlobalOutcome { command: Some(ClientCommand::Stop), ..skip }
                } else {
                    skip
                };
            },
            GlobalAction::ToggleRepeat => {
                return GlobalOutcome { command: Some(ClientCommand::Repeat(!status.repeat)), ..skip };
            },
            GlobalAction::ToggleSingle => {
                return GlobalOutcome { command: Some(ClientCommand::Single(status.single.cycle())), ..skip };
            },
            GlobalAction::ToggleRandom => {
                return GlobalOutcome { command: Some(ClientCommand::Random(!status.random)), ..skip };
            },
            GlobalAction::ToggleConsume => {
                let next = if version.lt(&Version::new(0, 24, 0)) {
                    status.consume.cycle_pre_mpd_24()
                } else {
                    status.consume.cycle()
                };
                return GlobalOutcome { command: Some(ClientCommand::Consume(next)), ..skip };
            },
            GlobalAction::TogglePause => {
                let pausable = match status.state {
                    PlayState::Play | PlayState::Pause => true,
                    PlayState::Stop => false,
                };
                return if pausable {
                    GlobalOutcome { command: Some(ClientCommand::PauseToggle), ..skip }
                } else {
                    skip
                };
            },
            GlobalAction::VolumeUp => {
                let v = if status.volume as u64 + volume_step as u64 > MAX_VOLUME as u64 {
                    MAX_VOLUME
                } else {
                    status.volume + volume_step
                };
                return GlobalOutcome { command: Some(ClientCommand::SetVolume(v)), ..skip };
            },
            GlobalAction::VolumeDown => {
                let v = if status.volume < volume_step {
                    0
                } else {
                    status.volume - volume_step
                };
                return GlobalOutcome { command: Some(ClientCommand::SetVolume(v)), ..skip };
            },
            GlobalAction::SeekForward => {
                return if playing {
                    GlobalOutcome { command: Some(ClientCommand::SeekForward(SEEK_STEP_SECS)), ..skip }
                } else {
                    skip
                };
            },
            GlobalAction::SeekBack => {
                return if playing {
                    GlobalOutcome { command: Some(ClientCommand::SeekBack(SEEK_STEP_SECS)), ..skip }
                } else {
                    skip
                };
            },
            GlobalAction::NextTab => self.active_screen.next(),
            GlobalAction::PreviousTab => self.active_screen.prev(),
            GlobalAction::QueueTab => Screens::Queue,
            GlobalAction::DirectoriesTab => Screens::Directories,
            GlobalAction::ArtistsTab => Screens::Artists,
            GlobalAction::AlbumsTab => Screens::Albums,
            GlobalAction::PlaylistsTab => Screens::Playlists,
            GlobalAction::SearchTab => Screens::Search,
        };
        let cycles = match action {
            GlobalAction::NextTab | GlobalAction::PreviousTab => true,
            _ => false,
        };
        if !cycles && target == self.active_screen {
            return skip;
        }
        self.active_screen = target;
        GlobalOutcome { command: None, shown: Some(target), result: KeyHandleResult::RenderRequested }
    }

    /// A key press: the top modal takes it first (closing itself when it
    /// answers so); else the active screen's answer `screen_result`; a key no
    /// screen handles goes to the global bindings.
    pub fn handle_key(
        &mut self,
        key: KeyEvent,
        screen_result: Result<KeyHandleResultInternal, String>,
        keybinds: &Keybinds,
        status: &Status,
        volume_step: u32,
        version: Version,
    ) -> (r: Result<GlobalOutcome, String>)
        ensures
            screen_result is Err ==> r is Err,
            screen_result == Ok::<KeyHandleResultInternal, String>(KeyHandleResultInternal::KeyNotHandled)
                && old(self).modals@.len() == 0 ==> r == Ok::<GlobalOutcome, String>(
                match binding_of(keybinds.global@, key) {
                    Some(a) => global_outcome(a, old(self).active_screen, *status, volume_step, version),
                    None => nothing(),
                },
            ),
            old(self).modals@.len() > 0 && screen_result == Ok::<KeyHandleResultInternal, String>(
                KeyHandleResultInternal::Modal(None),
            ) ==> r == Ok::<GlobalOutcome, String>(
                GlobalOutcome { command: None, shown: None, result: KeyHandleResult::RenderRequested },
            ) && final(self).modals@ == old(self).modals@.drop_last(),
            old(self).modals@.len() > 0 && screen_result == Ok::<KeyHandleResultInternal, String>(
                KeyHandleResultInternal::SkipRender,
            ) ==> r == Ok::<GlobalOutcome, String>(
                GlobalOutcome { command: None, shown: None, result: KeyHandleResult::SkipRender },
            ) && final(self).modals == old(self).modals,
            old(self).modals@.len() > 0 && (screen_result matches Ok(x) && x != KeyHandleResultInternal::SkipRender
                && x != KeyHandleResultInternal::Modal(None)) ==> r == Ok::<GlobalOutcome, String>(
                GlobalOutcome { command: None, shown: None, result: KeyHandleResult::RenderRequested },
            ) && final(self).modals == old(self).modals,
            old(self).modals@.len() > 0 ==> final(self).active_screen == old(self).active_screen,
    {
        let r = match screen_result {
            Ok(res) => res,
            Err(e) => return Err(e),
        };
        if self.modals.len() > 0 {
            let result = match r {
                KeyHandleResultInternal::Modal(None) => {
                    self.modals.pop();
                    KeyHandleResult::RenderRequested
                },
                KeyHandleResultInternal::SkipRender => KeyHandleResult::SkipRender,
                _ => KeyHandleResult::RenderRequested,
            };
            return Ok(GlobalOutcome { command: None, shown: None, result });
        }
        match r {
            KeyHandleResultInternal::KeyNotHandled => match keybinds.global_action(key) {
                Some(action) => Ok(self.handle_global_action(action, status, volume_step, version)),
                None => Ok(GlobalOutcome { command: None, shown: None, result: KeyHandleResult::SkipRender }),
            },
            other => {
                let res = self.handle_screen_event_result(Ok(other));
                match res {
                    Ok(result) => Ok(GlobalOutcome { command: None, shown: None, result }),
                    Err(e) => Err(e),
                }
            },
        }
    }

    /// Collects the answers of all screens to one event, in screen order: modal
    /// changes are applied, the first error stops the collection, and a render
    /// is asked for when any screen asked for one.
    pub fn on_screen_results(&mut self, results: Vec<Result<KeyHandleResultInternal, String>>) -> (r: Result<
        KeyHandleResult,
        String,
    >)
        ensures
            (forall|i: int| 0 <= i < results@.len() ==> results@[i] is Ok) ==> (r is Ok && (r
                == Ok::<KeyHandleResult, String>(KeyHandleResult::RenderRequested) <==> exists|i: int|
                0 <= i < results@.len() && asks_render(results@[i]))),
            r is Ok ==> r == Ok::<KeyHandleResult, String>(KeyHandleResult::RenderRequested) || r == Ok::<
                KeyHandleResult,
                String,
            >(KeyHandleResult::SkipRender),
            r matches Err(e) ==> exists|i: int| 0 <= i < results@.len() && results@[i] == Err::<
                KeyHandleResultInternal,
                String,
            >(e),
            final(self).active_screen == old(self).active_screen,
    {
        let mut render = false;
        let mut i: usize = 0;
        let n = results.len();
        let mut rest = results;
        let ghost all = rest@;
        while i < n
            invariant
                n == all.len(),
                all == results@,
                i <= n,
                rest@ == all.subrange(i as int, n as int),
                self.active_screen == old(self).active_screen,
                forall|j: int| 0 <= j < i ==> all[j] is Ok,
                render <==> exists|j: int| 0 <= j < i && asks_render(all[j]),
            decreases n - i,
        {
            let ghost before = rest@;
            let result = rest.remove(0);
            proof {
                assert(result == all[i as int]);
                assert(rest@ =~= all.subrange(i + 1, n as int));
            }
            match self.handle_screen_event_result(result) {
                Ok(KeyHandleResult::RenderRequested) => {
                    render = true;
                },
                Ok(_) => {},
                Err(e) => {
                    assert(all[i as int] == Err::<KeyHandleResultInternal, String>(e));
                    return Err(e);
                },
            }
            proof {
                if render {
                    if !(exists|j: int| 0 <= j < i && asks_render(all[j])) {
                        assert(asks_render(all[i as int]));
                    }
                }
                if exists|j: int| 0 <= j < i + 1 && asks_render(all[j]) {
                    let j = choose|j: int| 0 <= j < i + 1 && asks_render(all[j]);
                    assert(j < i ==> render);
                }
            }
            i = i + 1;
        }
        if render {
            Ok(KeyHandleResult::RenderRequested)
        } else {
            Ok(KeyHandleResult::SkipRender)
        }
    }

    /// An event for the surfaces: what to fetch first, and the cover art pane's
    /// reaction (a query, or a render).
    pub fn on_event(&mut self, event: &UiEvent, context: &AppContext) -> (r: UiEventOutcome)
        ensures
            r.refresh == ui_refresh_of(*event),
            *event == UiEvent::SongChanged || *event == UiEvent::Reconnected ==> crate::album_art::art_query_for(
                *context,
                r.query,
            ) && r.result == KeyHandleResult::SkipRender,
            *event == UiEvent::ModalOpened ==> r.query is None && r.result == KeyHandleResult::RenderRequested
                && !final(self).album_art.visible,
            *event == UiEvent::ModalClosed ==> r.query is None && r.result == KeyHandleResult::RenderRequested
                && final(self).album_art.visible,
            *event == UiEvent::Exit ==> r.query is None && !final(self).album_art.visible,
            final(self).active_screen == old(self).active_screen,
            final(self).modals == old(self).modals,
    {
        let refresh = match event {
            UiEvent::Mixer => UiRefresh::Volume,
            UiEvent::Options => UiRefresh::Status,
            UiEvent::Player => UiRefresh::CurrentSong,
            _ => UiRefresh::Nothing,
        };
        let reaction = self.album_art.on_event(event, true, context);
        let result = if reaction.render {
            KeyHandleResult::RenderRequested
        } else {
            KeyHandleResult::SkipRender
        };
        UiEventOutcome { refresh, query: reaction.query, result }
    }
}

} // verus!
