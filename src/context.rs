use vstd::prelude::*;

use crate::idle::PlayState;

verus! {

/// A song in the queue: its queue id and its path.
#[derive(Debug, Clone, PartialEq, Eq)]
pub struct Song {
    pub id: u32,
    pub file: String,
}

impl Song {
    /// A copy of this song.
    pub fn duplicate(&self) -> (r: Song)
        ensures
            r == *self,
    {
        Song { id: self.id, file: self.file.clone() }
    }
}

/// A three-way player option.
#[derive(Debug, Clone, Copy, PartialEq, Eq, Structural)]
pub enum OnOffOneshot {
    On,
    Off,
    Oneshot,
}

pub open spec fn on_off_oneshot_next(v: OnOffOneshot) -> OnOffOneshot {
    match v {
        OnOffOneshot::On => OnOffOneshot::Off,
        OnOffOneshot::Off => OnOffOneshot::Oneshot,
        OnOffOneshot::Oneshot => OnOffOneshot::On,
    }
}

pub open spec fn on_off_next(v: OnOffOneshot) -> OnOffOneshot {
    match v {
        OnOffOneshot::On => OnOffOneshot::Off,
        _ => OnOffOneshot::On,
    }
}

impl OnOffOneshot {
    /// The next value: on, off, oneshot, and round again.
    pub fn cycle(self) -> (r: Self)
        ensures
            r == on_off_oneshot_next(self),
    {
        match self {
            OnOffOneshot::On => OnOffOneshot::Off,
            OnOffOneshot::Off => OnOffOneshot::Oneshot,
            OnOffOneshot::Oneshot => OnOffOneshot::On,
        }
    }

    /// The next value for a server without oneshot: on and off only.
    pub fn cycle_pre_mpd_24(self) -> (r: Self)
        ensures
            r == on_off_next(self),
    {
        match self {
            OnOffOneshot::On => OnOffOneshot::Off,
            _ => OnOffOneshot::On,
        }
    }
}

/// The player status snapshot held by the event loop.
#[derive(Debug, Clone, Copy, PartialEq, Eq, Structural)]
pub struct Status {
    pub state: PlayState,
    /// The queue id of the current song.
    pub song_id: Option<u32>,
    pub volume: u32,
    pub repeat: bool,
    pub random: bool,
    pub single: OnOffOneshot,
    pub consume: OnOffOneshot,
}

/// How cover art is drawn in the terminal.
#[derive(Debug, Clone, Copy, PartialEq, Eq, Structural)]
pub enum ImageMethod {
    Kitty,
    UeberzugWayland,
    UeberzugX11,
    Iterm2,
    Sixel,
    /// The terminal supports no image protocol.
    Unsupported,
    /// Cover art is switched off.
    Disabled,
}

pub open spec fn shows_images(m: ImageMethod) -> bool {
    m != ImageMethod::Unsupported && m != ImageMethod::Disabled
}

/// The state the event loop owns and hands to the UI.
#[derive(Debug, Clone)]
pub struct AppContext {
    pub status: Status,
    pub queue: Vec<Song>,
    pub image_method: ImageMethod,
    /// Song paths starting with one of these get no cover art lookup.
    pub disabled_protocols: Vec<String>,
    pub volume_step: u32,
    pub status_update_interval_ms: Option<u64>,
}

impl AppContext {
    /// The position and the song in the queue that the status names as current.
    pub fn find_current_song_in_queue(&self) -> (r: Option<(usize, &Song)>)
        ensures
            r matches Some((i, s)) ==> {
                &&& self.status.song_id == Some(s.id)
                &&& i < self.queue@.len()
                &&& self.queue@[i as int] == *s
                &&& forall|j: int| 0 <= j < i ==> self.queue@[j].id != s.id
            },
            r is None ==> (self.status.song_id is None || forall|j: int|
                0 <= j < self.queue@.len() ==> self.queue@[j].id != self.status.song_id->0),
    {
        let id = match self.status.song_id {
            Some(id) => id,
            None => return None,
        };
        let mut i: usize = 0;
        while i < self.queue.len()
            invariant
                i <= self.queue@.len(),
                self.status.song_id == Some(id),
                forall|j: int| 0 <= j < i ==> self.queue@[j].id != id,
            decreases self.queue@.len() - i,
        {
            if self.queue[i].id == id {
                return Some((i, &self.queue[i]));
            }
            i = i + 1;
        }
        None
    }
}

} // verus!
