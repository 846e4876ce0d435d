use vstd::prelude::*;

use crate::scheduler::{LoopEvent, SchedulerInput, SchedulerMode, next_mode, run_mode};
use crate::text::{ascii_upper, duration_string, duration_text, str_eq, to_ascii_upper};

verus! {

/// Which part of the remote player's state changed.
#[derive(Debug, Clone, Copy, PartialEq, Eq, Structural)]
pub enum IdleEvent {
    Player,
    Mixer,
    Playlist,
    Options,
    Database,
    StoredPlaylist,
    Update,
    Output,
    Partition,
    Sticker,
    Subscription,
    Message,
    Neighbor,
    Mount,
}

pub open spec fn idle_event_name(e: IdleEvent) -> Seq<char> {
    match e {
        IdleEvent::Player => "player"@,
        IdleEvent::Mixer => "mixer"@,
        IdleEvent::Playlist => "playlist"@,
        IdleEvent::Options => "options"@,
        IdleEvent::Database => "database"@,
        IdleEvent::StoredPlaylist => "stored_playlist"@,
        IdleEvent::Update => "update"@,
        IdleEvent::Output => "output"@,
        IdleEvent::Partition => "partition"@,
        IdleEvent::Sticker => "sticker"@,
        IdleEvent::Subscription => "subscription"@,
        IdleEvent::Message => "message"@,
        IdleEvent::Neighbor => "neighbor"@,
        IdleEvent::Mount => "mount"@,
    }
}

impl IdleEvent {
    /// The subsystem's name in the protocol.
    pub fn as_str(&self) -> (r: &'static str)
        ensures
            r@ == idle_event_name(*self),
    {
        match self {
            IdleEvent::Player => "player",
            IdleEvent::Mixer => "mixer",
            IdleEvent::Playlist => "playlist",
            IdleEvent::Options => "options",
            IdleEvent::Database => "database",
            IdleEvent::StoredPlaylist => "stored_playlist",
            IdleEvent::Update => "update",
            IdleEvent::Output => "output",
            IdleEvent::Partition => "partition",
            IdleEvent::Sticker => "sticker",
            IdleEvent::Subscription => "subscription",
            IdleEvent::Message => "message",
            IdleEvent::Neighbor => "neighbor",
            IdleEvent::Mount => "mount",
        }
    }

    /// The subsystem with this protocol name; none for a name this client does
    /// not know (such a name is logged and dropped, never an error).
    pub fn from_name(name: &str) -> (r: Option<IdleEvent>)
        ensures
            r matches Some(e) ==> idle_event_name(e) == name@,
            r is None ==> forall|e: IdleEvent| idle_event_name(e) != name@,
    {
        if str_eq(name, "player") {
            return Some(IdleEvent::Player);
        }
        if str_eq(name, "mixer") {
            return Some(IdleEvent::Mixer);
        }
        if str_eq(name, "playlist") {
            return Some(IdleEvent::Playlist);
        }
        if str_eq(name, "options") {
            return Some(IdleEvent::Options);
        }
        if str_eq(name, "database") {
            return Some(IdleEvent::Database);
        }
        if str_eq(name, "stored_playlist") {
            return Some(IdleEvent::StoredPlaylist);
        }
        if str_eq(name, "update") {
            return Some(IdleEvent::Update);
        }
        if str_eq(name, "output") {
            return Some(IdleEvent::Output);
        }
        if str_eq(name, "partition") {
            return Some(IdleEvent::Partition);
        }
        if str_eq(name, "sticker") {
            return Some(IdleEvent::Sticker);
        }
        if str_eq(name, "subscription") {
            return Some(IdleEvent::Subscription);
        }
        if str_eq(name, "message") {
            return Some(IdleEvent::Message);
        }
        if str_eq(name, "neighbor") {
            return Some(IdleEvent::Neighbor);
        }
        if str_eq(name, "mount") {
            return Some(IdleEvent::Mount);
        }
        assert forall|e: IdleEvent| idle_event_name(e) != name@ by {
            match e {
                IdleEvent::Player => {},
                IdleEvent::Mixer => {},
                IdleEvent::Playlist => {},
                IdleEvent::Options => {},
                IdleEvent::Database => {},
                IdleEvent::StoredPlaylist => {},
                IdleEvent::Update => {},
                IdleEvent::Output => {},
                IdleEvent::Partition => {},
                IdleEvent::Sticker => {},
                IdleEvent::Subscription => {},
                IdleEvent::Message => {},
                IdleEvent::Neighbor => {},
                IdleEvent::Mount => {},
            }
        }
        None
    }
}

/// The longest run of consecutive wait failures that is still retried.
pub const MAX_IDLE_ERRORS: u64 = 5;

/// What the change listener does after a failed wait.
#[derive(Debug, Clone, Copy, PartialEq, Eq, Structural)]
pub enum IdleRetry {
    /// Sleep this many seconds, then wait again.
    Retry(u64),
    /// Too many failures in a row: the listener ends.
    GiveUp,
}

/// The reaction to a failure when `count` failures came just before it.
pub open spec fn retry_after(count: nat) -> IdleRetry {
    if count + 1 > MAX_IDLE_ERRORS {
        IdleRetry::GiveUp
    } else {
        IdleRetry::Retry((count + 1) as u64)
    }
}

/// The consecutive-failure counter of the change listener, with linear backoff.
#[derive(Debug, Clone, Copy, PartialEq, Eq, Structural)]
pub struct IdleBackoff {
    pub error_count: u64,
}

impl IdleBackoff {
    pub open spec fn wf(&self) -> bool {
        self.error_count <= MAX_IDLE_ERRORS
    }

    /// A counter with no failure yet.
    pub open spec fn new_spec() -> IdleBackoff {
        IdleBackoff { error_count: 0 }
    }

    pub fn new() -> (r: Self)
        ensures
            r == IdleBackoff::new_spec(),
            r.wf(),
    {
        IdleBackoff { error_count: 0 }
    }

    /// A successful wait resets the counter.
    pub fn on_success(&mut self)
        ensures
            final(self).error_count == 0,
    {
        self.error_count = 0;
    }

    /// A failed wait: counts it and says whether to sleep and retry or give up.
    pub fn on_failure(&mut self) -> (r: IdleRetry)
        requires
            old(self).wf(),
        ensures
            r == retry_after(old(self).error_count as nat),
            r is Retry ==> final(self).error_count == old(self).error_count + 1,
            r is GiveUp ==> final(self).error_count == old(self).error_count,
            final(self).wf(),
    {
        if self.error_count + 1 > MAX_IDLE_ERRORS {
            IdleRetry::GiveUp
        } else {
            self.error_count = self.error_count + 1;
            IdleRetry::Retry(self.error_count)
        }
    }
}

/// The reactions to `n` failures in a row, starting from a counter of `count`.
pub open spec fn failure_run(count: nat, n: nat) -> Seq<IdleRetry>
    decreases n,
{
    if n == 0 {
        seq![]
    } else {
        let r = retry_after(count);
        seq![r] + failure_run(if r is Retry { count + 1 } else { count }, (n - 1) as nat)
    }
}

/// From a fresh counter, the first five failures in a row sleep 1, 2, 3, 4 and
/// 5 seconds (strictly increasing), and any failure after those ends the
/// listener.
pub proof fn lemma_backoff_schedule(n: nat)
    ensures
        failure_run(0, n).len() == n,
        forall|i: int| 0 <= i < n && i < MAX_IDLE_ERRORS ==> failure_run(0, n)[i]
            == IdleRetry::Retry((i + 1) as u64),
        forall|i: int| MAX_IDLE_ERRORS <= i < n ==> failure_run(0, n)[i] == IdleRetry::GiveUp,
{
    lemma_failure_run(0, n);
}

proof fn lemma_failure_run(count: nat, n: nat)
    requires
        count <= MAX_IDLE_ERRORS,
    ensures
        failure_run(count, n).len() == n,
        forall|i: int| 0 <= i < n && count + i < MAX_IDLE_ERRORS ==> failure_run(count, n)[i]
            == IdleRetry::Retry((count + i + 1) as u64),
        forall|i: int| 0 <= i < n && count + i >= MAX_IDLE_ERRORS ==> failure_run(count, n)[i]
            == IdleRetry::GiveUp,
    decreases n,
{
    if n > 0 {
        let r = retry_after(count);
        let next = if r is Retry { count + 1 } else { count };
        lemma_failure_run(next, (n - 1) as nat);
        let s = failure_run(count, n);
        assert(s == seq![r] + failure_run(next, (n - 1) as nat));
        assert forall|i: int| 0 < i < n implies s[i] == failure_run(next, (n - 1) as nat)[i - 1] by {}
    }
}

/// After a success (which leaves the counter at zero, see `on_success`) the
/// listener backs off as a fresh one, whatever failures came before: the next
/// failures sleep 1, 2, 3, 4 and 5 seconds again.
pub proof fn lemma_success_resets(before: IdleBackoff, after: IdleBackoff, n: nat)
    requires
        before.wf(),
        after.error_count == 0,
    ensures
        failure_run(after.error_count as nat, n) == failure_run(IdleBackoff::new_spec().error_count as nat, n),
        forall|i: int| 0 <= i < n && i < MAX_IDLE_ERRORS ==> failure_run(after.error_count as nat, n)[i]
            == IdleRetry::Retry((i + 1) as u64),
{
    lemma_backoff_schedule(n);
}

/// The play state of the remote player.
#[derive(Debug, Clone, Copy, PartialEq, Eq, Structural)]
pub enum PlayState {
    Play,
    Stop,
    Pause,
}

/// What the event loop fetches again for a change notification.
#[derive(Debug, Clone, Copy, PartialEq, Eq, Structural)]
pub enum IdleRefresh {
    /// Read only the volume.
    Volume,
    /// Read the whole status.
    Status,
    /// Read the queue.
    Queue,
    /// Nothing to fetch.
    Nothing,
    /// A subsystem this client does not handle: logged and dropped.
    Unhandled,
}

pub open spec fn idle_refresh_spec(event: IdleEvent, supports_getvol: bool) -> IdleRefresh {
    match event {
        IdleEvent::Mixer => if supports_getvol { IdleRefresh::Volume } else { IdleRefresh::Status },
        IdleEvent::Options | IdleEvent::Player => IdleRefresh::Status,
        IdleEvent::Playlist => IdleRefresh::Queue,
        IdleEvent::StoredPlaylist | IdleEvent::Database | IdleEvent::Update => IdleRefresh::Nothing,
        _ => IdleRefresh::Unhandled,
    }
}

/// Decides what a change notification makes the event loop fetch.
pub fn idle_refresh(event: IdleEvent, supports_getvol: bool) -> (r: IdleRefresh)
    ensures
        r == idle_refresh_spec(event, supports_getvol),
{
    match event {
        IdleEvent::Mixer => if supports_getvol {
            IdleRefresh::Volume
        } else {
            IdleRefresh::Status
        },
        IdleEvent::Options | IdleEvent::Player => IdleRefresh::Status,
        IdleEvent::Playlist => IdleRefresh::Queue,
        IdleEvent::StoredPlaylist | IdleEvent::Database | IdleEvent::Update => IdleRefresh::Nothing,
        _ => IdleRefresh::Unhandled,
    }
}

/// What follows a playback-changed notification once the new status is read.
#[derive(Debug, Clone, Copy, PartialEq, Eq, Structural)]
pub struct PlayerReaction {
    /// The signal for the status-refresh ticker.
    pub scheduler: LoopEvent,
    /// Whether the song-change hook is to run.
    pub run_song_hook: bool,
}

pub open spec fn player_reaction_spec(
    previous_song: Option<u32>,
    state: PlayState,
    song: Option<u32>,
    has_hook: bool,
) -> PlayerReaction {
    PlayerReaction {
        scheduler: if state == PlayState::Play { LoopEvent::Start } else { LoopEvent::Stop },
        run_song_hook: has_hook && song is Some && song != previous_song,
    }
}

/// The ticker runs exactly while playing; the hook runs when another song
/// became current.
pub fn player_reaction(previous_song: Option<u32>, state: PlayState, song: Option<u32>, has_hook: bool) -> (r:
    PlayerReaction)
    ensures
        r == player_reaction_spec(previous_song, state, song, has_hook),
{
    let scheduler = match state {
        PlayState::Play => LoopEvent::Start,
        _ => LoopEvent::Stop,
    };
    let changed = match (song, previous_song) {
        (Some(a), Some(b)) => a != b,
        (Some(_), None) => true,
        (None, _) => false,
    };
    PlayerReaction { scheduler, run_song_hook: has_hook && changed }
}

/// A playback-changed notification whose new status is "playing" moves a
/// stopped ticker to Running; any other state leaves it stopped.
pub proof fn lemma_playing_starts_ticker(
    previous_song: Option<u32>,
    state: PlayState,
    song: Option<u32>,
    has_hook: bool,
)
    ensures
        run_mode(
            SchedulerMode::Stopped,
            seq![SchedulerInput::Signal(player_reaction_spec(previous_song, state, song, has_hook).scheduler)],
        ) == (if state == PlayState::Play { SchedulerMode::Running } else { SchedulerMode::Stopped }),
{
    let xs = seq![SchedulerInput::Signal(player_reaction_spec(previous_song, state, song, has_hook).scheduler)];
    assert(xs.drop_first().len() == 0);
    let m = next_mode(SchedulerMode::Stopped, xs[0]);
    assert(run_mode(m, xs.drop_first()) == m);
}

/// The environment handed to the song-change hook: each tag under its
/// upper-cased name, then the file and the duration (empty when unknown).
pub open spec fn song_hook_env_spec(
    file: Seq<char>,
    metadata: Seq<(String, String)>,
    duration_secs: Option<u64>,
    env: Seq<(String, String)>,
) -> bool {
    &&& env.len() == metadata.len() + 2
    &&& forall|i: int| #![trigger env[i]] 0 <= i < metadata.len() ==> env[i].0@ == ascii_upper(metadata[i].0@) && env[i].1@
        == metadata[i].1@
    &&& env[metadata.len() as int].0@ == "FILE"@
    &&& env[metadata.len() as int].1@ == file
    &&& env[metadata.len() + 1int].0@ == "DURATION"@
    &&& env[metadata.len() + 1int].1@ == match duration_secs {
        Some(d) => duration_text(d as nat),
        None => Seq::<char>::empty(),
    }
}

/// Builds the song-change hook's environment for the new current song.
pub fn song_hook_env(file: &str, metadata: &Vec<(String, String)>, duration_secs: Option<u64>) -> (r: Vec<
    (String, String),
>)
    ensures
        song_hook_env_spec(file@, metadata@, duration_secs, r@),
{
    let mut env: Vec<(String, String)> = Vec::new();
    let mut i: usize = 0;
    while i < metadata.len()
        invariant
            i <= metadata@.len(),
            env@.len() == i,
            forall|j: int| #![trigger env@[j]] 0 <= j < i ==> env@[j].0@ == ascii_upper(metadata@[j].0@) && env@[j].1@
                == metadata@[j].1@,
        decreases metadata@.len() - i,
    {
        let k = to_ascii_upper(metadata[i].0.as_str());
        let v = metadata[i].1.clone();
        env.push((k, v));
        i = i + 1;
    }
    env.push((String::from_str("FILE"), String::from_str(file)));
    let d = match duration_secs {
        Some(secs) => duration_string(secs),
        None => String::new(),
    };
    env.push((String::from_str("DURATION"), d));
    env
}

} // verus!
