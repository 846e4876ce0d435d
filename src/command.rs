use vstd::prelude::*;

use crate::context::OnOffOneshot;
use crate::text::{decimal, push_char, push_decimal};

verus! {

/// A server protocol version.
#[derive(Debug, Clone, Copy, PartialEq, Eq, Structural)]
pub struct Version {
    pub major: u32,
    pub minor: u32,
    pub patch: u32,
}

pub open spec fn version_lt(a: Version, b: Version) -> bool {
    a.major < b.major || (a.major == b.major && (a.minor < b.minor || (a.minor == b.minor && a.patch
        < b.patch)))
}

impl Version {
    pub fn new(major: u32, minor: u32, patch: u32) -> (r: Self)
        ensures
            r == (Version { major, minor, patch }),
    {
        Version { major, minor, patch }
    }

    /// Whether this version comes before `other`.
    pub fn lt(&self, other: &Version) -> (r: bool)
        ensures
            r == version_lt(*self, *other),
    {
        self.major < other.major || (self.major == other.major && (self.minor < other.minor || (
        self.minor == other.minor && self.patch < other.patch)))
    }
}

/// Why a command could not be sent.
#[derive(Debug, Clone, Copy, PartialEq, Eq, Structural)]
pub enum MpdError {
    /// The server is too old for the command.
    UnsupportedMpdVersion,
    /// The server answered that the object does not exist.
    NoExist,
    /// Any other failure of the session.
    Failed,
}

/// A command that changes the player's state and needs no result.
#[derive(Debug, Clone, PartialEq, Eq)]
pub enum ClientCommand {
    Next,
    Prev,
    Stop,
    PauseToggle,
    Repeat(bool),
    Random(bool),
    Single(OnOffOneshot),
    Consume(OnOffOneshot),
    SetVolume(u32),
    SeekForward(u32),
    SeekBack(u32),
    /// Add the file or directory at this path to the queue.
    Add(String),
    /// Add every song matching this query expression to the queue.
    FindAdd(String),
}

pub open spec fn on_off_text(v: OnOffOneshot) -> Seq<char> {
    match v {
        OnOffOneshot::On => "1"@,
        OnOffOneshot::Off => "0"@,
        OnOffOneshot::Oneshot => "oneshot"@,
    }
}

pub open spec fn flag_text(b: bool) -> Seq<char> {
    if b { "1"@ } else { "0"@ }
}

pub open spec fn quoted(s: Seq<char>) -> Seq<char> {
    seq!['"'] + s + seq!['"']
}

/// The protocol line of a command.
pub open spec fn command_text(c: ClientCommand) -> Seq<char> {
    match c {
        ClientCommand::Next => "next"@,
        ClientCommand::Prev => "previous"@,
        ClientCommand::Stop => "stop"@,
        ClientCommand::PauseToggle => "pause"@,
        ClientCommand::Repeat(b) => "repeat "@ + flag_text(b),
        ClientCommand::Random(b) => "random "@ + flag_text(b),
        ClientCommand::Single(v) => "single "@ + on_off_text(v),
        ClientCommand::Consume(v) => "consume "@ + on_off_text(v),
        ClientCommand::SetVolume(v) => "setvol "@ + decimal(v as nat),
        ClientCommand::SeekForward(s) => "seekcur +"@ + decimal(s as nat),
        ClientCommand::SeekBack(s) => "seekcur -"@ + decimal(s as nat),
        ClientCommand::Add(p) => "add "@ + quoted(p@),
        ClientCommand::FindAdd(q) => "findadd "@ + quoted("("@ + q@ + ")"@),
    }
}

/// Whether the server version can run the command: consume oneshot needs 0.24.
pub open spec fn command_supported(c: ClientCommand, v: Version) -> bool {
    !(c == ClientCommand::Consume(OnOffOneshot::Oneshot) && version_lt(v, Version { major: 0, minor: 24, patch: 0 }))
}

fn on_off_str(v: OnOffOneshot) -> (r: &'static str)
    ensures
        r@ == on_off_text(v),
{
    match v {
        OnOffOneshot::On => "1",
        OnOffOneshot::Off => "0",
        OnOffOneshot::Oneshot => "oneshot",
    }
}

fn flag_str(b: bool) -> (r: &'static str)
    ensures
        r@ == flag_text(b),
{
    if b {
        "1"
    } else {
        "0"
    }
}

impl ClientCommand {
    /// The protocol line for this command, or the reason the server cannot run it.
    pub fn to_command_string(&self, version: Version) -> (r: Result<String, MpdError>)
        ensures
            command_supported(*self, version) ==> (r matches Ok(s) && s@ == command_text(*self)),
            !command_supported(*self, version) ==> r == Err::<String, MpdError>(
                MpdError::UnsupportedMpdVersion,
            ),
    {
        let mut s = String::new();
        match self {
            ClientCommand::Next => s.append("next"),
            ClientCommand::Prev => s.append("previous"),
            ClientCommand::Stop => s.append("stop"),
            ClientCommand::PauseToggle => s.append("pause"),
            ClientCommand::Repeat(b) => {
                s.append("repeat ");
                s.append(flag_str(*b));
            },
            ClientCommand::Random(b) => {
                s.append("random ");
                s.append(flag_str(*b));
            },
            ClientCommand::Single(v) => {
                s.append("single ");
                s.append(on_off_str(*v));
            },
            ClientCommand::Consume(v) => {
                if matches!(v, OnOffOneshot::Oneshot) && version.lt(&Version::new(0, 24, 0)) {
                    return Err(MpdError::UnsupportedMpdVersion);
                }
                s.append("consume ");
                s.append(on_off_str(*v));
            },
            ClientCommand::SetVolume(v) => {
                s.append("setvol ");
                push_decimal(&mut s, *v as u64);
            },
            ClientCommand::SeekForward(v) => {
                s.append("seekcur +");
                push_decimal(&mut s, *v as u64);
            },
            ClientCommand::SeekBack(v) => {
                s.append("seekcur -");
                push_decimal(&mut s, *v as u64);
            },
            ClientCommand::Add(p) => {
                s.append("add ");
                push_char(&mut s, '"');
                s.append(p.as_str());
                push_char(&mut s, '"');
            },
            ClientCommand::FindAdd(q) => {
                s.append("findadd ");
                push_char(&mut s, '"');
                push_char(&mut s, '(');
                s.append(q.as_str());
                push_char(&mut s, ')');
                push_char(&mut s, '"');
            },
        }
        proof {
            reveal_strlit("(");
            reveal_strlit(")");
        }
        assert(s@ =~= command_text(*self));
        Ok(s)
    }
}

} // verus!
