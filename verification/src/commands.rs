use vstd::prelude::*;
use crate::eww::EwwWorkspace;
use crate::hyprctl::{Monitor, Workspace};
use crate::strutil::str_eq;

verus! {

/// One typed request of the daemon's own client-facing protocol, distinct from
/// compositor events.  This enum is the single source of truth for the wire
/// protocol: both sides dispatch on it exhaustively, and its variant
/// identifiers are what the self-delimiting encoding writes.
#[derive(Clone, Copy, Debug, PartialEq, Eq, Structural)]
pub enum Command {
    Workspaces,
    Monitors,
    ListenEww,
}

/// Marker for the one-shot request that lists the current workspaces.
pub struct Workspaces;

/// Marker for the one-shot request that lists the current monitors.
pub struct Monitors;

/// Marker for the streaming request that subscribes to workspace updates.
pub struct ListenEww;

impl Workspaces {
    pub fn command() -> (c: Command)
        ensures
            c == Command::Workspaces,
    {
        Command::Workspaces
    }
}

impl Monitors {
    pub fn command() -> (c: Command)
        ensures
            c == Command::Monitors,
    {
        Command::Monitors
    }
}

impl ListenEww {
    pub fn command() -> (c: Command)
        ensures
            c == Command::ListenEww,
    {
        Command::ListenEww
    }
}

/// What the daemon does with one accepted request.
#[derive(Clone, Copy, Debug, PartialEq, Eq, Structural)]
pub enum DaemonAction {
    /// Send the current workspace list as the single reply, then close out.
    ReplyWorkspaces,
    /// Send the current monitor list as the single reply, then close out.
    ReplyMonitors,
    /// Send an initial snapshot and promote the connection into a long-lived
    /// streaming step that pushes updates as events arrive.
    AttachEwwListener,
}

/// What the requesting client does after sending one command.
#[derive(Clone, Copy, Debug, PartialEq, Eq, Structural)]
pub enum RemoteAction {
    /// Read the single workspace-list reply and print it.
    PrintWorkspaces,
    /// Read the single monitor-list reply and print it.
    PrintMonitors,
    /// Keep reading framed updates until the stream closes or carries an error.
    FollowEwwStream,
}

pub open spec fn daemon_handler(c: Command) -> DaemonAction {
    match c {
        Command::Workspaces => DaemonAction::ReplyWorkspaces,
        Command::Monitors => DaemonAction::ReplyMonitors,
        Command::ListenEww => DaemonAction::AttachEwwListener,
    }
}

pub open spec fn remote_handler(c: Command) -> RemoteAction {
    match c {
        Command::Workspaces => RemoteAction::PrintWorkspaces,
        Command::Monitors => RemoteAction::PrintMonitors,
        Command::ListenEww => RemoteAction::FollowEwwStream,
    }
}

/// The variant identifier that the wire encoding writes for each command.
pub open spec fn wire_name_of(c: Command) -> Seq<char> {
    match c {
        Command::Workspaces => "Workspaces"@,
        Command::Monitors => "Monitors"@,
        Command::ListenEww => "ListenEww"@,
    }
}

/// The command a variant identifier names, if any.
pub open spec fn command_of_wire(s: Seq<char>) -> Option<Command> {
    if s == "Workspaces"@ {
        Some(Command::Workspaces)
    } else if s == "Monitors"@ {
        Some(Command::Monitors)
    } else if s == "ListenEww"@ {
        Some(Command::ListenEww)
    } else {
        None
    }
}

impl Command {
    /// The daemon-side handler of this request.
    pub fn dispatch_daemon(self) -> (a: DaemonAction)
        ensures
            a == daemon_handler(self),
    {
        match self {
            Command::Workspaces => DaemonAction::ReplyWorkspaces,
            Command::Monitors => DaemonAction::ReplyMonitors,
            Command::ListenEww => DaemonAction::AttachEwwListener,
        }
    }

    /// The client-side handler of this request.
    pub fn dispatch_remote(self) -> (a: RemoteAction)
        ensures
            a == remote_handler(self),
    {
        match self {
            Command::Workspaces => RemoteAction::PrintWorkspaces,
            Command::Monitors => RemoteAction::PrintMonitors,
            Command::ListenEww => RemoteAction::FollowEwwStream,
        }
    }

    /// This command's identifier on the wire.
    pub fn wire_name(self) -> (s: &'static str)
        ensures
            s@ == wire_name_of(self),
    {
        match self {
            Command::Workspaces => "Workspaces",
            Command::Monitors => "Monitors",
            Command::ListenEww => "ListenEww",
        }
    }

    /// Reads a command back from its wire identifier.
    pub fn from_wire_name(s: &str) -> (r: Option<Command>)
        ensures
            r == command_of_wire(s@),
    {
        if str_eq(s, "Workspaces") {
            Some(Command::Workspaces)
        } else if str_eq(s, "Monitors") {
            Some(Command::Monitors)
        } else if str_eq(s, "ListenEww") {
            Some(Command::ListenEww)
        } else {
            None
        }
    }
}

/// One reply of the daemon's client-facing protocol: the tagged union over
/// every possible reply, plus the explicit error a failed handler sends
/// before its connection closes out, so the client sees a structured failure
/// rather than a silently closed stream.  This union fixes which replies
/// exist and their variant identifiers on the wire; the I/O layer's copy of
/// it carries, in addition, the forwarded monitor fields that the daemon's
/// own logic never reads.
pub enum Response {
    /// The single reply to the workspace-list request.
    Workspaces(Vec<Workspace>),
    /// The single reply to the monitor-list request.
    Monitors(Vec<Monitor>),
    /// One update of the streaming subscription: the initial snapshot, then
    /// one push per relevant event.
    EwwUpdate(Vec<EwwWorkspace>),
    /// A handler failed; its description, and nothing more, follows.
    Error(String),
}

/// The variant identifier the wire encoding writes for each reply.
pub open spec fn response_wire_name_of(r: Response) -> Seq<char> {
    match r {
        Response::Workspaces(..) => "Workspaces"@,
        Response::Monitors(..) => "Monitors"@,
        Response::EwwUpdate(..) => "EwwUpdate"@,
        Response::Error(..) => "Error"@,
    }
}

impl Response {
    /// The reply a failed synchronous handler sends: the failure's text in
    /// the protocol's explicit error variant.
    pub fn from_failure(message: String) -> (r: Response)
        ensures
            r matches Response::Error(m) && m == message,
    {
        Response::Error(message)
    }

    /// This reply's identifier on the wire.
    pub fn wire_name(&self) -> (s: &'static str)
        ensures
            s@ == response_wire_name_of(*self),
    {
        match self {
            Response::Workspaces(..) => "Workspaces",
            Response::Monitors(..) => "Monitors",
            Response::EwwUpdate(..) => "EwwUpdate",
            Response::Error(..) => "Error",
        }
    }
}

/// Dispatch is total and unambiguous on both sides: the match in each
/// dispatcher covers every `Command` variant exactly once, no two commands
/// share a handler, and each command's wire identifier names it and nothing
/// else.
pub proof fn lemma_dispatch_exhaustive()
    ensures
        forall|c1: Command, c2: Command|
            #[trigger] daemon_handler(c1) == #[trigger] daemon_handler(c2) ==> c1 == c2,
        forall|c1: Command, c2: Command|
            #[trigger] remote_handler(c1) == #[trigger] remote_handler(c2) ==> c1 == c2,
        forall|c: Command| command_of_wire(#[trigger] wire_name_of(c)) == Some(c),
{
    reveal_strlit("Workspaces");
    reveal_strlit("Monitors");
    reveal_strlit("ListenEww");
    assert("Workspaces"@.len() == 10);
    assert("Monitors"@.len() == 8);
    assert("ListenEww"@.len() == 9);
}

} // verus!
