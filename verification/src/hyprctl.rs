use vstd::prelude::*;
use crate::numbers::{dec_str, dec_str_signed, i64_to_string, u64_to_string};
use crate::strutil::str_eq;

verus! {

/// Where the compositor's command socket lives, from the per-user runtime
/// directory and the compositor instance signature.
pub fn command_socket_path(runtime_dir: &str, instance: &str) -> (p: String)
    ensures
        p@ == runtime_dir@ + "/hypr/"@ + instance@ + "/.socket.sock"@,
{
    let mut p = String::from_str(runtime_dir);
    p.append("/hypr/");
    p.append(instance);
    p.append("/.socket.sock");
    proof {
        assert(p@ =~= runtime_dir@ + "/hypr/"@ + instance@ + "/.socket.sock"@);
    }
    p
}

/// Where the compositor's event notification socket lives.
pub fn event_socket_path(runtime_dir: &str, instance: &str) -> (p: String)
    ensures
        p@ == runtime_dir@ + "/hypr/"@ + instance@ + "/.socket2.sock"@,
{
    let mut p = String::from_str(runtime_dir);
    p.append("/hypr/");
    p.append(instance);
    p.append("/.socket2.sock");
    proof {
        assert(p@ =~= runtime_dir@ + "/hypr/"@ + instance@ + "/.socket2.sock"@);
    }
    p
}

/// Checks the reply of a compositor command that answers with a plain `ok`,
/// and otherwise reports the reply verbatim in the error message.
pub fn expect_ok(result: &str) -> (r: Result<(), String>)
    ensures
        result@ == "ok"@ ==> r is Ok,
        result@ != "ok"@ ==> (r matches Err(m) && m@ == "Command returned: "@ + result@),
{
    if str_eq(result, "ok") {
        Ok(())
    } else {
        let mut m = String::from_str("Command returned: ");
        m.append(result);
        Err(m)
    }
}

/// The request line that reloads the compositor configuration; the caller
/// writes it to the command socket and checks the reply with `expect_ok`.
pub fn reload() -> (cmd: String)
    ensures
        cmd@ == "/reload"@,
{
    String::from_str("/reload")
}

/// The icon shown beside an on-screen notification.
#[derive(Clone, Copy, Debug, PartialEq, Eq, Structural)]
pub enum NotifyIcon {
    NoIcon,
    Warning,
    Info,
    Hint,
    Error,
    Confused,
    Okay,
}

/// The numeric code the compositor's notify command uses for each icon.
pub open spec fn icon_code(icon: NotifyIcon) -> int {
    match icon {
        NotifyIcon::NoIcon => -1,
        NotifyIcon::Warning => 0,
        NotifyIcon::Info => 1,
        NotifyIcon::Hint => 2,
        NotifyIcon::Error => 3,
        NotifyIcon::Confused => 4,
        NotifyIcon::Okay => 5,
    }
}

impl NotifyIcon {
    pub fn code(self) -> (c: i8)
        ensures
            c as int == icon_code(self),
    {
        match self {
            NotifyIcon::NoIcon => -1,
            NotifyIcon::Warning => 0,
            NotifyIcon::Info => 1,
            NotifyIcon::Hint => 2,
            NotifyIcon::Error => 3,
            NotifyIcon::Confused => 4,
            NotifyIcon::Okay => 5,
        }
    }
}

/// A notification colour, written as `rgb(..)` or `rgba(..)` on the wire.
#[derive(Clone, Copy, Debug, PartialEq, Eq, Structural)]
pub enum Color {
    Rgb(u8, u8, u8),
    Rgba(u8, u8, u8, u8),
}

/// The textual form of a colour in the compositor's command protocol.
pub open spec fn color_text(c: Color) -> Seq<char> {
    match c {
        Color::Rgb(r, g, b) => "rgb("@ + dec_str(r as nat) + ","@ + dec_str(g as nat) + ","@
            + dec_str(b as nat) + ")"@,
        Color::Rgba(r, g, b, a) => "rgba("@ + dec_str(r as nat) + ","@ + dec_str(g as nat) + ","@
            + dec_str(b as nat) + ","@ + dec_str(a as nat) + ")"@,
    }
}

impl Color {
    pub fn text(&self) -> (s: String)
        ensures
            s@ == color_text(*self),
    {
        match self {
            Color::Rgb(r, g, b) => {
                let mut s = String::from_str("rgb(");
                s.append(u64_to_string(*r as u64).as_str());
                s.append(",");
                s.append(u64_to_string(*g as u64).as_str());
                s.append(",");
                s.append(u64_to_string(*b as u64).as_str());
                s.append(")");
                proof {
                    assert(s@ =~= color_text(*self));
                }
                s
            },
            Color::Rgba(r, g, b, a) => {
                let mut s = String::from_str("rgba(");
                s.append(u64_to_string(*r as u64).as_str());
                s.append(",");
                s.append(u64_to_string(*g as u64).as_str());
                s.append(",");
                s.append(u64_to_string(*b as u64).as_str());
                s.append(",");
                s.append(u64_to_string(*a as u64).as_str());
                s.append(")");
                proof {
                    assert(s@ =~= color_text(*self));
                }
                s
            },
        }
    }
}

/// The request line that shows an on-screen notification: icon code, time in
/// milliseconds, colour and message, space-separated.  The caller writes it to
/// the command socket and checks the reply with `expect_ok`.
pub fn notify(icon: NotifyIcon, time_ms: u64, color: Color, message: &str) -> (cmd: String)
    ensures
        cmd@ == "/notify "@ + dec_str_signed(icon_code(icon)) + " "@ + dec_str(time_ms as nat)
            + " "@ + color_text(color) + " "@ + message@,
{
    let mut cmd = String::from_str("/notify ");
    cmd.append(i64_to_string(icon.code() as i64).as_str());
    cmd.append(" ");
    cmd.append(u64_to_string(time_ms).as_str());
    cmd.append(" ");
    cmd.append(color.text().as_str());
    cmd.append(" ");
    cmd.append(message);
    proof {
        assert(cmd@ =~= "/notify "@ + dec_str_signed(icon_code(icon)) + " "@ + dec_str(
            time_ms as nat,
        ) + " "@ + color_text(color) + " "@ + message@);
    }
    cmd
}

/// One workspace as reported by the compositor's query socket.
#[derive(Clone, Debug)]
pub struct Workspace {
    pub id: i32,
    pub name: String,
    pub monitor: String,
    pub monitor_id: u32,
    pub windows: u32,
    pub has_fullscreen: bool,
    pub last_window: String,
    pub last_window_title: String,
    pub is_persistent: bool,
}

/// The workspace a monitor currently shows, as named in monitor query replies.
#[derive(Clone, Debug)]
pub struct MonitorWorkspace {
    pub id: i32,
    pub name: String,
}

/// The screen area a monitor reserves for panels and bars.
#[derive(Clone, Copy, Debug, PartialEq, Eq, Structural)]
pub struct MonitorReserved {
    pub top: u32,
    pub left: u32,
    pub bottom: u32,
    pub right: u32,
}

/// A monitor's rotation and flip state.
#[derive(Clone, Copy, Debug, PartialEq, Eq, Structural)]
pub enum Transform {
    Normal,
    Rotate90,
    Rotate180,
    Rotate270,
    Flip,
    FlipRotate90,
    FlipRotate180,
    FlipRotate270,
}

/// The numeric code the compositor's query protocol uses for each transform.
pub open spec fn transform_code(t: Transform) -> int {
    match t {
        Transform::Normal => 0,
        Transform::Rotate90 => 1,
        Transform::Rotate180 => 2,
        Transform::Rotate270 => 3,
        Transform::Flip => 4,
        Transform::FlipRotate90 => 5,
        Transform::FlipRotate180 => 6,
        Transform::FlipRotate270 => 7,
    }
}

impl Transform {
    pub fn code(self) -> (c: u8)
        ensures
            c as int == transform_code(self),
    {
        match self {
            Transform::Normal => 0,
            Transform::Rotate90 => 1,
            Transform::Rotate180 => 2,
            Transform::Rotate270 => 3,
            Transform::Flip => 4,
            Transform::FlipRotate90 => 5,
            Transform::FlipRotate180 => 6,
            Transform::FlipRotate270 => 7,
        }
    }
}

/// The slice of one monitor's state that the daemon's own logic reads: its
/// name, the workspace it shows, and the special workspace it shows, if any.
/// The full query reply, which the daemon only forwards to clients, lives with
/// the I/O layer.
#[derive(Clone, Debug)]
pub struct Monitor {
    pub name: String,
    pub active_workspace: MonitorWorkspace,
    pub special_workspace: Option<MonitorWorkspace>,
}

impl Monitor {
    /// Normalises a raw monitor query reply: the compositor reports "no
    /// special workspace" as a special workspace with an empty name.
    pub fn from_query(
        name: String,
        active_workspace: MonitorWorkspace,
        special_workspace: MonitorWorkspace,
    ) -> (m: Monitor)
        ensures
            m.name == name,
            m.active_workspace == active_workspace,
            special_workspace.name@.len() == 0 ==> m.special_workspace is None,
            special_workspace.name@.len() > 0 ==> m.special_workspace == Some(special_workspace),
    {
        let has_special = !special_workspace.name.as_str().is_empty();
        Monitor {
            name,
            active_workspace,
            special_workspace: if has_special {
                Some(special_workspace)
            } else {
                None
            },
        }
    }
}

/// How a key bind fires.
#[derive(Clone, Copy, Debug, PartialEq, Eq, Structural)]
pub enum BindTrigger {
    Press,
    Release,
    LongPress,
    CatchAll,
    Mouse,
}

/// The raw shape of one key bind in the compositor's query reply.
#[derive(Clone)]
pub struct BindInternal {
    pub locked: bool,
    pub mouse: bool,
    pub release: bool,
    pub repeat: bool,
    pub long_press: bool,
    pub non_consuming: bool,
    pub has_description: bool,
    pub modmask: u32,
    pub submap: String,
    pub key: String,
    pub keycode: u32,
    pub catch_all: bool,
    pub description: String,
    pub dispatcher: String,
    pub arg: String,
}

/// One key bind, with the raw reply's flag soup folded into a single trigger
/// kind and its empty-string conventions folded into options.
#[derive(Debug)]
pub struct Bind {
    pub locked: bool,
    pub repeat: bool,
    pub non_consuming: bool,
    pub trigger: BindTrigger,
    pub modmask: u32,
    pub submap: Option<String>,
    pub key: String,
    pub keycode: u32,
    pub description: Option<String>,
    pub action: (String, String),
}

/// The bind a raw query reply denotes: mouse wins over catch-all, catch-all
/// over long-press, long-press over release; an empty submap means none; the
/// description counts only when the reply says one exists.
pub open spec fn bind_of(v: BindInternal) -> Bind {
    Bind {
        locked: v.locked,
        repeat: v.repeat,
        non_consuming: v.non_consuming,
        modmask: v.modmask,
        trigger: if v.mouse {
            BindTrigger::Mouse
        } else if v.catch_all {
            BindTrigger::CatchAll
        } else if v.long_press {
            BindTrigger::LongPress
        } else if v.release {
            BindTrigger::Release
        } else {
            BindTrigger::Press
        },
        submap: if v.submap@.len() == 0 {
            None
        } else {
            Some(v.submap)
        },
        key: v.key,
        keycode: v.keycode,
        description: if v.has_description {
            Some(v.description)
        } else {
            None
        },
        action: (v.dispatcher, v.arg),
    }
}

impl From<BindInternal> for Bind {
    fn from(value: BindInternal) -> (r: Bind) {
        let trigger = if value.mouse {
            BindTrigger::Mouse
        } else if value.catch_all {
            BindTrigger::CatchAll
        } else if value.long_press {
            BindTrigger::LongPress
        } else if value.release {
            BindTrigger::Release
        } else {
            BindTrigger::Press
        };
        let has_submap = !value.submap.as_str().is_empty();
        Bind {
            locked: value.locked,
            repeat: value.repeat,
            non_consuming: value.non_consuming,
            modmask: value.modmask,
            trigger,
            submap: if has_submap {
                Some(value.submap)
            } else {
                None
            },
            key: value.key,
            keycode: value.keycode,
            description: if value.has_description {
                Some(value.description)
            } else {
                None
            },
            action: (value.dispatcher, value.arg),
        }
    }
}

impl vstd::std_specs::convert::FromSpecImpl<BindInternal> for Bind {
    open spec fn obeys_from_spec() -> bool {
        true
    }

    open spec fn from_spec(v: BindInternal) -> Bind {
        bind_of(v)
    }
}

} // verus!
