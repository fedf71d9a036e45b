use vstd::prelude::*;
use crate::daemon::{StepError, StepState};
use crate::events::Event;
use crate::hyprctl::{Monitor, Workspace};
use crate::numbers::{dec_str_signed, i32_to_string};
use crate::strutil::{find_char, find_char_from, lemma_find_char_from, str_eq};

verus! {

/// A workspace as the status-bar widget displays it.
#[derive(Debug)]
pub struct EwwWorkspace {
    /// Display index; absent when the workspace name gives none.
    pub index: Option<String>,
    /// Display name; absent when the workspace name gives none.
    pub name: Option<String>,
    /// Display icon; absent when the workspace name gives none.
    pub icon: Option<String>,
    /// The monitor this workspace is visible on, used to highlight it.
    pub active_on: Option<String>,
    /// Special workspaces change the widget's behaviour.
    pub is_special: bool,
    /// The name with any `special:` prefix stripped, as the toggle command wants it.
    pub special_name: String,
    /// The id the workspace-switch command wants.
    pub id: i32,
}

/// Mathematical image of `EwwWorkspace`.
pub struct EwwWorkspaceV {
    pub index: Option<Seq<char>>,
    pub name: Option<Seq<char>>,
    pub icon: Option<Seq<char>>,
    pub active_on: Option<Seq<char>>,
    pub is_special: bool,
    pub special_name: Seq<char>,
    pub id: i32,
}

impl DeepView for EwwWorkspace {
    type V = EwwWorkspaceV;

    open spec fn deep_view(&self) -> EwwWorkspaceV {
        EwwWorkspaceV {
            index: self.index.deep_view(),
            name: self.name.deep_view(),
            icon: self.icon.deep_view(),
            active_on: self.active_on.deep_view(),
            is_special: self.is_special,
            special_name: self.special_name@,
            id: self.id,
        }
    }
}

/// What reading a workspace name as a JSON array of exactly three strings
/// yields; the result depends on the text alone.
pub uninterp spec fn json_string_triple(s: Seq<char>) -> Option<
    (Seq<char>, Seq<char>, Seq<char>),
>;

/// Relies on `serde_json::from_str::<[String; 3]>`: decodes a JSON array of
/// exactly three strings, or fails; the result depends on the input text alone.
#[verifier::external_body]
fn parse_name_triple(s: &str) -> (r: Option<(String, String, String)>)
    ensures
        match r {
            Some(t) => json_string_triple(s@) == Some((t.0@, t.1@, t.2@)),
            None => json_string_triple(s@) is None,
        },
{
    match serde_json::from_str::<[String; 3]>(s) {
        Ok([a, b, c]) => Some((a, b, c)),
        Err(_) => None,
    }
}

/// Whether monitor `m` currently shows workspace `id`, normally or as its
/// special workspace.
pub open spec fn monitor_shows(m: Monitor, id: i32) -> bool {
    ||| m.active_workspace.id == id
    ||| (m.special_workspace matches Some(s) && s.id == id)
}

/// The name of the first monitor showing workspace `id`, in reply order.
pub open spec fn active_on_spec(monitors: Seq<Monitor>, id: i32) -> Option<Seq<char>>
    decreases monitors.len(),
{
    if monitors.len() == 0 {
        None
    } else if monitor_shows(monitors[0], id) {
        Some(monitors[0].name@)
    } else {
        active_on_spec(monitors.drop_first(), id)
    }
}

proof fn lemma_active_on_skip(monitors: Seq<Monitor>, id: i32, k: int)
    requires
        0 <= k <= monitors.len(),
        forall|j: int| 0 <= j < k ==> !monitor_shows(#[trigger] monitors[j], id),
    ensures
        active_on_spec(monitors, id) == active_on_spec(monitors.skip(k), id),
    decreases k,
{
    if k == 0 {
        assert(monitors.skip(0) =~= monitors);
    } else {
        lemma_active_on_skip(monitors, id, k - 1);
        let t = monitors.skip(k - 1);
        assert(t[0] == monitors[k - 1]);
        assert(!monitor_shows(t[0], id));
        assert(t.drop_first() =~= monitors.skip(k));
    }
}

fn active_on_monitor(monitors: &Vec<Monitor>, id: i32) -> (r: Option<String>)
    ensures
        r.deep_view() == active_on_spec(monitors@, id),
{
    let mut k: usize = 0;
    while k < monitors.len()
        invariant
            k <= monitors@.len(),
            forall|j: int| 0 <= j < k ==> !monitor_shows(#[trigger] monitors@[j], id),
        decreases monitors@.len() - k,
    {
        let m = &monitors[k];
        let shows = m.active_workspace.id == id || (match &m.special_workspace {
            Some(s) => s.id == id,
            None => false,
        });
        if shows {
            proof {
                lemma_active_on_skip(monitors@, id, k as int);
                assert(monitors@.skip(k as int)[0] == monitors@[k as int]);
            }
            return Some(m.name.clone());
        }
        k += 1;
    }
    proof {
        lemma_active_on_skip(monitors@, id, k as int);
    }
    None
}

/// The icon a special workspace shows, keyed by its full name; unknown names
/// are shown as themselves.
pub open spec fn special_icon(name: Seq<char>) -> Seq<char> {
    if name == "special:guide"@ {
        "󰈹"@
    } else if name == "special:term"@ {
        ""@
    } else if name == "special:other"@ {
        ""@
    } else if name == "special:music"@ {
        ""@
    } else if name == "special:notes"@ {
        ""@
    } else if name == "special:testing"@ {
        ""@
    } else {
        name
    }
}

/// The part of a workspace name after its first `:`, or the whole name.
pub open spec fn special_name_of(name: Seq<char>) -> Seq<char> {
    match find_char_from(name, ':', 0) {
        None => name,
        Some(i) => name.skip(i + 1),
    }
}

/// The widget-facing shape of one workspace, given the monitors and what the
/// JSON reading of its name yielded.
pub open spec fn eww_from_parts(
    monitors: Seq<Monitor>,
    w: Workspace,
    parts: Option<(Seq<char>, Seq<char>, Seq<char>)>,
) -> EwwWorkspaceV {
    let active_on = active_on_spec(monitors, w.id);
    if w.id < 0 {
        EwwWorkspaceV {
            active_on,
            is_special: true,
            index: None,
            icon: Some(special_icon(w.name@)),
            name: None,
            id: w.id,
            special_name: special_name_of(w.name@),
        }
    } else {
        match parts {
            Some(t) => EwwWorkspaceV {
                active_on,
                index: if t.0.len() == 0 {
                    None
                } else if t.0 == "#"@ {
                    Some(dec_str_signed(w.id as int))
                } else {
                    Some(t.0)
                },
                icon: if t.1.len() == 0 {
                    None
                } else {
                    Some(t.1)
                },
                name: if t.2.len() == 0 {
                    None
                } else {
                    Some(t.2)
                },
                is_special: false,
                id: w.id,
                special_name: w.name@,
            },
            None => EwwWorkspaceV {
                active_on,
                index: Some(w.name@),
                icon: None,
                name: None,
                is_special: false,
                id: w.id,
                special_name: w.name@,
            },
        }
    }
}

/// The widget-facing shape of one workspace.
pub open spec fn eww_of(monitors: Seq<Monitor>, w: Workspace) -> EwwWorkspaceV {
    eww_from_parts(
        monitors,
        w,
        if w.id < 0 {
            None
        } else {
            json_string_triple(w.name@)
        },
    )
}

impl EwwWorkspace {
    /// Builds the widget-facing shape from what the JSON reading of the
    /// workspace name yielded, handed in as a plain argument.
    pub fn from_parts(
        monitors: &Vec<Monitor>,
        workspace: Workspace,
        parts: Option<(String, String, String)>,
    ) -> (r: EwwWorkspace)
        ensures
            r.deep_view() == eww_from_parts(monitors@, workspace, parts.deep_view()),
    {
        let active_on = active_on_monitor(monitors, workspace.id);
        if workspace.id < 0 {
            let icon: String = if str_eq(workspace.name.as_str(), "special:guide") {
                String::from_str("󰈹")
            } else if str_eq(workspace.name.as_str(), "special:term") {
                String::from_str("")
            } else if str_eq(workspace.name.as_str(), "special:other") {
                String::from_str("")
            } else if str_eq(workspace.name.as_str(), "special:music") {
                String::from_str("")
            } else if str_eq(workspace.name.as_str(), "special:notes") {
                String::from_str("")
            } else if str_eq(workspace.name.as_str(), "special:testing") {
                String::from_str("")
            } else {
                workspace.name.clone()
            };
            let special_name: String = match find_char(workspace.name.as_str(), ':') {
                Some(i) => {
                    proof {
                        lemma_find_char_from(workspace.name@, ':', 0);
                    }
                    let n = workspace.name.as_str().unicode_len();
                    String::from_str(workspace.name.as_str().substring_char(i + 1, n))
                },
                None => workspace.name.clone(),
            };
            EwwWorkspace {
                active_on,
                is_special: true,
                index: None,
                icon: Some(icon),
                name: None,
                id: workspace.id,
                special_name,
            }
        } else {
            match parts {
                Some((index, icon, name)) => {
                    let index_out: Option<String> = if index.as_str().is_empty() {
                        None
                    } else if str_eq(index.as_str(), "#") {
                        Some(i32_to_string(workspace.id))
                    } else {
                        Some(index)
                    };
                    let icon_out: Option<String> = if icon.as_str().is_empty() {
                        None
                    } else {
                        Some(icon)
                    };
                    let name_out: Option<String> = if name.as_str().is_empty() {
                        None
                    } else {
                        Some(name)
                    };
                    EwwWorkspace {
                        active_on,
                        index: index_out,
                        icon: icon_out,
                        name: name_out,
                        is_special: false,
                        id: workspace.id,
                        special_name: workspace.name,
                    }
                },
                None => EwwWorkspace {
                    active_on,
                    index: Some(workspace.name.clone()),
                    icon: None,
                    name: None,
                    is_special: false,
                    id: workspace.id,
                    special_name: workspace.name,
                },
            }
        }
    }

    /// The widget-facing shape of one workspace: special workspaces map to a
    /// fixed icon set, others are read from their JSON-array names.
    pub fn new(monitors: &Vec<Monitor>, workspace: Workspace) -> (r: EwwWorkspace)
        ensures
            r.deep_view() == eww_of(monitors@, workspace),
    {
        let parts: Option<(String, String, String)> = if workspace.id < 0 {
            None
        } else {
            parse_name_triple(workspace.name.as_str())
        };
        EwwWorkspace::from_parts(monitors, workspace, parts)
    }
}

/// One full update for the widget: every workspace in its widget-facing shape,
/// in reply order.
pub fn eww_update(monitors: &Vec<Monitor>, workspaces: Vec<Workspace>) -> (r: Vec<EwwWorkspace>)
    ensures
        r@.len() == workspaces@.len(),
        forall|i: int|
            0 <= i < r@.len() ==> #[trigger] r@[i].deep_view() == eww_of(
                monitors@,
                workspaces@[i],
            ),
{
    let ghost orig = workspaces@;
    let mut ws = workspaces;
    let mut out: Vec<EwwWorkspace> = Vec::new();
    while ws.len() > 0
        invariant
            out@.len() + ws@.len() == orig.len(),
            ws@ == orig.skip(out@.len() as int),
            forall|i: int|
                0 <= i < out@.len() ==> #[trigger] out@[i].deep_view() == eww_of(
                    monitors@,
                    orig[i],
                ),
        decreases ws@.len(),
    {
        proof {
            assert(ws@[0] == orig[out@.len() as int]);
        }
        let w = ws.remove(0);
        let e = EwwWorkspace::new(monitors, w);
        out.push(e);
        proof {
            assert(ws@ =~= orig.skip(out@.len() as int));
        }
    }
    out
}

/// The events after which the widget's workspace view can have changed.
pub open spec fn eww_relevant_spec(e: Event) -> bool {
    ||| e is FocusedMon
    ||| e is Workspace
    ||| e is CreateWorkspace
    ||| e is DestroyWorkspace
    ||| e is RenameWorkspace
    ||| e is ActiveSpecial
}

/// Whether an event obliges the streaming step to push a fresh update.
pub fn eww_relevant(event: &Event) -> (b: bool)
    ensures
        b == eww_relevant_spec(*event),
{
    match event {
        Event::FocusedMon { .. } => true,
        Event::Workspace { .. } => true,
        Event::CreateWorkspace { .. } => true,
        Event::DestroyWorkspace { .. } => true,
        Event::RenameWorkspace { .. } => true,
        Event::ActiveSpecial { .. } => true,
        _ => false,
    }
}

/// What a failed update send means for the streaming step: a closed peer is
/// the expected end of such a session and resolves to done, never to a fault;
/// any other outcome keeps the step active.
pub fn eww_send_outcome(send_result: &Result<(), StepError>) -> (s: StepState)
    ensures
        (*send_result matches Err(StepError::PeerClosed)) ==> s == StepState::Done,
        !(*send_result matches Err(StepError::PeerClosed)) ==> s == StepState::KeepActive,
{
    match send_result {
        Err(StepError::PeerClosed) => StepState::Done,
        _ => StepState::KeepActive,
    }
}

} // verus!
