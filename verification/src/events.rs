use vstd::prelude::*;

verus! {

/// Who owns the surface being screen-cast.
#[derive(Clone, Copy, Debug, PartialEq, Eq, Structural)]
pub enum ScreenCastOwner {
    Monitor,
    Window,
}

/// The focused window, as named by the `activewindow` event.
#[derive(Clone, Debug)]
pub struct ActiveWindow {
    pub class: String,
    pub title: String,
}

/// The focused special workspace, as named by the `activespecialv2` event.
#[derive(Clone, Debug)]
pub struct ActiveSpecial {
    pub id: i32,
    pub name: String,
}

/// One typed notification decoded from the compositor's event stream.
///
/// Unknown event names are preserved in `Custom` so that newer compositor
/// versions degrade gracefully instead of breaking the stream.
#[derive(Clone, Debug)]
pub enum Event {
    Workspace { name: String },
    WorkspaceV2 { id: i32, name: String },
    FocusedMon { workspace_name: String, monitor_name: String },
    FocusedMonV2 { workspace_id: i32, monitor_name: String },
    ActiveWindow { window: Option<ActiveWindow> },
    ActiveWindowV2 { window_address: Option<u64> },
    Fullscreen { active: bool },
    MonitorRemoved { name: String },
    MonitorRemovedV2 { id: i32, name: String, description: String },
    MonitorAdded { name: String },
    MonitorAddedV2 { id: i32, name: String, description: String },
    CreateWorkspace { name: String },
    CreateWorkspaceV2 { id: i32, name: String },
    DestroyWorkspace { name: String },
    DestroyWorkspaceV2 { id: i32, name: String },
    MoveWorkspace { workspace_name: String, monitor_name: String },
    MoveWorkspaceV2 { workspace_id: i32, workspace_name: String, monitor_name: String },
    RenameWorkspace { id: i32, new_name: String },
    ActiveSpecial { workspace_name: Option<String>, monitor_name: String },
    ActiveSpecialV2 { workspace: Option<ActiveSpecial>, monitor_name: String },
    ActiveLayout { keyboard_name: String, layout_name: String },
    OpenWindow { window_address: u64, workspace_name: String, window_class: String, window_title: String },
    CloseWindow { window_address: u64 },
    MoveWindow { window_address: u64, workspace_name: String },
    MoveWindowV2 { window_address: u64, workspace_id: i32, workspace_name: String },
    OpenLayer { namespace: String },
    CloseLayer { namespace: String },
    Submap { name: Option<String> },
    ChangeFloatingMode { window_address: u64, floating: bool },
    Urgent { window_address: u64 },
    ScreenCast { active: bool, owner: ScreenCastOwner },
    WindowTitle { window_address: u64 },
    WindowTitleV2 { window_address: u64, window_title: String },
    ToggleGroup { exists: bool, window_addresses: Vec<u64> },
    MoveIntoGroup { window_address: u64 },
    MoveOutOfGroup { window_address: u64 },
    IgnoreGroupLock { active: bool },
    LockGroups { locked: bool },
    ConfigReloaded,
    Pin { window_address: u64, pinned: bool },
    Minimized { window_address: u64, state: bool },
    Bell { window_address: u64 },
    Custom { name: String, params: Vec<String> },
}

/// Mathematical image of `ActiveWindow`.
pub struct ActiveWindowV {
    pub class: Seq<char>,
    pub title: Seq<char>,
}

/// Mathematical image of `ActiveSpecial`.
pub struct ActiveSpecialV {
    pub id: i32,
    pub name: Seq<char>,
}

/// Mathematical image of `Event`: the same variants over `Seq<char>` text.
pub enum EventV {
    Workspace { name: Seq<char> },
    WorkspaceV2 { id: i32, name: Seq<char> },
    FocusedMon { workspace_name: Seq<char>, monitor_name: Seq<char> },
    FocusedMonV2 { workspace_id: i32, monitor_name: Seq<char> },
    ActiveWindow { window: Option<ActiveWindowV> },
    ActiveWindowV2 { window_address: Option<u64> },
    Fullscreen { active: bool },
    MonitorRemoved { name: Seq<char> },
    MonitorRemovedV2 { id: i32, name: Seq<char>, description: Seq<char> },
    MonitorAdded { name: Seq<char> },
    MonitorAddedV2 { id: i32, name: Seq<char>, description: Seq<char> },
    CreateWorkspace { name: Seq<char> },
    CreateWorkspaceV2 { id: i32, name: Seq<char> },
    DestroyWorkspace { name: Seq<char> },
    DestroyWorkspaceV2 { id: i32, name: Seq<char> },
    MoveWorkspace { workspace_name: Seq<char>, monitor_name: Seq<char> },
    MoveWorkspaceV2 { workspace_id: i32, workspace_name: Seq<char>, monitor_name: Seq<char> },
    RenameWorkspace { id: i32, new_name: Seq<char> },
    ActiveSpecial { workspace_name: Option<Seq<char>>, monitor_name: Seq<char> },
    ActiveSpecialV2 { workspace: Option<ActiveSpecialV>, monitor_name: Seq<char> },
    ActiveLayout { keyboard_name: Seq<char>, layout_name: Seq<char> },
    OpenWindow { window_address: u64, workspace_name: Seq<char>, window_class: Seq<char>, window_title: Seq<char> },
    CloseWindow { window_address: u64 },
    MoveWindow { window_address: u64, workspace_name: Seq<char> },
    MoveWindowV2 { window_address: u64, workspace_id: i32, workspace_name: Seq<char> },
    OpenLayer { namespace: Seq<char> },
    CloseLayer { namespace: Seq<char> },
    Submap { name: Option<Seq<char>> },
    ChangeFloatingMode { window_address: u64, floating: bool },
    Urgent { window_address: u64 },
    ScreenCast { active: bool, owner: ScreenCastOwner },
    WindowTitle { window_address: u64 },
    WindowTitleV2 { window_address: u64, window_title: Seq<char> },
    ToggleGroup { exists: bool, window_addresses: Seq<u64> },
    MoveIntoGroup { window_address: u64 },
    MoveOutOfGroup { window_address: u64 },
    IgnoreGroupLock { active: bool },
    LockGroups { locked: bool },
    ConfigReloaded,
    Pin { window_address: u64, pinned: bool },
    Minimized { window_address: u64, state: bool },
    Bell { window_address: u64 },
    Custom { name: Seq<char>, params: Seq<Seq<char>> },
}

impl DeepView for ActiveWindow {
    type V = ActiveWindowV;

    open spec fn deep_view(&self) -> ActiveWindowV {
        ActiveWindowV { class: self.class@, title: self.title@ }
    }
}

impl DeepView for ActiveSpecial {
    type V = ActiveSpecialV;

    open spec fn deep_view(&self) -> ActiveSpecialV {
        ActiveSpecialV { id: self.id, name: self.name@ }
    }
}

impl DeepView for Event {
    type V = EventV;

    open spec fn deep_view(&self) -> EventV {
        match self {
            Event::Workspace { name } => EventV::Workspace { name: name@ },
            Event::WorkspaceV2 { id, name } => EventV::WorkspaceV2 { id: *id, name: name@ },
            Event::FocusedMon { workspace_name, monitor_name } => EventV::FocusedMon {
                workspace_name: workspace_name@,
                monitor_name: monitor_name@,
            },
            Event::FocusedMonV2 { workspace_id, monitor_name } => EventV::FocusedMonV2 {
                workspace_id: *workspace_id,
                monitor_name: monitor_name@,
            },
            Event::ActiveWindow { window } => EventV::ActiveWindow { window: window.deep_view() },
            Event::ActiveWindowV2 { window_address } => EventV::ActiveWindowV2 {
                window_address: *window_address,
            },
            Event::Fullscreen { active } => EventV::Fullscreen { active: *active },
            Event::MonitorRemoved { name } => EventV::MonitorRemoved { name: name@ },
            Event::MonitorRemovedV2 { id, name, description } => EventV::MonitorRemovedV2 {
                id: *id,
                name: name@,
                description: description@,
            },
            Event::MonitorAdded { name } => EventV::MonitorAdded { name: name@ },
            Event::MonitorAddedV2 { id, name, description } => EventV::MonitorAddedV2 {
                id: *id,
                name: name@,
                description: description@,
            },
            Event::CreateWorkspace { name } => EventV::CreateWorkspace { name: name@ },
            Event::CreateWorkspaceV2 { id, name } => EventV::CreateWorkspaceV2 {
                id: *id,
                name: name@,
            },
            Event::DestroyWorkspace { name } => EventV::DestroyWorkspace { name: name@ },
            Event::DestroyWorkspaceV2 { id, name } => EventV::DestroyWorkspaceV2 {
                id: *id,
                name: name@,
            },
            Event::MoveWorkspace { workspace_name, monitor_name } => EventV::MoveWorkspace {
                workspace_name: workspace_name@,
                monitor_name: monitor_name@,
            },
            Event::MoveWorkspaceV2 { workspace_id, workspace_name, monitor_name } => {
                EventV::MoveWorkspaceV2 {
                    workspace_id: *workspace_id,
                    workspace_name: workspace_name@,
                    monitor_name: monitor_name@,
                }
            },
            Event::RenameWorkspace { id, new_name } => EventV::RenameWorkspace {
                id: *id,
                new_name: new_name@,
            },
            Event::ActiveSpecial { workspace_name, monitor_name } => EventV::ActiveSpecial {
                workspace_name: workspace_name.deep_view(),
                monitor_name: monitor_name@,
            },
            Event::ActiveSpecialV2 { workspace, monitor_name } => EventV::ActiveSpecialV2 {
                workspace: workspace.deep_view(),
                monitor_name: monitor_name@,
            },
            Event::ActiveLayout { keyboard_name, layout_name } => EventV::ActiveLayout {
                keyboard_name: keyboard_name@,
                layout_name: layout_name@,
            },
            Event::OpenWindow { window_address, workspace_name, window_class, window_title } => {
                EventV::OpenWindow {
                    window_address: *window_address,
                    workspace_name: workspace_name@,
                    window_class: window_class@,
                    window_title: window_title@,
                }
            },
            Event::CloseWindow { window_address } => EventV::CloseWindow {
                window_address: *window_address,
            },
            Event::MoveWindow { window_address, workspace_name } => EventV::MoveWindow {
                window_address: *window_address,
                workspace_name: workspace_name@,
            },
            Event::MoveWindowV2 { window_address, workspace_id, workspace_name } => {
                EventV::MoveWindowV2 {
                    window_address: *window_address,
                    workspace_id: *workspace_id,
                    workspace_name: workspace_name@,
                }
            },
            Event::OpenLayer { namespace } => EventV::OpenLayer { namespace: namespace@ },
            Event::CloseLayer { namespace } => EventV::CloseLayer { namespace: namespace@ },
            Event::Submap { name } => EventV::Submap { name: name.deep_view() },
            Event::ChangeFloatingMode { window_address, floating } => EventV::ChangeFloatingMode {
                window_address: *window_address,
                floating: *floating,
            },
            Event::Urgent { window_address } => EventV::Urgent {
                window_address: *window_address,
            },
            Event::ScreenCast { active, owner } => EventV::ScreenCast {
                active: *active,
                owner: *owner,
            },
            Event::WindowTitle { window_address } => EventV::WindowTitle {
                window_address: *window_address,
            },
            Event::WindowTitleV2 { window_address, window_title } => EventV::WindowTitleV2 {
                window_address: *window_address,
                window_title: window_title@,
            },
            Event::ToggleGroup { exists, window_addresses } => EventV::ToggleGroup {
                exists: *exists,
                window_addresses: window_addresses@,
            },
            Event::MoveIntoGroup { window_address } => EventV::MoveIntoGroup {
                window_address: *window_address,
            },
            Event::MoveOutOfGroup { window_address } => EventV::MoveOutOfGroup {
                window_address: *window_address,
            },
            Event::IgnoreGroupLock { active } => EventV::IgnoreGroupLock { active: *active },
            Event::LockGroups { locked } => EventV::LockGroups { locked: *locked },
            Event::ConfigReloaded => EventV::ConfigReloaded,
            Event::Pin { window_address, pinned } => EventV::Pin {
                window_address: *window_address,
                pinned: *pinned,
            },
            Event::Minimized { window_address, state } => EventV::Minimized {
                window_address: *window_address,
                state: *state,
            },
            Event::Bell { window_address } => EventV::Bell { window_address: *window_address },
            Event::Custom { name, params } => EventV::Custom {
                name: name@,
                params: params.deep_view(),
            },
        }
    }
}

} // verus!
