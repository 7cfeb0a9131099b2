//! The window manager's state as plain values, its view, and the lookups
//! that the commands make on it.
//!
//! Containers (the root, monitors, workspaces and windows) are named by
//! `u64` ids. Windows are kept in one list ordered by focus: the window at
//! index 0 was focused most recently, and the windows of one workspace, in
//! list order, are that workspace's descendants in focus order.

use vstd::prelude::*;

verus! {

/// A rectangle in screen coordinates.
#[derive(Clone, Copy, Debug, PartialEq, Eq, Structural)]
pub struct Rect {
    pub left: i32,
    pub top: i32,
    pub right: i32,
    pub bottom: i32,
}

impl Rect {
    /// The two rectangles share some column of the screen.
    pub open spec fn overlaps_x(self, other: Rect) -> bool {
        self.left < other.right && other.left < self.right
    }

    /// The two rectangles share some row of the screen.
    pub open spec fn overlaps_y(self, other: Rect) -> bool {
        self.top < other.bottom && other.top < self.bottom
    }

    /// Whether the two rectangles share some column of the screen.
    pub fn has_overlap_x(&self, other: &Rect) -> (r: bool)
        ensures
            r == self.overlaps_x(*other),
    {
        self.left < other.right && other.left < self.right
    }

    /// Whether the two rectangles share some row of the screen.
    pub fn has_overlap_y(&self, other: &Rect) -> (r: bool)
        ensures
            r == self.overlaps_y(*other),
    {
        self.top < other.bottom && other.top < self.bottom
    }
}

/// A monitor: its container id, its native handle, where it lies, and the
/// workspace it displays.
#[derive(Clone, Copy, Debug)]
pub struct Monitor {
    pub id: u64,
    pub handle: isize,
    pub rect: Rect,
    pub displayed_workspace: Option<u64>,
}

/// A workspace: its container id, the name of its config entry, whether it
/// stays alive when empty, and the monitor that holds it.
#[derive(Debug)]
pub struct Workspace {
    pub id: u64,
    pub name: String,
    pub keep_alive: bool,
    pub monitor_id: u64,
}

pub struct WorkspaceView {
    pub id: u64,
    pub name: Seq<char>,
    pub keep_alive: bool,
    pub monitor_id: u64,
}

impl View for Workspace {
    type V = WorkspaceView;

    open spec fn view(&self) -> WorkspaceView {
        WorkspaceView {
            id: self.id,
            name: self.name@,
            keep_alive: self.keep_alive,
            monitor_id: self.monitor_id,
        }
    }
}

/// A managed window: its container id, its native handle, its title and the
/// workspace that holds it.
#[derive(Debug)]
pub struct Window {
    pub id: u64,
    pub handle: isize,
    pub title: String,
    pub workspace_id: u64,
}

pub struct WindowView {
    pub id: u64,
    pub handle: isize,
    pub title: Seq<char>,
    pub workspace_id: u64,
}

impl View for Window {
    type V = WindowView;

    open spec fn view(&self) -> WindowView {
        WindowView {
            id: self.id,
            handle: self.handle,
            title: self.title@,
            workspace_id: self.workspace_id,
        }
    }
}

/// Work queued for the next synchronisation with the operating system.
#[derive(Debug)]
pub struct PendingSync {
    pub focus_change: bool,
    pub cursor_jump: bool,
    pub containers_to_redraw: Vec<u64>,
}

pub struct PendingSyncView {
    pub focus_change: bool,
    pub cursor_jump: bool,
    pub containers_to_redraw: Seq<u64>,
}

impl View for PendingSync {
    type V = PendingSyncView;

    open spec fn view(&self) -> PendingSyncView {
        PendingSyncView {
            focus_change: self.focus_change,
            cursor_jump: self.cursor_jump,
            containers_to_redraw: self.containers_to_redraw@,
        }
    }
}

impl PendingSync {
    /// Nothing queued.
    pub fn new() -> (r: PendingSync)
        ensures
            !r@.focus_change,
            !r@.cursor_jump,
            r@.containers_to_redraw == Seq::<u64>::empty(),
    {
        PendingSync { focus_change: false, cursor_jump: false, containers_to_redraw: Vec::new() }
    }

    /// Queues a change of the native focus.
    pub fn queue_focus_change(&mut self)
        ensures
            final(self)@ == (PendingSyncView { focus_change: true, ..old(self)@ }),
    {
        self.focus_change = true;
    }

    /// Queues a jump of the cursor to the focused container.
    pub fn queue_cursor_jump(&mut self)
        ensures
            final(self)@ == (PendingSyncView { cursor_jump: true, ..old(self)@ }),
    {
        self.cursor_jump = true;
    }

    /// Queues a container to be redrawn.
    pub fn queue_container_to_redraw(&mut self, id: u64)
        ensures
            final(self)@ == (PendingSyncView {
                containers_to_redraw: old(self)@.containers_to_redraw.push(id),
                ..old(self)@
            }),
    {
        self.containers_to_redraw.push(id);
    }
}

/// Events that the window manager emits to its subscribers.
#[derive(Clone, Copy, Debug, PartialEq, Eq, Structural)]
pub enum WmEvent {
    PauseChanged { is_paused: bool },
    WorkspaceActivated { workspace_id: u64 },
    WorkspaceDeactivated { workspace_id: u64 },
}

/// The state of the window manager.
#[derive(Debug)]
pub struct WmState {
    /// Id of the root container, the parent of all monitors.
    pub root_id: u64,
    pub monitors: Vec<Monitor>,
    pub workspaces: Vec<Workspace>,
    /// All managed windows, most recently focused first.
    pub windows: Vec<Window>,
    pub focused_container: Option<u64>,
    /// Whether the window manager ignores window events.
    pub is_paused: bool,
    /// Whether the native focus agrees with `focused_container`.
    pub is_focus_synced: bool,
    /// Name of the workspace that was focused before the last workspace switch.
    pub recent_workspace_name: Option<String>,
    pub pending_sync: PendingSync,
    /// Events emitted and not yet delivered, oldest first.
    pub events: Vec<WmEvent>,
    /// The id that the next created container gets.
    pub next_container_id: u64,
}

pub struct StateView {
    pub root_id: u64,
    pub monitors: Seq<Monitor>,
    pub workspaces: Seq<WorkspaceView>,
    pub windows: Seq<WindowView>,
    pub focused_container: Option<u64>,
    pub is_paused: bool,
    pub is_focus_synced: bool,
    pub recent_workspace_name: Option<Seq<char>>,
    pub pending_sync: PendingSyncView,
    pub events: Seq<WmEvent>,
    pub next_container_id: u64,
}

pub open spec fn opt_string_view(s: Option<String>) -> Option<Seq<char>> {
    match s {
        Some(s) => Some(s@),
        None => None,
    }
}

impl View for WmState {
    type V = StateView;

    open spec fn view(&self) -> StateView {
        StateView {
            root_id: self.root_id,
            monitors: self.monitors@,
            workspaces: self.workspaces@.map_values(|w: Workspace| w@),
            windows: self.windows@.map_values(|w: Window| w@),
            focused_container: self.focused_container,
            is_paused: self.is_paused,
            is_focus_synced: self.is_focus_synced,
            recent_workspace_name: opt_string_view(self.recent_workspace_name),
            pending_sync: self.pending_sync@,
            events: self.events@,
            next_container_id: self.next_container_id,
        }
    }
}

/// One workspace entry of the user config.
#[derive(Debug)]
pub struct WorkspaceConfig {
    pub name: String,
    pub keep_alive: bool,
    /// Index of the monitor that the workspace is bound to, if any.
    pub bind_to_monitor: Option<usize>,
}

pub struct WorkspaceConfigView {
    pub name: Seq<char>,
    pub keep_alive: bool,
    pub bind_to_monitor: Option<usize>,
}

impl View for WorkspaceConfig {
    type V = WorkspaceConfigView;

    open spec fn view(&self) -> WorkspaceConfigView {
        WorkspaceConfigView {
            name: self.name@,
            keep_alive: self.keep_alive,
            bind_to_monitor: self.bind_to_monitor,
        }
    }
}

/// The part of the user config that the workspace commands read: the
/// configured workspaces, in config order.
#[derive(Debug)]
pub struct UserConfig {
    pub workspaces: Vec<WorkspaceConfig>,
}

pub struct UserConfigView {
    pub workspaces: Seq<WorkspaceConfigView>,
}

impl View for UserConfig {
    type V = UserConfigView;

    open spec fn view(&self) -> UserConfigView {
        UserConfigView { workspaces: self.workspaces@.map_values(|w: WorkspaceConfig| w@) }
    }
}

// Lookups. Each returns the first index that matches, scanning from `i`.

pub open spec fn workspace_index_by_name_from(ws: Seq<WorkspaceView>, name: Seq<char>, i: int) -> Option<int>
    decreases ws.len() - i,
{
    if i < 0 || i >= ws.len() {
        None
    } else if ws[i].name == name {
        Some(i)
    } else {
        workspace_index_by_name_from(ws, name, i + 1)
    }
}

/// Index of the workspace with the given name.
pub open spec fn workspace_index_by_name(s: StateView, name: Seq<char>) -> Option<int> {
    workspace_index_by_name_from(s.workspaces, name, 0)
}

pub open spec fn workspace_index_by_id_from(ws: Seq<WorkspaceView>, id: u64, i: int) -> Option<int>
    decreases ws.len() - i,
{
    if i < 0 || i >= ws.len() {
        None
    } else if ws[i].id == id {
        Some(i)
    } else {
        workspace_index_by_id_from(ws, id, i + 1)
    }
}

/// Index of the workspace with the given container id.
pub open spec fn workspace_index_by_id(s: StateView, id: u64) -> Option<int> {
    workspace_index_by_id_from(s.workspaces, id, 0)
}

pub open spec fn monitor_index_by_id_from(ms: Seq<Monitor>, id: u64, i: int) -> Option<int>
    decreases ms.len() - i,
{
    if i < 0 || i >= ms.len() {
        None
    } else if ms[i].id == id {
        Some(i)
    } else {
        monitor_index_by_id_from(ms, id, i + 1)
    }
}

/// Index of the monitor with the given container id.
pub open spec fn monitor_index_by_id(s: StateView, id: u64) -> Option<int> {
    monitor_index_by_id_from(s.monitors, id, 0)
}

pub open spec fn monitor_index_by_handle_from(ms: Seq<Monitor>, handle: isize, i: int) -> Option<int>
    decreases ms.len() - i,
{
    if i < 0 || i >= ms.len() {
        None
    } else if ms[i].handle == handle {
        Some(i)
    } else {
        monitor_index_by_handle_from(ms, handle, i + 1)
    }
}

/// Index of the monitor with the given native handle.
pub open spec fn monitor_index_by_handle(s: StateView, handle: isize) -> Option<int> {
    monitor_index_by_handle_from(s.monitors, handle, 0)
}

pub open spec fn window_index_by_handle_from(ws: Seq<WindowView>, handle: isize, i: int) -> Option<int>
    decreases ws.len() - i,
{
    if i < 0 || i >= ws.len() {
        None
    } else if ws[i].handle == handle {
        Some(i)
    } else {
        window_index_by_handle_from(ws, handle, i + 1)
    }
}

/// Index of the managed window with the given native handle.
pub open spec fn window_index_by_handle(s: StateView, handle: isize) -> Option<int> {
    window_index_by_handle_from(s.windows, handle, 0)
}

pub open spec fn window_index_by_id_from(ws: Seq<WindowView>, id: u64, i: int) -> Option<int>
    decreases ws.len() - i,
{
    if i < 0 || i >= ws.len() {
        None
    } else if ws[i].id == id {
        Some(i)
    } else {
        window_index_by_id_from(ws, id, i + 1)
    }
}

/// Index of the managed window with the given container id.
pub open spec fn window_index_by_id(s: StateView, id: u64) -> Option<int> {
    window_index_by_id_from(s.windows, id, 0)
}

pub open spec fn window_index_in_workspace_from(ws: Seq<WindowView>, workspace_id: u64, i: int) -> Option<int>
    decreases ws.len() - i,
{
    if i < 0 || i >= ws.len() {
        None
    } else if ws[i].workspace_id == workspace_id {
        Some(i)
    } else {
        window_index_in_workspace_from(ws, workspace_id, i + 1)
    }
}

/// Index of the most recently focused window of a workspace.
pub open spec fn first_window_in_workspace(s: StateView, workspace_id: u64) -> Option<int> {
    window_index_in_workspace_from(s.windows, workspace_id, 0)
}

pub open spec fn config_index_by_name_from(cs: Seq<WorkspaceConfigView>, name: Seq<char>, i: int) -> Option<int>
    decreases cs.len() - i,
{
    if i < 0 || i >= cs.len() {
        None
    } else if cs[i].name == name {
        Some(i)
    } else {
        config_index_by_name_from(cs, name, i + 1)
    }
}

/// Index of the config entry with the given name.
pub open spec fn config_index_by_name(c: UserConfigView, name: Seq<char>) -> Option<int> {
    config_index_by_name_from(c.workspaces, name, 0)
}

/// Index of the workspace that holds a container: the workspace itself, or
/// the workspace of the window.
pub open spec fn workspace_index_of_container(s: StateView, id: u64) -> Option<int> {
    match workspace_index_by_id(s, id) {
        Some(i) => Some(i),
        None => match window_index_by_id(s, id) {
            Some(k) => workspace_index_by_id(s, s.windows[k].workspace_id),
            None => None,
        },
    }
}

/// Index of the workspace that holds the focused container.
pub open spec fn focused_workspace_index(s: StateView) -> Option<int> {
    match s.focused_container {
        Some(c) => workspace_index_of_container(s, c),
        None => None,
    }
}

/// Index of the monitor that holds a container.
pub open spec fn monitor_index_of_container(s: StateView, id: u64) -> Option<int> {
    match monitor_index_by_id(s, id) {
        Some(m) => Some(m),
        None => match workspace_index_of_container(s, id) {
            Some(i) => monitor_index_by_id(s, s.workspaces[i].monitor_id),
            None => None,
        },
    }
}

/// Whether a workspace holds any window.
pub open spec fn workspace_has_windows(s: StateView, workspace_id: u64) -> bool {
    first_window_in_workspace(s, workspace_id).is_some()
}

/// The state with a new monitor that displays nothing yet; it gets the
/// next free container id.
pub open spec fn with_monitor_added(s: StateView, handle: isize, rect: Rect) -> StateView {
    StateView {
        monitors: s.monitors.push(
            Monitor { id: s.next_container_id, handle, rect, displayed_workspace: None },
        ),
        next_container_id: (s.next_container_id + 1) as u64,
        ..s
    }
}

impl WmState {
    /// A state with only the root container (id 0): no monitor, workspace or
    /// window, nothing focused, not paused, focus in sync, nothing queued.
    pub fn new() -> (r: WmState)
        ensures
            r@.root_id == 0,
            r@.next_container_id == 1,
            r@.monitors == Seq::<Monitor>::empty(),
            r@.workspaces == Seq::<WorkspaceView>::empty(),
            r@.windows == Seq::<WindowView>::empty(),
            r@.focused_container is None,
            !r@.is_paused,
            r@.is_focus_synced,
            r@.recent_workspace_name is None,
            r@.pending_sync == (PendingSyncView {
                focus_change: false,
                cursor_jump: false,
                containers_to_redraw: Seq::<u64>::empty(),
            }),
            r@.events == Seq::<WmEvent>::empty(),
    {
        let r = WmState {
            root_id: 0,
            monitors: Vec::new(),
            workspaces: Vec::new(),
            windows: Vec::new(),
            focused_container: None,
            is_paused: false,
            is_focus_synced: true,
            recent_workspace_name: None,
            pending_sync: PendingSync::new(),
            events: Vec::new(),
            next_container_id: 1,
        };
        assert(r@.workspaces =~= Seq::<WorkspaceView>::empty());
        assert(r@.windows =~= Seq::<WindowView>::empty());
        r
    }

    /// Adds a monitor with the native handle `handle` lying at `rect`;
    /// returns its container id.
    pub fn add_monitor(&mut self, handle: isize, rect: Rect) -> (id: u64)
        requires
            old(self).next_container_id < u64::MAX,
        ensures
            id == old(self).next_container_id,
            final(self)@ == with_monitor_added(old(self)@, handle, rect),
    {
        let id = self.next_container_id;
        self.monitors.push(Monitor { id, handle, rect, displayed_workspace: None });
        self.next_container_id = id + 1;
        id
    }

    /// Index of the workspace with the given name.
    pub fn workspace_by_name(&self, name: &String) -> (r: Option<usize>)
        ensures
            opt_usize_int(r) == workspace_index_by_name(self@, name@),
            r matches Some(i) ==> i < self.workspaces.len(),
            r matches Some(i) ==> self@.workspaces[i as int].name == name@,
    {
        let mut i: usize = 0;
        while i < self.workspaces.len()
            invariant
                i <= self.workspaces.len(),
                workspace_index_by_name(self@, name@) == workspace_index_by_name_from(self@.workspaces, name@, i as int),
            decreases self.workspaces.len() - i,
        {
            if self.workspaces[i].name == *name {
                return Some(i);
            }
            i = i + 1;
        }
        None
    }

    /// Index of the workspace with the given container id.
    pub fn workspace_by_id(&self, id: u64) -> (r: Option<usize>)
        ensures
            opt_usize_int(r) == workspace_index_by_id(self@, id),
            r matches Some(i) ==> i < self.workspaces.len(),
            r matches Some(i) ==> self@.workspaces[i as int].id == id,
    {
        let mut i: usize = 0;
        while i < self.workspaces.len()
            invariant
                i <= self.workspaces.len(),
                workspace_index_by_id(self@, id) == workspace_index_by_id_from(self@.workspaces, id, i as int),
            decreases self.workspaces.len() - i,
        {
            if self.workspaces[i].id == id {
                return Some(i);
            }
            i = i + 1;
        }
        None
    }

    /// Index of the monitor with the given container id.
    pub fn monitor_by_id(&self, id: u64) -> (r: Option<usize>)
        ensures
            opt_usize_int(r) == monitor_index_by_id(self@, id),
            r matches Some(i) ==> i < self.monitors.len(),
            r matches Some(i) ==> self@.monitors[i as int].id == id,
    {
        let mut i: usize = 0;
        while i < self.monitors.len()
            invariant
                i <= self.monitors.len(),
                monitor_index_by_id(self@, id) == monitor_index_by_id_from(self@.monitors, id, i as int),
            decreases self.monitors.len() - i,
        {
            if self.monitors[i].id == id {
                return Some(i);
            }
            i = i + 1;
        }
        None
    }

    /// Index of the monitor with the given native handle.
    pub fn monitor_from_native(&self, handle: isize) -> (r: Option<usize>)
        ensures
            opt_usize_int(r) == monitor_index_by_handle(self@, handle),
            r matches Some(i) ==> i < self.monitors.len(),
            r matches Some(i) ==> self@.monitors[i as int].handle == handle,
    {
        let mut i: usize = 0;
        while i < self.monitors.len()
            invariant
                i <= self.monitors.len(),
                monitor_index_by_handle(self@, handle) == monitor_index_by_handle_from(self@.monitors, handle, i as int),
            decreases self.monitors.len() - i,
        {
            if self.monitors[i].handle == handle {
                return Some(i);
            }
            i = i + 1;
        }
        None
    }

    /// Index of the managed window with the given native handle.
    pub fn window_from_native(&self, handle: isize) -> (r: Option<usize>)
        ensures
            opt_usize_int(r) == window_index_by_handle(self@, handle),
            r matches Some(i) ==> i < self.windows.len(),
            r matches Some(i) ==> self@.windows[i as int].handle == handle,
    {
        let mut i: usize = 0;
        while i < self.windows.len()
            invariant
                i <= self.windows.len(),
                window_index_by_handle(self@, handle) == window_index_by_handle_from(self@.windows, handle, i as int),
            decreases self.windows.len() - i,
        {
            if self.windows[i].handle == handle {
                return Some(i);
            }
            i = i + 1;
        }
        None
    }

    /// Index of the managed window with the given container id.
    pub fn window_by_id(&self, id: u64) -> (r: Option<usize>)
        ensures
            opt_usize_int(r) == window_index_by_id(self@, id),
            r matches Some(i) ==> i < self.windows.len(),
            r matches Some(i) ==> self@.windows[i as int].id == id,
    {
        let mut i: usize = 0;
        while i < self.windows.len()
            invariant
                i <= self.windows.len(),
                window_index_by_id(self@, id) == window_index_by_id_from(self@.windows, id, i as int),
            decreases self.windows.len() - i,
        {
            if self.windows[i].id == id {
                return Some(i);
            }
            i = i + 1;
        }
        None
    }

    /// Index of the most recently focused window of a workspace.
    pub fn first_window_in_workspace(&self, workspace_id: u64) -> (r: Option<usize>)
        ensures
            opt_usize_int(r) == first_window_in_workspace(self@, workspace_id),
            r matches Some(i) ==> i < self.windows.len(),
            r matches Some(i) ==> self@.windows[i as int].workspace_id == workspace_id,
    {
        let mut i: usize = 0;
        while i < self.windows.len()
            invariant
                i <= self.windows.len(),
                first_window_in_workspace(self@, workspace_id) == window_index_in_workspace_from(self@.windows, workspace_id, i as int),
            decreases self.windows.len() - i,
        {
            if self.windows[i].workspace_id == workspace_id {
                return Some(i);
            }
            i = i + 1;
        }
        None
    }

    /// Index of the workspace that holds a container.
    pub fn workspace_of_container(&self, id: u64) -> (r: Option<usize>)
        ensures
            opt_usize_int(r) == workspace_index_of_container(self@, id),
            r matches Some(i) ==> i < self.workspaces.len(),
    {
        match self.workspace_by_id(id) {
            Some(i) => Some(i),
            None => match self.window_by_id(id) {
                Some(k) => self.workspace_by_id(self.windows[k].workspace_id),
                None => None,
            },
        }
    }

    /// Index of the workspace that holds the focused container.
    pub fn focused_workspace(&self) -> (r: Option<usize>)
        ensures
            opt_usize_int(r) == focused_workspace_index(self@),
            r matches Some(i) ==> i < self.workspaces.len(),
    {
        match self.focused_container {
            Some(c) => self.workspace_of_container(c),
            None => None,
        }
    }

    /// Index of the monitor that holds a container.
    pub fn monitor_of_container(&self, id: u64) -> (r: Option<usize>)
        ensures
            opt_usize_int(r) == monitor_index_of_container(self@, id),
            r matches Some(i) ==> i < self.monitors.len(),
    {
        match self.monitor_by_id(id) {
            Some(m) => Some(m),
            None => match self.workspace_of_container(id) {
                Some(i) => self.monitor_by_id(self.workspaces[i].monitor_id),
                None => None,
            },
        }
    }
}

impl UserConfig {
    /// Index of the config entry with the given name.
    pub fn workspace_config_by_name(&self, name: &String) -> (r: Option<usize>)
        ensures
            opt_usize_int(r) == config_index_by_name(self@, name@),
            r matches Some(i) ==> i < self.workspaces.len(),
    {
        let mut i: usize = 0;
        while i < self.workspaces.len()
            invariant
                i <= self.workspaces.len(),
                config_index_by_name(self@, name@) == config_index_by_name_from(self@.workspaces, name@, i as int),
            decreases self.workspaces.len() - i,
        {
            if self.workspaces[i].name == *name {
                return Some(i);
            }
            i = i + 1;
        }
        None
    }
}

/// An index found by a lookup, as a mathematical integer.
pub open spec fn opt_usize_int(r: Option<usize>) -> Option<int> {
    match r {
        Some(i) => Some(i as int),
        None => None,
    }
}

} // verus!
