//! What the palette knows of the host (tabs, panes, sessions, key bindings)
//! and its own state: the search term, the ranked commands, the selection and
//! the view on screen.

use vstd::prelude::*;
use crate::commands::{all_commands, build_commands, filter_commands, filtered, ScoredCommand, ScoredModel};
use crate::keys::{InputMode, KeyPress};

verus! {

/// A tab of the current session.
#[derive(Debug, PartialEq, Eq)]
pub struct TabInfo {
    /// 0-based position of the tab.
    pub position: usize,
    pub name: String,
    /// Whether this tab is the focused one.
    pub active: bool,
}

pub struct TabModel {
    pub position: usize,
    pub name: Seq<char>,
    pub active: bool,
}

impl View for TabInfo {
    type V = TabModel;

    open spec fn view(&self) -> TabModel {
        TabModel { position: self.position, name: self.name@, active: self.active }
    }
}

impl DeepView for TabInfo {
    type V = TabModel;

    open spec fn deep_view(&self) -> TabModel {
        self@
    }
}

/// A live session.
#[derive(Debug, PartialEq, Eq)]
pub struct SessionInfo {
    pub name: String,
    pub is_current_session: bool,
}

pub struct SessionModel {
    pub name: Seq<char>,
    pub is_current_session: bool,
}

impl View for SessionInfo {
    type V = SessionModel;

    open spec fn view(&self) -> SessionModel {
        SessionModel { name: self.name@, is_current_session: self.is_current_session }
    }
}

impl DeepView for SessionInfo {
    type V = SessionModel;

    open spec fn deep_view(&self) -> SessionModel {
        self@
    }
}

/// A pane, as far as the palette reads it.
#[derive(Clone, Copy, Debug, PartialEq, Eq, Structural)]
pub struct PaneInfo {
    pub id: u32,
    pub is_plugin: bool,
    pub is_focused: bool,
}

/// The panes of one tab.
#[derive(Debug, PartialEq, Eq)]
pub struct TabPanes {
    pub tab_position: usize,
    pub panes: Vec<PaneInfo>,
}

#[verifier::ext_equal]
pub struct TabPanesModel {
    pub tab_position: usize,
    pub panes: Seq<PaneInfo>,
}

impl View for TabPanes {
    type V = TabPanesModel;

    open spec fn view(&self) -> TabPanesModel {
        TabPanesModel { tab_position: self.tab_position, panes: self.panes@ }
    }
}

impl DeepView for TabPanes {
    type V = TabPanesModel;

    open spec fn deep_view(&self) -> TabPanesModel {
        self@
    }
}

/// The panes of every tab, tab by tab, in the order the host lists them.
#[derive(Debug, PartialEq, Eq)]
pub struct PaneManifest {
    pub tabs: Vec<TabPanes>,
}

impl View for PaneManifest {
    type V = Seq<TabPanesModel>;

    open spec fn view(&self) -> Seq<TabPanesModel> {
        self.tabs.deep_view()
    }
}

impl DeepView for PaneManifest {
    type V = Seq<TabPanesModel>;

    open spec fn deep_view(&self) -> Seq<TabPanesModel> {
        self@
    }
}

/// One key binding: a key and the actions it triggers, each already written
/// out as text.
#[derive(Debug, PartialEq, Eq)]
pub struct Keybinding {
    pub key: KeyPress,
    pub actions: Vec<String>,
}

#[verifier::ext_equal]
pub struct KeybindingModel {
    pub key: KeyPress,
    pub actions: Seq<Seq<char>>,
}

impl View for Keybinding {
    type V = KeybindingModel;

    open spec fn view(&self) -> KeybindingModel {
        KeybindingModel { key: self.key, actions: self.actions.deep_view() }
    }
}

impl DeepView for Keybinding {
    type V = KeybindingModel;

    open spec fn deep_view(&self) -> KeybindingModel {
        self@
    }
}

/// The bindings of one input mode.
#[derive(Debug, PartialEq, Eq)]
pub struct ModeKeybinds {
    pub mode: InputMode,
    pub bindings: Vec<Keybinding>,
}

#[verifier::ext_equal]
pub struct ModeKeybindsModel {
    pub mode: InputMode,
    pub bindings: Seq<KeybindingModel>,
}

impl View for ModeKeybinds {
    type V = ModeKeybindsModel;

    open spec fn view(&self) -> ModeKeybindsModel {
        ModeKeybindsModel { mode: self.mode, bindings: self.bindings.deep_view() }
    }
}

impl DeepView for ModeKeybinds {
    type V = ModeKeybindsModel;

    open spec fn deep_view(&self) -> ModeKeybindsModel {
        self@
    }
}

/// The host's key bindings, mode by mode, in the order the host lists them.
#[derive(Debug, PartialEq, Eq)]
pub struct ModeInfo {
    pub keybinds: Vec<ModeKeybinds>,
}

impl View for ModeInfo {
    type V = Seq<ModeKeybindsModel>;

    open spec fn view(&self) -> Seq<ModeKeybindsModel> {
        self.keybinds.deep_view()
    }
}

impl DeepView for ModeInfo {
    type V = Seq<ModeKeybindsModel>;

    open spec fn deep_view(&self) -> Seq<ModeKeybindsModel> {
        self@
    }
}

/// Which view the palette shows. `List` is the search field over the command
/// list; the others own their scroll position or text input.
#[derive(Debug, PartialEq, Eq)]
pub enum PaletteView {
    List,
    Keybindings { scroll: usize },
    NewSessionPrompt { input: String },
    RenameSessionPrompt { input: String },
}

pub enum PaletteViewModel {
    List,
    Keybindings { scroll: usize },
    NewSessionPrompt { input: Seq<char> },
    RenameSessionPrompt { input: Seq<char> },
}

impl View for PaletteView {
    type V = PaletteViewModel;

    open spec fn view(&self) -> PaletteViewModel {
        match self {
            PaletteView::List => PaletteViewModel::List,
            PaletteView::Keybindings { scroll } => PaletteViewModel::Keybindings { scroll: *scroll },
            PaletteView::NewSessionPrompt { input } => PaletteViewModel::NewSessionPrompt {
                input: input@,
            },
            PaletteView::RenameSessionPrompt { input } => PaletteViewModel::RenameSessionPrompt {
                input: input@,
            },
        }
    }
}

/// The palette's whole state.
pub struct State {
    pub tabs: Vec<TabInfo>,
    pub pane_manifest: Option<PaneManifest>,
    pub sessions: Vec<SessionInfo>,
    /// Names of the sessions that can be resurrected.
    pub resurrectable_sessions: Vec<String>,
    pub mode_info: Option<ModeInfo>,
    pub search_term: String,
    pub selected_index: usize,
    pub filtered_commands: Vec<ScoredCommand>,
    /// Tab that was focused when the palette was last shown, so that
    /// dismissing it goes back there.
    pub origin_tab_position: Option<usize>,
    pub view: PaletteView,
    /// The palette's own pane id, once the host has told it.
    pub plugin_id: Option<u32>,
    /// The tab the user was on while the palette was hidden.
    pub last_user_tab: Option<usize>,
}

#[verifier::ext_equal]
pub struct StateModel {
    pub tabs: Seq<TabModel>,
    pub pane_manifest: Option<Seq<TabPanesModel>>,
    pub sessions: Seq<SessionModel>,
    pub resurrectable_sessions: Seq<Seq<char>>,
    pub mode_info: Option<Seq<ModeKeybindsModel>>,
    pub search_term: Seq<char>,
    pub selected_index: usize,
    pub filtered_commands: Seq<ScoredModel>,
    pub origin_tab_position: Option<usize>,
    pub view: PaletteViewModel,
    pub plugin_id: Option<u32>,
    pub last_user_tab: Option<usize>,
}

impl View for State {
    type V = StateModel;

    open spec fn view(&self) -> StateModel {
        StateModel {
            tabs: self.tabs.deep_view(),
            pane_manifest: self.pane_manifest.deep_view(),
            sessions: self.sessions.deep_view(),
            resurrectable_sessions: self.resurrectable_sessions.deep_view(),
            mode_info: self.mode_info.deep_view(),
            search_term: self.search_term@,
            selected_index: self.selected_index,
            filtered_commands: self.filtered_commands.deep_view(),
            origin_tab_position: self.origin_tab_position,
            view: self.view@,
            plugin_id: self.plugin_id,
            last_user_tab: self.last_user_tab,
        }
    }
}

/// The state the palette starts in: nothing known of the host yet, an empty
/// search, and the list view.
pub open spec fn initial_state() -> StateModel {
    StateModel {
        tabs: Seq::empty(),
        pane_manifest: None,
        sessions: Seq::empty(),
        resurrectable_sessions: Seq::empty(),
        mode_info: None,
        search_term: Seq::empty(),
        selected_index: 0,
        filtered_commands: Seq::empty(),
        origin_tab_position: None,
        view: PaletteViewModel::List,
        plugin_id: None,
        last_user_tab: None,
    }
}

impl Default for State {
    fn default() -> (s: State)
        ensures
            s@ == initial_state(),
    {
        State {
            tabs: Vec::new(),
            pane_manifest: None,
            sessions: Vec::new(),
            resurrectable_sessions: Vec::new(),
            mode_info: None,
            search_term: String::new(),
            selected_index: 0,
            filtered_commands: Vec::new(),
            origin_tab_position: None,
            view: PaletteView::List,
            plugin_id: None,
            last_user_tab: None,
        }
    }
}

/// The selection after the list changed to `len` entries: kept if still in
/// range, else moved to the last entry (0 for an empty list).
pub open spec fn clamped_selection(selected: usize, len: nat) -> usize {
    if selected >= len {
        if len == 0 {
            0
        } else {
            (len - 1) as usize
        }
    } else {
        selected
    }
}

/// `s` with its command list rebuilt from the tabs and sessions and filtered
/// by the search term, and the selection brought back into range.
pub open spec fn refiltered(s: StateModel) -> StateModel {
    let f = filtered(all_commands(s.tabs, s.sessions, s.resurrectable_sessions), s.search_term);
    StateModel { filtered_commands: f, selected_index: clamped_selection(s.selected_index, f.len()), ..s }
}

/// The selection points at an entry of the list, or is 0 when the list is
/// empty.
pub open spec fn selection_valid(s: StateModel) -> bool {
    s.selected_index < s.filtered_commands.len() || (s.filtered_commands.len() == 0
        && s.selected_index == 0)
}

impl State {
    /// Rebuilds the command list from the tabs and sessions, filters it by the
    /// search term, and keeps the selection in range.
    pub fn refilter(&mut self)
        ensures
            final(self)@ == refiltered(old(self)@),
            selection_valid(final(self)@),
    {
        let tabs = self.tabs.as_slice();
        let sessions = self.sessions.as_slice();
        let resurrectable = self.resurrectable_sessions.as_slice();
        assert(tabs.deep_view() =~= self.tabs.deep_view());
        assert(sessions.deep_view() =~= self.sessions.deep_view());
        assert(resurrectable.deep_view() =~= self.resurrectable_sessions.deep_view());
        let all = build_commands(tabs, &self.pane_manifest, sessions, resurrectable);
        let all_slice = all.as_slice();
        assert(all_slice.deep_view() =~= all.deep_view());
        let f = filter_commands(all_slice, self.search_term.as_str());
        self.filtered_commands = f;
        if self.selected_index >= self.filtered_commands.len() {
            self.selected_index = self.filtered_commands.len().saturating_sub(1);
        }
    }
}

} // verus!
