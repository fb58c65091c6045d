//! How key presses move the palette between its views and which requests
//! to the host they produce. The host is never called from here: each step
//! returns the requests, in order, for the caller to send.

use vstd::prelude::*;
use vstd::string::*;
use crate::commands::{Command, CommandModel};
use crate::keys::{BareKey, InputMode, KeyPress, unmodified};
use crate::state::{PaletteView, PaletteViewModel, SessionInfo, SessionModel, State, StateModel, refiltered};
use crate::text::{pop_char, push_char, trim, trimmed};

verus! {

/// A request to the host.
#[derive(Debug, PartialEq, Eq)]
pub enum HostCall {
    /// Focus the tab with this 1-based number.
    SwitchTabTo { tab: u32 },
    /// Close the tab at this 0-based position.
    CloseTabWithIndex { index: usize },
    /// Switch to (or create, or resurrect) the named session; `None` creates
    /// a session with a generated name.
    SwitchSession { name: Option<String> },
    RenameSession { new_name: String },
    /// Hide the palette, keeping it loaded.
    HideSelf,
    SwitchToInputMode { mode: InputMode },
    /// Move the palette's own pane to the tab at `tab_index`.
    BreakPaneToTab { plugin_id: u32, tab_index: usize, focus_new_tab: bool },
}

pub enum HostCallModel {
    SwitchTabTo { tab: u32 },
    CloseTabWithIndex { index: usize },
    SwitchSession { name: Option<Seq<char>> },
    RenameSession { new_name: Seq<char> },
    HideSelf,
    SwitchToInputMode { mode: InputMode },
    BreakPaneToTab { plugin_id: u32, tab_index: usize, focus_new_tab: bool },
}

impl View for HostCall {
    type V = HostCallModel;

    open spec fn view(&self) -> HostCallModel {
        match self {
            HostCall::SwitchTabTo { tab } => HostCallModel::SwitchTabTo { tab: *tab },
            HostCall::CloseTabWithIndex { index } => HostCallModel::CloseTabWithIndex {
                index: *index,
            },
            HostCall::SwitchSession { name } => HostCallModel::SwitchSession {
                name: match name {
                    Some(n) => Some(n@),
                    None => None,
                },
            },
            HostCall::RenameSession { new_name } => HostCallModel::RenameSession { new_name: new_name@ },
            HostCall::HideSelf => HostCallModel::HideSelf,
            HostCall::SwitchToInputMode { mode } => HostCallModel::SwitchToInputMode {
                mode: *mode,
            },
            HostCall::BreakPaneToTab { plugin_id, tab_index, focus_new_tab } =>
                HostCallModel::BreakPaneToTab {
                plugin_id: *plugin_id,
                tab_index: *tab_index,
                focus_new_tab: *focus_new_tab,
            },
        }
    }
}

impl DeepView for HostCall {
    type V = HostCallModel;

    open spec fn deep_view(&self) -> HostCallModel {
        self@
    }
}

/// The 1-based tab number the host is asked to focus for the tab at 0-based
/// `position`: the position cut to 32 bits, plus one, wrapping as the
/// shipped (release) build does.
pub open spec fn tab_target(position: usize) -> u32 {
    let t = position as u32;
    if t == u32::MAX {
        0
    } else {
        (t + 1) as u32
    }
}

pub fn tab_target_exec(position: usize) -> (t: u32)
    ensures
        t == tab_target(position),
{
    #[verifier::truncate]
    let t = position as u32;
    if t == u32::MAX {
        0
    } else {
        t + 1
    }
}

/// The palette hidden and reset: empty search, first entry selected, list
/// view.
pub open spec fn closed(s: StateModel) -> StateModel {
    StateModel {
        search_term: Seq::empty(),
        selected_index: 0,
        view: PaletteViewModel::List,
        ..s
    }
}

/// The name of the first session marked current, or empty if none is.
pub open spec fn current_session_name(sessions: Seq<SessionModel>) -> Seq<char>
    decreases sessions.len(),
{
    if sessions.len() == 0 {
        Seq::empty()
    } else if sessions[0].is_current_session {
        sessions[0].name
    } else {
        current_session_name(sessions.drop_first())
    }
}

/// The state and host requests that running a command gives.
#[verifier::ext_equal]
pub struct Outcome {
    pub state: StateModel,
    pub calls: Seq<HostCallModel>,
}

pub open spec fn executed(s: StateModel, c: CommandModel) -> Outcome {
    match c {
        CommandModel::SwitchToTab { position, .. } => Outcome {
            state: closed(s),
            calls: seq![HostCallModel::SwitchTabTo { tab: tab_target(position) }, HostCallModel::HideSelf],
        },
        CommandModel::CloseTab { position, .. } => Outcome {
            state: closed(s),
            calls: seq![HostCallModel::CloseTabWithIndex { index: position }, HostCallModel::HideSelf],
        },
        CommandModel::SwitchSession { name } => Outcome {
            state: closed(s),
            calls: seq![HostCallModel::SwitchSession { name: Some(name) }, HostCallModel::HideSelf],
        },
        CommandModel::ResumeSession { name } => Outcome {
            state: closed(s),
            calls: seq![HostCallModel::SwitchSession { name: Some(name) }, HostCallModel::HideSelf],
        },
        CommandModel::NewSession => Outcome {
            state: closed(s),
            calls: seq![HostCallModel::SwitchSession { name: None }, HostCallModel::HideSelf],
        },
        CommandModel::NewSessionPrompt => Outcome {
            state: StateModel {
                view: PaletteViewModel::NewSessionPrompt { input: Seq::empty() },
                ..s
            },
            calls: Seq::empty(),
        },
        CommandModel::RenameSessionPrompt => Outcome {
            state: StateModel {
                view: PaletteViewModel::RenameSessionPrompt {
                    input: current_session_name(s.sessions),
                },
                ..s
            },
            calls: Seq::empty(),
        },
        CommandModel::EnterScrollMode => Outcome {
            state: closed(s),
            calls: seq![
                HostCallModel::HideSelf,
                HostCallModel::SwitchToInputMode { mode: InputMode::Scroll },
            ],
        },
        CommandModel::EnterSearchMode => Outcome {
            state: closed(s),
            calls: seq![
                HostCallModel::HideSelf,
                HostCallModel::SwitchToInputMode { mode: InputMode::EnterSearch },
            ],
        },
        CommandModel::ShowKeybindings => Outcome {
            state: StateModel { view: PaletteViewModel::Keybindings { scroll: 0 }, ..s },
            calls: Seq::empty(),
        },
    }
}

/// Cancelling: focus goes back to the tab that was active when the palette
/// was shown, then the palette closes.
pub open spec fn dismissed(s: StateModel) -> Outcome {
    let restore = match s.origin_tab_position {
        Some(p) => seq![HostCallModel::SwitchTabTo { tab: tab_target(p) }],
        None => Seq::empty(),
    };
    Outcome { state: closed(s), calls: restore.push(HostCallModel::HideSelf) }
}

/// Confirming the new-session prompt: the trimmed name, or a generated name
/// when nothing but whitespace was typed, then the palette closes.
pub open spec fn new_session_submitted(s: StateModel, input: Seq<char>) -> Outcome {
    let name = trimmed(input);
    Outcome {
        state: closed(s),
        calls: seq![
            HostCallModel::SwitchSession {
                name: if name.len() == 0 {
                    None
                } else {
                    Some(name)
                },
            },
            HostCallModel::HideSelf,
        ],
    }
}

/// Confirming the rename prompt: the session is renamed to the trimmed input
/// unless that is empty, then the palette closes.
pub open spec fn rename_submitted(s: StateModel, input: Seq<char>) -> Outcome {
    let name = trimmed(input);
    let rename = if name.len() == 0 {
        Seq::empty()
    } else {
        seq![HostCallModel::RenameSession { new_name: name }]
    };
    Outcome { state: closed(s), calls: rename.push(HostCallModel::HideSelf) }
}

/// The effect of one key press: the new state, whether the key was used,
/// and the host requests in order.
#[verifier::ext_equal]
pub struct KeyStep {
    pub state: StateModel,
    pub handled: bool,
    pub calls: Seq<HostCallModel>,
}

pub open spec fn unhandled(s: StateModel) -> KeyStep {
    KeyStep { state: s, handled: false, calls: Seq::empty() }
}

pub open spec fn handled(o: Outcome) -> KeyStep {
    KeyStep { state: o.state, handled: true, calls: o.calls }
}

pub open spec fn stay(s: StateModel) -> KeyStep {
    KeyStep { state: s, handled: true, calls: Seq::empty() }
}

pub open spec fn prompt_view(input: Seq<char>, rename: bool) -> PaletteViewModel {
    if rename {
        PaletteViewModel::RenameSessionPrompt { input }
    } else {
        PaletteViewModel::NewSessionPrompt { input }
    }
}

pub open spec fn prompt_submitted(s: StateModel, input: Seq<char>, rename: bool) -> Outcome {
    if rename {
        rename_submitted(s, input)
    } else {
        new_session_submitted(s, input)
    }
}

/// A key in one of the text prompts: Esc goes back to the list (keeping the
/// search term), Enter confirms, Backspace deletes, unmodified characters
/// are typed, and keys with Ctrl or Alt are not used.
pub open spec fn prompt_step(s: StateModel, input: Seq<char>, rename: bool, k: KeyPress) -> KeyStep {
    match k.bare_key {
        BareKey::Esc => stay(StateModel { view: PaletteViewModel::List, ..s }),
        BareKey::Enter => handled(prompt_submitted(s, input, rename)),
        BareKey::Backspace => stay(
            StateModel {
                view: prompt_view(
                    if input.len() > 0 {
                        input.drop_last()
                    } else {
                        input
                    },
                    rename,
                ),
                ..s
            },
        ),
        BareKey::Char(c) => if !unmodified(k) {
            unhandled(s)
        } else if c == '\n' {
            handled(prompt_submitted(s, input, rename))
        } else {
            stay(StateModel { view: prompt_view(input.push(c), rename), ..s })
        },
        _ => unhandled(s),
    }
}

/// Running the selected command, if the selection points at one.
pub open spec fn selection_run(s: StateModel) -> KeyStep {
    if s.selected_index < s.filtered_commands.len() {
        handled(executed(s, s.filtered_commands[s.selected_index as int].command))
    } else {
        stay(s)
    }
}

pub open spec fn next_index(i: usize) -> usize {
    if i == usize::MAX {
        0
    } else {
        (i + 1) as usize
    }
}

/// A key in the list or key-binding view.
pub open spec fn list_step(s: StateModel, k: KeyPress) -> KeyStep {
    let len = s.filtered_commands.len();
    if k.bare_key == BareKey::Char('?') && s.search_term.len() == 0 && unmodified(k)
        && s.view is List {
        handled(executed(s, CommandModel::ShowKeybindings))
    } else {
        match k.bare_key {
            BareKey::Esc => if s.view is Keybindings {
                stay(StateModel { view: PaletteViewModel::List, ..s })
            } else {
                handled(dismissed(s))
            },
            BareKey::Enter => if s.view is Keybindings {
                stay(s)
            } else {
                selection_run(s)
            },
            BareKey::Up => match s.view {
                PaletteViewModel::Keybindings { scroll } => stay(
                    StateModel {
                        view: PaletteViewModel::Keybindings {
                            scroll: if scroll == 0 {
                                0
                            } else {
                                (scroll - 1) as usize
                            },
                        },
                        ..s
                    },
                ),
                _ => if len > 0 {
                    stay(
                        StateModel {
                            selected_index: if s.selected_index == 0 {
                                (len - 1) as usize
                            } else {
                                (s.selected_index - 1) as usize
                            },
                            ..s
                        },
                    )
                } else {
                    stay(s)
                },
            },
            BareKey::Down => match s.view {
                PaletteViewModel::Keybindings { scroll } => stay(
                    StateModel {
                        view: PaletteViewModel::Keybindings { scroll: next_index(scroll) },
                        ..s
                    },
                ),
                _ => if len > 0 {
                    stay(
                        StateModel {
                            selected_index: (next_index(s.selected_index) % (len as usize)) as usize,
                            ..s
                        },
                    )
                } else {
                    stay(s)
                },
            },
            BareKey::Backspace => stay(
                refiltered(
                    StateModel {
                        search_term: if s.search_term.len() > 0 {
                            s.search_term.drop_last()
                        } else {
                            s.search_term
                        },
                        selected_index: 0,
                        ..s
                    },
                ),
            ),
            BareKey::Char(c) => if c == '\n' {
                if s.view is Keybindings {
                    stay(s)
                } else {
                    selection_run(s)
                }
            } else if unmodified(k) {
                stay(refiltered(StateModel { search_term: s.search_term.push(c), selected_index: 0, ..s }))
            } else {
                unhandled(s)
            },
            _ => unhandled(s),
        }
    }
}

/// One key press: the prompts take every key; otherwise the list and
/// key-binding views share one handler.
pub open spec fn key_step(s: StateModel, k: KeyPress) -> KeyStep {
    match s.view {
        PaletteViewModel::NewSessionPrompt { input } => prompt_step(s, input, false, k),
        PaletteViewModel::RenameSessionPrompt { input } => prompt_step(s, input, true, k),
        _ => list_step(s, k),
    }
}

/// Hides the palette and resets it without going back to the origin tab;
/// used when a command has already taken the user where they wanted to go.
pub fn close_self(state: &mut State, calls: &mut Vec<HostCall>)
    ensures
        final(state)@ == closed(old(state)@),
        final(calls).deep_view() == old(calls).deep_view().push(HostCallModel::HideSelf),
{
    state.search_term = String::new();
    state.selected_index = 0;
    state.view = PaletteView::List;
    push_call(calls, HostCall::HideSelf);
}

fn push_call(calls: &mut Vec<HostCall>, c: HostCall)
    ensures
        final(calls).deep_view() == old(calls).deep_view().push(c@),
{
    let ghost before = calls.deep_view();
    calls.push(c);
    assert(calls.deep_view() =~= before.push(c@));
}

/// Dismisses the palette, going back to the tab that was focused before it
/// was shown, so that opening and cancelling it changes nothing.
pub fn dismiss(state: &mut State, calls: &mut Vec<HostCall>)
    ensures
        final(state)@ == dismissed(old(state)@).state,
        final(calls).deep_view() == old(calls).deep_view() + dismissed(old(state)@).calls,
{
    let ghost c0 = calls.deep_view();
    if let Some(pos) = state.origin_tab_position {
        push_call(calls, HostCall::SwitchTabTo { tab: tab_target_exec(pos) });
    }
    close_self(state, calls);
    assert(calls.deep_view() =~= c0 + dismissed(old(state)@).calls);
}

fn current_session(sessions: &Vec<SessionInfo>) -> (name: String)
    ensures
        name@ == current_session_name(sessions.deep_view()),
{
    let ghost sv = sessions.deep_view();
    let mut i: usize = 0;
    assert(sv.skip(0) =~= sv);
    while i < sessions.len()
        invariant
            i <= sessions.len(),
            sv == sessions.deep_view(),
            current_session_name(sv) == current_session_name(sv.skip(i as int)),
        decreases sessions.len() - i,
    {
        assert(sv.skip(i as int).drop_first() =~= sv.skip(i + 1));
        assert(sv.skip(i as int)[0] == sv[i as int]);
        if sessions[i].is_current_session {
            return sessions[i].name.clone();
        }
        i = i + 1;
    }
    assert(sv.skip(i as int).len() == 0);
    String::new()
}

/// Runs a command: tab and session commands and mode switches ask the host
/// and close the palette; the prompt and key-binding commands change the view.
pub fn execute_command(state: &mut State, command: &Command, calls: &mut Vec<HostCall>)
    ensures
        final(state)@ == executed(old(state)@, command@).state,
        final(calls).deep_view() == old(calls).deep_view() + executed(
            old(state)@,
            command@,
        ).calls,
{
    let ghost c0 = calls.deep_view();
    match command {
        Command::SwitchToTab { position, .. } => {
            push_call(calls, HostCall::SwitchTabTo { tab: tab_target_exec(*position) });
            close_self(state, calls);
        },
        Command::CloseTab { position, .. } => {
            push_call(calls, HostCall::CloseTabWithIndex { index: *position });
            close_self(state, calls);
        },
        Command::SwitchSession { name } => {
            push_call(calls, HostCall::SwitchSession { name: Some(name.clone()) });
            close_self(state, calls);
        },
        Command::ResumeSession { name } => {
            push_call(calls, HostCall::SwitchSession { name: Some(name.clone()) });
            close_self(state, calls);
        },
        Command::NewSession => {
            push_call(calls, HostCall::SwitchSession { name: None });
            close_self(state, calls);
        },
        Command::NewSessionPrompt => {
            state.view = PaletteView::NewSessionPrompt { input: String::new() };
        },
        Command::RenameSessionPrompt => {
            let current_name = current_session(&state.sessions);
            state.view = PaletteView::RenameSessionPrompt { input: current_name };
        },
        Command::EnterScrollMode => {
            close_self(state, calls);
            push_call(calls, HostCall::SwitchToInputMode { mode: InputMode::Scroll });
        },
        Command::EnterSearchMode => {
            close_self(state, calls);
            push_call(calls, HostCall::SwitchToInputMode { mode: InputMode::EnterSearch });
        },
        Command::ShowKeybindings => {
            state.view = PaletteView::Keybindings { scroll: 0 };
        },
    }
    assert(calls.deep_view() =~= c0 + executed(old(state)@, command@).calls);
}

fn submit_new_session_prompt(state: &mut State, input: &String, calls: &mut Vec<HostCall>)
    ensures
        final(state)@ == new_session_submitted(old(state)@, input@).state,
        final(calls).deep_view() == old(calls).deep_view() + new_session_submitted(
            old(state)@,
            input@,
        ).calls,
{
    let ghost c0 = calls.deep_view();
    let name = trim(input.as_str());
    if name.as_str().is_empty() {
        push_call(calls, HostCall::SwitchSession { name: None });
    } else {
        push_call(calls, HostCall::SwitchSession { name: Some(name) });
    }
    close_self(state, calls);
    assert(calls.deep_view() =~= c0 + new_session_submitted(old(state)@, input@).calls);
}

fn submit_rename_session_prompt(state: &mut State, input: &String, calls: &mut Vec<HostCall>)
    ensures
        final(state)@ == rename_submitted(old(state)@, input@).state,
        final(calls).deep_view() == old(calls).deep_view() + rename_submitted(
            old(state)@,
            input@,
        ).calls,
{
    let ghost c0 = calls.deep_view();
    let name = trim(input.as_str());
    if !name.as_str().is_empty() {
        push_call(calls, HostCall::RenameSession { new_name: name });
    }
    close_self(state, calls);
    assert(calls.deep_view() =~= c0 + rename_submitted(old(state)@, input@).calls);
}

fn submit_prompt(state: &mut State, input: &String, rename: bool, calls: &mut Vec<HostCall>)
    ensures
        final(state)@ == prompt_submitted(old(state)@, input@, rename).state,
        final(calls).deep_view() == old(calls).deep_view() + prompt_submitted(
            old(state)@,
            input@,
            rename,
        ).calls,
{
    if rename {
        submit_rename_session_prompt(state, input, calls);
    } else {
        submit_new_session_prompt(state, input, calls);
    }
}

fn make_prompt(input: String, rename: bool) -> (v: PaletteView)
    ensures
        v@ == prompt_view(input@, rename),
{
    if rename {
        PaletteView::RenameSessionPrompt { input }
    } else {
        PaletteView::NewSessionPrompt { input }
    }
}

/// A key in one of the text prompts, whose text so far is `input`.
fn handle_key_prompt(state: &mut State, input: String, rename: bool, key: KeyPress) -> (r: (
    bool,
    Vec<HostCall>,
))
    requires
        old(state)@.view == prompt_view(input@, rename),
    ensures
        key_step(old(state)@, key) == (KeyStep {
            state: final(state)@,
            handled: r.0,
            calls: r.1.deep_view(),
        }),
{
    let mut calls: Vec<HostCall> = Vec::new();
    assert(calls.deep_view() =~= Seq::<HostCallModel>::empty());
    match key.bare_key {
        BareKey::Esc => {
            state.view = PaletteView::List;
            (true, calls)
        },
        BareKey::Enter => {
            submit_prompt(state, &input, rename, &mut calls);
            (true, calls)
        },
        BareKey::Backspace => {
            let mut text = input;
            let _ = pop_char(&mut text);
            state.view = make_prompt(text, rename);
            (true, calls)
        },
        BareKey::Char(c) => {
            if key.ctrl || key.alt {
                (false, calls)
            } else if c == '\n' {
                submit_prompt(state, &input, rename, &mut calls);
                (true, calls)
            } else {
                let mut text = input;
                push_char(&mut text, c);
                state.view = make_prompt(text, rename);
                (true, calls)
            }
        },
        _ => (false, calls),
    }
}

fn run_selection(state: &mut State, calls: &mut Vec<HostCall>)
    ensures
        final(state)@ == selection_run(old(state)@).state,
        final(calls).deep_view() == old(calls).deep_view() + selection_run(old(state)@).calls,
{
    if state.selected_index < state.filtered_commands.len() {
        let cmd = state.filtered_commands[state.selected_index].command.duplicate();
        execute_command(state, &cmd, calls);
    } else {
        assert(calls.deep_view() =~= old(calls).deep_view() + Seq::<HostCallModel>::empty());
    }
}

/// Handles one key press. Returns whether the key was used (and the palette
/// should be redrawn) and the host requests to send, in order.
pub fn handle_key(state: &mut State, key: KeyPress) -> (r: (bool, Vec<HostCall>))
    ensures
        key_step(old(state)@, key) == (KeyStep {
            state: final(state)@,
            handled: r.0,
            calls: r.1.deep_view(),
        }),
{
    // While a text prompt is open every key goes to it, so shortcuts such as
    // '?' are typed rather than run.
    match &state.view {
        PaletteView::NewSessionPrompt { input } => {
            let text = input.clone();
            return handle_key_prompt(state, text, false, key);
        },
        PaletteView::RenameSessionPrompt { input } => {
            let text = input.clone();
            return handle_key_prompt(state, text, true, key);
        },
        _ => {},
    }
    let mut calls: Vec<HostCall> = Vec::new();
    assert(calls.deep_view() =~= Seq::<HostCallModel>::empty());
    let in_keybindings = match &state.view {
        PaletteView::Keybindings { .. } => true,
        _ => false,
    };
    let in_list = match &state.view {
        PaletteView::List => true,
        _ => false,
    };
    if key.bare_key == BareKey::Char('?') && state.search_term.as_str().is_empty() && !key.ctrl
        && !key.alt && in_list {
        execute_command(state, &Command::ShowKeybindings, &mut calls);
        return (true, calls);
    }
    let len = state.filtered_commands.len();
    match key.bare_key {
        BareKey::Esc => {
            if in_keybindings {
                state.view = PaletteView::List;
            } else {
                dismiss(state, &mut calls);
            }
            (true, calls)
        },
        BareKey::Enter => {
            if !in_keybindings {
                run_selection(state, &mut calls);
            }
            (true, calls)
        },
        BareKey::Up => {
            match &state.view {
                PaletteView::Keybindings { scroll } => {
                    let s = *scroll;
                    state.view = PaletteView::Keybindings { scroll: s.saturating_sub(1) };
                },
                _ => {
                    if len > 0 {
                        state.selected_index = if state.selected_index == 0 {
                            len - 1
                        } else {
                            state.selected_index - 1
                        };
                    }
                },
            }
            (true, calls)
        },
        BareKey::Down => {
            match &state.view {
                PaletteView::Keybindings { scroll } => {
                    let s = *scroll;
                    let next = if s == usize::MAX {
                        0
                    } else {
                        s + 1
                    };
                    state.view = PaletteView::Keybindings { scroll: next };
                },
                _ => {
                    if len > 0 {
                        let next = if state.selected_index == usize::MAX {
                            0
                        } else {
                            state.selected_index + 1
                        };
                        state.selected_index = next % len;
                    }
                },
            }
            (true, calls)
        },
        BareKey::Backspace => {
            let _ = pop_char(&mut state.search_term);
            state.selected_index = 0;
            state.refilter();
            (true, calls)
        },
        BareKey::Char(c) => {
            if c == '\n' {
                // Enter can arrive as a newline character in some terminals.
                if !in_keybindings {
                    run_selection(state, &mut calls);
                }
                (true, calls)
            } else if !key.ctrl && !key.alt {
                push_char(&mut state.search_term, c);
                state.selected_index = 0;
                state.refilter();
                (true, calls)
            } else {
                (false, calls)
            }
        },
        _ => (false, calls),
    }
}

} // verus!
