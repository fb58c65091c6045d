//! Properties of the palette that span several key presses, events or
//! functions.

use vstd::prelude::*;
use crate::commands::{all_commands, filtered, CommandModel};
use crate::input::{HostCallModel, key_step, prompt_view};
use crate::keys::{BareKey, KeyPress};
use crate::plugin::{event_step, first_active, followed, plugin_location, Event};
use crate::state::{PaneManifest, PaletteViewModel, StateModel, TabInfo, refiltered, selection_valid};
use crate::text::{is_white_space, lemma_trimmed_has_no_outer_whitespace, trimmed};

verus! {

/// Refiltering always leaves the selection on an entry of the list (or at 0
/// when the list is empty).
pub proof fn law_refilter_keeps_selection_valid(s: StateModel)
    ensures
        selection_valid(refiltered(s)),
        refiltered(refiltered(s)) == refiltered(s),
{
}

/// No key press takes the selection off the list.
pub proof fn law_key_keeps_selection_valid(s: StateModel, k: KeyPress)
    requires
        selection_valid(s),
        s.filtered_commands.len() <= usize::MAX,
    ensures
        selection_valid(key_step(s, k).state),
{
    law_refilter_keeps_selection_valid(
        StateModel {
            search_term: if s.search_term.len() > 0 {
                s.search_term.drop_last()
            } else {
                s.search_term
            },
            selected_index: 0,
            ..s
        },
    );
    if let BareKey::Char(c) = k.bare_key {
        law_refilter_keeps_selection_valid(
            StateModel { search_term: s.search_term.push(c), selected_index: 0, ..s },
        );
    }
    let len = s.filtered_commands.len() as int;
    if len > 0 {
        let n = if s.selected_index == usize::MAX { 0 } else { s.selected_index + 1 };
        assert(n % len < len) by (nonlinear_arith)
            requires
                len > 0,
        ;
    }
}

/// No host event takes the selection off the list.
pub proof fn law_event_keeps_selection_valid(s: StateModel, e: Event)
    requires
        selection_valid(s),
        s.filtered_commands.len() <= usize::MAX,
    ensures
        selection_valid(event_step(s, e).state),
{
    match e {
        Event::Key(k) => law_key_keeps_selection_valid(s, k),
        _ => {},
    }
}

pub open spec fn press(bare_key: BareKey) -> KeyPress {
    KeyPress { bare_key, ctrl: false, alt: false, shift: false, super_key: false }
}

/// In the list, Down then Up comes back to the same entry, and so does Up
/// then Down.
pub proof fn law_down_up_round_trip(s: StateModel)
    requires
        s.view == PaletteViewModel::List,
        s.selected_index < s.filtered_commands.len(),
        s.filtered_commands.len() <= usize::MAX,
    ensures
        key_step(key_step(s, press(BareKey::Down)).state, press(BareKey::Up)).state == s,
        key_step(key_step(s, press(BareKey::Up)).state, press(BareKey::Down)).state == s,
{
    let len = s.filtered_commands.len() as int;
    let i = s.selected_index as int;
    lemma_mod_step(i, len);
    let j: int = if i == 0 {
        len - 1
    } else {
        i - 1
    };
    lemma_mod_step(j, len);
}

proof fn lemma_mod_step(i: int, len: int)
    requires
        0 <= i < len,
    ensures
        i + 1 == len ==> (i + 1) % len == 0,
        i + 1 < len ==> (i + 1) % len == i + 1,
{
    if i + 1 == len {
        assert((i + 1) % len == 0) by (nonlinear_arith)
            requires
                i + 1 == len,
                0 <= i,
        ;
    } else {
        assert((i + 1) % len == i + 1) by (nonlinear_arith)
            requires
                i + 1 < len,
                0 <= i,
        ;
    }
}

/// In the key-binding view, scrolling down then up comes back to the same
/// place.
pub proof fn law_scroll_round_trip(s: StateModel, scroll: usize)
    requires
        s.view == (PaletteViewModel::Keybindings { scroll }),
        scroll < usize::MAX,
    ensures
        key_step(key_step(s, press(BareKey::Down)).state, press(BareKey::Up)).state == s,
{
}

/// Esc in a text prompt goes back to the list and keeps the search term,
/// the ranked commands and the selection; nothing is sent to the host.
pub proof fn law_prompt_escape_returns_to_list(s: StateModel, k: KeyPress)
    requires
        s.view is NewSessionPrompt || s.view is RenameSessionPrompt,
        k.bare_key == BareKey::Esc,
    ensures
        key_step(s, k).state == (StateModel { view: PaletteViewModel::List, ..s }),
        key_step(s, k).handled,
        key_step(s, k).calls.len() == 0,
{
}

/// Keys held with Ctrl or Alt are never typed into a prompt: the key is not
/// used and nothing changes.
pub proof fn law_prompt_ignores_modified_chars(s: StateModel, k: KeyPress, c: char)
    requires
        s.view is NewSessionPrompt || s.view is RenameSessionPrompt,
        k.bare_key == BareKey::Char(c),
        k.ctrl || k.alt,
    ensures
        key_step(s, k).state == s,
        !key_step(s, k).handled,
        key_step(s, k).calls.len() == 0,
{
}

/// Typing a character into a prompt and deleting it again restores the
/// prompt's text; Backspace on an empty prompt changes nothing.
pub proof fn law_prompt_type_then_delete(s: StateModel, input: Seq<char>, rename: bool, c: char)
    requires
        s.view == prompt_view(input, rename),
        c != '\n',
    ensures
        key_step(key_step(s, press(BareKey::Char(c))).state, press(BareKey::Backspace)).state
            == s,
        input.len() == 0 ==> key_step(s, press(BareKey::Backspace)).state == s,
{
    assert(input.push(c).drop_last() =~= input);
}

/// While a prompt is open every unmodified character is typed into it, so
/// shortcuts such as '?' do not leak through.
pub proof fn law_prompt_takes_every_character(
    s: StateModel,
    input: Seq<char>,
    rename: bool,
    c: char,
)
    requires
        s.view == prompt_view(input, rename),
        c != '\n',
    ensures
        key_step(s, press(BareKey::Char(c))).state == (StateModel {
            view: prompt_view(input.push(c), rename),
            ..s
        }),
        key_step(s, press(BareKey::Char(c))).handled,
        key_step(s, press(BareKey::Char(c))).calls.len() == 0,
{
}

/// Opening the key-binding reference with '?' and leaving it with Esc gets
/// back exactly the list as it was, and asks nothing of the host.
pub proof fn law_help_round_trip(s: StateModel)
    requires
        s.view == PaletteViewModel::List,
        s.search_term.len() == 0,
    ensures
        key_step(s, press(BareKey::Char('?'))).state.view == (PaletteViewModel::Keybindings {
            scroll: 0,
        }),
        key_step(key_step(s, press(BareKey::Char('?'))).state, press(BareKey::Esc)).state == s,
        key_step(s, press(BareKey::Char('?'))).calls.len() == 0,
        key_step(key_step(s, press(BareKey::Char('?'))).state, press(BareKey::Esc)).calls.len()
            == 0,
{
}

/// Esc in the list dismisses the palette: focus goes back to the tab that
/// was active when it was shown (tab numbers are 1-based), then it hides and
/// resets to an empty search in the list view.
pub proof fn law_escape_dismisses(s: StateModel, p: usize)
    requires
        s.view == PaletteViewModel::List,
        s.origin_tab_position == Some(p),
        p < u32::MAX,
    ensures
        key_step(s, press(BareKey::Esc)).calls == seq![
            HostCallModel::SwitchTabTo { tab: (p + 1) as u32 },
            HostCallModel::HideSelf,
        ],
        key_step(s, press(BareKey::Esc)).state.search_term.len() == 0,
        key_step(s, press(BareKey::Esc)).state.selected_index == 0,
        key_step(s, press(BareKey::Esc)).state.view == PaletteViewModel::List,
{
    assert(p as u32 == p) by (bit_vector)
        requires
            p < 0xffff_ffffusize,
    ;
}

/// Typing a character into the search and deleting it again brings back the
/// search term and its ranked commands, with the first entry selected.
pub proof fn law_type_then_backspace(s: StateModel, c: char)
    requires
        s.view == PaletteViewModel::List,
        c != '\n',
        !(c == '?' && s.search_term.len() == 0),
    ensures
        ({
            let after = key_step(
                key_step(s, press(BareKey::Char(c))).state,
                press(BareKey::Backspace),
            ).state;
            &&& after.search_term == s.search_term
            &&& after.filtered_commands == filtered(
                all_commands(s.tabs, s.sessions, s.resurrectable_sessions),
                s.search_term,
            )
            &&& after.selected_index == 0
            &&& after == refiltered(StateModel { selected_index: 0, ..s })
        }),
{
    assert(s.search_term.push(c).drop_last() =~= s.search_term);
}

/// Confirming a prompt never sends a blank name or one with whitespace at
/// either end: the new-session prompt asks for a generated name exactly when
/// nothing but whitespace was typed, and the rename prompt renames nothing
/// then. Either way the palette hides afterwards.
pub proof fn law_prompt_names_are_trimmed(s: StateModel, input: Seq<char>, rename: bool)
    requires
        s.view == prompt_view(input, rename),
    ensures
        ({
            let step = key_step(s, press(BareKey::Enter));
            let name = trimmed(input);
            &&& step.calls.last() == HostCallModel::HideSelf
            &&& step.state.view == PaletteViewModel::List
            &&& step.state.search_term.len() == 0
            &&& !rename ==> step.calls.len() == 2 && step.calls[0] == (HostCallModel::SwitchSession {
                name: if name.len() == 0 {
                    None
                } else {
                    Some(name)
                },
            })
            &&& rename ==> (name.len() == 0 <==> step.calls.len() == 1)
            &&& rename && name.len() > 0 ==> step.calls[0] == (HostCallModel::RenameSession {
                new_name: name,
            })
            &&& name.len() > 0 ==> !is_white_space(name[0]) && !is_white_space(name.last())
        }),
{
    lemma_trimmed_has_no_outer_whitespace(input);
}

/// After the palette's pane has been moved to the user's tab, the next
/// update does not move it again.
pub proof fn law_follow_settles(s: StateModel)
    requires
        followed(s).calls.len() > 0,
    ensures
        followed(followed(s).state).calls.len() == 0,
        followed(s).state.last_user_tab is None,
{
}

/// Enter in the list runs the selected command as the host expects it: a
/// session or resurrectable-session entry switches to that very session by
/// name, the new-session entry asks for a generated name, a tab entry
/// switches to (1-based) or closes that tab; each then hides the palette
/// and resets it to an empty search in the list view.
pub proof fn law_enter_runs_selected_command(s: StateModel)
    requires
        s.view == PaletteViewModel::List,
        s.selected_index < s.filtered_commands.len(),
    ensures
        ({
            let step = key_step(s, press(BareKey::Enter));
            let c = s.filtered_commands[s.selected_index as int].command;
            &&& step.handled
            &&& (c matches CommandModel::ResumeSession { name } ==> step.calls == seq![
                HostCallModel::SwitchSession { name: Some(name) },
                HostCallModel::HideSelf,
            ])
            &&& (c matches CommandModel::SwitchSession { name } ==> step.calls == seq![
                HostCallModel::SwitchSession { name: Some(name) },
                HostCallModel::HideSelf,
            ])
            &&& (c matches CommandModel::NewSession ==> step.calls == seq![
                HostCallModel::SwitchSession { name: None },
                HostCallModel::HideSelf,
            ])
            &&& (c matches CommandModel::SwitchToTab { position, .. } ==> (position < u32::MAX
                ==> step.calls == seq![
                HostCallModel::SwitchTabTo { tab: (position + 1) as u32 },
                HostCallModel::HideSelf,
            ]))
            &&& (c matches CommandModel::CloseTab { position, .. } ==> step.calls == seq![
                HostCallModel::CloseTabWithIndex { index: position },
                HostCallModel::HideSelf,
            ])
            &&& (c is ResumeSession || c is SwitchSession || c is NewSession || c is SwitchToTab
                || c is CloseTab) ==> step.state.view == PaletteViewModel::List
                && step.state.search_term.len() == 0 && step.state.selected_index == 0
        }),
{
    let c = s.filtered_commands[s.selected_index as int].command;
    if let CommandModel::SwitchToTab { position, .. } = c {
        if position < u32::MAX {
            assert(position as u32 == position) by (bit_vector)
                requires
                    position < 0xffff_ffffusize,
            ;
        }
    }
}

/// Resuming a resurrectable session asks the host for exactly what
/// switching to a live session of the same name does.
pub proof fn law_resume_is_switch_by_name(s: StateModel, name: Seq<char>)
    ensures
        crate::input::executed(s, CommandModel::ResumeSession { name }) == crate::input::executed(
            s,
            CommandModel::SwitchSession { name },
        ),
        crate::input::executed(s, CommandModel::ResumeSession { name }).calls[0] == (
        HostCallModel::SwitchSession { name: Some(name) }),
{
}

/// When a tab or pane update shows the palette's pane focused on the active
/// tab while the user was last on another tab, the pane is moved to the
/// user's tab (once: the remembered tab is forgotten). When the update shows
/// the palette hidden, the active tab is remembered.
pub proof fn law_updates_follow_user_tab(
    s: StateModel,
    tabs: Vec<TabInfo>,
    manifest: PaneManifest,
    id: u32,
    tab: usize,
    focused: bool,
    user: usize,
)
    ensures
        // A tab update, with the panes (`manifest`) already known.
        ({
            let step = event_step(s, Event::TabUpdate(tabs));
            (s.plugin_id == Some(id) && s.pane_manifest == Some(manifest@) && plugin_location(
                manifest@,
                id,
            ) == Some((tab, focused))) ==> {
                &&& (focused && first_active(tabs.deep_view()) == Some(tab) && s.last_user_tab
                    == Some(user) && user != tab) ==> step.calls == seq![
                    HostCallModel::BreakPaneToTab {
                        plugin_id: id,
                        tab_index: user,
                        focus_new_tab: true,
                    },
                ] && step.state.last_user_tab is None
                &&& (!(focused && first_active(tabs.deep_view()) == Some(tab))
                    && first_active(tabs.deep_view()) is Some) ==> step.calls.len() == 0
                    && step.state.last_user_tab == first_active(tabs.deep_view())
            }
        }),
        // A pane update, with the tabs already known.
        ({
            let step = event_step(s, Event::PaneUpdate(manifest));
            (s.plugin_id == Some(id) && plugin_location(manifest@, id) == Some((tab, focused)))
                ==> {
                &&& (focused && first_active(s.tabs) == Some(tab) && s.last_user_tab == Some(user)
                    && user != tab) ==> step.calls == seq![
                    HostCallModel::BreakPaneToTab {
                        plugin_id: id,
                        tab_index: user,
                        focus_new_tab: true,
                    },
                ] && step.state.last_user_tab is None
                &&& (!(focused && first_active(s.tabs) == Some(tab)) && first_active(s.tabs) is Some)
                    ==> step.calls.len() == 0 && step.state.last_user_tab == first_active(s.tabs)
            }
        }),
{
}

} // verus!
