//! How the palette reacts to what the host reports: tab, pane, session and
//! mode updates, and key presses.

use vstd::prelude::*;
use crate::input::{HostCall, HostCallModel, KeyStep, Outcome, handle_key, key_step, unhandled};
use crate::keys::KeyPress;
use crate::state::{
    ModeInfo, PaneInfo, PaneManifest, SessionInfo, State, StateModel, TabInfo, TabModel,
    TabPanesModel, refiltered,
};

verus! {

/// What the host reports to the palette.
pub enum Event {
    /// The tabs of the current session.
    TabUpdate(Vec<TabInfo>),
    /// The panes of every tab.
    PaneUpdate(PaneManifest),
    /// The live sessions and the names of the resurrectable ones.
    SessionUpdate(Vec<SessionInfo>, Vec<String>),
    /// The key bindings of every input mode.
    ModeUpdate(ModeInfo),
    Key(KeyPress),
    /// Anything else the host may send.
    Other,
}

/// The position of the first focused tab, if any.
pub open spec fn first_active(tabs: Seq<TabModel>) -> Option<usize>
    decreases tabs.len(),
{
    if tabs.len() == 0 {
        None
    } else if tabs[0].active {
        Some(tabs[0].position)
    } else {
        first_active(tabs.drop_first())
    }
}

/// Whether the last pane in `panes` that is the plugin pane `id` is focused,
/// or `None` if there is no such pane.
pub open spec fn plugin_pane_focus(panes: Seq<PaneInfo>, id: u32) -> Option<bool>
    decreases panes.len(),
{
    if panes.len() == 0 {
        None
    } else if panes.last().is_plugin && panes.last().id == id {
        Some(panes.last().is_focused)
    } else {
        plugin_pane_focus(panes.drop_last(), id)
    }
}

/// The tab holding the plugin pane `id` and whether that pane is focused,
/// taking the last occurrence in the order the tabs and panes are listed.
pub open spec fn plugin_location(tabs: Seq<TabPanesModel>, id: u32) -> Option<(usize, bool)>
    decreases tabs.len(),
{
    if tabs.len() == 0 {
        None
    } else {
        match plugin_pane_focus(tabs.last().panes, id) {
            Some(f) => Some((tabs.last().tab_position, f)),
            None => plugin_location(tabs.drop_last(), id),
        }
    }
}

/// Keeping the palette on the user's tab. When the palette's pane is
/// visible on the focused tab but the user was last on another tab, the pane
/// is moved there (and the remembered tab forgotten); while the palette is
/// hidden, the focused tab is remembered.
pub open spec fn followed(s: StateModel) -> Outcome {
    let unchanged = Outcome { state: s, calls: Seq::empty() };
    match s.plugin_id {
        None => unchanged,
        Some(id) => match s.pane_manifest {
            None => unchanged,
            Some(m) => match plugin_location(m, id) {
                None => unchanged,
                Some(loc) => {
                    let active = first_active(s.tabs);
                    if loc.1 && active == Some(loc.0) {
                        match s.last_user_tab {
                            Some(u) => if u != loc.0 {
                                Outcome {
                                    state: StateModel { last_user_tab: None, ..s },
                                    calls: seq![
                                        HostCallModel::BreakPaneToTab {
                                            plugin_id: id,
                                            tab_index: u,
                                            focus_new_tab: true,
                                        },
                                    ],
                                }
                            } else {
                                unchanged
                            },
                            None => unchanged,
                        }
                    } else {
                        match active {
                            Some(a) => Outcome {
                                state: StateModel { last_user_tab: Some(a), ..s },
                                calls: Seq::empty(),
                            },
                            None => unchanged,
                        }
                    }
                },
            },
        },
    }
}

/// The effect of one host event: the new state, whether the palette should
/// be redrawn, and the requests to send back.
pub open spec fn event_step(s: StateModel, e: Event) -> KeyStep {
    match e {
        Event::TabUpdate(tabs) => {
            let s1 = StateModel {
                origin_tab_position: first_active(tabs.deep_view()),
                tabs: tabs.deep_view(),
                ..s
            };
            let f = followed(s1);
            KeyStep { state: refiltered(f.state), handled: true, calls: f.calls }
        },
        Event::PaneUpdate(m) => {
            let f = followed(StateModel { pane_manifest: Some(m@), ..s });
            KeyStep { state: refiltered(f.state), handled: true, calls: f.calls }
        },
        Event::SessionUpdate(sessions, resurrectable) => KeyStep {
            state: refiltered(
                StateModel {
                    sessions: sessions.deep_view(),
                    resurrectable_sessions: resurrectable.deep_view(),
                    ..s
                },
            ),
            handled: true,
            calls: Seq::empty(),
        },
        Event::ModeUpdate(mi) => unhandled(StateModel { mode_info: Some(mi@), ..s }),
        Event::Key(k) => key_step(s, k),
        Event::Other => unhandled(s),
    }
}

fn first_active_tab(tabs: &Vec<TabInfo>) -> (r: Option<usize>)
    ensures
        r == first_active(tabs.deep_view()),
{
    let ghost tv = tabs.deep_view();
    let mut i: usize = 0;
    assert(tv.skip(0) =~= tv);
    while i < tabs.len()
        invariant
            i <= tabs.len(),
            tv == tabs.deep_view(),
            first_active(tv) == first_active(tv.skip(i as int)),
        decreases tabs.len() - i,
    {
        assert(tv.skip(i as int).drop_first() =~= tv.skip(i + 1));
        assert(tv.skip(i as int)[0] == tv[i as int]);
        if tabs[i].active {
            return Some(tabs[i].position);
        }
        i = i + 1;
    }
    assert(tv.skip(i as int).len() == 0);
    None
}

fn locate_plugin(manifest: &PaneManifest, id: u32) -> (r: Option<(usize, bool)>)
    ensures
        r == plugin_location(manifest@, id),
{
    let ghost mv = manifest@;
    let mut found: Option<(usize, bool)> = None;
    let mut i: usize = 0;
    while i < manifest.tabs.len()
        invariant
            i <= manifest.tabs.len(),
            mv == manifest@,
            found == plugin_location(mv.take(i as int), id),
        decreases manifest.tabs.len() - i,
    {
        let panes = &manifest.tabs[i].panes;
        let ghost pv = panes@;
        assert(mv[i as int].panes == pv);
        let mut in_tab: Option<bool> = None;
        let mut j: usize = 0;
        while j < panes.len()
            invariant
                j <= panes.len(),
                pv == panes@,
                in_tab == plugin_pane_focus(pv.take(j as int), id),
            decreases panes.len() - j,
        {
            assert(pv.take(j + 1).drop_last() =~= pv.take(j as int));
            assert(pv.take(j + 1).last() == pv[j as int]);
            if panes[j].is_plugin && panes[j].id == id {
                in_tab = Some(panes[j].is_focused);
            }
            j = j + 1;
        }
        assert(pv.take(panes.len() as int) =~= pv);
        assert(mv.take(i + 1).drop_last() =~= mv.take(i as int));
        assert(mv.take(i + 1).last() == mv[i as int]);
        if let Some(f) = in_tab {
            found = Some((manifest.tabs[i].tab_position, f));
        }
        i = i + 1;
    }
    assert(mv.take(manifest.tabs.len() as int) =~= mv);
    found
}

/// Moves the palette's pane to the tab the user was on, or remembers that
/// tab; see `followed`.
pub fn maybe_follow_user_tab(state: &mut State, calls: &mut Vec<HostCall>)
    ensures
        final(state)@ == followed(old(state)@).state,
        final(calls).deep_view() == old(calls).deep_view() + followed(old(state)@).calls,
{
    let ghost c0 = calls.deep_view();
    assert(c0 =~= c0 + Seq::<HostCallModel>::empty());
    let plugin_id = match state.plugin_id {
        Some(id) => id,
        None => return ,
    };
    let location = match &state.pane_manifest {
        Some(manifest) => locate_plugin(manifest, plugin_id),
        None => return ,
    };
    let (plugin_tab, plugin_focused) = match location {
        Some(loc) => loc,
        None => return ,
    };
    let active_tab = first_active_tab(&state.tabs);
    if plugin_focused && active_tab == Some(plugin_tab) {
        if let Some(user_tab) = state.last_user_tab {
            if user_tab != plugin_tab {
                let ghost before = calls.deep_view();
                let call = HostCall::BreakPaneToTab {
                    plugin_id: plugin_id,
                    tab_index: user_tab,
                    focus_new_tab: true,
                };
                calls.push(call);
                assert(calls.deep_view() =~= before.push(call@));
                state.last_user_tab = None;
            }
        }
    } else if let Some(active) = active_tab {
        state.last_user_tab = Some(active);
    }
}

/// Handles one host event. Returns whether the palette should be redrawn and
/// the requests to send to the host, in order.
pub fn update(state: &mut State, event: Event) -> (r: (bool, Vec<HostCall>))
    ensures
        event_step(old(state)@, event) == (KeyStep {
            state: final(state)@,
            handled: r.0,
            calls: r.1.deep_view(),
        }),
{
    let mut calls: Vec<HostCall> = Vec::new();
    assert(calls.deep_view() =~= Seq::<HostCallModel>::empty());
    match event {
        Event::TabUpdate(tabs) => {
            // Remember the focused tab so that dismissing can go back to it.
            state.origin_tab_position = first_active_tab(&tabs);
            state.tabs = tabs;
            maybe_follow_user_tab(state, &mut calls);
            state.refilter();
            (true, calls)
        },
        Event::PaneUpdate(manifest) => {
            state.pane_manifest = Some(manifest);
            maybe_follow_user_tab(state, &mut calls);
            state.refilter();
            (true, calls)
        },
        Event::SessionUpdate(sessions, resurrectable) => {
            state.sessions = sessions;
            state.resurrectable_sessions = resurrectable;
            state.refilter();
            (true, calls)
        },
        Event::ModeUpdate(mode_info) => {
            state.mode_info = Some(mode_info);
            (false, calls)
        },
        Event::Key(key) => handle_key(state, key),
        Event::Other => (false, calls),
    }
}

} // verus!
