//! What the palette draws, as a list of placed text elements: the search
//! field, the visible part of the command list and the hint bar; the
//! key-binding reference; or a text prompt. Drawing them is left to the
//! caller.

use vstd::prelude::*;
use vstd::string::*;
use vstd::utf8::encode_utf8;
use crate::commands::{category_spec, label_spec, ScoredCommand, ScoredModel};
use crate::keys::{BareKey, InputMode, KeyPress, key_name, key_name_spec, mode_name, mode_name_spec};
use crate::state::{KeybindingModel, ModeInfo, ModeKeybinds, ModeKeybindsModel, PaletteView, PaletteViewModel, State, StateModel};
use crate::text::{join, joined, repeat_str, repeated};

verus! {

broadcast use vstd::string::group_string_axioms;

/// A colour applied to part of a text: a range of positions, or a single
/// position, at a colour level.
#[derive(Clone, Copy, Debug, PartialEq, Eq, Structural)]
pub enum Coloring {
    Range { level: usize, start: usize, end: usize },
    Index { level: usize, index: usize },
}

/// A line of text with its colours, and whether it is the selected entry.
#[derive(Debug, PartialEq, Eq)]
pub struct StyledText {
    pub text: String,
    pub colorings: Vec<Coloring>,
    pub selected: bool,
}

#[verifier::ext_equal]
pub struct StyledModel {
    pub text: Seq<char>,
    pub colorings: Seq<Coloring>,
    pub selected: bool,
}

impl View for StyledText {
    type V = StyledModel;

    open spec fn view(&self) -> StyledModel {
        StyledModel { text: self.text@, colorings: self.colorings@, selected: self.selected }
    }
}

impl DeepView for StyledText {
    type V = StyledModel;

    open spec fn deep_view(&self) -> StyledModel {
        self@
    }
}

/// A placed element: one line of text, or a list of lines, at column `x` and
/// row `y` within a box of `width` by `height`.
#[derive(Debug, PartialEq, Eq)]
pub enum Element {
    Text { item: StyledText, x: usize, y: usize, width: usize, height: usize },
    List { items: Vec<StyledText>, x: usize, y: usize, width: usize, height: usize },
}

#[verifier::ext_equal]
pub enum ElementModel {
    Text { item: StyledModel, x: usize, y: usize, width: usize, height: usize },
    List { items: Seq<StyledModel>, x: usize, y: usize, width: usize, height: usize },
}

impl View for Element {
    type V = ElementModel;

    open spec fn view(&self) -> ElementModel {
        match self {
            Element::Text { item, x, y, width, height } => ElementModel::Text {
                item: item@,
                x: *x,
                y: *y,
                width: *width,
                height: *height,
            },
            Element::List { items, x, y, width, height } => ElementModel::List {
                items: items.deep_view(),
                x: *x,
                y: *y,
                width: *width,
                height: *height,
            },
        }
    }
}

impl DeepView for Element {
    type V = ElementModel;

    open spec fn deep_view(&self) -> ElementModel {
        self@
    }
}

/// `a - b`, or 0 when `b` is larger.
pub open spec fn sat_sub(a: usize, b: usize) -> usize {
    if a >= b {
        (a - b) as usize
    } else {
        0
    }
}

/// `a + b` wrapping around at the top of `usize`, as the shipped (release)
/// build adds.
pub open spec fn wrapping_add(a: usize, b: usize) -> usize {
    if a + b > usize::MAX {
        (a + b - usize::MAX - 1) as usize
    } else {
        (a + b) as usize
    }
}

fn add_wrapping(a: usize, b: usize) -> (r: usize)
    ensures
        r == wrapping_add(a, b),
{
    if a <= usize::MAX - b {
        a + b
    } else {
        b - (usize::MAX - a) - 1
    }
}

/// The length of `s` in UTF-8 bytes, as std's `str::len` gives it.
pub open spec fn byte_len(s: Seq<char>) -> usize {
    encode_utf8(s).len() as usize
}

/// The first entry shown in a list of `total` entries `visible_height` rows
/// high: 0 while everything fits or the selection is in the top half;
/// otherwise the selection is kept in the middle, but the window never runs
/// past the end of the list.
pub open spec fn scroll_offset(selected: usize, visible_height: usize, total: usize) -> usize {
    if total <= visible_height || selected < visible_height / 2 {
        0
    } else {
        let ideal = (selected - visible_height / 2) as usize;
        let max_offset = (total - visible_height) as usize;
        if ideal < max_offset {
            ideal
        } else {
            max_offset
        }
    }
}

/// Where the list view's scroll window starts.
pub fn compute_scroll_offset(selected: usize, visible_height: usize, total: usize) -> (offset:
    usize)
    ensures
        offset == scroll_offset(selected, visible_height, total),
        // The selected entry is inside the window, and the window is full.
        selected < total && visible_height > 0 ==> offset <= selected < offset + visible_height,
        total > visible_height ==> offset + visible_height <= total,
        total <= visible_height ==> offset == 0,
{
    if total <= visible_height {
        return 0;
    }
    if selected < visible_height / 2 {
        return 0;
    }
    let max_offset = total.saturating_sub(visible_height);
    let ideal = selected.saturating_sub(visible_height / 2);
    if ideal < max_offset {
        ideal
    } else {
        max_offset
    }
}

/// The window `[offset, offset + height)` holds the selected entry and, when
/// the list is longer than the window, stays inside the list.
pub proof fn lemma_scroll_offset_window(selected: usize, visible_height: usize, total: usize)
    ensures
        selected < total && visible_height > 0 ==> scroll_offset(selected, visible_height, total)
            <= selected < scroll_offset(selected, visible_height, total) + visible_height,
        total > visible_height ==> scroll_offset(selected, visible_height, total) + visible_height
            <= total,
        scroll_offset(selected, visible_height, total) <= total,
{
}

/// In the list view the selected command is drawn, and drawn as selected,
/// whenever there is room for at least one entry; no other entry is marked.
pub proof fn law_selected_entry_is_drawn(s: StateModel, rows: usize, cols: usize)
    requires
        s.view == PaletteViewModel::List,
        s.selected_index < s.filtered_commands.len(),
        s.filtered_commands.len() <= usize::MAX,
        sat_sub(sat_sub(rows, 1), 1) > 0,
    ensures
        ({
            let height = sat_sub(sat_sub(rows, 1), 1);
            let offset = scroll_offset(
                s.selected_index,
                height,
                s.filtered_commands.len() as usize,
            );
            match frame(s, rows, cols)[1] {
                ElementModel::List { items, .. } => {
                    &&& offset <= s.selected_index < offset + items.len()
                    &&& items[s.selected_index - offset] == list_item(
                        s.filtered_commands[s.selected_index as int],
                        true,
                    )
                    &&& forall|j: int|
                        0 <= j < items.len() && j != s.selected_index - offset ==> !(
                        #[trigger] items[j]).selected
                },
                _ => false,
            }
        }),
{
    let height = sat_sub(sat_sub(rows, 1), 1);
    lemma_scroll_offset_window(s.selected_index, height, s.filtered_commands.len() as usize);
}

/// A single-position highlight at level 1 inside the first `limit` bytes.
pub open spec fn is_highlight_below(c: Coloring, limit: usize) -> bool {
    match c {
        Coloring::Index { level, index } => level == 1 && index < limit,
        _ => false,
    }
}

/// The highlights kept for a label's matched positions: one single-position
/// colour at level 1 for each matched position that, shifted past the
/// prefix, lands inside the text, and nothing else.
pub proof fn lemma_index_colorings(indices: Seq<usize>, prefix: usize, limit: usize)
    ensures
        forall|i: int|
            0 <= i < indices.len() && wrapping_add(prefix, #[trigger] indices[i]) < limit
                ==> index_colorings(indices, prefix, limit).contains(
                Coloring::Index { level: 1, index: wrapping_add(prefix, indices[i]) },
            ),
        forall|k: int|
            0 <= k < index_colorings(indices, prefix, limit).len() ==> is_highlight_below(#[trigger] index_colorings(indices, prefix, limit)[k], limit),
    decreases indices.len(),
{
    if indices.len() > 0 {
        let rest = indices.drop_last();
        lemma_index_colorings(rest, prefix, limit);
        let ic = index_colorings(indices, prefix, limit);
        let rc = index_colorings(rest, prefix, limit);
        assert forall|i: int|
            0 <= i < indices.len() && wrapping_add(prefix, #[trigger] indices[i]) < limit implies ic.contains(
            Coloring::Index { level: 1, index: wrapping_add(prefix, indices[i]) },
        ) by {
            let x = Coloring::Index { level: 1, index: wrapping_add(prefix, indices[i]) };
            if i < rest.len() {
                assert(rest[i] == indices[i]);
                assert(rc.contains(x));
                let j = choose|j: int| 0 <= j < rc.len() && rc[j] == x;
                assert(ic[j] == rc[j]);
            } else {
                assert(ic[ic.len() - 1] == x);
            }
        }
        assert forall|k: int| 0 <= k < ic.len() implies is_highlight_below(#[trigger] ic[k], limit) by {
            if k < rc.len() {
                assert(ic[k] == rc[k]);
            }
        }
    }
}

/// Every entry drawn in the list window, selected or not, shows its
/// command as `[category] label`, colours the bracketed category, and
/// highlights each of its command's matched positions that falls inside the
/// text (shifted past the category prefix); it carries no other colour, and
/// only the selected command is marked selected.
pub proof fn law_list_entries_show_their_matches(s: StateModel, rows: usize, cols: usize)
    requires
        s.view == PaletteViewModel::List,
        s.filtered_commands.len() > 0,
        s.filtered_commands.len() <= usize::MAX,
        sat_sub(sat_sub(rows, 1), 1) > 0,
    ensures
        ({
            let height = sat_sub(sat_sub(rows, 1), 1);
            let offset = scroll_offset(
                s.selected_index,
                height,
                s.filtered_commands.len() as usize,
            );
            match frame(s, rows, cols)[1] {
                ElementModel::List { items, .. } => forall|j: int|
                    0 <= j < items.len() ==> {
                        let c = s.filtered_commands[offset + j];
                        let cat = category_spec(c.command);
                        let cat_end = wrapping_add(byte_len(cat), 2);
                        let prefix = wrapping_add(cat_end, 1);
                        let item = #[trigger] items[j];
                        &&& item.text == "["@ + cat + "] "@ + label_spec(c.command)
                        &&& item.selected == (offset + j == s.selected_index)
                        &&& item.colorings.len() >= 1
                        &&& item.colorings[0] == (Coloring::Range { level: 2, start: 0, end: cat_end })
                        &&& forall|i: int|
                            0 <= i < c.match_indices.len() && wrapping_add(
                                prefix,
                                #[trigger] c.match_indices[i],
                            ) < byte_len(item.text) ==> item.colorings.contains(
                                Coloring::Index {
                                    level: 1,
                                    index: wrapping_add(prefix, c.match_indices[i]),
                                },
                            )
                        &&& forall|k: int|
                            1 <= k < item.colorings.len() ==> is_highlight_below(#[trigger] item.colorings[k], byte_len(item.text))
                    },
                _ => false,
            }
        }),
{
    let height = sat_sub(sat_sub(rows, 1), 1);
    let len = s.filtered_commands.len();
    let offset = scroll_offset(s.selected_index, height, len as usize);
    lemma_scroll_offset_window(s.selected_index, height, len as usize);
    match frame(s, rows, cols)[1] {
        ElementModel::List { items, .. } => {
            assert forall|j: int| 0 <= j < items.len() implies {
                let c = s.filtered_commands[offset + j];
                let cat = category_spec(c.command);
                let cat_end = wrapping_add(byte_len(cat), 2);
                let prefix = wrapping_add(cat_end, 1);
                let item = #[trigger] items[j];
                &&& item.text == "["@ + cat + "] "@ + label_spec(c.command)
                &&& item.selected == (offset + j == s.selected_index)
                &&& item.colorings.len() >= 1
                &&& item.colorings[0] == (Coloring::Range { level: 2, start: 0, end: cat_end })
                &&& forall|i: int|
                    0 <= i < c.match_indices.len() && wrapping_add(
                        prefix,
                        #[trigger] c.match_indices[i],
                    ) < byte_len(item.text) ==> item.colorings.contains(
                        Coloring::Index { level: 1, index: wrapping_add(prefix, c.match_indices[i]) },
                    )
                &&& forall|k: int|
                    1 <= k < item.colorings.len() ==> is_highlight_below(#[trigger] item.colorings[k], byte_len(item.text))
            } by {
                let c = s.filtered_commands[offset + j];
                let cat = category_spec(c.command);
                let cat_end = wrapping_add(byte_len(cat), 2);
                let prefix = wrapping_add(cat_end, 1);
                let item = items[j];
                let text = "["@ + cat + "] "@ + label_spec(c.command);
                let head = seq![Coloring::Range { level: 2, start: 0, end: cat_end }];
                let ic = index_colorings(c.match_indices, prefix, byte_len(text));
                lemma_index_colorings(c.match_indices, prefix, byte_len(text));
                assert(item.colorings == head + ic);
                assert forall|i: int|
                    0 <= i < c.match_indices.len() && wrapping_add(
                        prefix,
                        #[trigger] c.match_indices[i],
                    ) < byte_len(item.text) implies item.colorings.contains(
                    Coloring::Index { level: 1, index: wrapping_add(prefix, c.match_indices[i]) },
                ) by {
                    let x = Coloring::Index { level: 1, index: wrapping_add(prefix, c.match_indices[i]) };
                    assert(ic.contains(x));
                    let k = choose|k: int| 0 <= k < ic.len() && ic[k] == x;
                    assert(item.colorings[k + 1] == x);
                }
                assert forall|k: int| 1 <= k < item.colorings.len() implies is_highlight_below(#[trigger] item.colorings[k], byte_len(item.text)) by {
                    assert(item.colorings[k] == ic[k - 1]);
                }
            }
        },
        _ => {},
    }
}

pub open spec fn plain(text: Seq<char>) -> StyledModel {
    StyledModel { text, colorings: Seq::empty(), selected: false }
}

/// A single line of text at row `y`, as wide as the screen.
pub open spec fn line_at(item: StyledModel, y: usize, cols: usize) -> ElementModel {
    ElementModel::Text { item, x: 0, y, width: cols, height: 1 }
}

fn line_element(text: String, colorings: Vec<Coloring>, y: usize, cols: usize) -> (e: Element)
    ensures
        e@ == line_at(StyledModel { text: text@, colorings: colorings@, selected: false }, y, cols),
{
    Element::Text {
        item: StyledText { text, colorings, selected: false },
        x: 0,
        y,
        width: cols,
        height: 1,
    }
}

fn plain_line(text: &str, y: usize, cols: usize) -> (e: Element)
    ensures
        e@ == line_at(plain(text@), y, cols),
{
    let c: Vec<Coloring> = Vec::new();
    line_element(text.to_string(), c, y, cols)
}

/// The search field: a prompt, then the term and a cursor bar.
pub open spec fn search_line(term: Seq<char>) -> Seq<char> {
    if term.len() == 0 {
        " > Type to filter..."@
    } else {
        " > "@ + term + "|"@
    }
}

/// The colours for the matched characters of a label: each position is
/// shifted past the category prefix, and kept only if it falls inside the
/// displayed text's byte length.
pub open spec fn index_colorings(indices: Seq<usize>, prefix: usize, limit: usize) -> Seq<Coloring>
    decreases indices.len(),
{
    if indices.len() == 0 {
        Seq::empty()
    } else {
        let rest = index_colorings(indices.drop_last(), prefix, limit);
        let d = wrapping_add(prefix, indices.last());
        if d < limit {
            rest.push(Coloring::Index { level: 1, index: d })
        } else {
            rest
        }
    }
}

/// One entry of the command list: `[Category] label`, the bracketed
/// category coloured, the matched characters highlighted.
pub open spec fn list_item(c: ScoredModel, selected: bool) -> StyledModel {
    let cat = category_spec(c.command);
    let display = "["@ + cat + "] "@ + label_spec(c.command);
    let cat_end = wrapping_add(byte_len(cat), 2);
    let prefix = wrapping_add(cat_end, 1);
    StyledModel {
        text: display,
        colorings: seq![Coloring::Range { level: 2, start: 0, end: cat_end }] + index_colorings(
            c.match_indices,
            prefix,
            byte_len(display),
        ),
        selected,
    }
}

/// `count` entries of the list from position `offset` on.
pub open spec fn list_items(
    commands: Seq<ScoredModel>,
    offset: usize,
    count: nat,
    selected: usize,
) -> Seq<StyledModel> {
    Seq::new(count, |j: int| list_item(commands[offset + j], offset + j == selected))
}

pub open spec fn list_hint() -> Seq<char> {
    " Enter select | Esc close | Up/Down navigate | ? keybindings"@
}

/// The list view: the search field on the first row, the hint bar on the
/// last, and the window of commands around the selection in between (or "No
/// matches" when a search matched nothing).
pub open spec fn list_frame(s: StateModel, rows: usize, cols: usize) -> Seq<ElementModel> {
    let search = line_at(
        StyledModel {
            text: search_line(s.search_term),
            colorings: seq![Coloring::Range { level: 3, start: 0, end: 2 }],
            selected: false,
        },
        0,
        cols,
    );
    let hint_row = sat_sub(rows, 1);
    let height = sat_sub(hint_row, 1);
    let len = s.filtered_commands.len();
    if height == 0 || len == 0 {
        let no_match = if len == 0 && s.search_term.len() > 0 {
            seq![line_at(plain(" No matches"@), 1, cols)]
        } else {
            Seq::empty()
        };
        seq![search] + no_match + seq![line_at(plain(" Esc close"@), hint_row, cols)]
    } else {
        let offset = scroll_offset(s.selected_index, height, len as usize);
        let count = if offset + height <= len {
            height as nat
        } else {
            (len - offset) as nat
        };
        seq![
            search,
            ElementModel::List {
                items: list_items(s.filtered_commands, offset, count, s.selected_index),
                x: 0,
                y: 1,
                width: cols,
                height,
            },
            line_at(plain(list_hint()), hint_row, cols),
        ]
    }
}

fn list_entry(scored: &ScoredCommand, selected: bool) -> (t: StyledText)
    ensures
        t@ == list_item(scored@, selected),
{
    let category = scored.command.category();
    let label = scored.command.label();
    let mut display = "[".to_string();
    display.append(category);
    display.append("] ");
    display.append(label.as_str());
    let cat_end = add_wrapping(category.len(), 2);
    let prefix = add_wrapping(cat_end, 1);
    let limit = display.as_str().len();
    let mut colorings: Vec<Coloring> = Vec::new();
    colorings.push(Coloring::Range { level: 2, start: 0, end: cat_end });
    let ghost iv = scored.match_indices@;
    let mut i: usize = 0;
    while i < scored.match_indices.len()
        invariant
            i <= scored.match_indices.len(),
            iv == scored.match_indices@,
            colorings@ =~= seq![Coloring::Range { level: 2, start: 0, end: cat_end }]
                + index_colorings(iv.take(i as int), prefix, limit),
        decreases scored.match_indices.len() - i,
    {
        assert(iv.take(i + 1).drop_last() =~= iv.take(i as int));
        assert(iv.take(i + 1).last() == iv[i as int]);
        let d = add_wrapping(prefix, scored.match_indices[i]);
        if d < limit {
            colorings.push(Coloring::Index { level: 1, index: d });
        }
        i = i + 1;
    }
    assert(iv.take(scored.match_indices.len() as int) =~= iv);
    StyledText { text: display, colorings, selected }
}

fn render_list(state: &State, rows: usize, cols: usize) -> (frame: Vec<Element>)
    ensures
        frame.deep_view() == list_frame(state@, rows, cols),
{
    let mut frame: Vec<Element> = Vec::new();
    let search_display = if state.search_term.as_str().is_empty() {
        " > Type to filter...".to_string()
    } else {
        let mut d = " > ".to_string();
        d.append(state.search_term.as_str());
        d.append("|");
        d
    };
    let mut search_colors: Vec<Coloring> = Vec::new();
    search_colors.push(Coloring::Range { level: 3, start: 0, end: 2 });
    let search = line_element(search_display, search_colors, 0, cols);
    frame.push(search);
    let list_start: usize = 1;
    let hint_row = rows.saturating_sub(1);
    let list_height = hint_row.saturating_sub(list_start);
    let len = state.filtered_commands.len();
    if list_height == 0 || len == 0 {
        if len == 0 && !state.search_term.as_str().is_empty() {
            frame.push(plain_line(" No matches", list_start, cols));
        }
        frame.push(plain_line(" Esc close", hint_row, cols));
        assert(frame.deep_view() =~= list_frame(state@, rows, cols));
        return frame;
    }
    let offset = compute_scroll_offset(state.selected_index, list_height, len);
    let ghost fv = state.filtered_commands.deep_view();
    let mut items: Vec<StyledText> = Vec::new();
    let mut i: usize = offset;
    while i < len && i - offset < list_height
        invariant
            offset <= i <= len,
            len == state.filtered_commands.len(),
            fv == state.filtered_commands.deep_view(),
            i - offset <= list_height,
            items.deep_view() =~= list_items(fv, offset, (i - offset) as nat, state.selected_index),
        decreases len - i,
    {
        let item = list_entry(&state.filtered_commands[i], i == state.selected_index);
        let ghost before = items.deep_view();
        items.push(item);
        assert(items.deep_view() =~= before.push(item@));
        i = i + 1;
    }
    frame.push(Element::List { items, x: 0, y: list_start, width: cols, height: list_height });
    frame.push(
        plain_line(" Enter select | Esc close | Up/Down navigate | ? keybindings", hint_row, cols),
    );
    assert(frame.deep_view() =~= list_frame(state@, rows, cols));
    frame
}

/// A line of the key-binding reference: a section header naming a mode, or
/// one binding.
#[derive(Debug, PartialEq, Eq)]
pub enum KeybindingEntry {
    SectionHeader(String),
    Binding(String),
}

pub enum EntryModel {
    SectionHeader(Seq<char>),
    Binding(Seq<char>),
}

impl View for KeybindingEntry {
    type V = EntryModel;

    open spec fn view(&self) -> EntryModel {
        match self {
            KeybindingEntry::SectionHeader(t) => EntryModel::SectionHeader(t@),
            KeybindingEntry::Binding(t) => EntryModel::Binding(t@),
        }
    }
}

impl DeepView for KeybindingEntry {
    type V = EntryModel;

    open spec fn deep_view(&self) -> EntryModel {
        self@
    }
}

/// A key written out: the held modifiers among Ctrl, Alt and Super, then the
/// key, joined by `+`; the space bar is written `Space`.
pub open spec fn key_text(k: KeyPress) -> Seq<char> {
    let parts = (if k.ctrl {
        seq!["Ctrl"@]
    } else {
        Seq::empty()
    }) + (if k.alt {
        seq!["Alt"@]
    } else {
        Seq::empty()
    }) + (if k.super_key {
        seq!["Super"@]
    } else {
        Seq::empty()
    });
    let base = if k.bare_key == BareKey::Char(' ') {
        "Space"@
    } else {
        key_name_spec(k.bare_key)
    };
    joined(parts.push(base), "+"@)
}

fn push_string(v: &mut Vec<String>, s: String)
    ensures
        final(v).deep_view() == old(v).deep_view().push(s@),
{
    let ghost before = v.deep_view();
    v.push(s);
    assert(v.deep_view() =~= before.push(s@));
}

/// Writes out a key; see `key_text`.
pub fn format_key(key: &KeyPress) -> (r: String)
    ensures
        r@ == key_text(*key),
{
    let mut parts: Vec<String> = Vec::new();
    if key.ctrl {
        push_string(&mut parts, "Ctrl".to_string());
    }
    if key.alt {
        push_string(&mut parts, "Alt".to_string());
    }
    if key.super_key {
        push_string(&mut parts, "Super".to_string());
    }
    let base = if key.bare_key == BareKey::Char(' ') {
        "Space".to_string()
    } else {
        key_name(key.bare_key)
    };
    push_string(&mut parts, base);
    assert(parts.deep_view() =~= (if key.ctrl {
        seq!["Ctrl"@]
    } else {
        Seq::empty()
    }) + (if key.alt {
        seq!["Alt"@]
    } else {
        Seq::empty()
    }) + (if key.super_key {
        seq!["Super"@]
    } else {
        Seq::empty()
    }).push(base@));
    assert(base@ == (if key.bare_key == BareKey::Char(' ') {
        "Space"@
    } else {
        key_name_spec(key.bare_key)
    }));
    join(&parts, "+")
}

/// One binding line: the key, an arrow, and the actions separated by commas.
pub open spec fn binding_line(b: KeybindingModel) -> Seq<char> {
    "  "@ + key_text(b.key) + " → "@ + joined(b.actions, ", "@)
}

pub open spec fn binding_lines(bindings: Seq<KeybindingModel>) -> Seq<EntryModel> {
    Seq::new(bindings.len(), |i: int| EntryModel::Binding(binding_line(bindings[i])))
}

/// A mode's section: a header naming the mode, then one line per binding.
pub open spec fn section(mk: ModeKeybindsModel) -> Seq<EntryModel> {
    seq![EntryModel::SectionHeader("┌ "@ + mode_name_spec(mk.mode) + " mode"@)] + binding_lines(
        mk.bindings,
    )
}

/// The modes listed first, in this order.
pub open spec fn preferred_modes() -> Seq<InputMode> {
    seq![
        InputMode::Normal,
        InputMode::Locked,
        InputMode::Pane,
        InputMode::Tab,
        InputMode::Resize,
        InputMode::Move,
        InputMode::Scroll,
        InputMode::Session,
    ]
}

/// The first bindings listed for `mode`, if any.
pub open spec fn first_for(keybinds: Seq<ModeKeybindsModel>, mode: InputMode) -> Option<
    ModeKeybindsModel,
>
    decreases keybinds.len(),
{
    if keybinds.len() == 0 {
        None
    } else if keybinds[0].mode == mode {
        Some(keybinds[0])
    } else {
        first_for(keybinds.drop_first(), mode)
    }
}

/// The sections of the given modes, in their order, each from the first
/// bindings listed for it; modes without bindings are left out.
pub open spec fn ordered_sections(keybinds: Seq<ModeKeybindsModel>, modes: Seq<InputMode>) -> Seq<
    EntryModel,
>
    decreases modes.len(),
{
    if modes.len() == 0 {
        Seq::empty()
    } else {
        let rest = ordered_sections(keybinds, modes.drop_last());
        match first_for(keybinds, modes.last()) {
            Some(mk) => rest + section(mk),
            None => rest,
        }
    }
}

/// The sections of every listed mode that is not a preferred one, in the
/// order listed.
pub open spec fn other_sections(keybinds: Seq<ModeKeybindsModel>) -> Seq<EntryModel>
    decreases keybinds.len(),
{
    if keybinds.len() == 0 {
        Seq::empty()
    } else {
        let rest = other_sections(keybinds.drop_last());
        if preferred_modes().contains(keybinds.last().mode) {
            rest
        } else {
            rest + section(keybinds.last())
        }
    }
}

pub open spec fn not_available_line() -> Seq<char> {
    "  (keybinding info not available yet)"@
}

/// The key-binding reference: the preferred modes first, then the rest; or
/// a note while the host has not sent its bindings yet.
pub open spec fn collected(mode_info: Option<Seq<ModeKeybindsModel>>) -> Seq<EntryModel> {
    match mode_info {
        None => seq![EntryModel::Binding(not_available_line())],
        Some(kb) => ordered_sections(kb, preferred_modes()) + other_sections(kb),
    }
}

fn push_section(entries: &mut Vec<KeybindingEntry>, mk: &ModeKeybinds)
    ensures
        final(entries).deep_view() == old(entries).deep_view() + section(mk@),
{
    let ghost e0 = entries.deep_view();
    let mut header = "┌ ".to_string();
    header.append(mode_name(mk.mode));
    header.append(" mode");
    let h = KeybindingEntry::SectionHeader(header);
    entries.push(h);
    assert(entries.deep_view() =~= e0.push(h@));
    let ghost bv = mk.bindings.deep_view();
    let mut i: usize = 0;
    while i < mk.bindings.len()
        invariant
            i <= mk.bindings.len(),
            bv == mk.bindings.deep_view(),
            entries.deep_view() =~= e0 + section(mk@).take(i + 1),
        decreases mk.bindings.len() - i,
    {
        let b = &mk.bindings[i];
        let mut line = "  ".to_string();
        line.append(format_key(&b.key).as_str());
        line.append(" → ");
        let actions = join(&b.actions, ", ");
        line.append(actions.as_str());
        let e = KeybindingEntry::Binding(line);
        let ghost before = entries.deep_view();
        entries.push(e);
        assert(bv[i as int] == b@);
        assert(entries.deep_view() =~= before.push(e@));
        assert(section(mk@).take(i + 2) =~= section(mk@).take(i + 1).push(e@));
        i = i + 1;
    }
    assert(section(mk@).take(mk.bindings.len() + 1) =~= section(mk@));
}

fn find_mode(keybinds: &Vec<ModeKeybinds>, mode: InputMode) -> (r: Option<usize>)
    ensures
        match r {
            Some(i) => i < keybinds.len() && first_for(keybinds.deep_view(), mode) == Some(
                keybinds.deep_view()[i as int],
            ),
            None => first_for(keybinds.deep_view(), mode) is None,
        },
{
    let ghost kv = keybinds.deep_view();
    let mut i: usize = 0;
    assert(kv.skip(0) =~= kv);
    while i < keybinds.len()
        invariant
            i <= keybinds.len(),
            kv == keybinds.deep_view(),
            first_for(kv, mode) == first_for(kv.skip(i as int), mode),
        decreases keybinds.len() - i,
    {
        assert(kv.skip(i as int).drop_first() =~= kv.skip(i + 1));
        assert(kv.skip(i as int)[0] == kv[i as int]);
        if keybinds[i].mode == mode {
            return Some(i);
        }
        i = i + 1;
    }
    assert(kv.skip(i as int).len() == 0);
    None
}

fn preferred_mode_list() -> (v: Vec<InputMode>)
    ensures
        v@ == preferred_modes(),
{
    let mut v: Vec<InputMode> = Vec::new();
    v.push(InputMode::Normal);
    v.push(InputMode::Locked);
    v.push(InputMode::Pane);
    v.push(InputMode::Tab);
    v.push(InputMode::Resize);
    v.push(InputMode::Move);
    v.push(InputMode::Scroll);
    v.push(InputMode::Session);
    assert(v@ =~= preferred_modes());
    v
}

fn is_preferred(modes: &Vec<InputMode>, mode: InputMode) -> (b: bool)
    ensures
        b == modes@.contains(mode),
{
    let mut i: usize = 0;
    while i < modes.len()
        invariant
            i <= modes.len(),
            forall|j: int| 0 <= j < i ==> modes@[j] != mode,
        decreases modes.len() - i,
    {
        if modes[i] == mode {
            return true;
        }
        i = i + 1;
    }
    false
}

/// Lists the host's key bindings for the reference view; see `collected`.
pub fn collect_keybindings(mode_info: &Option<ModeInfo>) -> (entries: Vec<KeybindingEntry>)
    ensures
        entries.deep_view() == collected(mode_info.deep_view()),
{
    let mut entries: Vec<KeybindingEntry> = Vec::new();
    let info = match mode_info {
        Some(mi) => mi,
        None => {
            let e = KeybindingEntry::Binding("  (keybinding info not available yet)".to_string());
            entries.push(e);
            assert(entries.deep_view() =~= seq![e@]);
            return entries;
        },
    };
    let ghost kv = info.keybinds.deep_view();
    let modes = preferred_mode_list();
    let mut m: usize = 0;
    assert(entries.deep_view() =~= Seq::<EntryModel>::empty());
    while m < modes.len()
        invariant
            m <= modes.len(),
            modes@ == preferred_modes(),
            kv == info.keybinds.deep_view(),
            entries.deep_view() == ordered_sections(kv, modes@.take(m as int)),
        decreases modes.len() - m,
    {
        assert(modes@.take(m + 1).drop_last() =~= modes@.take(m as int));
        assert(modes@.take(m + 1).last() == modes@[m as int]);
        match find_mode(&info.keybinds, modes[m]) {
            Some(i) => {
                push_section(&mut entries, &info.keybinds[i]);
            },
            None => {},
        }
        m = m + 1;
    }
    assert(modes@.take(modes.len() as int) =~= modes@);
    let ghost base = entries.deep_view();
    let mut i: usize = 0;
    while i < info.keybinds.len()
        invariant
            i <= info.keybinds.len(),
            modes@ == preferred_modes(),
            kv == info.keybinds.deep_view(),
            entries.deep_view() == base + other_sections(kv.take(i as int)),
        decreases info.keybinds.len() - i,
    {
        assert(kv.take(i + 1).drop_last() =~= kv.take(i as int));
        assert(kv.take(i + 1).last() == kv[i as int]);
        let ghost before = entries.deep_view();
        if !is_preferred(&modes, info.keybinds[i].mode) {
            push_section(&mut entries, &info.keybinds[i]);
            assert(base + other_sections(kv.take(i + 1)) =~= before + section(kv[i as int]));
        } else {
            assert(other_sections(kv.take(i + 1)) == other_sections(kv.take(i as int)));
        }
        i = i + 1;
    }
    assert(kv.take(info.keybinds.len() as int) =~= kv);
    entries
}

/// The header that opens a mode's section of the reference.
pub open spec fn mode_header(mode: InputMode) -> EntryModel {
    EntryModel::SectionHeader("┌ "@ + mode_name_spec(mode) + " mode"@)
}

proof fn lemma_first_for_finds(keybinds: Seq<ModeKeybindsModel>, mode: InputMode, i: int)
    requires
        0 <= i < keybinds.len(),
        keybinds[i].mode == mode,
    ensures
        first_for(keybinds, mode) is Some,
        first_for(keybinds, mode).unwrap().mode == mode,
    decreases keybinds.len(),
{
    if keybinds[0].mode != mode {
        assert(keybinds.drop_first()[i - 1] == keybinds[i]);
        lemma_first_for_finds(keybinds.drop_first(), mode, i - 1);
    }
}

proof fn lemma_first_for_mode(keybinds: Seq<ModeKeybindsModel>, mode: InputMode)
    ensures
        first_for(keybinds, mode) is Some ==> first_for(keybinds, mode).unwrap().mode == mode,
    decreases keybinds.len(),
{
    if keybinds.len() > 0 && keybinds[0].mode != mode {
        lemma_first_for_mode(keybinds.drop_first(), mode);
    }
}

proof fn lemma_ordered_sections_headers(keybinds: Seq<ModeKeybindsModel>, modes: Seq<InputMode>)
    ensures
        forall|j: int|
            0 <= j < modes.len() && (#[trigger] first_for(keybinds, modes[j])) is Some
                ==> ordered_sections(keybinds, modes).contains(mode_header(modes[j])),
    decreases modes.len(),
{
    if modes.len() > 0 {
        let rest = modes.drop_last();
        lemma_ordered_sections_headers(keybinds, rest);
        let os = ordered_sections(keybinds, modes);
        let ro = ordered_sections(keybinds, rest);
        assert forall|j: int|
            0 <= j < modes.len() && (#[trigger] first_for(keybinds, modes[j])) is Some implies os.contains(
            mode_header(modes[j]),
        ) by {
            if j < rest.len() {
                assert(rest[j] == modes[j]);
                assert(ro.contains(mode_header(modes[j])));
                let k = choose|k: int| 0 <= k < ro.len() && ro[k] == mode_header(modes[j]);
                assert(os[k] == ro[k]);
            } else {
                let mk = first_for(keybinds, modes.last());
                lemma_first_for_mode(keybinds, modes.last());
                assert(os == ro + section(mk.unwrap()));
                assert(os[ro.len() as int] == section(mk.unwrap())[0]);
            }
        }
    }
}

proof fn lemma_other_sections_headers(keybinds: Seq<ModeKeybindsModel>)
    ensures
        forall|i: int|
            0 <= i < keybinds.len() && !preferred_modes().contains(#[trigger] keybinds[i].mode)
                ==> other_sections(keybinds).contains(mode_header(keybinds[i].mode)),
    decreases keybinds.len(),
{
    if keybinds.len() > 0 {
        let rest = keybinds.drop_last();
        lemma_other_sections_headers(rest);
        let os = other_sections(keybinds);
        let ro = other_sections(rest);
        assert forall|i: int|
            0 <= i < keybinds.len() && !preferred_modes().contains(#[trigger] keybinds[i].mode) implies os.contains(
            mode_header(keybinds[i].mode),
        ) by {
            if i < rest.len() {
                assert(rest[i] == keybinds[i]);
                assert(ro.contains(mode_header(keybinds[i].mode)));
                let k = choose|k: int| 0 <= k < ro.len() && ro[k] == mode_header(keybinds[i].mode);
                assert(os[k] == ro[k]);
            } else {
                assert(os[ro.len() as int] == section(keybinds.last())[0]);
            }
        }
    }
}

/// The key-binding reference leaves no mode out: every mode the host lists
/// bindings for has its section header, preferred modes or not.
pub proof fn law_reference_lists_every_mode(keybinds: Seq<ModeKeybindsModel>)
    ensures
        forall|i: int|
            0 <= i < keybinds.len() ==> collected(Some(keybinds)).contains(
                mode_header(#[trigger] keybinds[i].mode),
            ),
{
    lemma_ordered_sections_headers(keybinds, preferred_modes());
    lemma_other_sections_headers(keybinds);
    let os = ordered_sections(keybinds, preferred_modes());
    let ot = other_sections(keybinds);
    assert forall|i: int| 0 <= i < keybinds.len() implies collected(Some(keybinds)).contains(
        mode_header(#[trigger] keybinds[i].mode),
    ) by {
        let m = keybinds[i].mode;
        let h = mode_header(m);
        assert(collected(Some(keybinds)) == os + ot);
        if preferred_modes().contains(m) {
            let j = choose|j: int| 0 <= j < preferred_modes().len() && preferred_modes()[j] == m;
            lemma_first_for_finds(keybinds, m, i);
            assert(first_for(keybinds, preferred_modes()[j]) is Some);
            assert(os.contains(h));
            let k = choose|k: int| 0 <= k < os.len() && os[k] == h;
            assert((os + ot)[k] == h);
        } else {
            assert(ot.contains(h));
            let k = choose|k: int| 0 <= k < ot.len() && ot[k] == h;
            assert((os + ot)[os.len() + k] == h);
        }
    }
}

pub open spec fn min_usize(a: usize, b: usize) -> usize {
    if a < b {
        a
    } else {
        b
    }
}

/// An entry of the reference as a list line: headers coloured over their
/// whole byte length, bindings plain.
pub open spec fn entry_item(e: EntryModel) -> StyledModel {
    match e {
        EntryModel::SectionHeader(t) => StyledModel {
            text: t,
            colorings: seq![Coloring::Range { level: 2, start: 0, end: byte_len(t) }],
            selected: false,
        },
        EntryModel::Binding(t) => plain(t),
    }
}

pub open spec fn title_line() -> Seq<char> {
    " ⌨  Zellij Keybindings"@
}

/// The key-binding view: a title, a rule, the window of the reference that
/// the scroll position (held within the list) selects, and a hint bar.
pub open spec fn keybindings_frame(s: StateModel, scroll: usize, rows: usize, cols: usize) -> Seq<
    ElementModel,
> {
    let title = line_at(
        StyledModel {
            text: title_line(),
            colorings: seq![Coloring::Range { level: 3, start: 0, end: 22 }],
            selected: false,
        },
        0,
        cols,
    );
    let rule = line_at(plain(repeated("─"@, min_usize(cols, 60) as nat)), 1, cols);
    let hint_row = sat_sub(rows, 1);
    let height = sat_sub(hint_row, 2);
    let entries = collected(s.mode_info);
    let max_scroll = sat_sub(entries.len() as usize, height);
    let first = min_usize(scroll, max_scroll);
    let count = if first + height <= entries.len() {
        height as nat
    } else {
        (entries.len() - first) as nat
    };
    let items = Seq::new(count, |j: int| entry_item(entries[first + j]));
    let list = if count > 0 {
        seq![ElementModel::List { items, x: 0, y: 2, width: cols, height }]
    } else {
        Seq::empty()
    };
    seq![title, rule] + list + seq![line_at(plain(" Esc back | Up/Down scroll"@), hint_row, cols)]
}

fn entry_line(e: &KeybindingEntry) -> (t: StyledText)
    ensures
        t@ == entry_item(e@),
{
    match e {
        KeybindingEntry::SectionHeader(header) => {
            let mut c: Vec<Coloring> = Vec::new();
            c.push(Coloring::Range { level: 2, start: 0, end: header.as_str().len() });
            StyledText { text: header.clone(), colorings: c, selected: false }
        },
        KeybindingEntry::Binding(display) => {
            let c: Vec<Coloring> = Vec::new();
            StyledText { text: display.clone(), colorings: c, selected: false }
        },
    }
}

fn render_keybindings(state: &State, scroll: usize, rows: usize, cols: usize) -> (frame: Vec<
    Element,
>)
    ensures
        frame.deep_view() == keybindings_frame(state@, scroll, rows, cols),
{
    let mut frame: Vec<Element> = Vec::new();
    let mut title_colors: Vec<Coloring> = Vec::new();
    title_colors.push(Coloring::Range { level: 3, start: 0, end: 22 });
    frame.push(line_element(" ⌨  Zellij Keybindings".to_string(), title_colors, 0, cols));
    let width = if cols < 60 {
        cols
    } else {
        60
    };
    let no_colors: Vec<Coloring> = Vec::new();
    frame.push(line_element(repeat_str("─", width), no_colors, 1, cols));
    let hint_row = rows.saturating_sub(1);
    let list_start: usize = 2;
    let list_height = hint_row.saturating_sub(list_start);
    let bindings = collect_keybindings(&state.mode_info);
    let ghost bv = bindings.deep_view();
    let max_scroll = bindings.len().saturating_sub(list_height);
    let first = if scroll < max_scroll {
        scroll
    } else {
        max_scroll
    };
    let mut items: Vec<StyledText> = Vec::new();
    let mut i: usize = first;
    while i < bindings.len() && i - first < list_height
        invariant
            first <= i <= bindings.len(),
            bv == bindings.deep_view(),
            i - first <= list_height,
            items.deep_view() =~= Seq::new(
                (i - first) as nat,
                |j: int| entry_item(bv[first + j]),
            ),
        decreases bindings.len() - i,
    {
        let item = entry_line(&bindings[i]);
        let ghost before = items.deep_view();
        items.push(item);
        assert(items.deep_view() =~= before.push(item@));
        i = i + 1;
    }
    if items.len() > 0 {
        frame.push(Element::List { items, x: 0, y: list_start, width: cols, height: list_height });
    }
    frame.push(plain_line(" Esc back | Up/Down scroll", hint_row, cols));
    assert(frame.deep_view() =~= keybindings_frame(state@, scroll, rows, cols));
    frame
}

/// The text prompts: a title, the input with a cursor bar, a note on what an
/// empty name does, and a hint bar on the last row.
pub open spec fn prompt_frame(input: Seq<char>, rename: bool, rows: usize, cols: usize) -> Seq<
    ElementModel,
> {
    let title = if rename {
        " Rename session:"@
    } else {
        " 🆕 New session name:"@
    };
    let note = if rename {
        "   (Empty = keep the current name)"@
    } else {
        "   (Empty = auto-named)"@
    };
    let hint = if rename {
        " Enter rename | Esc back"@
    } else {
        " Enter create | Esc back"@
    };
    seq![
        line_at(plain(title), 0, cols),
        line_at(
            StyledModel {
                text: " > "@ + input + "|"@,
                colorings: seq![Coloring::Range { level: 3, start: 0, end: 2 }],
                selected: false,
            },
            1,
            cols,
        ),
        line_at(plain(note), 2, cols),
        line_at(plain(hint), sat_sub(rows, 1), cols),
    ]
}

fn render_prompt(input: &String, rename: bool, rows: usize, cols: usize) -> (frame: Vec<Element>)
    ensures
        frame.deep_view() == prompt_frame(input@, rename, rows, cols),
{
    let mut frame: Vec<Element> = Vec::new();
    frame.push(
        plain_line(
            if rename {
                " Rename session:"
            } else {
                " 🆕 New session name:"
            },
            0,
            cols,
        ),
    );
    let mut line = " > ".to_string();
    line.append(input.as_str());
    line.append("|");
    let mut colors: Vec<Coloring> = Vec::new();
    colors.push(Coloring::Range { level: 3, start: 0, end: 2 });
    frame.push(line_element(line, colors, 1, cols));
    frame.push(
        plain_line(
            if rename {
                "   (Empty = keep the current name)"
            } else {
                "   (Empty = auto-named)"
            },
            2,
            cols,
        ),
    );
    frame.push(
        plain_line(
            if rename {
                " Enter rename | Esc back"
            } else {
                " Enter create | Esc back"
            },
            rows.saturating_sub(1),
            cols,
        ),
    );
    assert(frame.deep_view() =~= prompt_frame(input@, rename, rows, cols));
    frame
}

/// What the palette shows in a `rows` by `cols` area.
pub open spec fn frame(s: StateModel, rows: usize, cols: usize) -> Seq<ElementModel> {
    match s.view {
        PaletteViewModel::List => list_frame(s, rows, cols),
        PaletteViewModel::Keybindings { scroll } => keybindings_frame(s, scroll, rows, cols),
        PaletteViewModel::NewSessionPrompt { input } => prompt_frame(input, false, rows, cols),
        PaletteViewModel::RenameSessionPrompt { input } => prompt_frame(input, true, rows, cols),
    }
}

/// Lays out the palette for a `rows` by `cols` area; see `frame`.
pub fn render(state: &State, rows: usize, cols: usize) -> (elements: Vec<Element>)
    ensures
        elements.deep_view() == frame(state@, rows, cols),
{
    match &state.view {
        PaletteView::List => render_list(state, rows, cols),
        PaletteView::Keybindings { scroll } => render_keybindings(state, *scroll, rows, cols),
        PaletteView::NewSessionPrompt { input } => render_prompt(input, false, rows, cols),
        PaletteView::RenameSessionPrompt { input } => render_prompt(input, true, rows, cols),
    }
}

} // verus!
