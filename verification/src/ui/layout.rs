//! The rows of the screen: padding, the time line, the status bar and the
//! main area, placed as the widget positions say.
use vstd::prelude::*;

use crate::config::schema::{StatusBarConfig, WidgetPosition};
use crate::config::validate::{decimal, decimal_string};
use crate::greeter::Greeter;
use crate::types::Mode;
use crate::ui::sessions::SessionSource;

verus! {

/// The height rule of one row of the screen.
#[derive(Debug, Clone, Copy, PartialEq, Eq, Structural)]
pub enum Row {
    /// Exactly this many lines.
    Length(u16),
    /// At least this many lines, taking what is left.
    Min(u16),
}

/// The rows of the screen and which of them hold the time, the status bar
/// and the main area.
#[derive(Debug, Clone)]
pub struct LayoutPlan {
    pub rows: Vec<Row>,
    pub time_slot: Option<usize>,
    pub status_slot: Option<usize>,
    pub main_slot: usize,
}

/// Whether the time line goes above the main area.
pub open spec fn time_on_top(time: bool, pos: WidgetPosition) -> bool {
    time && (pos == WidgetPosition::Default || pos == WidgetPosition::Top)
}

/// Whether the time line goes below the main area.
pub open spec fn time_below(time: bool, pos: WidgetPosition) -> bool {
    time && pos == WidgetPosition::Bottom
}

/// Whether the status bar goes below the main area.
pub open spec fn status_below(pos: WidgetPosition) -> bool {
    pos == WidgetPosition::Default || pos == WidgetPosition::Bottom
}

/// A one-line row when `b` holds.
pub open spec fn line_if(b: bool) -> Seq<Row> {
    if b {
        seq![Row::Length(1)]
    } else {
        seq![]
    }
}

/// The rows, from the top: padding, the time line when it goes on top, the
/// status bar when it goes on top, the main area, the status bar when it
/// goes below, the time line when it goes below, padding.
pub open spec fn spec_rows(
    time: bool,
    time_pos: WidgetPosition,
    status_pos: WidgetPosition,
    padding: u16,
) -> Seq<Row> {
    seq![Row::Length(padding)] + line_if(time_on_top(time, time_pos)) + line_if(
        status_pos == WidgetPosition::Top,
    ) + seq![Row::Min(1)] + line_if(status_below(status_pos)) + line_if(
        time_below(time, time_pos),
    ) + seq![Row::Length(padding)]
}

/// Rows above the main area.
pub open spec fn rows_above(time: bool, time_pos: WidgetPosition, status_pos: WidgetPosition) -> int {
    (1 + line_if(time_on_top(time, time_pos)).len() + line_if(status_pos == WidgetPosition::Top).len()) as int
}

/// The layout of the screen for the given time switch, widget positions and
/// window padding.
pub fn layout_plan(time: bool, time_pos: WidgetPosition, status_pos: WidgetPosition, padding: u16) -> (r:
    LayoutPlan)
    ensures
        r.rows@ == spec_rows(time, time_pos, status_pos, padding),
        r.main_slot as int == rows_above(time, time_pos, status_pos),
        r.time_slot == if time_on_top(time, time_pos) {
            Some(1usize)
        } else if time_below(time, time_pos) {
            Some((rows_above(time, time_pos, status_pos) + 1 + line_if(status_below(status_pos)).len()) as usize)
        } else {
            None::<usize>
        },
        r.status_slot == if status_pos == WidgetPosition::Top {
            Some((rows_above(time, time_pos, status_pos) - 1) as usize)
        } else if status_below(status_pos) {
            Some((rows_above(time, time_pos, status_pos) + 1) as usize)
        } else {
            None::<usize>
        },
{
    let mut rows: Vec<Row> = Vec::new();
    let mut time_slot: Option<usize> = None;
    let mut status_slot: Option<usize> = None;
    rows.push(Row::Length(padding));
    if time && (time_pos == WidgetPosition::Default || time_pos == WidgetPosition::Top) {
        time_slot = Some(rows.len());
        rows.push(Row::Length(1));
    }
    if status_pos == WidgetPosition::Top {
        status_slot = Some(rows.len());
        rows.push(Row::Length(1));
    }
    let main_slot = rows.len();
    rows.push(Row::Min(1));
    if status_pos == WidgetPosition::Default || status_pos == WidgetPosition::Bottom {
        status_slot = Some(rows.len());
        rows.push(Row::Length(1));
    }
    if time && time_pos == WidgetPosition::Bottom {
        time_slot = Some(rows.len());
        rows.push(Row::Length(1));
    }
    rows.push(Row::Length(padding));
    assert(rows@ =~= spec_rows(time, time_pos, status_pos, padding));
    LayoutPlan { rows, time_slot, status_slot, main_slot }
}

/// Where the configuration places widget `name` (`time` or `status`);
/// the default place without a loaded configuration or for another name.
pub open spec fn spec_widget_position(g: Greeter, name: Seq<char>) -> WidgetPosition {
    match g.loaded_config {
        Some(c) => if name == "time"@ {
            c.layout.widgets.time_position
        } else if name == "status"@ {
            c.layout.widgets.status_position
        } else {
            WidgetPosition::Default
        },
        None => WidgetPosition::Default,
    }
}

/// Where the loaded configuration places widget `name`.
pub fn get_widget_position(g: &Greeter, name: &str) -> (r: WidgetPosition)
    ensures
        r == spec_widget_position(*g, name@),
{
    match &g.loaded_config {
        Some(c) => {
            let v = crate::text::chars_of(name);
            assert(v@.subrange(0, v@.len() as int) =~= v@);
            if crate::text::range_eq(&v, 0, v.len(), "time") {
                c.layout.widgets.time_position
            } else if crate::text::range_eq(&v, 0, v.len(), "status") {
                c.layout.widgets.status_position
            } else {
                WidgetPosition::Default
            }
        },
        None => WidgetPosition::Default,
    }
}

/// A button of the status bar.
#[derive(Debug, Clone, Copy, PartialEq, Eq, Structural)]
pub enum Button {
    Command,
    Session,
    Power,
    Background,
    Other,
}

/// The mode in which a status-bar button is shown pressed; none for a
/// button that never is.
pub open spec fn spec_button_mode(b: Button) -> Option<Mode> {
    match b {
        Button::Command => Some(Mode::Command),
        Button::Session => Some(Mode::Sessions),
        Button::Power => Some(Mode::Power),
        Button::Background => Some(Mode::Background),
        Button::Other => None,
    }
}

/// Whether status-bar button `b` is shown pressed in mode `mode`.
pub fn button_active(mode: Mode, b: Button) -> (r: bool)
    ensures
        r == (spec_button_mode(b) == Some(mode)),
{
    let relevant = match b {
        Button::Command => Mode::Command,
        Button::Session => Mode::Sessions,
        Button::Power => Mode::Power,
        Button::Background => Mode::Background,
        Button::Other => {
            return false;
        },
    };
    mode == relevant
}

/// Widths of the left and right parts of the status bar: the right part
/// holds the caps-lock label (`caps_len` characters) and one column, next to
/// the padding; the left part the rest.
pub fn status_widths(width: u16, padding: u16, caps_len: u16) -> (r: (u16, u16))
    requires
        1 + padding + caps_len <= u16::MAX,
        width >= padding + (1 + padding + caps_len),
    ensures
        r.1 == 1 + padding + caps_len,
        r.0 == width - padding - r.1,
{
    let right = 1 + padding + caps_len;
    ((width - padding) - right, right)
}

/// The translated texts of the status bar.
#[derive(Debug, Clone, Default)]
pub struct StatusLabels {
    /// The reset action.
    pub reset: String,
    /// The command action.
    pub command: String,
    /// The session action.
    pub session: String,
    /// The power action.
    pub power: String,
    /// The background action.
    pub background: String,
    /// The label of a selected session.
    pub status_session: String,
    /// The label of a command.
    pub status_command: String,
    /// The caps-lock notice.
    pub status_caps: String,
}

/// What the status bar shows: on the left, each shown action as its key
/// and its text; on the right, the caps-lock notice when it is on.
#[derive(Debug, Clone)]
pub struct StatusBar {
    pub left: Vec<(String, String)>,
    pub caps: Option<String>,
}

/// The label of F-key `n`.
pub open spec fn key_label(n: u8) -> Seq<char> {
    "F"@ + decimal(n as nat)
}

/// The item `(key, text)` when `shown`, else nothing.
pub open spec fn item_if(shown: bool, key: Seq<char>, text: Seq<char>) -> Seq<(Seq<char>, Seq<char>)> {
    if shown {
        seq![(key, text)]
    } else {
        Seq::empty()
    }
}

/// The text of where the session to launch comes from: the command, or the
/// selected session's name; `-` when there is none.
pub open spec fn source_text(g: Greeter) -> Seq<char> {
    match g.session_source {
        SessionSource::Unselected => "-"@,
        SessionSource::DefaultCommand(c, _) => c@,
        SessionSource::Command(c) => c@,
        SessionSource::Session(i) => if i < g.sessions.options@.len() {
            g.sessions.options@[i as int].name@
        } else {
            "-"@
        },
    }
}

/// The left part of the status bar of `g` with the items `bar` shows, in
/// order: reset (`ESC`), command, session, power and background (each
/// under its F-key), then where the session comes from.
pub open spec fn spec_status_items(g: Greeter, bar: StatusBarConfig, l: StatusLabels) -> Seq<(Seq<char>, Seq<char>)> {
    item_if(bar.show_reset, "ESC"@, l.reset@)
        + item_if(bar.show_command, key_label(g.kb_command), l.command@)
        + item_if(bar.show_session, key_label(g.kb_sessions), l.session@)
        + item_if(bar.show_power, key_label(g.kb_power), l.power@)
        + item_if(bar.show_background, key_label(g.kb_background), l.background@)
        + item_if(
        bar.show_session_status,
        if g.session_source is Session {
            l.status_session@
        } else {
            l.status_command@
        },
        source_text(g),
    )
}

/// The views of status-bar items.
pub open spec fn items_view(v: Seq<(String, String)>) -> Seq<(Seq<char>, Seq<char>)> {
    v.map_values(|e: (String, String)| (e.0@, e.1@))
}

/// The label of F-key `n`.
fn key_text(n: u8) -> (r: String)
    ensures
        r@ == key_label(n),
{
    let mut s = String::from_str("F");
    let d = decimal_string(n as u64);
    s.append(d.as_str());
    s
}

/// Add `(key, text)` to `items` when `shown`.
fn push_item(items: &mut Vec<(String, String)>, shown: bool, key: String, text: &String)
    ensures
        items_view(final(items)@) == items_view(old(items)@) + item_if(shown, key@, text@),
{
    if shown {
        items.push((key, text.clone()));
        assert(items_view(items@) =~= items_view(old(items)@) + item_if(shown, key@, text@));
    } else {
        assert(items_view(old(items)@) + item_if(shown, key@, text@) =~= items_view(old(items)@));
    }
}

/// The text of where the session to launch comes from.
fn source_string(g: &Greeter) -> (r: String)
    ensures
        r@ == source_text(*g),
{
    match &g.session_source {
        SessionSource::Unselected => String::from_str("-"),
        SessionSource::DefaultCommand(c, _) => c.clone(),
        SessionSource::Command(c) => c.clone(),
        SessionSource::Session(i) => if *i < g.sessions.options.len() {
            g.sessions.options[*i].name.clone()
        } else {
            String::from_str("-")
        },
    }
}

/// What the status bar of `g` shows, with the items that `bar` selects and
/// the texts `labels`; `caps_lock` tells whether caps lock is on.
pub fn status_bar_items(g: &Greeter, bar: &StatusBarConfig, labels: &StatusLabels, caps_lock: bool) -> (r: StatusBar)
    ensures
        items_view(r.left@) == spec_status_items(*g, *bar, *labels),
        match r.caps {
            Some(c) => bar.show_caps_lock && caps_lock && c@ == labels.status_caps@,
            None => !(bar.show_caps_lock && caps_lock),
        },
{
    let mut left: Vec<(String, String)> = Vec::new();
    let esc = String::from_str("ESC");
    assert(esc@ == "ESC"@);
    push_item(&mut left, bar.show_reset, esc, &labels.reset);
    assert(items_view(left@) =~= item_if(bar.show_reset, "ESC"@, labels.reset@));
    push_item(&mut left, bar.show_command, key_text(g.kb_command), &labels.command);
    push_item(&mut left, bar.show_session, key_text(g.kb_sessions), &labels.session);
    push_item(&mut left, bar.show_power, key_text(g.kb_power), &labels.power);
    push_item(&mut left, bar.show_background, key_text(g.kb_background), &labels.background);
    let source_label = match g.session_source {
        SessionSource::Session(_) => &labels.status_session,
        _ => &labels.status_command,
    };
    let src = source_string(g);
    push_item(&mut left, bar.show_session_status, source_label.clone(), &src);
    let caps = if bar.show_caps_lock && caps_lock {
        Some(labels.status_caps.clone())
    } else {
        None
    };
    StatusBar { left, caps }
}

/// The format the time line is written with: the greeter's time format,
/// else the locale's date format `locale_default`.
pub fn time_format(g: &Greeter, locale_default: &str) -> (r: String)
    ensures
        r@ == match g.time_format {
            Some(f) => f@,
            None => locale_default@,
        },
{
    match &g.time_format {
        Some(f) => f.clone(),
        None => String::from_str(locale_default),
    }
}

} // verus!
