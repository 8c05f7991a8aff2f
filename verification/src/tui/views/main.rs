//! The main screen: the list of log entries and the controls hint.
use super::super::helpers::{controls_style, Label};
use super::super::{main_controls_spec, App, Views};
use crate::keys::Key;
use crate::logger::entry::console_line;
use crate::logger::Entry;
use crate::paint::{colours_enabled, TextStyle, Tint};
use crate::text::{owned, push_str};
use vstd::prelude::*;

verus! {

/// The main screen's mode: whether it follows the newest entry, and the mode to
/// restore when the log screen is left.
#[derive(Clone, Copy, Debug, PartialEq, Eq, Structural)]
pub struct MainState {
    pub following: bool,
    pub original_following: Option<bool>,
}

/// What the main screen shows: the split of the screen in percent, the list's
/// title, one line per entry, the selected line and the controls hint.
pub struct MainView {
    pub percentages: Vec<u16>,
    pub title: String,
    pub items: Vec<Label>,
    pub selected: usize,
    pub controls: Label,
}

/// The controls hint of the main screen, which depends on the follow mode.
pub open spec fn main_hint(following: bool) -> Seq<char> {
    "Press c to clear logs, m to switch to "@ + (if following {
        "select"@
    } else {
        "following"@
    }) + " mode,"@ + (if following {
        ""@
    } else {
        " up/down to select,"@
    }) + " enter to view, q to quit"@
}

/// Whether the entry at `i` is drawn highlighted: it was made at the same instant as
/// the selected entry.
pub open spec fn highlighted(logs: Seq<Entry>, index: int, i: int) -> bool {
    0 <= index < logs.len() && logs[i].timestamp.same_instant(logs[index].timestamp)
}

/// The line of the entry at `i`: its console text, on black when highlighted.
pub open spec fn item_of(logs: Seq<Entry>, index: int, i: int, colour: bool) -> (Seq<char>, TextStyle) {
    (
        console_line(logs[i], colour),
        TextStyle { fg: None, bg: if highlighted(logs, index, i) { Some(Tint::Black) } else { None }, bold: false },
    )
}

/// The views of labels: their characters and looks.
pub open spec fn labels_view(v: Seq<Label>) -> Seq<(Seq<char>, TextStyle)> {
    v.map_values(|l: Label| (l.text@, l.style))
}

/// The main screen's reaction to a key: `c` clears the entries, `m` switches between
/// following and selecting, Up and Down move the selection while selecting, Enter
/// opens the log screen.
pub fn controls(key: Key, app: &mut App)
    requires
        old(app).wf(),
        old(app).view == Views::Main,
    ensures
        final(app).wf(),
        final(app).panel() == main_controls_spec(old(app).panel(), key),
        final(app).logs@ == if key == Key::Char('c') {
            Seq::<Entry>::empty()
        } else {
            old(app).logs@
        },
{
    match key {
        Key::Char('c') => {
            app.log_index = 0;
            app.logs.clear();
        },
        Key::Char('m') => {
            app.main.following = !app.main.following;
            if app.main.following {
                app.log_index = if app.logs.len() > 0 { app.logs.len() - 1 } else { 0 };
            }
        },
        Key::Up => {
            if !app.main.following {
                app.log_index = if app.log_index > 0 { app.log_index - 1 } else { 0 };
            }
        },
        Key::Down => {
            let last = if app.logs.len() > 0 { app.logs.len() - 1 } else { 0 };
            if app.log_index < last && !app.main.following {
                app.log_index = app.log_index + 1;
            }
        },
        Key::Enter => {
            app.view = Views::Log;
            app.main.following = false;
            app.log.index = 0;
        },
        _ => {},
    }
}

/// The controls hint of the main screen.
pub fn hint(following: bool) -> (s: String)
    ensures
        s@ == main_hint(following),
{
    let mut s = owned("Press c to clear logs, m to switch to ");
    push_str(&mut s, if following { "select" } else { "following" });
    push_str(&mut s, " mode,");
    push_str(&mut s, if following { "" } else { " up/down to select," });
    push_str(&mut s, " enter to view, q to quit");
    s
}

/// What the main screen shows, with colours when `colour` holds: the entries take
/// the upper nine tenths, the hint the rest.
pub open spec fn main_view_shows(logs: Seq<Entry>, following: bool, index: usize, v: &MainView, colour: bool) -> bool {
    &&& v.percentages@ == seq![90u16, 10u16]
    &&& v.title@ == "Logs"@
    &&& labels_view(v.items@) == Seq::new(logs.len(), |i: int| item_of(logs, index as int, i, colour))
    &&& v.items@.len() == logs.len()
    &&& v.selected == index
    &&& v.controls.text@ == main_hint(following)
    &&& v.controls.style == controls_style()
}

/// The main screen with colours where the terminal supports them.
pub fn draw(logs: &Vec<Entry>, following: bool, index: usize) -> (v: MainView)
    ensures
        main_view_shows(logs@, following, index, &v, true) || main_view_shows(logs@, following, index, &v, false),
{
    draw_with(logs, following, index, colours_enabled())
}

/// The main screen, with colours when `colour` holds.
pub fn draw_with(logs: &Vec<Entry>, following: bool, index: usize, colour: bool) -> (v: MainView)
    ensures
        main_view_shows(logs@, following, index, &v, colour),
{
    let mut items: Vec<Label> = Vec::new();
    let mut i: usize = 0;
    while i < logs.len()
        invariant
            i <= logs@.len(),
            items@.len() == i,
            forall|j: int| 0 <= j < i ==> #[trigger] labels_view(items@)[j] == item_of(logs@, index as int, j, colour),
        decreases logs.len() - i,
    {
        let text = logs[i].render_console(colour);
        let lit = index < logs.len() && logs[i].timestamp.same_instant_as(&logs[index].timestamp);
        let style = if lit { TextStyle::plain().with_bg(Tint::Black) } else { TextStyle::plain() };
        let ghost before = items@;
        assert(lit == highlighted(logs@, index as int, i as int));
        items.push(Label { text, style });
        assert(labels_view(items@)[i as int] == item_of(logs@, index as int, i as int, colour));
        assert forall|j: int| 0 <= j < i + 1 implies #[trigger] labels_view(items@)[j] == item_of(logs@, index as int, j, colour) by {
            if j < i {
                assert(items@[j] == before[j]);
                assert(labels_view(before)[j] == item_of(logs@, index as int, j, colour));
            }
        }
        i = i + 1;
    }
    assert(labels_view(items@) =~= Seq::new(logs@.len(), |i: int| item_of(logs@, index as int, i, colour)));
    let mut percentages: Vec<u16> = Vec::new();
    percentages.push(90);
    percentages.push(10);
    assert(percentages@ =~= seq![90u16, 10u16]);
    MainView {
        percentages,
        title: owned("Logs"),
        items,
        selected: index,
        controls: Label { text: hint(following), style: TextStyle::plain().with_fg(Tint::DarkGray).with_bold() },
    }
}

} // verus!
