//! The first panel's list of entries.
use super::Views;
use crate::keys::Key;
use crate::message_log::{entry_line, Entry, LogLevel};
use crate::paint::{TextStyle, Tint};
use crate::text::owned;
use crate::tui::helpers::Label;
use crate::tui::views::main::labels_view;
use vstd::prelude::*;

verus! {

/// What the list screen shows: the split of the screen in percent, the list's title,
/// one line per entry, the highlight symbol and the controls hint.
pub struct ListView {
    pub percentages: Vec<u16>,
    pub title: String,
    pub items: Vec<Label>,
    pub highlight_symbol: String,
    pub controls: Label,
}

/// The list screen's reaction to a key, on the entries, the selected position and
/// the screen: `c` clears the entries (the position stays), Up and Down move the
/// position within the entries, Enter opens the detail screen when there are
/// entries; the screen stays otherwise.
pub open spec fn main_key_spec(logs: Seq<Entry>, index: int, view: Views, key: Key) -> (Seq<Entry>, int, Views) {
    match key {
        Key::Char('c') => (Seq::empty(), index, view),
        Key::Up => (logs, if index > 0 { index - 1 } else { 0 }, view),
        Key::Down => (logs, if index < logs.len() - 1 { index + 1 } else { index }, view),
        Key::Enter => (logs, index, if logs.len() > 0 { Views::Log } else { view }),
        _ => (logs, index, view),
    }
}

/// The foreground of an entry's line: grey for information, dark grey otherwise.
pub open spec fn level_fg(l: LogLevel) -> Tint {
    match l {
        LogLevel::Info => Tint::Gray,
        _ => Tint::DarkGray,
    }
}

/// The line of the entry at `i`: its text in its level's colour, on black when it was
/// made at the same instant as the selected entry.
pub open spec fn list_item(logs: Seq<Entry>, index: int, i: int) -> (Seq<char>, TextStyle) {
    (
        entry_line(logs[i]),
        TextStyle {
            fg: Some(level_fg(logs[i].level)),
            bg: if 0 <= index < logs.len() && logs[i].timestamp.same_instant(logs[index].timestamp) {
                Some(Tint::Black)
            } else {
                None
            },
            bold: false,
        },
    )
}

/// The list screen's reaction to a key.
pub fn controls(key: Key, logs: &mut Vec<Entry>, selected_index: &mut usize, current_view: &mut Views)
    requires
        old(logs)@.len() <= super::position_limit(),
        *old(selected_index) <= super::position_limit(),
    ensures
        main_key_spec(old(logs)@, *old(selected_index) as int, *old(current_view), key) == (
            final(logs)@,
            *final(selected_index) as int,
            *final(current_view),
        ),
        *final(selected_index) <= super::position_limit(),
{
    match key {
        Key::Char('c') => logs.clear(),
        Key::Up => {
            *selected_index = if *selected_index > 0 { *selected_index - 1 } else { 0 };
        },
        Key::Down => {
            let item_count = logs.len() as i32;
            if (*selected_index as i32) < item_count - 1 {
                *selected_index = *selected_index + 1;
            }
        },
        Key::Enter => {
            if logs.len() > 0 {
                *current_view = Views::Log;
            }
        },
        _ => {},
    }
}

fn level_fg_exec(l: &LogLevel) -> (t: Tint)
    ensures
        t == level_fg(*l),
{
    match l {
        LogLevel::Info => Tint::Gray,
        _ => Tint::DarkGray,
    }
}

/// The list screen: the entries in the upper 85 percent, the hint below.
pub fn main(logs: &Vec<Entry>, selected_index: usize) -> (v: ListView)
    ensures
        v.percentages@ == seq![85u16, 15u16],
        v.title@ == "Logs"@,
        labels_view(v.items@) == Seq::new(logs@.len(), |i: int| list_item(logs@, selected_index as int, i)),
        v.highlight_symbol@ == ">>"@,
        v.controls.text@ == "Press c to clear logs, q to quit"@,
        v.controls.style == (TextStyle { fg: Some(Tint::DarkGray), bg: None, bold: true }),
{
    let mut items: Vec<Label> = Vec::new();
    let mut i: usize = 0;
    while i < logs.len()
        invariant
            i <= logs@.len(),
            items@.len() == i,
            forall|j: int| 0 <= j < i ==> #[trigger] labels_view(items@)[j] == list_item(logs@, selected_index as int, j),
        decreases logs.len() - i,
    {
        let e = &logs[i];
        let lit = selected_index < logs.len() && e.timestamp.same_instant_as(&logs[selected_index].timestamp);
        let mut style = TextStyle::plain().with_fg(level_fg_exec(&e.level));
        if lit {
            style = style.with_bg(Tint::Black);
        }
        let ghost before = items@;
        items.push(Label { text: e.to_string(), style });
        assert(labels_view(items@)[i as int] == list_item(logs@, selected_index as int, i as int));
        assert forall|j: int| 0 <= j < i + 1 implies #[trigger] labels_view(items@)[j] == list_item(logs@, selected_index as int, j) by {
            if j < i {
                assert(items@[j] == before[j]);
                assert(labels_view(before)[j] == list_item(logs@, selected_index as int, j));
            }
        }
        i = i + 1;
    }
    assert(labels_view(items@) =~= Seq::new(logs@.len(), |i: int| list_item(logs@, selected_index as int, i)));
    let mut percentages: Vec<u16> = Vec::new();
    percentages.push(85);
    percentages.push(15);
    assert(percentages@ =~= seq![85u16, 15u16]);
    ListView {
        percentages,
        title: owned("Logs"),
        items,
        highlight_symbol: owned(">>"),
        controls: Label {
            text: owned("Press c to clear logs, q to quit"),
            style: TextStyle::plain().with_fg(Tint::DarkGray).with_bold(),
        },
    }
}

} // verus!
