//! The oldest terminal panel: a list of message log entries beside the controls.
use crate::keys::Key;
use crate::message_log::{level_name, Entry, LogLevel};
use crate::paint::{TextStyle, Tint};
use crate::text::{owned, push_str};
use crate::tui::helpers::Label;
use crate::tui::views::main::labels_view;
use crate::views::main::level_fg;
use crate::clock::chrono_display;
use vstd::prelude::*;

verus! {

/// What the panel does after a key: go on, or quit and signal the bot to stop.
#[derive(Clone, Copy, Debug, PartialEq, Eq, Structural)]
pub enum PanelStep {
    Continue,
    Exit,
}

/// The state of the panel: the entries received and the selected position.
pub struct ControlPanel {
    pub logs: Vec<Entry>,
    pub selected_index: usize,
}

/// What the panel shows: the split of the screen in percent, the controls box and
/// its title, the list's title, one line per entry and the highlight symbol.
pub struct LogsView {
    pub percentages: Vec<u16>,
    pub controls_title: String,
    pub controls: Label,
    pub title: String,
    pub items: Vec<Label>,
    pub highlight_symbol: String,
}

/// The panel's reaction to a key other than `q`, on the entries and the selected
/// position: `c` clears the entries (the position stays), Up and Down move the
/// position within the entries.
pub open spec fn panel_key_spec(logs: Seq<Entry>, index: int, key: Key) -> (Seq<Entry>, int) {
    match key {
        Key::Char('c') => (Seq::empty(), index),
        Key::Up => (logs, if index > 0 { index - 1 } else { index }),
        Key::Down => (logs, if index < logs.len() - 1 { index + 1 } else { index }),
        _ => (logs, index),
    }
}

/// An entry as the panel lists it: "<date-time> [<LEVEL>] <message>", the date-time
/// as chrono displays it.
pub open spec fn panel_line(e: Entry) -> Seq<char> {
    chrono_display(e.timestamp.secs_spec(), e.timestamp.nanos_spec(), e.timestamp.offset_spec())
        + " ["@ + level_name(e.level) + "] "@ + e.message@
}

/// The line of the entry at `i`: its text in its level's colour, on black when it was
/// made at the same instant as the selected entry.
pub open spec fn panel_item(logs: Seq<Entry>, selected: Option<Entry>, i: int) -> (Seq<char>, TextStyle) {
    (
        panel_line(logs[i]),
        TextStyle {
            fg: Some(level_fg(logs[i].level)),
            bg: match selected {
                Some(s) => if logs[i].timestamp.same_instant(s.timestamp) { Some(Tint::Black) } else { None },
                None => None,
            },
            bold: false,
        },
    )
}

impl ControlPanel {
    /// The state the panel starts in: no entries, the first position.
    pub fn new() -> (p: ControlPanel)
        ensures
            p.logs@.len() == 0,
            p.selected_index == 0,
    {
        ControlPanel { logs: Vec::new(), selected_index: 0 }
    }

    /// A new entry arrives and is appended.
    pub fn receive(&mut self, entry: Entry)
        ensures
            final(self).logs@ == old(self).logs@.push(entry),
            final(self).selected_index == old(self).selected_index,
    {
        self.logs.push(entry);
    }

    /// The entry at the selected position, when there is one.
    pub fn selected(&self) -> (e: Option<&Entry>)
        ensures
            match e {
                Some(x) => self.selected_index < self.logs@.len() && *x == self.logs@[self.selected_index as int],
                None => self.selected_index >= self.logs@.len(),
            },
    {
        if self.selected_index < self.logs.len() {
            Some(&self.logs[self.selected_index])
        } else {
            None
        }
    }

    /// A key is pressed: `q` asks to exit and leaves the state as it is; other keys
    /// act on the entries and the selected position.
    pub fn handle_key(&mut self, key: Key) -> (step: PanelStep)
        requires
            old(self).logs@.len() <= 0x7fff_ffff,
            old(self).selected_index <= 0x7fff_ffff,
        ensures
            (step == PanelStep::Exit) == (key == Key::Char('q')),
            key == Key::Char('q') ==> final(self).logs@ == old(self).logs@
                && final(self).selected_index == old(self).selected_index,
            key != Key::Char('q') ==> panel_key_spec(old(self).logs@, old(self).selected_index as int, key)
                == (final(self).logs@, final(self).selected_index as int),
            final(self).selected_index <= 0x7fff_ffff,
    {
        match key {
            Key::Char('q') => {
                return PanelStep::Exit;
            },
            Key::Char('c') => self.logs.clear(),
            Key::Up => {
                if self.selected_index > 0 {
                    self.selected_index = self.selected_index - 1;
                }
            },
            Key::Down => {
                let log_count = self.logs.len() as i32;
                if (self.selected_index as i32) < log_count - 1 {
                    self.selected_index = self.selected_index + 1;
                }
            },
            _ => {},
        }
        PanelStep::Continue
    }
}

fn panel_line_exec(e: &Entry) -> (s: String)
    ensures
        s@ == panel_line(*e),
{
    let mut s = e.timestamp.display();
    push_str(&mut s, " [");
    let name = e.level.to_string();
    push_str(&mut s, name.as_str());
    push_str(&mut s, "] ");
    push_str(&mut s, e.message.as_str());
    s
}

/// The panel: the controls in the left 30 percent, the entries in the rest.
pub fn logs_view(logs: &Vec<Entry>, selected_log: Option<&Entry>) -> (v: LogsView)
    ensures
        v.percentages@ == seq![30u16, 70u16],
        v.controls_title@ == "Controls"@,
        v.controls.text@ == "Press c to clear logs\nPress q to quit"@,
        v.controls.style == (TextStyle { fg: Some(Tint::DarkGray), bg: None, bold: true }),
        v.title@ == "Logs"@,
        labels_view(v.items@) == Seq::new(
            logs@.len(),
            |i: int| panel_item(logs@, match selected_log { Some(s) => Some(*s), None => None }, i),
        ),
        v.highlight_symbol@ == ">>"@,
{
    let ghost sel: Option<Entry> = match selected_log { Some(s) => Some(*s), None => None };
    let mut items: Vec<Label> = Vec::new();
    let mut i: usize = 0;
    while i < logs.len()
        invariant
            i <= logs@.len(),
            items@.len() == i,
            sel == match selected_log { Some(s) => Some(*s), None => None },
            forall|j: int| 0 <= j < i ==> #[trigger] labels_view(items@)[j] == panel_item(logs@, sel, j),
        decreases logs.len() - i,
    {
        let e = &logs[i];
        let lit = match selected_log {
            Some(s) => e.timestamp.same_instant_as(&s.timestamp),
            None => false,
        };
        let fg = match e.level {
            LogLevel::Info => Tint::Gray,
            _ => Tint::DarkGray,
        };
        let mut style = TextStyle::plain().with_fg(fg);
        if lit {
            style = style.with_bg(Tint::Black);
        }
        let ghost before = items@;
        items.push(Label { text: panel_line_exec(e), style });
        assert(labels_view(items@)[i as int] == panel_item(logs@, sel, i as int));
        assert forall|j: int| 0 <= j < i + 1 implies #[trigger] labels_view(items@)[j] == panel_item(logs@, sel, j) by {
            if j < i {
                assert(items@[j] == before[j]);
                assert(labels_view(before)[j] == panel_item(logs@, sel, j));
            }
        }
        i = i + 1;
    }
    assert(labels_view(items@) =~= Seq::new(logs@.len(), |i: int| panel_item(logs@, sel, i)));
    let mut percentages: Vec<u16> = Vec::new();
    percentages.push(30);
    percentages.push(70);
    assert(percentages@ =~= seq![30u16, 70u16]);
    LogsView {
        percentages,
        controls_title: owned("Controls"),
        controls: Label {
            text: owned("Press c to clear logs\nPress q to quit"),
            style: TextStyle::plain().with_fg(Tint::DarkGray).with_bold(),
        },
        title: owned("Logs"),
        items,
        highlight_symbol: owned(">>"),
    }
}

} // verus!
