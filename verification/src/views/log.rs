//! The first panel's detail screen for one entry.
use super::Views;
use crate::keys::Key;
use crate::message_log::{entry_line, level_name, Entry};
use crate::paint::{TextStyle, Tint};
use crate::text::owned;
use crate::tui::helpers::Label;
use crate::tui::views::main::labels_view;
use vstd::prelude::*;

verus! {

/// What the detail screen shows: the split of the screen in percent, the entry's
/// text and title, the width of each button in percent, the buttons and the hint.
pub struct DetailView {
    pub percentages: Vec<u16>,
    pub text: String,
    pub title: String,
    pub button_percent: u16,
    pub buttons: Vec<Label>,
    pub controls: Label,
}

/// The detail screen's reaction to a key, on the screen and the selected button:
/// Backspace returns to the list, Left and Right move between the three buttons;
/// the screen stays otherwise.
pub open spec fn log_key_spec(view: Views, index: int, key: Key) -> (Views, int) {
    match key {
        Key::Backspace => (Views::Main, index),
        Key::Left => (view, if index > 0 { index - 1 } else { index }),
        Key::Right => (view, if index < 2 { index + 1 } else { index }),
        _ => (view, index),
    }
}

/// The look of a button: bold when the entry has what it refers to, dark grey
/// otherwise, on black when it is selected.
pub open spec fn detail_button(text: Seq<char>, available: bool, selected: bool) -> (Seq<char>, TextStyle) {
    (
        text,
        TextStyle {
            fg: if available { None } else { Some(Tint::DarkGray) },
            bg: if selected { Some(Tint::Black) } else { None },
            bold: available,
        },
    )
}

/// The three buttons for an entry: Guild, Member and User.
pub open spec fn detail_buttons(e: Entry, selected: int) -> Seq<(Seq<char>, TextStyle)> {
    seq![
        detail_button("Guild"@, e.guild is Some, selected == 0),
        detail_button("Member"@, e.guild is Some && e.user is Some, selected == 1),
        detail_button("User"@, e.user is Some, selected == 2),
    ]
}

/// The detail screen's reaction to a key.
pub fn controls(key: Key, current_view: &mut Views, selected_index: &mut usize)
    ensures
        log_key_spec(*old(current_view), *old(selected_index) as int, key) == (*final(current_view), *final(selected_index) as int),
{
    match key {
        Key::Backspace => {
            *current_view = Views::Main;
        },
        Key::Left => {
            if *selected_index > 0 {
                *selected_index = *selected_index - 1;
            }
        },
        Key::Right => {
            if *selected_index < 2 {
                *selected_index = *selected_index + 1;
            }
        },
        _ => {},
    }
}

fn button(text: &str, available: bool, selected: bool) -> (l: Label)
    ensures
        (l.text@, l.style) == detail_button(text@, available, selected),
{
    let mut style = TextStyle::plain();
    if available {
        style = style.with_bold();
    } else {
        style = style.with_fg(Tint::DarkGray);
    }
    if selected {
        style = style.with_bg(Tint::Black);
    }
    Label { text: owned(text), style }
}

/// The detail screen for an entry: its text under its level's name in the upper 40
/// percent, three buttons below, and the hint.
pub fn log(entry: &Entry, selected_index: usize) -> (v: DetailView)
    ensures
        v.percentages@ == seq![40u16, 20u16, 20u16],
        v.text@ == entry_line(*entry),
        v.title@ == level_name(entry.level),
        v.button_percent == 33,
        labels_view(v.buttons@) == detail_buttons(*entry, selected_index as int),
        v.controls.text@ == "Press backspace to go back"@,
        v.controls.style == (TextStyle { fg: Some(Tint::DarkGray), bg: None, bold: true }),
{
    let g = entry.guild.is_some();
    let u = entry.user.is_some();
    let mut buttons: Vec<Label> = Vec::new();
    buttons.push(button("Guild", g, selected_index == 0));
    buttons.push(button("Member", g && u, selected_index == 1));
    buttons.push(button("User", u, selected_index == 2));
    assert(labels_view(buttons@) =~= detail_buttons(*entry, selected_index as int));
    let mut percentages: Vec<u16> = Vec::new();
    percentages.push(40);
    percentages.push(20);
    percentages.push(20);
    assert(percentages@ =~= seq![40u16, 20u16, 20u16]);
    let count: u16 = 3;
    DetailView {
        percentages,
        text: entry.to_string(),
        title: entry.level.to_string(),
        button_percent: 100 / count,
        buttons,
        controls: Label {
            text: owned("Press backspace to go back"),
            style: TextStyle::plain().with_fg(Tint::DarkGray).with_bold(),
        },
    }
}

} // verus!
