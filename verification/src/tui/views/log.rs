//! The log screen: one entry in full, buttons for what it refers to, and the
//! controls hint.
use super::super::helpers::{controls_style, generate_button, generate_controls, Label};
use super::super::{log_controls_spec, App, Views};
use crate::keys::Key;
use crate::logger::entry::console_line;
use crate::logger::level::level_name;
use crate::paint::{colours_enabled, TextStyle, Tint};
use vstd::prelude::*;

verus! {

/// The log screen's selected button.
#[derive(Clone, Copy, Debug, PartialEq, Eq, Structural)]
pub struct State {
    pub index: u8,
}

impl Default for State {
    fn default() -> (s: State)
        ensures
            s.index == 0,
    {
        State { index: 0 }
    }
}

/// A button of the log screen and the slot of the button row it is drawn in.
pub struct Button {
    pub label: Label,
    pub slot: u8,
}

/// What the log screen shows: the split of the screen in percent, the entry's text
/// and title, the number of button slots and the width of each in percent, the
/// buttons, the controls hint and the part of the screen it is drawn in.
pub struct LogView {
    pub percentages: Vec<u16>,
    pub text: String,
    pub title: String,
    pub slots: u16,
    pub slot_percent: u16,
    pub buttons: Vec<Button>,
    pub controls: Label,
    pub controls_chunk: u8,
}

/// The text and look of a button.
pub open spec fn button_look(text: Seq<char>, selected: bool) -> (Seq<char>, TextStyle) {
    if selected {
        ("["@ + text + "]"@, TextStyle { fg: Some(Tint::Green), bg: None, bold: false })
    } else {
        (text, TextStyle { fg: None, bg: None, bold: false })
    }
}

/// The buttons of an entry, each with its slot, for the selected button `sel`:
/// Guild when the entry has a guild, Member when it has a guild and a user, User
/// when it has a user, Channel when it has a channel. User and Channel share the
/// slot after Member's.
pub open spec fn entry_buttons(g: bool, u: bool, c: bool, sel: int) -> Seq<(Seq<char>, TextStyle, int)> {
    let guild = if g { seq![(button_look("Guild"@, sel == 0).0, button_look("Guild"@, sel == 0).1, 0int)] } else { seq![] };
    let i1: int = if g { 1 } else { 0 };
    let member = if g && u { seq![(button_look("Member"@, sel == i1).0, button_look("Member"@, sel == i1).1, i1)] } else { seq![] };
    let i2: int = if g && u { i1 + 1 } else { i1 };
    let user = if u { seq![(button_look("User"@, sel == i2).0, button_look("User"@, sel == i2).1, i2)] } else { seq![] };
    let channel = if c { seq![(button_look("Channel"@, sel == i2).0, button_look("Channel"@, sel == i2).1, i2)] } else { seq![] };
    guild + member + user + channel
}

/// The views of buttons: text, look and slot.
pub open spec fn buttons_view(v: Seq<Button>) -> Seq<(Seq<char>, TextStyle, int)> {
    v.map_values(|b: Button| (b.label.text@, b.label.style, b.slot as int))
}

/// The number of button slots: one each for guild, user, member and channel.
pub open spec fn slot_count(g: bool, u: bool, c: bool) -> int {
    (if g { 1int } else { 0 }) + (if u { 1int } else { 0 }) + (if g && u { 1int } else { 0 }) + (if c { 1int } else { 0 })
}

/// The log screen's reaction to a key: Backspace returns to the main screen and
/// restores its follow mode, Left and Right move between the buttons of the selected
/// entry.
pub fn controls(key: Key, app: &mut App)
    requires
        old(app).wf(),
        old(app).view == Views::Log,
        !(key == Key::Right && old(app).logs@.len() == 0),
    ensures
        final(app).wf(),
        final(app).panel() == log_controls_spec(old(app).panel(), key, old(app).selected_buttons()),
        final(app).logs@ == old(app).logs@,
{
    match key {
        Key::Backspace => {
            app.view = Views::Main;
            match app.main.original_following {
                Some(f) => {
                    app.main.following = f;
                    app.main.original_following = None;
                },
                None => {},
            }
        },
        Key::Left => {
            if app.log.index > 0 {
                app.log.index = app.log.index - 1;
            }
        },
        Key::Right => {
            let n = app.buttons();
            let last: u8 = if n > 0 { n - 1 } else { 0 };
            if app.log.index < last {
                app.log.index = app.log.index + 1;
            }
        },
        _ => {},
    }
}

fn push_button(v: &mut Vec<Button>, text: &str, selected: bool, slot: u8)
    ensures
        buttons_view(final(v)@) == buttons_view(old(v)@).push(
            (button_look(text@, selected).0, button_look(text@, selected).1, slot as int),
        ),
{
    let ghost before = v@;
    let label = generate_button(text, selected);
    v.push(Button { label, slot });
    assert(buttons_view(v@) =~= buttons_view(before).push(
        (button_look(text@, selected).0, button_look(text@, selected).1, slot as int),
    ));
}

/// What the log screen shows for the selected entry, with colours when `colour`
/// holds: the entry's console text under its level's name, then, when it has a
/// guild, user or channel, a row of buttons, then the controls hint.
pub open spec fn log_view_shows(app: &App, v: &LogView, colour: bool) -> bool {
    let e = app.logs@[app.log_index as int];
    let g = e.guild is Some;
    let u = e.user is Some;
    let c = e.channel is Some;
    let any = g || u || c;
    &&& v.percentages@ == if any { seq![50u16, 40u16, 10u16] } else { seq![60u16, 40u16] }
    &&& v.text@ == console_line(e, colour)
    &&& v.title@ == level_name(e.level)
    &&& v.slots == if any { slot_count(g, u, c) } else { 0 }
    &&& (any ==> v.slot_percent == 100int / slot_count(g, u, c))
    &&& (!any ==> v.slot_percent == 0)
    &&& buttons_view(v.buttons@) == if any {
        entry_buttons(g, u, c, app.log.index as int)
    } else {
        Seq::empty()
    }
    &&& v.controls.text@ == "Press backspace to return to the main view, q to quit"@
    &&& v.controls.style == controls_style()
    &&& v.controls_chunk == if any { 2u8 } else { 1u8 }
}

/// The log screen for the selected entry with colours where the terminal supports
/// them.
pub fn draw(app: &App) -> (v: LogView)
    requires
        app.log_index < app.logs@.len(),
    ensures
        log_view_shows(app, &v, true) || log_view_shows(app, &v, false),
{
    draw_with(app, colours_enabled())
}

/// The log screen for the selected entry, with colours when `colour` holds.
pub fn draw_with(app: &App, colour: bool) -> (v: LogView)
    requires
        app.log_index < app.logs@.len(),
    ensures
        log_view_shows(app, &v, colour),
{
    let e = &app.logs[app.log_index];
    let g = e.guild.is_some();
    let u = e.user.is_some();
    let c = e.channel.is_some();
    let any = g || u || c;
    let mut percentages: Vec<u16> = Vec::new();
    if any {
        percentages.push(50);
        percentages.push(40);
        percentages.push(10);
        assert(percentages@ =~= seq![50u16, 40u16, 10u16]);
    } else {
        percentages.push(60);
        percentages.push(40);
        assert(percentages@ =~= seq![60u16, 40u16]);
    }
    let text = e.render_console(colour);
    let title = e.level.to_string();
    let mut buttons: Vec<Button> = Vec::new();
    let mut slot_percent: u16 = 0;
    let mut slots: u16 = 0;
    if any {
        let count: u16 = (if g { 1u16 } else { 0 }) + (if u { 1u16 } else { 0 }) + (if g && u { 1u16 } else { 0 }) + (if c { 1u16 } else { 0 });
        slot_percent = 100 / count;
        slots = count;
        let sel = app.log.index;
        let mut slot: u8 = 0;
        if g {
            push_button(&mut buttons, "Guild", sel == slot, slot);
            slot = slot + 1;
        }
        if g && u {
            push_button(&mut buttons, "Member", sel == slot, slot);
            slot = slot + 1;
        }
        if u {
            push_button(&mut buttons, "User", sel == slot, slot);
        }
        if c {
            push_button(&mut buttons, "Channel", sel == slot, slot);
        }
        proof {
            reveal_strlit("Guild");
            reveal_strlit("Member");
            reveal_strlit("User");
            reveal_strlit("Channel");
        }
        assert(buttons_view(buttons@) =~= entry_buttons(g, u, c, sel as int));
    }
    let controls = generate_controls("Press backspace to return to the main view");
    proof {
        reveal_strlit("Press backspace to return to the main view");
        reveal_strlit(", q to quit");
        reveal_strlit("Press backspace to return to the main view, q to quit");
    }
    assert(controls.text@ =~= "Press backspace to return to the main view, q to quit"@);
    let v = LogView {
        percentages,
        text,
        title,
        slots,
        slot_percent,
        buttons,
        controls,
        controls_chunk: if any { 2 } else { 1 },
    };
    assert(v.percentages@ == if any { seq![50u16, 40u16, 10u16] } else { seq![60u16, 40u16] });
    assert(v.text@ == console_line(app.logs@[app.log_index as int], colour));
    assert(v.title@ == level_name(app.logs@[app.log_index as int].level));
    assert(any ==> v.slot_percent == 100int / slot_count(g, u, c));
    assert(buttons_view(v.buttons@) == if any { entry_buttons(g, u, c, app.log.index as int) } else { Seq::empty() });
    v
}

} // verus!
