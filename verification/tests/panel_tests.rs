use johnny::clock::Timestamp;
use johnny::control_panel::{logs_view, ControlPanel, PanelStep};
use johnny::keys::{Flow, Key};
use johnny::logger::entry::Origin;
use johnny::logger::{component, Entry, LogLevel, Style};
use johnny::message_log;
use johnny::paint::Tint;
use johnny::tui::helpers::{generate_button, generate_controls};
use johnny::tui::views::log::{draw_with as draw_log, State};
use johnny::tui::views::main::{draw_with as draw_main, hint};
use johnny::tui::{App, Views};
use johnny::views::{Screen, Views as OldViews};

fn at(secs: i64) -> Timestamp {
    Timestamp::new(secs, 0, 0).unwrap()
}

fn entry(secs: i64, origin: Option<Origin>) -> Entry {
    Entry::at(LogLevel::Info, vec![component("hi", Style::none())], at(secs), origin)
}

fn message(secs: i64, level: message_log::LogLevel) -> message_log::Entry {
    message_log::Entry { timestamp: at(secs), level, message: "m".to_string(), guild: None, user: None }
}

#[test]
fn controls_and_buttons() {
    let c = generate_controls("Press backspace to return to the main view");
    assert_eq!(c.text, "Press backspace to return to the main view, q to quit");
    assert_eq!(c.style.fg, Some(Tint::DarkGray));
    assert!(c.style.bold);
    let on = generate_button("Guild", true);
    assert_eq!(on.text, "[Guild]");
    assert_eq!(on.style.fg, Some(Tint::Green));
    let off = generate_button("Guild", false);
    assert_eq!(off.text, "Guild");
    assert_eq!(off.style.fg, None);
}

#[test]
fn following_selects_the_newest_entry() {
    let mut app = App::new();
    app.receive(entry(1, None));
    app.receive(entry(2, None));
    assert_eq!(app.log_index, 1);
    assert_eq!(app.handle_key(Key::Up), Flow::Continue);
    assert_eq!(app.log_index, 1);
    // switch to select mode: the selection stays, Up moves it
    app.handle_key(Key::Char('m'));
    assert!(!app.main.following);
    app.handle_key(Key::Up);
    assert_eq!(app.log_index, 0);
    app.receive(entry(3, None));
    assert_eq!(app.log_index, 0);
    app.handle_key(Key::Down);
    app.handle_key(Key::Down);
    app.handle_key(Key::Down);
    assert_eq!(app.log_index, 2);
    // back to following: the newest entry is selected again
    app.handle_key(Key::Char('m'));
    assert!(app.main.following);
    assert_eq!(app.log_index, 2);
}

#[test]
fn toggling_follow_twice_restores_the_mode() {
    let mut app = App::new();
    app.receive(entry(1, None));
    app.receive(entry(2, None));
    app.handle_key(Key::Char('m'));
    app.handle_key(Key::Char('m'));
    assert!(app.main.following);
    assert_eq!(app.log_index, 1);
}

#[test]
fn clearing_empties_and_resets() {
    let mut app = App::new();
    app.receive(entry(1, None));
    app.receive(entry(2, None));
    app.handle_key(Key::Char('c'));
    assert!(app.logs.is_empty());
    assert_eq!(app.log_index, 0);
}

#[test]
fn quitting_keeps_the_state() {
    let mut app = App::new();
    app.receive(entry(1, None));
    assert_eq!(app.handle_key(Key::Char('q')), Flow::Quit);
    assert_eq!(app.handle_key(Key::Esc), Flow::Quit);
    assert_eq!(app.logs.len(), 1);
    assert_eq!(app.view, Views::Main);
}

#[test]
fn opening_and_leaving_an_entry() {
    let mut app = App::new();
    app.receive(entry(1, Some(Origin { guild: Some(9), user: 8, channel: 7 })));
    app.handle_key(Key::Enter);
    assert_eq!(app.view, Views::Log);
    assert!(!app.main.following);
    assert_eq!(app.buttons(), 3);
    app.handle_key(Key::Right);
    app.handle_key(Key::Right);
    app.handle_key(Key::Right);
    assert_eq!(app.log.index, 2);
    app.handle_key(Key::Left);
    assert_eq!(app.log.index, 1);
    app.handle_key(Key::Backspace);
    assert_eq!(app.view, Views::Main);
    assert!(!app.main.following);
    assert_eq!(app.log_index, 0);
}

#[test]
fn main_screen_draws_every_entry() {
    let logs = vec![entry(1, None), entry(2, None)];
    let v = draw_main(&logs, false, 1, false);
    assert_eq!(v.percentages, vec![90, 10]);
    assert_eq!(v.title, "Logs");
    assert_eq!(v.items.len(), 2);
    assert_eq!(v.items[0].text, logs[0].render_console(false));
    assert_eq!(v.items[0].style.bg, None);
    assert_eq!(v.items[1].style.bg, Some(Tint::Black));
    assert_eq!(
        v.controls.text,
        "Press c to clear logs, m to switch to following mode, up/down to select, enter to view, q to quit"
    );
    assert_eq!(hint(true), "Press c to clear logs, m to switch to select mode, enter to view, q to quit");
}

#[test]
fn log_screen_draws_the_buttons() {
    let mut app = App::new();
    app.receive(entry(1, Some(Origin { guild: Some(9), user: 8, channel: 7 })));
    let v = draw_log(&app, false);
    assert_eq!(v.percentages, vec![50, 40, 10]);
    assert_eq!(v.title, "INFO");
    assert_eq!(v.slot_percent, 25);
    let texts: Vec<&str> = v.buttons.iter().map(|b| b.label.text.as_str()).collect();
    assert_eq!(texts, vec!["[Guild]", "Member", "User", "Channel"]);
    let slots: Vec<u8> = v.buttons.iter().map(|b| b.slot).collect();
    assert_eq!(slots, vec![0, 1, 2, 2]);
    assert_eq!(v.controls_chunk, 2);

    let mut bare = App::new();
    bare.receive(entry(1, None));
    let w = draw_log(&bare, false);
    assert_eq!(w.percentages, vec![60, 40]);
    assert!(w.buttons.is_empty());
    assert_eq!(w.controls_chunk, 1);
    assert_eq!(w.controls.text, "Press backspace to return to the main view, q to quit");
    assert_eq!(State::default().index, 0);
}

#[test]
fn first_panel_moves_within_the_entries() {
    let mut s = Screen::new();
    s.receive(message(1, message_log::LogLevel::Info));
    s.receive(message(2, message_log::LogLevel::Command));
    s.handle_key(Key::Down);
    s.handle_key(Key::Down);
    assert_eq!(s.vertical_index, 1);
    s.handle_key(Key::Enter);
    assert_eq!(s.current_view, OldViews::Log);
    s.handle_key(Key::Right);
    s.handle_key(Key::Right);
    s.handle_key(Key::Right);
    assert_eq!(s.horizontal_index, 2);
    s.handle_key(Key::Backspace);
    assert_eq!(s.current_view, OldViews::Main);
    s.handle_key(Key::Char('c'));
    assert!(s.logs.is_empty());
    assert_eq!(s.vertical_index, 1);
    s.handle_key(Key::Enter);
    assert_eq!(s.current_view, OldViews::Main);
    assert_eq!(s.handle_key(Key::Esc), Flow::Quit);
}

#[test]
fn first_panel_screens() {
    let logs = vec![message(0, message_log::LogLevel::Info), message(1, message_log::LogLevel::Event)];
    let v = johnny::views::main::main(&logs, 0);
    assert_eq!(v.percentages, vec![85, 15]);
    assert_eq!(v.items[0].text, "1970-01-01 00:00:00 [INFO] m");
    assert_eq!(v.items[0].style.fg, Some(Tint::Gray));
    assert_eq!(v.items[0].style.bg, Some(Tint::Black));
    assert_eq!(v.items[1].style.fg, Some(Tint::DarkGray));
    assert_eq!(v.items[1].style.bg, None);
    assert_eq!(v.controls.text, "Press c to clear logs, q to quit");

    let mut e = message(0, message_log::LogLevel::Command);
    e.guild = Some(1);
    let d = johnny::views::log::log(&e, 2);
    assert_eq!(d.title, "COMMAND");
    assert_eq!(d.button_percent, 33);
    assert!(d.buttons[0].style.bold);
    assert_eq!(d.buttons[1].style.fg, Some(Tint::DarkGray));
    assert_eq!(d.buttons[2].style.bg, Some(Tint::Black));
    assert_eq!(d.controls.text, "Press backspace to go back");
}

#[test]
fn oldest_panel() {
    let mut p = ControlPanel::new();
    p.receive(message(0, message_log::LogLevel::Info));
    p.receive(message(1, message_log::LogLevel::Command));
    assert_eq!(p.handle_key(Key::Down), PanelStep::Continue);
    assert_eq!(p.selected_index, 1);
    p.handle_key(Key::Down);
    assert_eq!(p.selected_index, 1);
    p.handle_key(Key::Up);
    p.handle_key(Key::Up);
    assert_eq!(p.selected_index, 0);
    let v = logs_view(&p.logs, p.selected());
    assert_eq!(v.percentages, vec![30, 70]);
    assert_eq!(v.controls.text, "Press c to clear logs\nPress q to quit");
    assert_eq!(v.items[0].text, "1970-01-01 00:00:00 +00:00 [INFO] m");
    assert_eq!(v.items[0].style.bg, Some(Tint::Black));
    assert_eq!(v.items[1].style.fg, Some(Tint::DarkGray));
    assert_eq!(p.handle_key(Key::Esc), PanelStep::Continue);
    assert_eq!(p.handle_key(Key::Char('q')), PanelStep::Exit);
    p.handle_key(Key::Char('c'));
    assert!(p.logs.is_empty());
    assert!(p.selected().is_none());
}

#[test]
fn entries_arrive_in_order() {
    let mut app = App::new();
    for s in 1..=5 {
        app.receive(entry(s, None));
        assert_eq!(app.log_index, app.logs.len() - 1);
    }
    let secs: Vec<i64> = app.logs.iter().map(|e| e.timestamp.secs()).collect();
    assert_eq!(secs, vec![1, 2, 3, 4, 5]);
    app.handle_key(Key::Char('m'));
    app.receive(entry(6, None));
    assert_eq!(app.log_index, 4);
}

#[test]
fn first_panel_controls_keep_other_screens() {
    let mut view = OldViews::Guild;
    let mut index: usize = 7;
    johnny::views::log::controls(Key::Left, &mut view, &mut index);
    assert_eq!((view, index), (OldViews::Guild, 6));
    johnny::views::log::controls(Key::Right, &mut view, &mut index);
    assert_eq!(index, 6);
    johnny::views::log::controls(Key::Backspace, &mut view, &mut index);
    assert_eq!(view, OldViews::Main);
    let mut logs = vec![message(1, message_log::LogLevel::Info)];
    let mut sel: usize = 0;
    let mut v = OldViews::User;
    johnny::views::main::controls(Key::Down, &mut logs, &mut sel, &mut v);
    assert_eq!((sel, v), (0, OldViews::User));
    johnny::views::main::controls(Key::Enter, &mut logs, &mut sel, &mut v);
    assert_eq!(v, OldViews::Log);
}
