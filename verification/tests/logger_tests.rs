use johnny::clock::{Timestamp, ENTRY_FORMAT, MESSAGE_FORMAT};
use johnny::logger::entry::{words_coloured_exec, Origin};
use johnny::logger::style::{Colour, Style as LookStyle};
use johnny::logger::{
    command_components, command_location, component, error_components, Entry, Flag, LogLevel,
    Style,
};
use johnny::message_log::{self, parse_booleans_with, Logger};
use johnny::paint::{bold, fg, Tint};

fn epoch() -> Timestamp {
    Timestamp::new(0, 0, 0).unwrap()
}

#[test]
fn timestamps_are_formatted_by_chrono() {
    let t = epoch();
    assert_eq!(t.format(MESSAGE_FORMAT), "1970-01-01 00:00:00");
    assert_eq!(t.format(ENTRY_FORMAT), "01/01/70 12:00:00 AM +00:00");
    assert_eq!(t.display(), "1970-01-01 00:00:00 +00:00");
    let east = Timestamp::new(3600, 0, 3600).unwrap();
    assert_eq!(east.format(MESSAGE_FORMAT), "1970-01-01 02:00:00");
}

#[test]
fn timestamps_outside_chrono_are_refused() {
    assert!(Timestamp::new(0, 1_000_000_000, 0).is_none());
    assert!(Timestamp::new(0, 0, 86_400).is_none());
    assert!(Timestamp::new(i64::MAX, 0, 0).is_none());
    assert!(Timestamp::new(8210266876800, 0, 0).is_none());
    assert!(Timestamp::new(-8334601228801, 0, 0).is_none());
}

#[test]
fn timestamps_at_the_ends_of_chrono_range() {
    let last = Timestamp::new(8210266876799, 0, 0).unwrap();
    assert_eq!(last.format(MESSAGE_FORMAT), "+262142-12-31 23:59:59");
    let first = Timestamp::new(-8334601228800, 0, 0).unwrap();
    assert_eq!(first.format(MESSAGE_FORMAT), "-262143-01-01 00:00:00");
}

#[test]
fn paint_writes_ansi_codes() {
    assert_eq!(fg(Tint::Red, "x"), "\u{1b}[31mx\u{1b}[39m");
    assert_eq!(fg(Tint::Green, "x"), "\u{1b}[32mx\u{1b}[39m");
    assert_eq!(fg(Tint::Yellow, "x"), "\u{1b}[33mx\u{1b}[39m");
    assert_eq!(fg(Tint::Cyan, "x"), "\u{1b}[36mx\u{1b}[39m");
    assert_eq!(bold("x"), "\u{1b}[1mx\u{1b}[0m");
}

#[test]
fn style_flags_have_their_bits() {
    assert_eq!(Style::none().bits(), 0);
    assert_eq!(Style::bold().bits(), 1);
    assert_eq!(Style::red().bits(), 2);
    assert_eq!(Style::green().bits(), 4);
    assert_eq!(Style::yellow().bits(), 8);
    let s = Style::bold().union(Style::yellow());
    assert_eq!(s.bits(), 9);
    assert_eq!(Style::from_bits(9), Some(s));
    assert_eq!(Style::from_bits(16), None);
    assert!(s.contains(Style::bold()));
    assert!(!s.contains(Style::red()));
    assert!(Style::none().is_empty());
    assert_eq!(s.iter(), vec![Flag::Bold, Flag::Yellow]);
}

#[test]
fn look_style_builder() {
    let s = LookStyle::default().colour(Colour::Cyan).bold();
    assert_eq!(s.get_colour(), Some(Colour::Cyan));
    assert!(s.is_bold());
    let t = s.to_text_style();
    assert_eq!(t.fg, Some(Tint::Cyan));
    assert!(t.bold);
    assert_eq!(LookStyle::default().get_colour(), None);
}

#[test]
fn command_components_name_the_place() {
    assert_eq!(command_location(None), "DMs");
    assert_eq!(command_location(Some("newt's server")), "newt's server");
    let cs = command_components("newt", "ping", "DMs");
    let texts: Vec<&str> = cs.iter().map(|c| c.text.as_str()).collect();
    assert_eq!(texts, vec!["newt", " ran ", "ping", " in ", "DMs"]);
    assert_eq!(cs[0].style, Style::red());
    assert_eq!(cs[4].style, Style::green());
    let es = error_components("autorole add", "boom");
    assert_eq!(es[2].text, ": boom");
    assert_eq!(es[1].style, Style::bold());
}

#[test]
fn booleans_are_coloured_word_by_word() {
    assert_eq!(words_coloured_exec("it is true", false), "it is true");
    assert_eq!(words_coloured_exec("it is true", true), "it is \u{1b}[32mtrue\u{1b}[39m");
    assert_eq!(words_coloured_exec("false alarm", true), "\u{1b}[31mfalse\u{1b}[39m alarm");
    // a painted word is recognised once its escape codes are stripped
    assert_eq!(
        words_coloured_exec("\u{1b}[1;31mtrue\u{1b}[0m", true),
        "\u{1b}[32m\u{1b}[1;31mtrue\u{1b}[0m\u{1b}[39m"
    );
    // an escape sequence without its final character is not removed
    assert_eq!(words_coloured_exec("true\u{1b}[3", true), "true\u{1b}[3");
    let painted = bold("true");
    let out = words_coloured_exec(&painted, true);
    assert_eq!(out, format!("\u{1b}[32m{}\u{1b}[39m", painted));
}

#[test]
fn console_line_of_an_entry() {
    let e = Entry::at(LogLevel::Info, vec![component("hello ", Style::none()), component("true", Style::bold())], epoch(), None);
    assert_eq!(e.render_console(false), "01/01/70 12:00:00 AM +00:00 [INFO] hello true");
    assert_eq!(
        e.render_console(true),
        "\u{1b}[36m01/01/70 12:00:00 AM +00:00\u{1b}[39m \u{1b}[1m\u{1b}[32m[INFO]\u{1b}[39m\u{1b}[0m hello \u{1b}[32m\u{1b}[1mtrue\u{1b}[0m\u{1b}[39m"
    );
    let line = e.to_string();
    assert!(line == e.render_console(true) || line == e.render_console(false));
}

#[test]
fn spans_of_an_entry() {
    let e = Entry::at(LogLevel::Warn, vec![component("x", Style::red().union(Style::green()))], epoch(), None);
    let spans = e.spans();
    assert_eq!(spans.len(), 3);
    assert_eq!(spans[0].text, "01/01/70 12:00:00 AM +00:00 ");
    assert_eq!(spans[0].style.fg, Some(Tint::Cyan));
    assert_eq!(spans[1].text, "[WARN] ");
    assert_eq!(spans[1].style.fg, Some(Tint::Yellow));
    assert!(spans[1].style.bold);
    assert_eq!(spans[2].style.fg, Some(Tint::Green));
}

#[test]
fn entries_are_equal_at_the_same_instant() {
    let a = Entry::at(LogLevel::Info, vec![], epoch(), None);
    let b = Entry::at(LogLevel::Error, vec![component("y", Style::none())], Timestamp::new(0, 0, 3600).unwrap(), None);
    let c = Entry::at(LogLevel::Info, vec![], Timestamp::new(1, 0, 0).unwrap(), None);
    assert!(a == b);
    assert!(a != c);
}

#[test]
fn entries_record_their_origin() {
    let o = Origin { guild: Some(5), user: 6, channel: 7 };
    let e = Entry::new(LogLevel::Command, vec![], Some(o));
    assert_eq!((e.guild, e.user, e.channel), (Some(5), Some(6), Some(7)));
    let dm = Entry::new(LogLevel::Command, vec![], Some(Origin { guild: None, user: 6, channel: 7 }));
    assert_eq!(dm.guild, None);
    assert_eq!(LogLevel::Command.to_string(), "COMMAND");
}

#[test]
fn message_log_colours_booleans() {
    assert_eq!(parse_booleans_with("true false", false), "true false");
    assert_eq!(
        parse_booleans_with("that is true", true),
        "that is \u{1b}[32mtrue\u{1b}[39m"
    );
    assert_eq!(
        parse_booleans_with("untrue", true),
        "un\u{1b}[32mtrue\u{1b}[39m"
    );
}

#[test]
fn message_log_entries() {
    let e = Logger::entry_at(message_log::LogLevel::Info, "ok", Some((Some(1), 2)), epoch(), false);
    assert_eq!(e.to_string(), "1970-01-01 00:00:00 [INFO] ok");
    assert_eq!((e.guild, e.user), (Some(1), Some(2)));
    assert_eq!(Logger::command_message("newt", "ping", "DMs", true), "newt ran ping in DMs");
    assert_eq!(Logger::command_message("newt", "ping", "DMs", false), "newt ran ping");
    assert_eq!(message_log::LogLevel::Event.to_string(), "EVENT");
}
