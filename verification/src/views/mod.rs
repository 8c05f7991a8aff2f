//! The first terminal panel: a list of message log entries and a detail screen.
pub mod log;
pub mod main;

use crate::keys::{Flow, Key};
use crate::message_log::Entry;
use vstd::prelude::*;

verus! {

/// The screens of the panel; only the first two are drawn.
#[derive(Clone, Copy, Debug, PartialEq, Eq, Structural)]
pub enum Views {
    Main,
    Log,
    Emitter,
    Guild,
    User,
    GuildMember,
}

/// The state of the panel: the entries received, the selected entry, the selected
/// button of the detail screen, and the screen on show.
pub struct Screen {
    pub logs: Vec<Entry>,
    pub vertical_index: usize,
    pub horizontal_index: usize,
    pub current_view: Views,
}

/// The largest `i32`, below which the panel's list positions are compared.
pub open spec fn position_limit() -> int {
    0x7fff_ffff
}

/// The panel's invariant: the selected positions stay within what the controls can
/// reach.
pub open spec fn screen_wf(s: &Screen) -> bool {
    &&& s.vertical_index <= position_limit()
    &&& s.horizontal_index <= 2
}

impl Screen {
    /// The state the panel starts in: no entries, the first entry and button
    /// selected, the main screen.
    pub fn new() -> (s: Screen)
        ensures
            screen_wf(&s),
            s.logs@.len() == 0,
            s.vertical_index == 0,
            s.horizontal_index == 0,
            s.current_view == Views::Main,
    {
        Screen { logs: Vec::new(), vertical_index: 0, horizontal_index: 0, current_view: Views::Main }
    }

    /// A new entry arrives and is appended; the selection stays.
    pub fn receive(&mut self, entry: Entry)
        ensures
            final(self).logs@ == old(self).logs@.push(entry),
            final(self).vertical_index == old(self).vertical_index,
            final(self).horizontal_index == old(self).horizontal_index,
            final(self).current_view == old(self).current_view,
    {
        self.logs.push(entry);
    }

    /// A key is pressed: `q` or Escape quits and leaves the state as it is; other keys
    /// go to the screen on show, and the screens not drawn ignore them.
    pub fn handle_key(&mut self, key: Key) -> (flow: Flow)
        requires
            screen_wf(old(self)),
            old(self).logs@.len() <= position_limit(),
        ensures
            screen_wf(final(self)),
            (flow == Flow::Quit) == crate::keys::is_quit_key(key),
            crate::keys::is_quit_key(key) ==> final(self).logs@ == old(self).logs@
                && final(self).vertical_index == old(self).vertical_index
                && final(self).horizontal_index == old(self).horizontal_index
                && final(self).current_view == old(self).current_view,
            !crate::keys::is_quit_key(key) ==> match old(self).current_view {
                Views::Main => main::main_key_spec(old(self).logs@, old(self).vertical_index as int, Views::Main, key)
                    == (final(self).logs@, final(self).vertical_index as int, final(self).current_view)
                    && final(self).horizontal_index == old(self).horizontal_index,
                Views::Log => log::log_key_spec(Views::Log, old(self).horizontal_index as int, key) == (
                    final(self).current_view,
                    final(self).horizontal_index as int,
                ) && final(self).logs@ == old(self).logs@ && final(self).vertical_index
                    == old(self).vertical_index,
                _ => final(self).logs@ == old(self).logs@ && final(self).vertical_index
                    == old(self).vertical_index && final(self).horizontal_index
                    == old(self).horizontal_index && final(self).current_view
                    == old(self).current_view,
            },
    {
        if crate::keys::quits(key) {
            return Flow::Quit;
        }
        match self.current_view {
            Views::Main => main::controls(key, &mut self.logs, &mut self.vertical_index, &mut self.current_view),
            Views::Log => log::controls(key, &mut self.current_view, &mut self.horizontal_index),
            _ => {},
        }
        Flow::Continue
    }
}

} // verus!
