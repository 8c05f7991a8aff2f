//! The terminal control panel: its state, how it reacts to new log entries and to
//! keys, and what it draws.
pub mod helpers;
pub mod views;

use crate::keys::{is_quit_key, quits, Flow, Key};
use crate::logger::Entry;
use views::log::State;
use views::main::MainState;
use vstd::prelude::*;

verus! {

/// The screens of the panel.
#[derive(Clone, Copy, Debug, PartialEq, Eq, Structural)]
pub enum Views {
    Main,
    Log,
}

/// The state of the panel: the entries received, the selected entry, the screen,
/// the main screen's follow mode and the log screen's selected button.
pub struct App {
    pub logs: Vec<Entry>,
    pub log_index: usize,
    pub view: Views,
    pub main: MainState,
    pub log: State,
}

/// The scalar part of the panel's state.
pub struct Panel {
    pub len: nat,
    pub log_index: int,
    pub view: Views,
    pub following: bool,
    pub original_following: Option<bool>,
    pub index: int,
}

/// `n - 1`, or `0` when `n` is `0` (`saturating_sub(1)`).
pub open spec fn sat_dec(n: int) -> int {
    if n > 0 {
        n - 1
    } else {
        0
    }
}

/// The number of buttons the log screen offers for an entry: one for its guild,
/// one for its member (guild and user both known) and one for its user.
pub open spec fn button_count(e: Entry) -> int {
    (if e.guild is Some { 1int } else { 0 }) + (if e.guild is Some && e.user is Some {
        1int
    } else {
        0
    }) + (if e.user is Some { 1int } else { 0 })
}

/// What the main screen does with a key.
pub open spec fn main_controls_spec(p: Panel, k: Key) -> Panel {
    match k {
        Key::Char('c') => Panel { len: 0, log_index: 0, ..p },
        Key::Char('m') => {
            let f = !p.following;
            Panel { following: f, log_index: if f { sat_dec(p.len as int) } else { p.log_index }, ..p }
        },
        Key::Up => if !p.following {
            Panel { log_index: sat_dec(p.log_index), ..p }
        } else {
            p
        },
        Key::Down => if p.log_index < sat_dec(p.len as int) && !p.following {
            Panel { log_index: p.log_index + 1, ..p }
        } else {
            p
        },
        Key::Enter => Panel { view: Views::Log, following: false, index: 0, ..p },
        _ => p,
    }
}

/// What the log screen does with a key, for an entry with `buttons` buttons.
pub open spec fn log_controls_spec(p: Panel, k: Key, buttons: int) -> Panel {
    match k {
        Key::Backspace => match p.original_following {
            Some(f) => Panel { view: Views::Main, following: f, original_following: None, ..p },
            None => Panel { view: Views::Main, ..p },
        },
        Key::Left => if p.index > 0 {
            Panel { index: p.index - 1, ..p }
        } else {
            p
        },
        Key::Right => if p.index < sat_dec(buttons) {
            Panel { index: p.index + 1, ..p }
        } else {
            p
        },
        _ => p,
    }
}

/// What the panel does with a key that does not quit it.
pub open spec fn key_spec(p: Panel, k: Key, buttons: int) -> Panel {
    match p.view {
        Views::Main => main_controls_spec(p, k),
        Views::Log => log_controls_spec(p, k, buttons),
    }
}

/// The entries and the selection after a new entry arrives: it is appended, and in
/// follow mode it is selected.
pub open spec fn receive_spec(logs: Seq<Entry>, index: int, following: bool, e: Entry) -> (Seq<Entry>, int) {
    (logs.push(e), if following { logs.len() as int } else { index })
}

/// The entries and the selection after new entries arrive one after the other.
pub open spec fn receive_run(logs: Seq<Entry>, index: int, following: bool, es: Seq<Entry>) -> (Seq<Entry>, int)
    decreases es.len(),
{
    if es.len() == 0 {
        (logs, index)
    } else {
        let before = receive_run(logs, index, following, es.drop_last());
        receive_spec(before.0, before.1, following, es.last())
    }
}

impl App {
    /// The scalar part of the state.
    pub open spec fn panel(&self) -> Panel {
        Panel {
            len: self.logs@.len(),
            log_index: self.log_index as int,
            view: self.view,
            following: self.main.following,
            original_following: self.main.original_following,
            index: self.log.index as int,
        }
    }

    /// The buttons of the selected entry, when there is one.
    pub open spec fn selected_buttons(&self) -> int {
        if self.log_index < self.logs@.len() {
            button_count(self.logs@[self.log_index as int])
        } else {
            0
        }
    }

    /// The panel's invariant: the selection stays within the entries (at 0 when there
    /// are none), follow mode keeps the newest entry selected, the log screen is never
    /// in follow mode and its button selection stays within the selected entry's
    /// buttons.
    pub open spec fn wf(&self) -> bool {
        let len = self.logs@.len();
        &&& (len == 0 ==> self.log_index == 0)
        &&& (len > 0 ==> self.log_index < len)
        &&& (self.main.following ==> self.log_index == sat_dec(len as int))
        &&& self.main.original_following is None
        &&& (self.view == Views::Log ==> !self.main.following)
        &&& (self.view == Views::Log && len == 0 ==> self.log.index == 0)
        &&& (self.view == Views::Log && len > 0 ==> self.log.index <= sat_dec(
            self.selected_buttons(),
        ))
    }

    /// The state the panel starts in: no entries, the main screen, follow mode.
    pub fn new() -> (a: App)
        ensures
            a.wf(),
            a.logs@.len() == 0,
            a.log_index == 0,
            a.view == Views::Main,
            a.main.following,
            a.log.index == 0,
    {
        App {
            logs: Vec::new(),
            log_index: 0,
            view: Views::Main,
            main: MainState { following: true, original_following: None },
            log: State { index: 0 },
        }
    }

    /// A new entry arrives: it is appended, and in follow mode it becomes the
    /// selected one.
    pub fn receive(&mut self, entry: Entry)
        requires
            old(self).wf(),
        ensures
            final(self).wf(),
            final(self).logs@ == old(self).logs@.push(entry),
            final(self).log_index == if old(self).main.following {
                old(self).logs@.len() as int
            } else {
                old(self).log_index as int
            },
            (final(self).logs@, final(self).log_index as int) == receive_spec(
                old(self).logs@,
                old(self).log_index as int,
                old(self).main.following,
                entry,
            ),
            final(self).view == old(self).view,
            final(self).main == old(self).main,
            final(self).log == old(self).log,
    {
        self.logs.push(entry);
        if self.main.following {
            self.log_index = self.logs.len() - 1;
        }
        assert(self.logs@[self.log_index as int] == old(self).logs@.push(entry)[self.log_index as int]);
    }

    /// The number of buttons the log screen shows for the selected entry.
    pub fn buttons(&self) -> (n: u8)
        requires
            self.log_index < self.logs@.len(),
        ensures
            n == self.selected_buttons(),
    {
        let e = &self.logs[self.log_index];
        let mut n: u8 = 0;
        if e.guild.is_some() {
            n = n + 1;
        }
        if e.guild.is_some() && e.user.is_some() {
            n = n + 1;
        }
        if e.user.is_some() {
            n = n + 1;
        }
        n
    }

    /// A key is pressed: `q` or Escape quits and leaves the state as it is; other keys
    /// go to the screen on show.
    pub fn handle_key(&mut self, key: Key) -> (flow: Flow)
        requires
            old(self).wf(),
            !(old(self).view == Views::Log && key == Key::Right && old(self).logs@.len() == 0),
        ensures
            final(self).wf(),
            (flow == Flow::Quit) == is_quit_key(key),
            is_quit_key(key) ==> final(self).panel() == old(self).panel() && final(self).logs@
                == old(self).logs@,
            !is_quit_key(key) ==> final(self).panel() == key_spec(
                old(self).panel(),
                key,
                old(self).selected_buttons(),
            ),
            !is_quit_key(key) ==> final(self).logs@ == if old(self).view == Views::Main && key
                == Key::Char('c') {
                Seq::<Entry>::empty()
            } else {
                old(self).logs@
            },
    {
        if quits(key) {
            return Flow::Quit;
        }
        match self.view {
            Views::Main => views::main::controls(key, self),
            Views::Log => views::log::controls(key, self),
        }
        Flow::Continue
    }
}

/// Switching follow mode twice leaves the follow mode as it was; when the panel was
/// following, and so selected the newest entry, the whole state is as it was.
pub proof fn law_follow_toggle_twice(p: Panel)
    requires
        p.following ==> p.log_index == sat_dec(p.len as int),
    ensures
        main_controls_spec(main_controls_spec(p, Key::Char('m')), Key::Char('m')).following
            == p.following,
        p.following ==> main_controls_spec(main_controls_spec(p, Key::Char('m')), Key::Char('m'))
            == p,
{
}

/// Entries that arrive one after the other are all kept, in the order they arrived;
/// in follow mode the newest is selected, otherwise the selection stays.
pub proof fn law_receive_run(logs: Seq<Entry>, index: int, following: bool, es: Seq<Entry>)
    ensures
        receive_run(logs, index, following, es).0 == logs + es,
        following && es.len() > 0 ==> receive_run(logs, index, following, es).1 == logs.len() + es.len()
            - 1,
        !following ==> receive_run(logs, index, following, es).1 == index,
    decreases es.len(),
{
    if es.len() == 0 {
        assert(logs + es =~= logs);
    } else {
        law_receive_run(logs, index, following, es.drop_last());
        assert(logs + es.drop_last() + seq![es.last()] =~= logs + es);
        assert((logs + es.drop_last()).push(es.last()) =~= logs + es);
    }
}

/// On the main screen every key keeps the selection on an existing entry, and on
/// the first slot when there are none.
pub proof fn law_selection_within_entries(p: Panel, k: Key)
    requires
        0 <= p.log_index <= sat_dec(p.len as int),
    ensures
        0 <= main_controls_spec(p, k).log_index <= sat_dec(main_controls_spec(p, k).len as int),
{
}

/// Out of follow mode, Up selects the entry just above (staying on the first one) and
/// Down the entry just below (staying on the last one); in follow mode neither moves
/// the selection. Nothing else changes.
pub proof fn law_up_down_move_one(p: Panel)
    ensures
        !p.following ==> main_controls_spec(p, Key::Up).log_index == if p.log_index > 0 {
            p.log_index - 1
        } else {
            0
        },
        !p.following && p.log_index + 1 < p.len ==> main_controls_spec(p, Key::Down).log_index
            == p.log_index + 1,
        !p.following && 0 <= p.log_index && p.log_index + 1 >= p.len ==> main_controls_spec(p, Key::Down).log_index
            == p.log_index,
        p.following ==> main_controls_spec(p, Key::Up) == p && main_controls_spec(p, Key::Down) == p,
        main_controls_spec(p, Key::Up).len == p.len && main_controls_spec(p, Key::Up).view == p.view
            && main_controls_spec(p, Key::Up).following == p.following,
{
}

/// Clearing the logs on the main screen empties them and selects the first slot.
pub proof fn law_clear_resets_selection(p: Panel)
    ensures
        main_controls_spec(p, Key::Char('c')).len == 0,
        main_controls_spec(p, Key::Char('c')).log_index == 0,
{
}

/// Opening an entry and going back leaves the main screen out of follow mode, with
/// the same entry selected.
pub proof fn law_open_then_back(p: Panel, buttons: int)
    requires
        p.view == Views::Main,
        p.original_following is None,
    ensures
        ({
            let q = log_controls_spec(main_controls_spec(p, Key::Enter), Key::Backspace, buttons);
            q.view == Views::Main && !q.following && q.log_index == p.log_index && q.len == p.len
        }),
{
}

} // verus!
