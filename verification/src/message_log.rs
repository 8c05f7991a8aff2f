//! A logger whose entries carry one message string, with booleans in the message
//! colour-coded, and whose entries travel to the terminal panel over a channel.
use crate::clock::{chrono_format, local_now, Timestamp, MESSAGE_FORMAT};
use crate::paint::{colours_enabled, fg_if, fg_when, Tint};
use crate::text::{concat2, owned, push_str, replace, replace_all};
use tokio::sync::mpsc::Sender;
use vstd::prelude::*;
use vstd::std_specs::cmp::PartialEqSpecImpl;

verus! {

/// The sending half of a tokio channel.
#[verifier::external_type_specification]
#[verifier::external_body]
#[verifier::reject_recursive_types(T)]
pub struct ExTokioSender<T>(tokio::sync::mpsc::Sender<T>);

/// The receiving half of a tokio channel.
#[verifier::external_type_specification]
#[verifier::external_body]
#[verifier::reject_recursive_types(T)]
pub struct ExTokioReceiver<T>(tokio::sync::mpsc::Receiver<T>);

/// The most entries the channel behind a sender buffers: the capacity it was made
/// with, which tokio's `Sender::max_capacity` reports.
pub uninterp spec fn channel_capacity(s: Sender<Entry>) -> nat;

/// The entries waiting in the channel behind a receiver, oldest first, when the
/// receiver is handed out.
pub uninterp spec fn channel_entries(r: tokio::sync::mpsc::Receiver<Entry>) -> Seq<Entry>;

/// Whether a sender and a receiver are the two ends of one channel, so that what is
/// sent on the first is received on the second, in the order it was sent.
pub uninterp spec fn same_channel(s: Sender<Entry>, r: tokio::sync::mpsc::Receiver<Entry>) -> bool;

/// The largest capacity tokio accepts for a bounded channel
/// (`Semaphore::MAX_PERMITS`, `usize::MAX >> 3`).
pub open spec fn max_channel_capacity() -> int {
    usize::MAX as int / 8
}

/// A bounded channel of log entries.
///
/// Trusted: `tokio::sync::mpsc::channel(capacity)`, which panics on a capacity of 0
/// or above `Semaphore::MAX_PERMITS` (both left out by `requires`). tokio documents
/// that the channel buffers up to `capacity` messages (what `max_capacity` reports)
/// and a new channel holds none, and that the two halves it returns are the ends of
/// that one channel.
#[verifier::external_body]
pub(crate) fn bounded_channel(capacity: usize) -> (r: (Sender<Entry>, tokio::sync::mpsc::Receiver<Entry>))
    requires
        0 < capacity <= max_channel_capacity(),
    ensures
        channel_capacity(r.0) == capacity,
        channel_entries(r.1) == Seq::<Entry>::empty(),
        same_channel(r.0, r.1),
{
    tokio::sync::mpsc::channel(capacity)
}

/// How important a message log entry is.
#[derive(Debug, Clone, Copy, PartialEq, Eq, Structural)]
pub enum LogLevel {
    Info,
    Command,
    Event,
}

/// The name of a level as the log shows it.
pub open spec fn level_name(l: LogLevel) -> Seq<char> {
    match l {
        LogLevel::Info => "INFO"@,
        LogLevel::Command => "COMMAND"@,
        LogLevel::Event => "EVENT"@,
    }
}

impl LogLevel {
    /// The level's name: `INFO`, `COMMAND` or `EVENT`.
    pub fn to_string(&self) -> (s: String)
        ensures
            s@ == level_name(*self),
    {
        match self {
            LogLevel::Info => owned("INFO"),
            LogLevel::Command => owned("COMMAND"),
            LogLevel::Event => owned("EVENT"),
        }
    }
}

/// The message with every "true" replaced by "true" painted green and then every
/// "false" by "false" painted red, the paint applied only when colouring is on.
pub open spec fn booleans_coloured(message: Seq<char>, colour: bool) -> Seq<char> {
    replace_all(
        replace_all(message, "true"@, fg_if(colour, Tint::Green, "true"@)),
        "false"@,
        fg_if(colour, Tint::Red, "false"@),
    )
}

proof fn lemma_replace_same(s: Seq<char>, p: Seq<char>)
    ensures
        replace_all(s, p, p) == s,
    decreases s.len(),
{
    if p.len() == 0 || s.len() < p.len() {
    } else if s.subrange(0, p.len() as int) == p {
        lemma_replace_same(s.subrange(p.len() as int, s.len() as int), p);
        assert(p + s.subrange(p.len() as int, s.len() as int) =~= s);
    } else {
        lemma_replace_same(s.subrange(1, s.len() as int), p);
        assert(seq![s[0]] + s.subrange(1, s.len() as int) =~= s);
    }
}

/// Without colours, colour-coding the booleans of a message leaves it as it is.
pub proof fn law_booleans_uncoloured(message: Seq<char>)
    ensures
        booleans_coloured(message, false) == message,
{
    lemma_replace_same(message, "true"@);
    lemma_replace_same(message, "false"@);
}

/// Colour-codes the booleans of a message for a given colouring decision.
pub fn parse_booleans_with(message: &str, colour: bool) -> (r: String)
    ensures
        r@ == booleans_coloured(message@, colour),
{
    proof {
        reveal_strlit("true");
        reveal_strlit("false");
    }
    let green = fg_when(colour, Tint::Green, "true");
    let once = replace(message, "true", green.as_str());
    let red = fg_when(colour, Tint::Red, "false");
    replace(once.as_str(), "false", red.as_str())
}

/// Colour-codes the booleans of a message, painting when the terminal supports
/// colours.
pub fn parse_booleans(message: &str) -> (r: String)
    ensures
        r@ == booleans_coloured(message@, true) || r@ == booleans_coloured(message@, false),
{
    parse_booleans_with(message, colours_enabled())
}

/// One message log entry.
#[derive(Debug, Clone)]
pub struct Entry {
    pub timestamp: Timestamp,
    pub level: LogLevel,
    pub message: String,
    pub guild: Option<u64>,
    pub user: Option<u64>,
}

impl PartialEq for Entry {
    fn eq(&self, other: &Self) -> (r: bool) {
        self.timestamp.same_instant_as(&other.timestamp)
    }
}

impl PartialEqSpecImpl for Entry {
    open spec fn obeys_eq_spec() -> bool {
        true
    }

    /// Two entries are equal when they were made at the same instant.
    open spec fn eq_spec(&self, other: &Self) -> bool {
        self.timestamp.same_instant(other.timestamp)
    }
}

/// An entry as the panel shows it: "<date time> [<LEVEL>] <message>".
pub open spec fn entry_line(e: Entry) -> Seq<char> {
    chrono_format(
        e.timestamp.secs_spec(),
        e.timestamp.nanos_spec(),
        e.timestamp.offset_spec(),
        MESSAGE_FORMAT@,
    ) + " "@ + ("["@ + level_name(e.level) + "]"@) + " "@ + e.message@
}

impl Entry {
    /// The entry as one line of text.
    pub fn to_string(&self) -> (s: String)
        ensures
            s@ == entry_line(*self),
    {
        let mut s = self.timestamp.format(MESSAGE_FORMAT);
        push_str(&mut s, " ");
        let name = self.level.to_string();
        let mut level = owned("[");
        push_str(&mut level, name.as_str());
        push_str(&mut level, "]");
        push_str(&mut s, level.as_str());
        push_str(&mut s, " ");
        push_str(&mut s, self.message.as_str());
        s
    }
}

/// The text logged when a command has run: "<author> ran <command>", followed by
/// " in <place>" when the place is told.
pub open spec fn command_message_spec(author: Seq<char>, command: Seq<char>, place: Option<
    Seq<char>,
>) -> Seq<char> {
    match place {
        Some(p) => author + " ran "@ + command + " in "@ + p,
        None => author + " ran "@ + command,
    }
}

/// The guild and user an entry records for a command context.
pub open spec fn context_parts(ctx: Option<(Option<u64>, u64)>) -> (Option<u64>, Option<u64>) {
    match ctx {
        Some((g, u)) => (g, Some(u)),
        None => (None, None),
    }
}

/// A logger that hands its entries to the terminal panel.
pub struct Logger {
    sender: Sender<Entry>,
}

impl Logger {
    /// The channel the logger sends over.
    pub closed spec fn channel(&self) -> Sender<Entry> {
        self.sender
    }

    /// A logger sending over the given channel.
    pub fn new(sender: Sender<Entry>) -> (l: Logger)
        ensures
            l.channel() == sender,
    {
        Logger { sender }
    }

    /// The channel the entries go over.
    pub fn sender(&self) -> (s: &Sender<Entry>)
        ensures
            *s == self.channel(),
    {
        &self.sender
    }

    /// The entry for a message at a given instant: the message with its booleans
    /// colour-coded for the decision `colour`, and the guild and author of the
    /// command context when there is one.
    pub fn entry_at(
        level: LogLevel,
        message: &str,
        ctx: Option<(Option<u64>, u64)>,
        timestamp: Timestamp,
        colour: bool,
    ) -> (e: Entry)
        ensures
            e.level == level,
            e.message@ == booleans_coloured(message@, colour),
            e.timestamp == timestamp,
            (e.guild, e.user) == context_parts(ctx),
    {
        let message = parse_booleans_with(message, colour);
        let (guild, user) = match ctx {
            Some((g, u)) => (g, Some(u)),
            None => (None, None),
        };
        Entry { level, message, timestamp, guild, user }
    }

    /// The entry that `log` sends: stamped now, booleans coloured when the terminal
    /// supports colours.
    pub fn entry(&self, level: LogLevel, message: &str, ctx: Option<(Option<u64>, u64)>) -> (e: Entry)
        ensures
            e.level == level,
            e.message@ == booleans_coloured(message@, true) || e.message@ == booleans_coloured(
                message@,
                false,
            ),
            (e.guild, e.user) == context_parts(ctx),
    {
        Logger::entry_at(level, message, ctx, local_now(), colours_enabled())
    }

    /// The entry that `info` sends.
    pub fn info(&self, message: &str, ctx: Option<(Option<u64>, u64)>) -> (e: Entry)
        ensures
            e.level == LogLevel::Info,
            e.message@ == booleans_coloured(message@, true) || e.message@ == booleans_coloured(
                message@,
                false,
            ),
            (e.guild, e.user) == context_parts(ctx),
    {
        self.entry(LogLevel::Info, message, ctx)
    }

    /// The message that `command` logs: with the command's place when the bot is
    /// built without the johnny feature (`with_place`), without it otherwise.
    pub fn command_message(author: &str, command: &str, place: &str, with_place: bool) -> (s: String)
        ensures
            s@ == command_message_spec(
                author@,
                command@,
                if with_place {
                    Some(place@)
                } else {
                    None
                },
            ),
    {
        let mut s = concat2(author, " ran ");
        push_str(&mut s, command);
        if with_place {
            push_str(&mut s, " in ");
            push_str(&mut s, place);
        }
        s
    }

    /// The entry that `command` sends for a command context.
    pub fn command(&self, author: &str, command: &str, place: &str, with_place: bool, ctx: (
        Option<u64>,
        u64,
    )) -> (e: Entry)
        ensures
            e.level == LogLevel::Command,
            e.message@ == booleans_coloured(
                command_message_spec(
                    author@,
                    command@,
                    if with_place {
                        Some(place@)
                    } else {
                        None
                    },
                ),
                true,
            ) || e.message@ == booleans_coloured(
                command_message_spec(
                    author@,
                    command@,
                    if with_place {
                        Some(place@)
                    } else {
                        None
                    },
                ),
                false,
            ),
            (e.guild, e.user) == context_parts(Some(ctx)),
    {
        let m = Logger::command_message(author, command, place, with_place);
        self.entry(LogLevel::Command, m.as_str(), Some(ctx))
    }
}

} // verus!
