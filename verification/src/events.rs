//! The decisions and texts of the bot's event handlers.
use crate::logger::{component, components_view, style_bold, style_none, Component, LogLevel, Style};
use crate::paint::{bold, bold_painted};
use crate::text::{concat2, concat3, decimal, join, join_spec, parse_u64, parse_u64_spec, strings_view, u64_to_decimal};
use vstd::prelude::*;

verus! {

/// The forum channel whose new threads are suggestions.
pub const SUGGESTIONS_ID: u64 = 1120764782014890032;

/// The gateway events the bot reacts to; every other one is `Other`.
#[derive(Clone, Copy, Debug, PartialEq, Eq, Structural)]
pub enum EventKind {
    Ready,
    ThreadCreate { parent: Option<u64> },
    GuildMemberAddition,
    GuildRoleDelete,
    Other,
}

/// What handles an event.
#[derive(Clone, Copy, Debug, PartialEq, Eq, Structural)]
pub enum Route {
    Ready,
    Suggestion,
    ApplyRole,
    RoleDelete,
    Nothing,
}

/// Which handler an event goes to: a new thread only when it is in the suggestions
/// channel.
pub open spec fn route_spec(e: EventKind) -> Route {
    match e {
        EventKind::Ready => Route::Ready,
        EventKind::ThreadCreate { parent } => if parent == Some(SUGGESTIONS_ID) {
            Route::Suggestion
        } else {
            Route::Nothing
        },
        EventKind::GuildMemberAddition => Route::ApplyRole,
        EventKind::GuildRoleDelete => Route::RoleDelete,
        EventKind::Other => Route::Nothing,
    }
}

/// The handler of an event.
pub fn route_event(e: EventKind) -> (r: Route)
    ensures
        r == route_spec(e),
{
    match e {
        EventKind::Ready => Route::Ready,
        EventKind::ThreadCreate { parent } => match parent {
            Some(p) => if p == SUGGESTIONS_ID { Route::Suggestion } else { Route::Nothing },
            None => Route::Nothing,
        },
        EventKind::GuildMemberAddition => Route::ApplyRole,
        EventKind::GuildRoleDelete => Route::RoleDelete,
        EventKind::Other => Route::Nothing,
    }
}

/// A line to log: its level and its components.
pub struct LogLine {
    pub level: LogLevel,
    pub components: Vec<Component>,
}

/// The views of lines to log.
pub open spec fn log_lines_view(v: Seq<LogLine>) -> Seq<(LogLevel, Seq<(Seq<char>, Style)>)> {
    v.map_values(|l: LogLine| (l.level, components_view(l.components@)))
}

/// The warning logged on a SQLite database when the bot is in many guilds.
pub open spec fn sqlite_warning() -> Seq<char> {
    "You are in over 100 guilds. Perhaps you should swap from sqlite?"@
}

/// What the bot logs once it is ready: the enabled features when there are any, that
/// it is logged in under its name, and, on SQLite with more than 100 guilds, a
/// warning.
pub open spec fn ready_spec(features: Seq<Seq<char>>, name: Seq<char>, sqlite_guilds: Option<nat>) -> Seq<(LogLevel, Seq<(Seq<char>, Style)>)> {
    let f: Seq<(LogLevel, Seq<(Seq<char>, Style)>)> = if features.len() > 0 {
        seq![(LogLevel::Info, seq![("Enabled features: "@, style_bold()), (join_spec(features, ", "@), style_none())])]
    } else {
        seq![]
    };
    let l = seq![(LogLevel::Info, seq![("Logged in as "@, style_none()), (name, style_bold())])];
    let w: Seq<(LogLevel, Seq<(Seq<char>, Style)>)> = match sqlite_guilds {
        Some(n) => if n > 100 {
            seq![(LogLevel::Warn, seq![(sqlite_warning(), style_none())])]
        } else {
            seq![]
        },
        None => seq![],
    };
    f + l + w
}

/// The lines the bot logs once it is ready.
pub fn ready(features: &Vec<String>, name: &str, sqlite_guilds: Option<u64>) -> (v: Vec<LogLine>)
    ensures
        log_lines_view(v@) == ready_spec(
            strings_view(features@),
            name@,
            match sqlite_guilds {
                Some(n) => Some(n as nat),
                None => None,
            },
        ),
{
    let mut v: Vec<LogLine> = Vec::new();
    if features.len() > 0 {
        let joined = join(features, ", ");
        let mut cs: Vec<Component> = Vec::new();
        cs.push(component("Enabled features: ", Style::bold()));
        cs.push(Component { text: joined, style: Style::none() });
        assert(components_view(cs@) =~= seq![("Enabled features: "@, style_bold()), (join_spec(strings_view(features@), ", "@), style_none())]);
        v.push(LogLine { level: LogLevel::Info, components: cs });
    }
    let mut cs: Vec<Component> = Vec::new();
    cs.push(component("Logged in as ", Style::none()));
    cs.push(component(name, Style::bold()));
    assert(components_view(cs@) =~= seq![("Logged in as "@, style_none()), (name@, style_bold())]);
    v.push(LogLine { level: LogLevel::Info, components: cs });
    match sqlite_guilds {
        Some(n) => if n > 100 {
            let mut cs: Vec<Component> = Vec::new();
            cs.push(component("You are in over 100 guilds. Perhaps you should swap from sqlite?", Style::none()));
            assert(components_view(cs@) =~= seq![(sqlite_warning(), style_none())]);
            v.push(LogLine { level: LogLevel::Warn, components: cs });
        },
        None => {},
    }
    assert(log_lines_view(v@) =~= ready_spec(
        strings_view(features@),
        name@,
        match sqlite_guilds {
            Some(n) => Some(n as nat),
            None => None,
        },
    ));
    v
}

/// The message the message logger logs when the bot is ready: "Logged in as " and
/// the name in bold.
pub fn logged_in_message(name: &str) -> (s: String)
    ensures
        s@ == "Logged in as "@ + bold_painted(name@),
{
    let b = bold(name);
    concat2("Logged in as ", b.as_str())
}

/// The message the message logger's warning names the guild count in.
pub fn guild_count_warning(count: u64) -> (s: String)
    ensures
        s@ == "Your server is in "@ + decimal(count as nat)
            + " guilds. Consider migrating from sqlite to either postgres or mysql."@,
{
    let n = u64_to_decimal(count);
    concat3("Your server is in ", n.as_str(), " guilds. Consider migrating from sqlite to either postgres or mysql.")
}

/// The roles given to a new member: none when autorole is off for the guild, the
/// guild's autorole roles otherwise.
pub open spec fn autorole_ids_spec(enabled: bool, role_ids: Seq<Seq<char>>) -> Seq<u64> {
    if enabled {
        Seq::new(role_ids.len(), |i: int| parse_u64_spec(role_ids[i])->Ok_0)
    } else {
        Seq::empty()
    }
}

/// The roles to give a new member, from the guild's setting and its autorole
/// records' role ids (which the bot wrote, so they read as numbers).
pub fn autorole_role_ids(enabled: bool, role_ids: &Vec<String>) -> (v: Vec<u64>)
    requires
        forall|i: int| 0 <= i < role_ids@.len() ==> parse_u64_spec(#[trigger] role_ids@[i]@) is Ok,
    ensures
        v@ == autorole_ids_spec(enabled, strings_view(role_ids@)),
{
    let mut v: Vec<u64> = Vec::new();
    if !enabled {
        assert(v@ =~= autorole_ids_spec(enabled, strings_view(role_ids@)));
        return v;
    }
    let mut i: usize = 0;
    while i < role_ids.len()
        invariant
            enabled,
            i <= role_ids@.len(),
            forall|k: int| 0 <= k < role_ids@.len() ==> parse_u64_spec(#[trigger] role_ids@[k]@) is Ok,
            v@ == autorole_ids_spec(enabled, strings_view(role_ids@)).subrange(0, i as int),
        decreases role_ids.len() - i,
    {
        let r = parse_u64(role_ids[i].as_str());
        assert(parse_u64_spec(role_ids@[i as int]@) is Ok);
        match r {
            Ok(n) => v.push(n),
            Err(_) => v.push(0),
        }
        i = i + 1;
        assert(v@ =~= autorole_ids_spec(enabled, strings_view(role_ids@)).subrange(0, i as int));
    }
    assert(v@ =~= autorole_ids_spec(enabled, strings_view(role_ids@)));
    v
}

/// A joining member gets one role per autorole record of the guild when autorole is
/// on, and none when it is off: for records holding the decimal ids of some roles
/// (as `new_autorole` writes them), the roles given are exactly those roles, in
/// order.
pub proof fn law_every_autorole_given(roles: Seq<u64>)
    ensures
        autorole_ids_spec(true, Seq::new(roles.len(), |i: int| decimal(roles[i] as nat))) == roles,
        autorole_ids_spec(false, Seq::new(roles.len(), |i: int| decimal(roles[i] as nat))).len() == 0,
{
    let ids = Seq::new(roles.len(), |i: int| decimal(roles[i] as nat));
    assert forall|i: int| 0 <= i < roles.len() implies autorole_ids_spec(true, ids)[i] == roles[i] by {
        crate::text::law_parse_decimal(roles[i]);
    }
    assert(autorole_ids_spec(true, ids) =~= roles);
}

/// When autorole is on, a joining member gets as many roles as the guild has
/// autorole records, the i-th being the i-th record's role read as a number.
pub proof fn law_one_role_per_record(role_ids: Seq<Seq<char>>)
    ensures
        autorole_ids_spec(true, role_ids).len() == role_ids.len(),
        forall|i: int| 0 <= i < role_ids.len() ==> parse_u64_spec(#[trigger] role_ids[i]) is Ok
            ==> parse_u64_spec(role_ids[i]) == Ok::<u64, crate::text::NumberError>(autorole_ids_spec(true, role_ids)[i]),
{
}

/// Whether a user has already posted in the usernames channel: one of the earlier
/// messages is theirs.
pub fn has_posted(earlier_authors: &Vec<u64>, author: u64) -> (r: bool)
    ensures
        r == earlier_authors@.contains(author),
{
    let mut i: usize = 0;
    while i < earlier_authors.len()
        invariant
            i <= earlier_authors@.len(),
            forall|j: int| 0 <= j < i ==> earlier_authors@[j] != author,
        decreases earlier_authors.len() - i,
    {
        if earlier_authors[i] == author {
            assert(earlier_authors@[i as int] == author);
            return true;
        }
        i = i + 1;
    }
    false
}

/// The title of the welcome message sent to a new member.
pub const WELCOME_TITLE: &'static str = "Welcome ♡";

/// The reaction put on a welcome message.
pub const WELCOME_REACTION: char = '👋';

/// What is printed when a welcome message could not be sent.
pub fn welcome_failure(tag: &str) -> (s: String)
    ensures
        s@ == "Failed to send welcome message to "@ + tag@,
{
    concat2("Failed to send welcome message to ", tag)
}

} // verus!
