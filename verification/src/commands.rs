//! The decisions and texts of the bot's commands.
use crate::embed::{colour_value, generate_guild_embed, AuthorInfo, Colours, Embed};
use crate::text::{concat2, concat3, decimal, i64_to_decimal, owned, push_str, signed_decimal, starts_with, str_eq, u64_to_decimal};
use rand::seq::SliceRandom;
use vstd::prelude::*;

verus! {

// ---------------------------------------------------------------------------
// ping / meow
// ---------------------------------------------------------------------------

/// The round trip of a command in milliseconds: when the reply was made minus when
/// the command was.
pub fn ping_ms(reply_ms: i64, created_ms: i64) -> (p: i64)
    requires
        i64::MIN <= reply_ms - created_ms <= i64::MAX,
    ensures
        p == reply_ms - created_ms,
{
    reply_ms - created_ms
}

/// The title of the ping reply once the round trip is known.
pub open spec fn ping_title_spec(ms: i64) -> Seq<char> {
    "meow! ("@ + signed_decimal(ms as int) + " ms)"@
}

/// The title of the ping reply once the round trip is known: "meow! (<ms> ms)".
pub fn ping_title(ms: i64) -> (s: String)
    ensures
        s@ == ping_title_spec(ms),
{
    let n = i64_to_decimal(ms);
    concat3("meow! (", n.as_str(), " ms)")
}

// ---------------------------------------------------------------------------
// the autorole settings message
// ---------------------------------------------------------------------------

/// The look of a message button.
#[derive(Clone, Copy, Debug, PartialEq, Eq, Structural)]
pub enum ButtonKind {
    Success,
    Danger,
}

/// A message button: its id, emoji, label and look.
#[derive(Clone, Debug)]
pub struct ButtonSpec {
    pub custom_id: String,
    pub emoji: String,
    pub label: String,
    pub kind: ButtonKind,
}

/// The id of a guild's autorole toggle button.
pub open spec fn button_id_spec(guild_id: u64) -> Seq<char> {
    "autorole-"@ + decimal(guild_id as nat)
}

/// The id of a guild's autorole toggle button: "autorole-<guild id>".
pub fn button_id(guild_id: u64) -> (s: String)
    ensures
        s@ == button_id_spec(guild_id),
{
    let n = u64_to_decimal(guild_id);
    concat2("autorole-", n.as_str())
}

/// The view of a button: its id, emoji, label and look.
pub open spec fn button_view(b: ButtonSpec) -> (Seq<char>, Seq<char>, Seq<char>, ButtonKind) {
    (b.custom_id@, b.emoji@, b.label@, b.kind)
}

/// The autorole toggle button of a guild for a setting: it offers to enable autorole
/// when it is off, and to disable it when it is on.
pub open spec fn toggle_button_spec(guild_id: u64, enabled: bool) -> (Seq<char>, Seq<char>, Seq<char>, ButtonKind) {
    (
        button_id_spec(guild_id),
        if !enabled { "✅"@ } else { "❌"@ },
        if !enabled { "Enable autorole"@ } else { "Disable autorole"@ },
        if !enabled { ButtonKind::Success } else { ButtonKind::Danger },
    )
}

/// The autorole toggle button.
pub fn toggle_button(guild_id: u64, enabled: bool) -> (b: ButtonSpec)
    ensures
        button_view(b) == toggle_button_spec(guild_id, enabled),
{
    proof {
        reveal_strlit("Enable");
        reveal_strlit("Disable");
        reveal_strlit(" autorole");
        reveal_strlit("Enable autorole");
        reveal_strlit("Disable autorole");
    }
    let label = concat2(if !enabled { "Enable" } else { "Disable" }, " autorole");
    assert(label@ =~= if !enabled { "Enable autorole"@ } else { "Disable autorole"@ });
    ButtonSpec {
        custom_id: button_id(guild_id),
        emoji: owned(if !enabled { "✅" } else { "❌" }),
        label,
        kind: if !enabled { ButtonKind::Success } else { ButtonKind::Danger },
    }
}

/// The title of the autorole settings message.
pub fn autorole_title(guild_name: &str) -> (s: String)
    ensures
        s@ == guild_name@ + " - autorole"@,
{
    concat2(guild_name, " - autorole")
}

/// The description of the autorole settings message.
pub const AUTOROLE_DESCRIPTION: &'static str = "make meaniningful description soon (:";

/// What the settings message does with a button press: the new setting, the button
/// to show when the press was on the toggle, and the line it logs.
pub struct InteractionStep {
    pub enabled: bool,
    pub response: Option<ButtonSpec>,
    pub log: String,
}

/// The line logged after each button press: "that is <setting>".
pub open spec fn interaction_log_spec(enabled: bool) -> Seq<char> {
    "that is "@ + if enabled { "true"@ } else { "false"@ }
}

/// The setting after a press on a button with id `custom_id`: a press on the
/// guild's toggle flips it, any other press leaves it.
pub open spec fn pressed_setting(enabled: bool, guild_id: u64, custom_id: Seq<char>) -> bool {
    if custom_id == button_id_spec(guild_id) {
        !enabled
    } else {
        enabled
    }
}

/// The setting after a run of presses, one after the other.
pub open spec fn presses_setting(enabled: bool, guild_id: u64, custom_ids: Seq<Seq<char>>) -> bool
    decreases custom_ids.len(),
{
    if custom_ids.len() == 0 {
        enabled
    } else {
        pressed_setting(presses_setting(enabled, guild_id, custom_ids.drop_last()), guild_id, custom_ids.last())
    }
}

/// How many of a run of presses were on the guild's toggle.
pub open spec fn toggle_presses(guild_id: u64, custom_ids: Seq<Seq<char>>) -> nat
    decreases custom_ids.len(),
{
    if custom_ids.len() == 0 {
        0
    } else {
        toggle_presses(guild_id, custom_ids.drop_last()) + if custom_ids.last() == button_id_spec(guild_id) {
            1nat
        } else {
            0nat
        }
    }
}

/// The settings message's reaction to a press on a button with id `custom_id`: a
/// press on the guild's toggle flips the setting and answers with the toggle button
/// for the new setting; every press logs the setting.
pub fn autorole_interaction(enabled: bool, guild_id: u64, custom_id: &str) -> (s: InteractionStep)
    ensures
        s.enabled == pressed_setting(enabled, guild_id, custom_id@),
        match s.response {
            Some(b) => custom_id@ == button_id_spec(guild_id) && button_view(b) == toggle_button_spec(
                guild_id,
                s.enabled,
            ),
            None => custom_id@ != button_id_spec(guild_id),
        },
        s.log@ == interaction_log_spec(s.enabled),
{
    let id = button_id(guild_id);
    let pressed = str_eq(custom_id, id.as_str());
    let now = if pressed { !enabled } else { enabled };
    let response = if pressed { Some(toggle_button(guild_id, now)) } else { None };
    let log = concat2("that is ", if now { "true" } else { "false" });
    InteractionStep { enabled: now, response, log }
}

/// After a run of presses on the settings message, autorole is on exactly when it
/// started off and the toggle was pressed an odd number of times, or started on and
/// was pressed an even number of times.
pub proof fn law_presses_parity(enabled: bool, guild_id: u64, custom_ids: Seq<Seq<char>>)
    ensures
        presses_setting(enabled, guild_id, custom_ids) == if toggle_presses(guild_id, custom_ids) % 2
            == 1 {
            !enabled
        } else {
            enabled
        },
    decreases custom_ids.len(),
{
    if custom_ids.len() > 0 {
        law_presses_parity(enabled, guild_id, custom_ids.drop_last());
    }
}

/// The title of the reply to a press on the toggle.
pub const INTERACTION_TITLE: &'static str = "hi!";

// ---------------------------------------------------------------------------
// toggling autorole
// ---------------------------------------------------------------------------

/// A reply's title, description and colour.
pub struct Reply {
    pub title: String,
    pub description: String,
    pub colour: Colours,
}

/// The reply to a toggle of a feature named `what` (such as "Autorole" or "Sticky
/// roles have"), for the new setting.
pub open spec fn toggle_reply_spec(subject: Seq<char>, enabled: bool) -> (Seq<char>, Seq<char>, Colours) {
    (
        if enabled { "Enabled!"@ } else { "Disabled!"@ },
        subject + " been "@ + (if enabled { "enabled"@ } else { "disabled"@ }) + "!"@,
        if enabled { Colours::Success } else { Colours::Failure },
    )
}

fn toggle_reply(subject: &str, enabled: bool) -> (r: Reply)
    ensures
        (r.title@, r.description@, r.colour) == toggle_reply_spec(subject@, enabled),
{
    let mut d = concat2(subject, " been ");
    push_str(&mut d, if enabled { "enabled" } else { "disabled" });
    push_str(&mut d, "!");
    Reply {
        title: owned(if enabled { "Enabled!" } else { "Disabled!" }),
        description: d,
        colour: if enabled { Colours::Success } else { Colours::Failure },
    }
}

/// The reply to a toggle of autorole: "Enabled!" and "Autorole has been enabled!" in
/// the success colour, or "Disabled!" and "Autorole has been disabled!" in the
/// failure colour.
pub fn autorole_toggle_reply(enabled: bool) -> (r: Reply)
    ensures
        (r.title@, r.description@, r.colour) == toggle_reply_spec("Autorole has"@, enabled),
{
    toggle_reply("Autorole has", enabled)
}

/// The reply to a toggle of sticky roles.
pub fn sticky_toggle_reply(enabled: bool) -> (r: Reply)
    ensures
        (r.title@, r.description@, r.colour) == toggle_reply_spec("Sticky roles have"@, enabled),
{
    toggle_reply("Sticky roles have", enabled)
}

/// The embed of a toggle reply, with the guild's icon.
pub fn toggle_embed(a: &AuthorInfo, guild_icon: Option<&str>, r: Reply) -> (e: Embed)
    ensures
        e.colour == colour_value(r.colour),
        e.title == Some(r.title),
        e.description == Some(r.description),
{
    generate_guild_embed(a, r.colour, guild_icon).with_title(r.title).with_description(r.description)
}

/// The content of the commands that are not done yet.
pub const UNFINISHED_CONTENT: &'static str = "Needs to be implented...";

// ---------------------------------------------------------------------------
// adding an autorole
// ---------------------------------------------------------------------------

/// What the autorole commands need of a guild role.
#[derive(Clone, Debug)]
pub struct RoleInfo {
    pub id: u64,
    pub guild_id: u64,
    pub name: String,
    pub managed: bool,
}

/// Whether a role is offered as an autorole for a partial name: it is not the
/// guild's @everyone role (whose id is the guild's), not managed by an integration,
/// and its name starts with the partial name.
pub open spec fn offered(r: RoleInfo, partial: Seq<char>) -> bool {
    &&& r.id != r.guild_id
    &&& !r.managed
    &&& partial.len() <= r.name@.len()
    &&& r.name@.subrange(0, partial.len() as int) == partial
}

/// The names of the offered roles, in the order of the roles.
pub open spec fn autocomplete_spec(roles: Seq<RoleInfo>, partial: Seq<char>) -> Seq<Seq<char>>
    decreases roles.len(),
{
    if roles.len() == 0 {
        Seq::empty()
    } else {
        let rest = autocomplete_spec(roles.drop_last(), partial);
        if offered(roles.last(), partial) {
            rest.push(roles.last().name@)
        } else {
            rest
        }
    }
}

/// The role names offered while a role name is typed.
pub fn role_autocomplete(roles: &Vec<RoleInfo>, partial: &str) -> (v: Vec<String>)
    ensures
        crate::text::strings_view(v@) == autocomplete_spec(roles@, partial@),
{
    let mut v: Vec<String> = Vec::new();
    let mut i: usize = 0;
    while i < roles.len()
        invariant
            i <= roles@.len(),
            crate::text::strings_view(v@) == autocomplete_spec(roles@.subrange(0, i as int), partial@),
        decreases roles.len() - i,
    {
        let r = &roles[i];
        let ghost before = v@;
        if r.id != r.guild_id && !r.managed && starts_with(r.name.as_str(), partial) {
            v.push(owned(r.name.as_str()));
        }
        i = i + 1;
        assert(roles@.subrange(0, i as int).drop_last() =~= roles@.subrange(0, i - 1));
        assert(crate::text::strings_view(v@) =~= autocomplete_spec(roles@.subrange(0, i as int), partial@));
    }
    assert(roles@.subrange(0, roles@.len() as int) =~= roles@);
    v
}

/// The position of the first role with a given name.
pub fn role_by_name(roles: &Vec<RoleInfo>, name: &str) -> (r: Option<usize>)
    ensures
        match r {
            Some(i) => i < roles@.len() && roles@[i as int].name@ == name@ && forall|j: int|
                0 <= j < i ==> roles@[j].name@ != name@,
            None => forall|j: int| 0 <= j < roles@.len() ==> roles@[j].name@ != name@,
        },
{
    let mut i: usize = 0;
    while i < roles.len()
        invariant
            i <= roles@.len(),
            forall|j: int| 0 <= j < i ==> roles@[j].name@ != name@,
        decreases roles.len() - i,
    {
        if str_eq(roles[i].name.as_str(), name) {
            return Some(i);
        }
        i = i + 1;
    }
    None
}

/// The error of an autorole that could not be recorded.
pub const ADD_ERROR: &'static str = "Failed to create autorole entry, are you sure it doesn't already exist?";

/// The title of the reply to an added autorole.
pub const ADD_TITLE: &'static str = "Added autorole!";

/// How a role is mentioned: "<@&<id>>".
pub open spec fn role_mention_spec(id: u64) -> Seq<char> {
    "<@&"@ + decimal(id as nat) + ">"@
}

/// The description of the reply to an added autorole.
pub fn add_description(role_id: u64) -> (s: String)
    ensures
        s@ == "The role "@ + role_mention_spec(role_id) + " has been added as an autorole!"@,
{
    let n = u64_to_decimal(role_id);
    let mut s = concat2("The role <@&", n.as_str());
    push_str(&mut s, "> has been added as an autorole!");
    proof {
        reveal_strlit("The role <@&");
        reveal_strlit("The role ");
        reveal_strlit("<@&");
        reveal_strlit("> has been added as an autorole!");
        reveal_strlit(">");
        reveal_strlit(" has been added as an autorole!");
    }
    assert(s@ =~= "The role "@ + role_mention_spec(role_id) + " has been added as an autorole!"@);
    s
}

// ---------------------------------------------------------------------------
// emitting events
// ---------------------------------------------------------------------------

/// The events that can be emitted by hand.
#[derive(Clone, Copy, Debug, PartialEq, Eq, Structural)]
pub enum ImplementedEvents {
    ThreadCreate,
    GuildMemberAddition,
}

/// An emitted event: a thread was made, or a member joined a guild.
#[derive(Clone, Copy, Debug, PartialEq, Eq, Structural)]
pub enum EmittedEvent {
    ThreadCreate { thread: u64 },
    GuildMemberAddition { guild: u64, user: u64 },
}

/// A channel of the cache: its id and whether it is a thread.
#[derive(Clone, Copy, Debug, PartialEq, Eq, Structural)]
pub struct ChannelInfo {
    pub id: u64,
    pub is_thread: bool,
}

/// The ids of the threads among channels, in order.
pub open spec fn threads_spec(channels: Seq<ChannelInfo>) -> Seq<u64>
    decreases channels.len(),
{
    if channels.len() == 0 {
        Seq::empty()
    } else if channels.last().is_thread {
        threads_spec(channels.drop_last()).push(channels.last().id)
    } else {
        threads_spec(channels.drop_last())
    }
}

/// The pairs of users and guilds whose members are looked up: the i-th user with the
/// i-th guild, as far as both lists go.
pub open spec fn member_pairs_spec(users: Seq<u64>, guilds: Seq<u64>) -> Seq<(u64, u64)> {
    Seq::new(if users.len() < guilds.len() { users.len() } else { guilds.len() }, |i: int| (guilds[i], users[i]))
}

/// Picks one item at random.
///
/// Trusted: rand's `SliceRandom::choose` with the thread's generator. It returns
/// nothing exactly for an empty slice, and otherwise one of its items; which one is
/// left to chance.
#[verifier::external_body]
pub(crate) fn pick_random<T>(items: &Vec<T>) -> (r: Option<&T>)
    ensures
        r is None <==> items@.len() == 0,
        match r {
            Some(x) => exists|i: int| 0 <= i < items@.len() && items@[i] == *x,
            None => true,
        },
{
    items.as_slice().choose(&mut rand::thread_rng())
}

impl ImplementedEvents {
    /// The name shown for the event: "Thread Create" or "Member Join".
    pub fn name(&self) -> (s: String)
        ensures
            s@ == match *self {
                ImplementedEvents::ThreadCreate => "Thread Create"@,
                ImplementedEvents::GuildMemberAddition => "Member Join"@,
            },
    {
        match self {
            ImplementedEvents::ThreadCreate => owned("Thread Create"),
            ImplementedEvents::GuildMemberAddition => owned("Member Join"),
        }
    }

    /// The threads an emitted thread event may name.
    pub fn thread_candidates(channels: &Vec<ChannelInfo>) -> (v: Vec<u64>)
        ensures
            v@ == threads_spec(channels@),
    {
        let mut v: Vec<u64> = Vec::new();
        let mut i: usize = 0;
        while i < channels.len()
            invariant
                i <= channels@.len(),
                v@ == threads_spec(channels@.subrange(0, i as int)),
            decreases channels.len() - i,
        {
            if channels[i].is_thread {
                v.push(channels[i].id);
            }
            i = i + 1;
            assert(channels@.subrange(0, i as int).drop_last() =~= channels@.subrange(0, i - 1));
        }
        assert(channels@.subrange(0, channels@.len() as int) =~= channels@);
        v
    }

    /// The guild and user pairs whose members an emitted join event may name.
    pub fn member_candidates(users: &Vec<u64>, guilds: &Vec<u64>) -> (v: Vec<(u64, u64)>)
        ensures
            v@ == member_pairs_spec(users@, guilds@),
    {
        let n = if users.len() < guilds.len() { users.len() } else { guilds.len() };
        let mut v: Vec<(u64, u64)> = Vec::new();
        let mut i: usize = 0;
        while i < n
            invariant
                n <= users@.len(),
                n <= guilds@.len(),
                n == if users@.len() < guilds@.len() { users@.len() } else { guilds@.len() },
                i <= n,
                v@ == member_pairs_spec(users@, guilds@).subrange(0, i as int),
            decreases n - i,
        {
            v.push((guilds[i], users[i]));
            i = i + 1;
            assert(v@ =~= member_pairs_spec(users@, guilds@).subrange(0, i as int));
        }
        assert(v@ =~= member_pairs_spec(users@, guilds@));
        v
    }

    /// The event to emit: a random thread, or a random member, of the candidates.
    pub fn to_event(&self, threads: &Vec<u64>, members: &Vec<(u64, u64)>) -> (e: EmittedEvent)
        requires
            *self == ImplementedEvents::ThreadCreate ==> threads@.len() > 0,
            *self == ImplementedEvents::GuildMemberAddition ==> members@.len() > 0,
        ensures
            match e {
                EmittedEvent::ThreadCreate { thread } => *self == ImplementedEvents::ThreadCreate
                    && threads@.contains(thread),
                EmittedEvent::GuildMemberAddition { guild, user } => *self
                    == ImplementedEvents::GuildMemberAddition && members@.contains((guild, user)),
            },
    {
        match self {
            ImplementedEvents::ThreadCreate => {
                let t = pick_random(threads);
                match t {
                    Some(x) => EmittedEvent::ThreadCreate { thread: *x },
                    None => EmittedEvent::ThreadCreate { thread: threads[0] },
                }
            },
            ImplementedEvents::GuildMemberAddition => {
                let m = pick_random(members);
                match m {
                    Some(x) => EmittedEvent::GuildMemberAddition { guild: x.0, user: x.1 },
                    None => EmittedEvent::GuildMemberAddition { guild: members[0].0, user: members[0].1 },
                }
            },
        }
    }
}

// ---------------------------------------------------------------------------
// pride images
// ---------------------------------------------------------------------------

/// An attachment of a command: its url and whether it is an image (has a height).
#[derive(Clone, Debug)]
pub struct AttachmentInfo {
    pub url: String,
    pub is_image: bool,
}

/// The image a pride command works on: the attachment when it is an image, the
/// author's avatar otherwise.
pub fn image_source(attachment: Option<&AttachmentInfo>, avatar: &str) -> (s: String)
    ensures
        s@ == match attachment {
            Some(a) => if a.is_image { a.url@ } else { avatar@ },
            None => avatar@,
        },
{
    match attachment {
        Some(a) => if a.is_image { owned(a.url.as_str()) } else { owned(avatar) },
        None => owned(avatar),
    }
}

/// The name of the file a pride image is sent as.
pub const PRIDE_FILENAME: &'static str = "pride.png";

} // verus!
