//! Embeds: their colours, their author line, and the replies the commands send.
use crate::text::owned;
use vstd::prelude::*;

verus! {

/// The colour `0xRRGGBB` of three channels (serenity's `Colour::from_rgb`).
pub open spec fn rgb(r: u8, g: u8, b: u8) -> int {
    r * 65536 + g * 256 + b
}

/// The colour of three channels as one number.
pub fn from_rgb(r: u8, g: u8, b: u8) -> (c: u32)
    ensures
        c == rgb(r, g, b),
{
    (r as u32) * 65536 + (g as u32) * 256 + (b as u32)
}

/// The three embed colours.
#[derive(Clone, Copy, Debug, PartialEq, Eq, Structural)]
pub enum Colours {
    Default,
    Success,
    Failure,
}

/// The value of an embed colour: light blue, mint or light red.
pub open spec fn colour_value(c: Colours) -> int {
    match c {
        Colours::Default => rgb(192, 238, 255),
        Colours::Success => rgb(95, 252, 198),
        Colours::Failure => rgb(255, 171, 171),
    }
}

impl Colours {
    /// The colour's value.
    pub fn value(&self) -> (v: u32)
        ensures
            v == colour_value(*self),
    {
        match self {
            Colours::Default => from_rgb(192, 238, 255),
            Colours::Success => from_rgb(95, 252, 198),
            Colours::Failure => from_rgb(255, 171, 171),
        }
    }
}

/// What an embed needs of a guild member: the name shown for it and its guild
/// avatar.
#[derive(Clone, Debug)]
pub struct MemberInfo {
    pub display_name: String,
    pub avatar_url: Option<String>,
}

/// What an embed needs of the author of a command: the user's name, avatar and
/// default avatar, and the member when the command ran in a guild.
#[derive(Clone, Debug)]
pub struct AuthorInfo {
    pub name: String,
    pub avatar_url: Option<String>,
    pub default_avatar_url: String,
    pub member: Option<MemberInfo>,
}

/// The name an embed shows for its author: the member's display name, else the
/// user's name.
pub open spec fn author_name(a: AuthorInfo) -> Seq<char> {
    match a.member {
        Some(m) => m.display_name@,
        None => a.name@,
    }
}

/// The avatar an embed shows for its author: the member's guild avatar, else the
/// user's avatar, else the user's default avatar.
pub open spec fn author_avatar(a: AuthorInfo) -> Seq<char> {
    match a.member {
        Some(m) => match m.avatar_url {
            Some(u) => u@,
            None => match a.avatar_url {
                Some(u) => u@,
                None => a.default_avatar_url@,
            },
        },
        None => match a.avatar_url {
            Some(u) => u@,
            None => a.default_avatar_url@,
        },
    }
}

/// The avatar an embed shows: the member's guild avatar when the author is a member
/// with one; otherwise the user's own avatar when the user has one, whether or not
/// there is a member; the default avatar only when the user has none.
pub proof fn law_avatar_choice(a: AuthorInfo)
    ensures
        (a.member is Some && a.member->0.avatar_url is Some) ==> author_avatar(a) == a.member->0.avatar_url->0@,
        !(a.member is Some && a.member->0.avatar_url is Some) && a.avatar_url is Some ==> author_avatar(a)
            == a.avatar_url->0@,
        !(a.member is Some && a.member->0.avatar_url is Some) && a.avatar_url is None ==> author_avatar(a)
            == a.default_avatar_url@,
{
}

/// The avatar of the author of a command.
pub fn determine_avatar(a: &AuthorInfo) -> (s: String)
    ensures
        s@ == author_avatar(*a),
{
    let member_avatar = match &a.member {
        Some(m) => match &m.avatar_url {
            Some(u) => Some(owned(u.as_str())),
            None => None,
        },
        None => None,
    };
    match member_avatar {
        Some(u) => u,
        None => match &a.avatar_url {
            Some(u) => owned(u.as_str()),
            None => owned(a.default_avatar_url.as_str()),
        },
    }
}

/// An embed as the bot sends it.
#[derive(Clone, Debug)]
pub struct Embed {
    pub author_name: String,
    pub author_icon: String,
    pub colour: u32,
    pub title: Option<String>,
    pub description: Option<String>,
    pub image: Option<String>,
    pub thumbnail: Option<String>,
}

/// The base of every embed: the author's name and avatar, in a colour.
pub fn generate_embed(a: &AuthorInfo, colour: Colours) -> (e: Embed)
    ensures
        e.author_name@ == author_name(*a),
        e.author_icon@ == author_avatar(*a),
        e.colour == colour_value(colour),
        e.title is None,
        e.description is None,
        e.image is None,
        e.thumbnail is None,
{
    let name = match &a.member {
        Some(m) => owned(m.display_name.as_str()),
        None => owned(a.name.as_str()),
    };
    Embed {
        author_name: name,
        author_icon: determine_avatar(a),
        colour: colour.value(),
        title: None,
        description: None,
        image: None,
        thumbnail: None,
    }
}

/// The base of an embed with the guild's icon as thumbnail, when the guild has one.
pub fn generate_guild_embed(a: &AuthorInfo, colour: Colours, guild_icon: Option<&str>) -> (e: Embed)
    ensures
        e.author_name@ == author_name(*a),
        e.author_icon@ == author_avatar(*a),
        e.colour == colour_value(colour),
        e.title is None,
        e.description is None,
        e.image is None,
        match guild_icon {
            Some(u) => e.thumbnail is Some && e.thumbnail.unwrap()@ == u@,
            None => e.thumbnail is None,
        },
{
    let mut e = generate_embed(a, colour);
    match guild_icon {
        Some(u) => {
            e.thumbnail = Some(owned(u));
        },
        None => {},
    }
    e
}

/// The embed of `create_embed`: the author's name and avatar in the default colour.
pub fn create_embed(a: &AuthorInfo) -> (e: Embed)
    ensures
        e.author_name@ == author_name(*a),
        e.author_icon@ == author_avatar(*a),
        e.colour == colour_value(Colours::Default),
        e.title is None,
        e.description is None,
        e.image is None,
        e.thumbnail is None,
{
    generate_embed(a, Colours::Default)
}

impl Embed {
    /// The same embed with a title.
    pub fn with_title(self, title: String) -> (e: Embed)
        ensures
            e.title == Some(title),
            e.author_name == self.author_name,
            e.author_icon == self.author_icon,
            e.colour == self.colour,
            e.description == self.description,
            e.image == self.image,
            e.thumbnail == self.thumbnail,
    {
        Embed { title: Some(title), ..self }
    }

    /// The same embed with a description.
    pub fn with_description(self, description: String) -> (e: Embed)
        ensures
            e.description == Some(description),
            e.author_name == self.author_name,
            e.author_icon == self.author_icon,
            e.colour == self.colour,
            e.title == self.title,
            e.image == self.image,
            e.thumbnail == self.thumbnail,
    {
        Embed { description: Some(description), ..self }
    }

    /// The same embed with an image.
    pub fn with_image(self, image: String) -> (e: Embed)
        ensures
            e.image == Some(image),
            e.author_name == self.author_name,
            e.author_icon == self.author_icon,
            e.colour == self.colour,
            e.title == self.title,
            e.description == self.description,
            e.thumbnail == self.thumbnail,
    {
        Embed { image: Some(image), ..self }
    }
}

/// The embed announcing a command's error: "Error!" over the error, in the failure
/// colour, with the guild's icon.
pub fn error_embed(a: &AuthorInfo, guild_icon: Option<&str>, error: &str) -> (e: Embed)
    ensures
        e.author_name@ == author_name(*a),
        e.colour == colour_value(Colours::Failure),
        e.title is Some && e.title.unwrap()@ == "Error!"@,
        e.description is Some && e.description.unwrap()@ == error@,
{
    generate_guild_embed(a, Colours::Failure, guild_icon).with_title(owned("Error!")).with_description(owned(error))
}

} // verus!
