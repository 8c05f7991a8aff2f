//! Log entries made of styled components, the texts the bot logs, and the
//! levels and styles they carry.
pub mod entry;
pub mod level;
pub mod style;

pub use entry::Entry;
pub use level::LogLevel;

use crate::text::{concat2, owned};
use vstd::prelude::*;

verus! {

/// The style flags of a log component: any combination of bold, red, green and
/// yellow. Its bits are `1` for bold, `2` for red, `4` for green, `8` for yellow.
#[derive(Clone, Copy, Debug, PartialEq, Eq, Structural, Hash)]
pub struct Style {
    pub bold: bool,
    pub red: bool,
    pub green: bool,
    pub yellow: bool,
}

/// One named style flag.
#[derive(Clone, Copy, Debug, PartialEq, Eq, Structural)]
pub enum Flag {
    Bold,
    Red,
    Green,
    Yellow,
}

/// The flags of a style in the order they are declared: bold, red, green, yellow.
pub open spec fn flags_of(s: Style) -> Seq<Flag> {
    (if s.bold { seq![Flag::Bold] } else { seq![] })
        + (if s.red { seq![Flag::Red] } else { seq![] })
        + (if s.green { seq![Flag::Green] } else { seq![] })
        + (if s.yellow { seq![Flag::Yellow] } else { seq![] })
}

/// The style with no flag.
pub open spec fn style_none() -> Style {
    Style { bold: false, red: false, green: false, yellow: false }
}

/// The style with the bold flag alone.
pub open spec fn style_bold() -> Style {
    Style { bold: true, red: false, green: false, yellow: false }
}

/// The style with the red flag alone.
pub open spec fn style_red() -> Style {
    Style { bold: false, red: true, green: false, yellow: false }
}

/// The style with the green flag alone.
pub open spec fn style_green() -> Style {
    Style { bold: false, red: false, green: true, yellow: false }
}

/// The style with the yellow flag alone.
pub open spec fn style_yellow() -> Style {
    Style { bold: false, red: false, green: false, yellow: true }
}

impl Style {
    /// The bits of the style.
    pub open spec fn bits_spec(self) -> int {
        (if self.bold { 1int } else { 0 }) + (if self.red { 2int } else { 0 }) + (if self.green {
            4int
        } else {
            0
        }) + (if self.yellow { 8int } else { 0 })
    }

    /// No flag.
    pub fn none() -> (s: Style)
        ensures
            s == style_none(),
    {
        Style { bold: false, red: false, green: false, yellow: false }
    }

    /// The bold flag alone.
    pub fn bold() -> (s: Style)
        ensures
            s == style_bold(),
    {
        Style { bold: true, red: false, green: false, yellow: false }
    }

    /// The red flag alone.
    pub fn red() -> (s: Style)
        ensures
            s == style_red(),
    {
        Style { bold: false, red: true, green: false, yellow: false }
    }

    /// The green flag alone.
    pub fn green() -> (s: Style)
        ensures
            s == style_green(),
    {
        Style { bold: false, red: false, green: true, yellow: false }
    }

    /// The yellow flag alone.
    pub fn yellow() -> (s: Style)
        ensures
            s == style_yellow(),
    {
        Style { bold: false, red: false, green: false, yellow: true }
    }

    /// The flags of either style (`|`).
    pub fn union(self, other: Style) -> (s: Style)
        ensures
            s.bold == (self.bold || other.bold),
            s.red == (self.red || other.red),
            s.green == (self.green || other.green),
            s.yellow == (self.yellow || other.yellow),
    {
        Style {
            bold: self.bold || other.bold,
            red: self.red || other.red,
            green: self.green || other.green,
            yellow: self.yellow || other.yellow,
        }
    }

    /// Whether every flag of `other` is set here.
    pub fn contains(&self, other: Style) -> (r: bool)
        ensures
            r == ((other.bold ==> self.bold) && (other.red ==> self.red) && (other.green
                ==> self.green) && (other.yellow ==> self.yellow)),
    {
        (!other.bold || self.bold) && (!other.red || self.red) && (!other.green || self.green)
            && (!other.yellow || self.yellow)
    }

    /// Whether no flag is set.
    pub fn is_empty(&self) -> (r: bool)
        ensures
            r == (self.bits_spec() == 0),
    {
        !self.bold && !self.red && !self.green && !self.yellow
    }

    /// The bits of the style.
    pub fn bits(&self) -> (b: u8)
        ensures
            b == self.bits_spec(),
    {
        (if self.bold { 1u8 } else { 0u8 }) + (if self.red { 2u8 } else { 0u8 }) + (if self.green {
            4u8
        } else {
            0u8
        }) + (if self.yellow { 8u8 } else { 0u8 })
    }

    /// The style with exactly the given bits, for bits within `0..16`.
    pub fn from_bits(b: u8) -> (s: Option<Style>)
        ensures
            s is Some <==> b < 16,
            s matches Some(st) ==> st.bits_spec() == b,
    {
        if b >= 16 {
            return None;
        }
        let bold = b % 2 == 1;
        let red = (b / 2) % 2 == 1;
        let green = (b / 4) % 2 == 1;
        let yellow = (b / 8) % 2 == 1;
        Some(Style { bold, red, green, yellow })
    }

    /// The flags that are set, in declaration order (`iter`).
    pub fn iter(&self) -> (v: Vec<Flag>)
        ensures
            v@ == flags_of(*self),
    {
        let mut v: Vec<Flag> = Vec::new();
        if self.bold {
            v.push(Flag::Bold);
        }
        if self.red {
            v.push(Flag::Red);
        }
        if self.green {
            v.push(Flag::Green);
        }
        if self.yellow {
            v.push(Flag::Yellow);
        }
        assert(v@ =~= flags_of(*self));
        v
    }
}

/// A style's bits lie within `0..16` and tell its flags apart: two styles with the
/// same bits are the same style.
pub proof fn law_bits_faithful(s: Style, t: Style)
    ensures
        0 <= s.bits_spec() < 16,
        s.bits_spec() == t.bits_spec() ==> s == t,
{
}

/// A piece of a log message together with its style.
#[derive(Clone, Debug)]
pub struct Component {
    pub text: String,
    pub style: Style,
}

/// A component from its text and style.
pub fn component(text: &str, style: Style) -> (c: Component)
    ensures
        c.text@ == text@,
        c.style == style,
{
    Component { text: owned(text), style }
}

/// The view of a component: its characters and its style.
pub open spec fn component_view(c: Component) -> (Seq<char>, Style) {
    (c.text@, c.style)
}

/// The views of a list of components.
pub open spec fn components_view(cs: Seq<Component>) -> Seq<(Seq<char>, Style)> {
    cs.map_values(|c: Component| component_view(c))
}

/// Where a command ran: the guild's name, or "DMs" outside guilds.
pub open spec fn location_spec(guild_name: Option<Seq<char>>) -> Seq<char> {
    match guild_name {
        Some(n) => n,
        None => "DMs"@,
    }
}

/// Where a command ran: the guild's name, or "DMs" outside guilds.
pub fn command_location(guild_name: Option<&str>) -> (s: String)
    ensures
        s@ == location_spec(
            match guild_name {
                Some(n) => Some(n@),
                None => None,
            },
        ),
{
    match guild_name {
        Some(n) => owned(n),
        None => owned("DMs"),
    }
}

/// The components logged when a command has run: the author in red, " ran ", the
/// command's qualified name, " in ", and the place in green.
pub fn command_components(author: &str, command: &str, place: &str) -> (v: Vec<Component>)
    ensures
        components_view(v@) == seq![
            (author@, style_red()),
            (" ran "@, style_none()),
            (command@, style_none()),
            (" in "@, style_none()),
            (place@, style_green()),
        ],
{
    let mut v: Vec<Component> = Vec::new();
    v.push(component(author, Style::red()));
    v.push(component(" ran ", Style::none()));
    v.push(component(command, Style::none()));
    v.push(component(" in ", Style::none()));
    v.push(component(place, Style::green()));
    assert(components_view(v@) =~= seq![
        (author@, style_red()),
        (" ran "@, style_none()),
        (command@, style_none()),
        (" in "@, style_none()),
        (place@, style_green()),
    ]);
    v
}

/// The components logged when a command fails: "Error in command " and the
/// command's qualified name in bold, then ": " and the error.
pub fn error_components(command: &str, error: &str) -> (v: Vec<Component>)
    ensures
        components_view(v@) == seq![
            ("Error in command "@, style_bold()),
            (command@, style_bold()),
            (": "@ + error@, style_none()),
        ],
{
    let mut v: Vec<Component> = Vec::new();
    v.push(component("Error in command ", Style::bold()));
    v.push(component(command, Style::bold()));
    let detail = concat2(": ", error);
    v.push(Component { text: detail, style: Style::none() });
    assert(components_view(v@) =~= seq![
        ("Error in command "@, style_bold()),
        (command@, style_bold()),
        (": "@ + error@, style_none()),
    ]);
    v
}

} // verus!
