//! A small builder for the look of log text: an optional colour and boldness.
use crate::paint::{TextStyle, Tint};
use vstd::prelude::*;

verus! {

/// The colours a log style can have.
#[derive(Debug, Clone, Copy, PartialEq, Eq, Structural)]
pub enum Colour {
    Red,
    Cyan,
}

/// The look of log text: an optional colour and whether it is bold.
#[derive(Debug, Clone, Copy)]
pub struct Style {
    colour: Option<Colour>,
    bold: bool,
}

impl Style {
    /// The colour of the style.
    pub closed spec fn colour_spec(self) -> Option<Colour> {
        self.colour
    }

    /// Whether the style is bold.
    pub closed spec fn bold_spec(self) -> bool {
        self.bold
    }

    /// The style with the given colour and the same boldness.
    pub fn colour(self, colour: Colour) -> (s: Self)
        ensures
            s.colour_spec() == Some(colour),
            s.bold_spec() == self.bold_spec(),
    {
        let mut s = self;
        s.colour = Some(colour);
        s
    }

    /// The style, bold, with the same colour.
    pub fn bold(self) -> (s: Self)
        ensures
            s.colour_spec() == self.colour_spec(),
            s.bold_spec(),
    {
        let mut s = self;
        s.bold = true;
        s
    }

    /// The colour of the style.
    pub fn get_colour(&self) -> (c: Option<Colour>)
        ensures
            c == self.colour_spec(),
    {
        self.colour
    }

    /// Whether the style is bold.
    pub fn is_bold(&self) -> (b: bool)
        ensures
            b == self.bold_spec(),
    {
        self.bold
    }

    /// The terminal look of the style: its colour as the foreground, and bold when
    /// it is bold.
    pub fn to_text_style(&self) -> (t: TextStyle)
        ensures
            t.fg == match self.colour_spec() {
                Some(Colour::Red) => Some(Tint::Red),
                Some(Colour::Cyan) => Some(Tint::Cyan),
                None => None,
            },
            t.bg is None,
            t.bold == self.bold_spec(),
    {
        let mut t = TextStyle::plain();
        match self.colour {
            Some(Colour::Red) => {
                t = t.with_fg(Tint::Red);
            },
            Some(Colour::Cyan) => {
                t = t.with_fg(Tint::Cyan);
            },
            None => {},
        }
        if self.bold {
            t = t.with_bold();
        }
        t
    }
}

impl Default for Style {
    /// No colour, not bold.
    fn default() -> (s: Self)
        ensures
            s.colour_spec() is None,
            !s.bold_spec(),
    {
        Style { colour: None, bold: false }
    }
}

} // verus!
