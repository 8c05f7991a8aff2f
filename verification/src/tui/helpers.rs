//! Small widgets of the terminal panel: the controls hint and buttons.
use crate::paint::{TextStyle, Tint};
use crate::text::{concat2, concat3, owned};
use vstd::prelude::*;

verus! {

/// A line of text with one look.
#[derive(Debug, Clone)]
pub struct Label {
    pub text: String,
    pub style: TextStyle,
}

/// The look of control hints: dark grey and bold.
pub open spec fn controls_style() -> TextStyle {
    TextStyle { fg: Some(Tint::DarkGray), bg: None, bold: true }
}

/// The controls hint: the text followed by ", q to quit", dark grey and bold.
pub fn generate_controls(text: &str) -> (l: Label)
    ensures
        l.text@ == text@ + ", q to quit"@,
        l.style == controls_style(),
{
    Label {
        text: concat2(text, ", q to quit"),
        style: TextStyle::plain().with_fg(Tint::DarkGray).with_bold(),
    }
}

/// A button: its text in square brackets and green when it is selected, plain
/// otherwise.
pub fn generate_button(text: &str, selected: bool) -> (l: Label)
    ensures
        l.text@ == if selected {
            "["@ + text@ + "]"@
        } else {
            text@
        },
        l.style == if selected {
            TextStyle { fg: Some(Tint::Green), bg: None, bold: false }
        } else {
            TextStyle { fg: None, bg: None, bold: false }
        },
{
    if selected {
        Label { text: concat3("[", text, "]"), style: TextStyle::plain().with_fg(Tint::Green) }
    } else {
        Label { text: owned(text), style: TextStyle::plain() }
    }
}

} // verus!
