//! ANSI colouring of console text, and the colours of terminal widgets.
use owo_colors::OwoColorize;
use vstd::prelude::*;

verus! {

/// A colour of terminal text.
#[derive(Clone, Copy, Debug, PartialEq, Eq, Structural)]
pub enum Tint {
    Red,
    Green,
    Yellow,
    Cyan,
    White,
    Gray,
    DarkGray,
    Black,
}

/// How a piece of terminal text looks: foreground, background, boldness.
#[derive(Clone, Copy, Debug, PartialEq, Eq, Structural)]
pub struct TextStyle {
    pub fg: Option<Tint>,
    pub bg: Option<Tint>,
    pub bold: bool,
}

impl TextStyle {
    /// The default look: no colours, not bold.
    pub fn plain() -> (s: TextStyle)
        ensures
            s == (TextStyle { fg: None, bg: None, bold: false }),
    {
        TextStyle { fg: None, bg: None, bold: false }
    }

    /// The same look with the given foreground.
    pub fn with_fg(self, t: Tint) -> (s: TextStyle)
        ensures
            s == (TextStyle { fg: Some(t), ..self }),
    {
        TextStyle { fg: Some(t), ..self }
    }

    /// The same look with the given background.
    pub fn with_bg(self, t: Tint) -> (s: TextStyle)
        ensures
            s == (TextStyle { bg: Some(t), ..self }),
    {
        TextStyle { bg: Some(t), ..self }
    }

    /// The same look, bold.
    pub fn with_bold(self) -> (s: TextStyle)
        ensures
            s == (TextStyle { bold: true, ..self }),
    {
        TextStyle { bold: true, ..self }
    }
}

/// The escape sequence `ESC [ code m`.
pub open spec fn sgr(code: Seq<char>) -> Seq<char> {
    seq!['\x1b', '['] + code + seq!['m']
}

/// The code of a foreground colour that the console renderer uses.
pub open spec fn fg_code(t: Tint) -> Seq<char> {
    match t {
        Tint::Red => seq!['3', '1'],
        Tint::Green => seq!['3', '2'],
        Tint::Yellow => seq!['3', '3'],
        _ => seq!['3', '6'],
    }
}

/// Text in a foreground colour, followed by the code that restores the default
/// foreground.
pub open spec fn fg_painted(t: Tint, s: Seq<char>) -> Seq<char> {
    sgr(fg_code(t)) + s + sgr(seq!['3', '9'])
}

/// Bold text, followed by the code that resets all attributes.
pub open spec fn bold_painted(s: Seq<char>) -> Seq<char> {
    sgr(seq!['1']) + s + sgr(seq!['0'])
}

/// Whether a tint is one the console renderer can paint.
pub open spec fn console_tint(t: Tint) -> bool {
    t == Tint::Red || t == Tint::Green || t == Tint::Yellow || t == Tint::Cyan
}

/// Red text. Trusted: owo-colors' `red()`, displayed: it writes `ESC[31m`, the
/// text and `ESC[39m`.
#[verifier::external_body]
fn owo_red(s: &str) -> (r: String)
    ensures
        r@ == fg_painted(Tint::Red, s@),
{
    s.red().to_string()
}

/// Green text. Trusted: owo-colors' `green()`, displayed: it writes `ESC[32m`, the
/// text and `ESC[39m`.
#[verifier::external_body]
fn owo_green(s: &str) -> (r: String)
    ensures
        r@ == fg_painted(Tint::Green, s@),
{
    s.green().to_string()
}

/// Yellow text. Trusted: owo-colors' `yellow()`, displayed: it writes `ESC[33m`, the
/// text and `ESC[39m`.
#[verifier::external_body]
fn owo_yellow(s: &str) -> (r: String)
    ensures
        r@ == fg_painted(Tint::Yellow, s@),
{
    s.yellow().to_string()
}

/// Cyan text. Trusted: owo-colors' `cyan()`, displayed: it writes `ESC[36m`, the
/// text and `ESC[39m`.
#[verifier::external_body]
fn owo_cyan(s: &str) -> (r: String)
    ensures
        r@ == fg_painted(Tint::Cyan, s@),
{
    s.cyan().to_string()
}

/// Bold text. Trusted: owo-colors' `bold()`, displayed: it writes `ESC[1m`, the text
/// and `ESC[0m`.
#[verifier::external_body]
fn owo_bold(s: &str) -> (r: String)
    ensures
        r@ == bold_painted(s@),
{
    s.bold().to_string()
}

/// Text in one of the console colours.
pub fn fg(t: Tint, s: &str) -> (r: String)
    requires
        console_tint(t),
    ensures
        r@ == fg_painted(t, s@),
{
    match t {
        Tint::Red => owo_red(s),
        Tint::Green => owo_green(s),
        Tint::Yellow => owo_yellow(s),
        _ => owo_cyan(s),
    }
}

/// Bold text.
pub fn bold(s: &str) -> (r: String)
    ensures
        r@ == bold_painted(s@),
{
    owo_bold(s)
}

/// Text in a console colour when colouring is on, else unchanged (what owo-colors'
/// `if_supports_color` gives for the decision `colour`).
pub open spec fn fg_if(colour: bool, t: Tint, s: Seq<char>) -> Seq<char> {
    if colour {
        fg_painted(t, s)
    } else {
        s
    }
}

/// Bold text when colouring is on, else unchanged.
pub open spec fn bold_if(colour: bool, s: Seq<char>) -> Seq<char> {
    if colour {
        bold_painted(s)
    } else {
        s
    }
}

/// `fg` when colouring is on, else the text unchanged.
pub fn fg_when(colour: bool, t: Tint, s: &str) -> (r: String)
    requires
        console_tint(t),
    ensures
        r@ == fg_if(colour, t, s@),
{
    if colour {
        fg(t, s)
    } else {
        crate::text::owned(s)
    }
}

/// `bold` when colouring is on, else the text unchanged.
pub fn bold_when(colour: bool, s: &str) -> (r: String)
    ensures
        r@ == bold_if(colour, s@),
{
    if colour {
        bold(s)
    } else {
        crate::text::owned(s)
    }
}

/// Whether the standard output supports basic colours, as the terminal reports it.
///
/// Trusted: supports-color's `on_cached(Stream::Stdout)`, keeping only the
/// `has_basic` field of the level it finds. This is the test that owo-colors'
/// `if_supports_color(Stdout, ..)` makes when no override is set (the library sets
/// none). The answer depends on the terminal and the environment and is left
/// unsaid.
#[verifier::external_body]
fn stdout_colour_level() -> (r: Option<bool>) {
    supports_color::on_cached(supports_color::Stream::Stdout).map(|level| level.has_basic)
}

/// Whether console text gets colours for a reported colour level: only when the
/// terminal reports one with basic colours.
pub fn colour_decision(level: Option<bool>) -> (r: bool)
    ensures
        r == (level == Some(true)),
{
    match level {
        Some(basic) => basic,
        None => false,
    }
}

/// Whether console text gets colours: only when the terminal reports basic colour
/// support.
pub fn colours_enabled() -> (r: bool)
{
    colour_decision(stdout_colour_level())
}

/// The end of the run of characters in `lo..=hi` that starts at `i`.
pub open spec fn run_end(s: Seq<char>, i: int, lo: int, hi: int) -> int
    decreases s.len() - i,
{
    if 0 <= i < s.len() && lo <= s[i] as int <= hi {
        run_end(s, i + 1, lo, hi)
    } else {
        i
    }
}

/// A run ends at or after where it starts.
pub proof fn lemma_run_end(s: Seq<char>, i: int, lo: int, hi: int)
    ensures
        run_end(s, i, lo, hi) >= i,
    decreases s.len() - i,
{
    if 0 <= i < s.len() && lo <= s[i] as int <= hi {
        lemma_run_end(s, i + 1, lo, hi);
    }
}

/// Where an escape sequence `ESC [ [0x30-0x3f]* [0x20-0x2f]* [0x40-0x7e]` that
/// starts at `i` ends, when one does. The three classes do not overlap, so the
/// longest runs are the only way to match.
pub open spec fn escape_end(s: Seq<char>, i: int) -> Option<int> {
    if 0 <= i && i + 1 < s.len() && s[i] == '\x1b' && s[i + 1] == '[' {
        let k = run_end(s, run_end(s, i + 2, 0x30, 0x3f), 0x20, 0x2f);
        if k < s.len() && 0x40 <= s[k] as int <= 0x7e {
            Some(k + 1)
        } else {
            None
        }
    } else {
        None
    }
}

/// What is left of `s` from position `i` on once every escape sequence, found left
/// to right, is removed.
pub open spec fn stripped_from(s: Seq<char>, i: int) -> Seq<char>
    decreases s.len() - i,
{
    if i < 0 || i >= s.len() {
        Seq::empty()
    } else {
        match escape_end(s, i) {
            Some(e) => {
                proof {
                    lemma_run_end(s, i + 2, 0x30, 0x3f);
                    lemma_run_end(s, run_end(s, i + 2, 0x30, 0x3f), 0x20, 0x2f);
                }
                stripped_from(s, e)
            },
            None => seq![s[i]] + stripped_from(s, i + 1),
        }
    }
}

/// What the strip-ansi crate leaves of a text: the text with every escape sequence
/// `ESC [ [0x30-0x3f]* [0x20-0x2f]* [0x40-0x7e]`, found left to right, removed.
pub open spec fn ansi_stripped(s: Seq<char>) -> Seq<char> {
    stripped_from(s, 0)
}

/// Removes ANSI escape sequences.
///
/// Trusted: `strip_ansi::strip_ansi`, which replaces every match of ansi-regex's
/// pattern `\x1b\[([\x30-\x3f]*[\x20-\x2f]*[\x40-\x7e])`, leftmost first and not
/// overlapping, by nothing: `ansi_stripped`.
#[verifier::external_body]
pub(crate) fn strip_ansi(s: &str) -> (r: String)
    ensures
        r@ == ansi_stripped(s@),
{
    strip_ansi::strip_ansi(s)
}

} // verus!
