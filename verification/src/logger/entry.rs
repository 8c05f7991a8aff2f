//! A log entry, and how it reads on the console and in the terminal panel.
use super::level::level_name;
use super::{components_view, Component, LogLevel, Style};
use crate::clock::{chrono_format, local_now, Timestamp, ENTRY_FORMAT};
use crate::paint::{
    ansi_stripped, bold_if, bold_when, colours_enabled, fg_if, fg_when, strip_ansi, TextStyle,
    Tint,
};
use crate::text::{chars_of, owned, push_str, str_eq, string_of_range};
use vstd::prelude::*;
use vstd::std_specs::cmp::PartialEqSpecImpl;

verus! {

/// Where a logged command came from: its guild (outside DMs), its author and its
/// channel.
#[derive(Clone, Copy, Debug, PartialEq, Eq, Structural)]
pub struct Origin {
    pub guild: Option<u64>,
    pub user: u64,
    pub channel: u64,
}

/// One log entry.
#[derive(Debug, Clone)]
pub struct Entry {
    pub level: LogLevel,
    pub components: Vec<Component>,
    pub timestamp: Timestamp,
    pub guild: Option<u64>,
    pub user: Option<u64>,
    pub channel: Option<u64>,
}

/// The guild, user and channel an entry records for an origin.
pub open spec fn origin_parts(origin: Option<Origin>) -> (Option<u64>, Option<u64>, Option<u64>) {
    match origin {
        Some(o) => (o.guild, Some(o.user), Some(o.channel)),
        None => (None, None, None),
    }
}

impl Entry {
    /// An entry at a given instant.
    pub fn at(level: LogLevel, components: Vec<Component>, timestamp: Timestamp, origin: Option<
        Origin,
    >) -> (e: Entry)
        ensures
            e.level == level,
            e.components@ == components@,
            e.timestamp == timestamp,
            (e.guild, e.user, e.channel) == origin_parts(origin),
    {
        let (guild, user, channel) = match origin {
            Some(o) => (o.guild, Some(o.user), Some(o.channel)),
            None => (None, None, None),
        };
        Entry { level, components, timestamp, guild, user, channel }
    }

    /// An entry stamped with the local clock's current time.
    pub fn new(level: LogLevel, components: Vec<Component>, origin: Option<Origin>) -> (e: Entry)
        ensures
            e.level == level,
            e.components@ == components@,
            (e.guild, e.user, e.channel) == origin_parts(origin),
    {
        Entry::at(level, components, local_now(), origin)
    }

    /// The entry as one console line, colouring when the terminal supports it.
    pub fn to_string(&self) -> (s: String)
        ensures
            s@ == console_line(*self, true) || s@ == console_line(*self, false),
    {
        self.render_console(colours_enabled())
    }

    /// The entry as one console line, with colours when `colour` holds.
    pub fn render_console(&self, colour: bool) -> (s: String)
        ensures
            s@ == console_line(*self, colour),
    {
        let ts = self.timestamp.format(ENTRY_FORMAT);
        let mut s = fg_when(colour, Tint::Cyan, ts.as_str());
        push_str(&mut s, " ");
        let label = level_label_exec(colour, self.level);
        push_str(&mut s, label.as_str());
        push_str(&mut s, " ");
        let msg = message_console_exec(&self.components, colour);
        push_str(&mut s, msg.as_str());
        s
    }

    /// The entry as styled spans for the terminal panel: the timestamp in cyan, the
    /// level in bold in its colour, then each component in the look of its flags.
    pub fn spans(&self) -> (v: Vec<Span>)
        ensures
            spans_view(v@) == entry_spans(*self),
    {
        let mut v: Vec<Span> = Vec::new();
        let mut ts = self.timestamp.format(ENTRY_FORMAT);
        push_str(&mut ts, " ");
        v.push(Span { text: ts, style: TextStyle::plain().with_fg(Tint::Cyan) });
        let mut lv = owned("[");
        let name = self.level.to_string();
        push_str(&mut lv, name.as_str());
        push_str(&mut lv, "] ");
        v.push(Span { text: lv, style: TextStyle::plain().with_bold().with_fg(level_tint_exec(self.level)) });
        let ghost head = spans_view(v@);
        let mut i: usize = 0;
        while i < self.components.len()
            invariant
                i <= self.components@.len(),
                spans_view(v@) == head + components_view(self.components@).subrange(0, i as int).map_values(
                    |p: (Seq<char>, Style)| (p.0, tui_style(p.1)),
                ),
            decreases self.components.len() - i,
        {
            let c = &self.components[i];
            let ghost old_v = v@;
            v.push(Span { text: c.text.clone(), style: tui_style_exec(c.style) });
            assert(spans_view(v@) =~= spans_view(old_v).push((c.text@, tui_style(c.style))));
            i = i + 1;
            assert(components_view(self.components@).subrange(0, i as int).map_values(
                |p: (Seq<char>, Style)| (p.0, tui_style(p.1)),
            ) =~= components_view(self.components@).subrange(0, i - 1).map_values(
                |p: (Seq<char>, Style)| (p.0, tui_style(p.1)),
            ).push((c.text@, tui_style(c.style))));
            assert(spans_view(v@) =~= head + components_view(self.components@).subrange(0, i as int).map_values(
                |p: (Seq<char>, Style)| (p.0, tui_style(p.1)),
            ));
        }
        assert(components_view(self.components@).subrange(0, self.components@.len() as int)
            =~= components_view(self.components@));
        v
    }
}

impl PartialEq for Entry {
    fn eq(&self, other: &Self) -> (r: bool) {
        self.timestamp.same_instant_as(&other.timestamp)
    }
}

impl PartialEqSpecImpl for Entry {
    open spec fn obeys_eq_spec() -> bool {
        true
    }

    /// Two entries are equal when they were made at the same instant.
    open spec fn eq_spec(&self, other: &Self) -> bool {
        self.timestamp.same_instant(other.timestamp)
    }
}

// ---------------------------------------------------------------------------
// console rendering
// ---------------------------------------------------------------------------

/// A component's text with the colours of its flags applied in declaration order
/// (bold, red, green, yellow), each only when colouring is on.
pub open spec fn styled_text(t: Seq<char>, s: Style, colour: bool) -> Seq<char> {
    let t1 = if s.bold { bold_if(colour, t) } else { t };
    let t2 = if s.red { fg_if(colour, Tint::Red, t1) } else { t1 };
    let t3 = if s.green { fg_if(colour, Tint::Green, t2) } else { t2 };
    if s.yellow { fg_if(colour, Tint::Yellow, t3) } else { t3 }
}

/// A word that reads "true" once its escape sequences are stripped is painted
/// green, one that reads "false" red; other words stay as they are.
pub open spec fn bool_word(colour: bool, w: Seq<char>) -> Seq<char> {
    let st = ansi_stripped(w);
    if st == "true"@ {
        fg_if(colour, Tint::Green, w)
    } else if st == "false"@ {
        fg_if(colour, Tint::Red, w)
    } else {
        w
    }
}

/// The number of characters before the first space.
pub open spec fn word_len(s: Seq<char>) -> nat
    decreases s.len(),
{
    if s.len() == 0 || s[0] == ' ' {
        0
    } else {
        1 + word_len(s.drop_first())
    }
}

/// The text split at every single space, each word passed through `bool_word`, and
/// the words joined again with single spaces.
pub open spec fn words_coloured(s: Seq<char>, colour: bool) -> Seq<char>
    decreases s.len(),
{
    let k = word_len(s);
    if k >= s.len() {
        bool_word(colour, s)
    } else {
        bool_word(colour, s.take(k as int)) + seq![' '] + words_coloured(s.skip(k + 1 as int), colour)
    }
}

/// How one component reads on the console.
pub open spec fn component_console(c: (Seq<char>, Style), colour: bool) -> Seq<char> {
    words_coloured(styled_text(c.0, c.1, colour), colour)
}

/// The console text of the components, one after the other.
pub open spec fn message_console(cs: Seq<(Seq<char>, Style)>, colour: bool) -> Seq<char>
    decreases cs.len(),
{
    if cs.len() == 0 {
        Seq::empty()
    } else {
        message_console(cs.drop_last(), colour) + component_console(cs.last(), colour)
    }
}

/// The level in square brackets: INFO green and bold, WARN yellow and bold, ERROR red
/// and bold, COMMAND bold.
pub open spec fn level_label(colour: bool, l: LogLevel) -> Seq<char> {
    let t = "["@ + level_name(l) + "]"@;
    match l {
        LogLevel::Info => bold_if(colour, fg_if(colour, Tint::Green, t)),
        LogLevel::Warn => bold_if(colour, fg_if(colour, Tint::Yellow, t)),
        LogLevel::Error => bold_if(colour, fg_if(colour, Tint::Red, t)),
        LogLevel::Command => bold_if(colour, t),
    }
}

/// The console line of an entry: the timestamp in cyan, the level label and the
/// message, separated by single spaces.
pub open spec fn console_line(e: Entry, colour: bool) -> Seq<char> {
    fg_if(
        colour,
        Tint::Cyan,
        chrono_format(
            e.timestamp.secs_spec(),
            e.timestamp.nanos_spec(),
            e.timestamp.offset_spec(),
            ENTRY_FORMAT@,
        ),
    ) + " "@ + level_label(colour, e.level) + " "@ + message_console(
        components_view(e.components@),
        colour,
    )
}

fn level_label_exec(colour: bool, l: LogLevel) -> (s: String)
    ensures
        s@ == level_label(colour, l),
{
    let mut t = owned("[");
    let name = l.to_string();
    push_str(&mut t, name.as_str());
    push_str(&mut t, "]");
    match l {
        LogLevel::Info => {
            let g = fg_when(colour, Tint::Green, t.as_str());
            bold_when(colour, g.as_str())
        },
        LogLevel::Warn => {
            let g = fg_when(colour, Tint::Yellow, t.as_str());
            bold_when(colour, g.as_str())
        },
        LogLevel::Error => {
            let g = fg_when(colour, Tint::Red, t.as_str());
            bold_when(colour, g.as_str())
        },
        LogLevel::Command => bold_when(colour, t.as_str()),
    }
}

fn styled_text_exec(t: &str, s: Style, colour: bool) -> (r: String)
    ensures
        r@ == styled_text(t@, s, colour),
{
    let mut x = owned(t);
    if s.bold {
        x = bold_when(colour, x.as_str());
    }
    if s.red {
        x = fg_when(colour, Tint::Red, x.as_str());
    }
    if s.green {
        x = fg_when(colour, Tint::Green, x.as_str());
    }
    if s.yellow {
        x = fg_when(colour, Tint::Yellow, x.as_str());
    }
    x
}

fn bool_word_exec(colour: bool, w: &str) -> (r: String)
    ensures
        r@ == bool_word(colour, w@),
{
    let st = strip_ansi(w);
    if str_eq(st.as_str(), "true") {
        fg_when(colour, Tint::Green, w)
    } else if str_eq(st.as_str(), "false") {
        fg_when(colour, Tint::Red, w)
    } else {
        owned(w)
    }
}

proof fn lemma_word_len(t: Seq<char>, k: int)
    requires
        0 <= k <= t.len(),
        forall|j: int| 0 <= j < k ==> t[j] != ' ',
        k == t.len() || t[k] == ' ',
    ensures
        word_len(t) == k,
    decreases k,
{
    if k > 0 {
        lemma_word_len(t.drop_first(), k - 1);
    }
}

/// `words_coloured`, computed.
pub fn words_coloured_exec(s: &str, colour: bool) -> (r: String)
    ensures
        r@ == words_coloured(s@, colour),
{
    let v = chars_of(s);
    let n = v.len();
    let mut out = String::new();
    let mut start: usize = 0;
    let mut i: usize = 0;
    assert(v@.skip(0) =~= v@);
    loop
        invariant
            v@ == s@,
            n == v@.len(),
            start <= i <= n,
            forall|j: int| start <= j < i ==> v@[j] != ' ',
            out@ + words_coloured(v@.skip(start as int), colour) == words_coloured(s@, colour),
        decreases n - i, n - start,
    {
        let ghost t = v@.skip(start as int);
        if i == n {
            proof {
                lemma_word_len(t, (n - start) as int);
            }
            let w = string_of_range(&v, start, n);
            assert(w@ =~= t);
            let b = bool_word_exec(colour, w.as_str());
            push_str(&mut out, b.as_str());
            return out;
        }
        if v[i] == ' ' {
            proof {
                lemma_word_len(t, (i - start) as int);
            }
            let w = string_of_range(&v, start, i);
            assert(w@ =~= t.take((i - start) as int));
            assert(t.skip((i - start) + 1) =~= v@.skip(i + 1));
            let b = bool_word_exec(colour, w.as_str());
            let ghost before = out@;
            push_str(&mut out, b.as_str());
            crate::text::push_char(&mut out, ' ');
            assert(before + (b@ + seq![' '] + words_coloured(v@.skip(i + 1), colour)) =~= out@
                + words_coloured(v@.skip(i + 1), colour));
            start = i + 1;
            i = i + 1;
        } else {
            i = i + 1;
        }
    }
}

fn message_console_exec(cs: &Vec<Component>, colour: bool) -> (r: String)
    ensures
        r@ == message_console(components_view(cs@), colour),
{
    let mut out = String::new();
    let mut i: usize = 0;
    assert(components_view(cs@).subrange(0, 0) =~= Seq::<(Seq<char>, Style)>::empty());
    while i < cs.len()
        invariant
            i <= cs@.len(),
            out@ == message_console(components_view(cs@).subrange(0, i as int), colour),
        decreases cs.len() - i,
    {
        let c = &cs[i];
        let styled = styled_text_exec(c.text.as_str(), c.style, colour);
        let piece = words_coloured_exec(styled.as_str(), colour);
        push_str(&mut out, piece.as_str());
        i = i + 1;
        assert(components_view(cs@).subrange(0, i as int).drop_last() =~= components_view(cs@).subrange(0, i - 1));
    }
    assert(components_view(cs@).subrange(0, cs@.len() as int) =~= components_view(cs@));
    out
}

/// The texts of components, one after the other.
pub open spec fn plain_message(cs: Seq<(Seq<char>, Style)>) -> Seq<char>
    decreases cs.len(),
{
    if cs.len() == 0 {
        Seq::empty()
    } else {
        plain_message(cs.drop_last()) + cs.last().0
    }
}

proof fn lemma_word_len_bounds(s: Seq<char>)
    ensures
        word_len(s) <= s.len(),
        word_len(s) < s.len() ==> s[word_len(s) as int] == ' ',
    decreases s.len(),
{
    if s.len() > 0 && s[0] != ' ' {
        lemma_word_len_bounds(s.drop_first());
    }
}

/// Without colours, colour-coding the booleans of a text leaves it as it is.
pub proof fn law_words_uncoloured(s: Seq<char>)
    ensures
        words_coloured(s, false) == s,
    decreases s.len(),
{
    let k = word_len(s);
    lemma_word_len_bounds(s);
    if k < s.len() {
        law_words_uncoloured(s.skip(k + 1 as int));
        assert(s.take(k as int) + seq![' '] + s.skip(k + 1 as int) =~= s);
    }
}

/// Without colours, a message reads as its components' texts one after the other.
pub proof fn law_message_uncoloured(cs: Seq<(Seq<char>, Style)>)
    ensures
        message_console(cs, false) == plain_message(cs),
    decreases cs.len(),
{
    if cs.len() > 0 {
        law_message_uncoloured(cs.drop_last());
        law_words_uncoloured(cs.last().0);
    }
}

/// Without colours, an entry's console line is its timestamp, its level in square
/// brackets and its components' texts, separated by single spaces.
pub proof fn law_console_line_uncoloured(e: Entry)
    ensures
        console_line(e, false) == chrono_format(
            e.timestamp.secs_spec(),
            e.timestamp.nanos_spec(),
            e.timestamp.offset_spec(),
            ENTRY_FORMAT@,
        ) + " "@ + ("["@ + level_name(e.level) + "]"@) + " "@ + plain_message(components_view(e.components@)),
{
    law_message_uncoloured(components_view(e.components@));
}

// ---------------------------------------------------------------------------
// terminal panel rendering
// ---------------------------------------------------------------------------

/// A piece of styled text in the terminal panel.
#[derive(Debug, Clone)]
pub struct Span {
    pub text: String,
    pub style: TextStyle,
}

/// The views of spans: their characters and looks.
pub open spec fn spans_view(v: Seq<Span>) -> Seq<(Seq<char>, TextStyle)> {
    v.map_values(|s: Span| (s.text@, s.style))
}

/// The terminal look of a component's flags, applied in declaration order: bold
/// makes it bold, and each colour flag replaces the foreground, so the last one set
/// wins.
pub open spec fn tui_style(s: Style) -> TextStyle {
    TextStyle {
        fg: if s.yellow {
            Some(Tint::Yellow)
        } else if s.green {
            Some(Tint::Green)
        } else if s.red {
            Some(Tint::Red)
        } else {
            None
        },
        bg: None,
        bold: s.bold,
    }
}

/// The colour of a level's label in the terminal panel.
pub open spec fn level_tint(l: LogLevel) -> Tint {
    match l {
        LogLevel::Info => Tint::Green,
        LogLevel::Warn => Tint::Yellow,
        LogLevel::Error => Tint::Red,
        LogLevel::Command => Tint::White,
    }
}

/// The spans of an entry in the terminal panel.
pub open spec fn entry_spans(e: Entry) -> Seq<(Seq<char>, TextStyle)> {
    seq![
        (
            chrono_format(
                e.timestamp.secs_spec(),
                e.timestamp.nanos_spec(),
                e.timestamp.offset_spec(),
                ENTRY_FORMAT@,
            ) + " "@,
            TextStyle { fg: Some(Tint::Cyan), bg: None, bold: false },
        ),
        ("["@ + level_name(e.level) + "] "@, TextStyle { fg: Some(level_tint(e.level)), bg: None, bold: true }),
    ] + components_view(e.components@).map_values(|p: (Seq<char>, Style)| (p.0, tui_style(p.1)))
}

fn level_tint_exec(l: LogLevel) -> (t: Tint)
    ensures
        t == level_tint(l),
{
    match l {
        LogLevel::Info => Tint::Green,
        LogLevel::Warn => Tint::Yellow,
        LogLevel::Error => Tint::Red,
        LogLevel::Command => Tint::White,
    }
}

fn tui_style_exec(s: Style) -> (t: TextStyle)
    ensures
        t == tui_style(s),
{
    let mut t = TextStyle::plain();
    if s.bold {
        t = t.with_bold();
    }
    if s.red {
        t = t.with_fg(Tint::Red);
    }
    if s.green {
        t = t.with_fg(Tint::Green);
    }
    if s.yellow {
        t = t.with_fg(Tint::Yellow);
    }
    t
}

} // verus!
