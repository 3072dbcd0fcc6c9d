//! Styled text: what a session is sent, as spans of text that are shown
//! plain, in a colour, or bold in a colour, and the strings that those
//! spans are turned into.

use vstd::prelude::*;
use vstd::string::*;
use colored::{Color, Colorize};
use crate::text::texts;

verus! {

/// The colours of `colored::Color`, variant by variant as its source lists
/// them.
#[verifier::external_type_specification]
pub struct ExColor(Color);

/// How a span of text is shown.
#[derive(Clone, Copy, Debug, PartialEq, Eq)]
pub enum Style {
    /// As it is.
    Plain,
    /// In a colour.
    Tint(Color),
    /// Bold and in a colour.
    Strong(Color),
}

/// A run of text with one style. `T` is `String` in running code and
/// `Seq<char>` in contracts.
#[derive(Debug, PartialEq, Eq)]
pub struct Span<T> {
    pub text: T,
    pub style: Style,
}

impl View for Span<String> {
    type V = Span<Seq<char>>;

    open spec fn view(&self) -> Span<Seq<char>> {
        Span { text: self.text@, style: self.style }
    }
}

/// The views of a list of spans, in order.
pub open spec fn span_views(spans: Seq<Span<String>>) -> Seq<Span<Seq<char>>> {
    Seq::new(spans.len(), |i: int| spans[i]@)
}

/// A plain span.
pub open spec fn plain(text: Seq<char>) -> Span<Seq<char>> {
    Span { text, style: Style::Plain }
}

/// A span in a colour.
pub open spec fn tint(text: Seq<char>, color: Color) -> Span<Seq<char>> {
    Span { text, style: Style::Tint(color) }
}

/// A bold span in a colour.
pub open spec fn strong(text: Seq<char>, color: Color) -> Span<Seq<char>> {
    Span { text, style: Style::Strong(color) }
}

impl Span<String> {
    /// A plain span holding `text`.
    pub fn plain(text: &str) -> (s: Span<String>)
        ensures
            s@ == plain(text@),
    {
        Span { text: String::from_str(text), style: Style::Plain }
    }

    /// A span holding `text` in `color`.
    pub fn tint(text: &str, color: Color) -> (s: Span<String>)
        ensures
            s@ == tint(text@, color),
    {
        Span { text: String::from_str(text), style: Style::Tint(color) }
    }

    /// A bold span holding `text` in `color`.
    pub fn strong(text: &str, color: Color) -> (s: Span<String>)
        ensures
            s@ == strong(text@, color),
    {
        Span { text: String::from_str(text), style: Style::Strong(color) }
    }
}

/// All of `parts`, one after the other.
pub open spec fn concat_all(parts: Seq<Seq<char>>) -> Seq<char>
    decreases parts.len(),
{
    if parts.len() == 0 {
        Seq::empty()
    } else {
        concat_all(parts.drop_last()) + parts.last()
    }
}

/// The escape character, which opens every sequence that steers a
/// terminal.
pub open spec fn is_escape(c: char) -> bool {
    c == '\u{1b}'
}

/// The sequence that ends all styling.
pub open spec fn reset_seq() -> Seq<char> {
    seq!['\u{1b}', '[', '0', 'm']
}

/// Whether `text` holds the sequence that ends all styling.
pub open spec fn holds_reset(text: Seq<char>) -> bool {
    exists|i: int|
        0 <= i && i + 4 <= text.len() && #[trigger] text.subrange(i, i + 4) == reset_seq()
}

/// The code that selects one of the sixteen named colours for the text
/// that follows.
pub open spec fn named_code(color: Color) -> Seq<char> {
    match color {
        Color::Black => seq!['3', '0'],
        Color::Red => seq!['3', '1'],
        Color::Green => seq!['3', '2'],
        Color::Yellow => seq!['3', '3'],
        Color::Blue => seq!['3', '4'],
        Color::Magenta => seq!['3', '5'],
        Color::Cyan => seq!['3', '6'],
        Color::White => seq!['3', '7'],
        Color::BrightBlack => seq!['9', '0'],
        Color::BrightRed => seq!['9', '1'],
        Color::BrightGreen => seq!['9', '2'],
        Color::BrightYellow => seq!['9', '3'],
        Color::BrightBlue => seq!['9', '4'],
        Color::BrightMagenta => seq!['9', '5'],
        Color::BrightCyan => seq!['9', '6'],
        Color::BrightWhite => seq!['9', '7'],
        Color::TrueColor { .. } => Seq::empty(),
    }
}

/// Whether `code` may select `color`: for a named colour its own code,
/// for any other some digits and semicolons, which depend on what the
/// terminal is said to support.
pub open spec fn selects(code: Seq<char>, color: Color) -> bool {
    if color is TrueColor {
        forall|i: int| 0 <= i < code.len() ==> '0' <= #[trigger] code[i] <= '9' || code[i] == ';'
    } else {
        code == named_code(color)
    }
}

/// What opens a styled text: the escape character and a bracket, `1;`
/// where the text is bold, the code of the colour, and `m`.
pub open spec fn style_prefix(code: Seq<char>, bold: bool) -> Seq<char> {
    seq!['\u{1b}', '['] + (if bold {
        seq!['1', ';']
    } else {
        Seq::empty()
    }) + code + seq!['m']
}

/// `out` is `text` between the sequences that switch a colour on and all
/// styling off.
pub open spec fn coloured(text: Seq<char>, color: Color, bold: bool, out: Seq<char>) -> bool {
    exists|code: Seq<char>| #[trigger]
        selects(code, color) && out == style_prefix(code, bold) + text + reset_seq()
}

/// `out` is what `colored` may make of `text` in `color`: the text as it
/// is where colouring is off, and else the text between the two
/// sequences. Of a text that itself holds the sequence that ends all
/// styling, nothing is said.
pub open spec fn painted(text: Seq<char>, color: Color, bold: bool, out: Seq<char>) -> bool {
    holds_reset(text) || out == text || coloured(text, color, bold, out)
}

/// `out` is what `span` may be shown as: a plain span as it is, any other
/// as `colored` may paint it.
pub open spec fn shown_as(span: Span<Seq<char>>, out: Seq<char>) -> bool {
    match span.style {
        Style::Plain => out == span.text,
        Style::Tint(color) => painted(span.text, color, false, out),
        Style::Strong(color) => painted(span.text, color, true, out),
    }
}

/// `parts` holds for each span what it may be shown as.
pub open spec fn painted_as(spans: Seq<Span<Seq<char>>>, parts: Seq<Seq<char>>) -> bool {
    &&& parts.len() == spans.len()
    &&& forall|i: int| 0 <= i < spans.len() ==> shown_as(#[trigger] spans[i], parts[i])
}

/// `out` is what `spans` may be shown as, one after the other.
pub open spec fn renders(spans: Seq<Span<Seq<char>>>, out: Seq<char>) -> bool {
    exists|parts: Seq<Seq<char>>| #[trigger] painted_as(spans, parts) && out == concat_all(parts)
}

/// A text without an escape character does not hold the sequence that
/// ends all styling.
pub proof fn lemma_unescaped_holds_no_reset(text: Seq<char>)
    requires
        forall|i: int| 0 <= i < text.len() ==> #[trigger] text[i] != '\u{1b}',
    ensures
        !holds_reset(text),
{
    if holds_reset(text) {
        let i = choose|i: int|
            0 <= i && i + 4 <= text.len() && #[trigger] text.subrange(i, i + 4) == reset_seq();
        assert(text.subrange(i, i + 4)[0] == text[i]);
        assert(reset_seq()[0] == '\u{1b}');
    }
}

/// What a single span is rendered as is what that span is shown as.
pub proof fn lemma_renders_one(span: Span<Seq<char>>, out: Seq<char>)
    requires
        renders(seq![span], out),
    ensures
        shown_as(span, out),
{
    let parts = choose|parts: Seq<Seq<char>>| #[trigger]
        painted_as(seq![span], parts) && out == concat_all(parts);
    assert(shown_as(seq![span][0], parts[0]));
    assert(painted_as(seq![span], parts));
    assert(parts.len() == 1);
    assert(parts.drop_last().len() == 0);
    assert(concat_all(parts.drop_last()) =~= Seq::<char>::empty());
    assert(parts.last() == parts[0]);
    assert(concat_all(parts) =~= parts[0]);
}

/// The colour that `colored` reads out of a name that is not in its list
/// as it stands there, where it reads one.
pub uninterp spec fn color_named(name: Seq<char>) -> Option<Color>;

/// The colour of each name that `colored` lists, written in lower case.
pub open spec fn listed_color(name: Seq<char>) -> Option<Color> {
    if name == "black"@ {
        Some(Color::Black)
    } else if name == "red"@ {
        Some(Color::Red)
    } else if name == "green"@ {
        Some(Color::Green)
    } else if name == "yellow"@ {
        Some(Color::Yellow)
    } else if name == "blue"@ {
        Some(Color::Blue)
    } else if name == "magenta"@ {
        Some(Color::Magenta)
    } else if name == "purple"@ {
        Some(Color::Magenta)
    } else if name == "cyan"@ {
        Some(Color::Cyan)
    } else if name == "white"@ {
        Some(Color::White)
    } else if name == "bright black"@ {
        Some(Color::BrightBlack)
    } else if name == "bright red"@ {
        Some(Color::BrightRed)
    } else if name == "bright green"@ {
        Some(Color::BrightGreen)
    } else if name == "bright yellow"@ {
        Some(Color::BrightYellow)
    } else if name == "bright blue"@ {
        Some(Color::BrightBlue)
    } else if name == "bright magenta"@ {
        Some(Color::BrightMagenta)
    } else if name == "bright cyan"@ {
        Some(Color::BrightCyan)
    } else if name == "bright white"@ {
        Some(Color::BrightWhite)
    } else {
        None
    }
}

/// The colour that a name is read as, where it is read as one: for a
/// name of the list the colour listed, for any other what `colored` makes
/// of it once its case is lowered.
pub open spec fn color_of(name: Seq<char>) -> Option<Color> {
    if listed_color(name) is Some {
        listed_color(name)
    } else {
        color_named(name)
    }
}

/// Reads a colour name through `colored`, with `str::parse`, that is
/// `Color::from_str`, which lowers the case of the name and looks it up in
/// a list of seventeen names. The result is fixed by the name; for a name
/// of the list as it stands there, in lower case, it is the colour listed.
#[verifier::external_body]
pub(crate) fn parse_color(name: &str) -> (color: Option<Color>)
    ensures
        listed_color(name@) is Some ==> color == listed_color(name@),
        listed_color(name@) is None ==> color == color_named(name@),
{
    name.parse::<Color>().ok()
}

/// Formats `text` in `color` through `colored`: `Colorize::color`, then
/// `to_string`. Whether colouring is on is decided by the environment of
/// the process. Where it is off the text comes back as it is; where it is
/// on, and the text holds no sequence of its own that ends all styling,
/// it comes back between the sequence that selects the colour and the one
/// that ends all styling.
#[verifier::external_body]
pub(crate) fn paint(text: &str, color: Color) -> (out: String)
    ensures
        painted(text@, color, false, out@),
{
    text.color(color).to_string()
}

/// Formats `text` bold and in `color` through `colored`: `Colorize::color`
/// and `Colorize::bold`, then `to_string`. As `paint`, with `1;` before
/// the code of the colour.
#[verifier::external_body]
pub(crate) fn paint_bold(text: &str, color: Color) -> (out: String)
    ensures
        painted(text@, color, true, out@),
{
    text.color(color).bold().to_string()
}

/// Turns one span into the string that is sent: a plain span as it is,
/// any other as `colored` formats it.
pub fn show(span: &Span<String>) -> (out: String)
    ensures
        shown_as(span@, out@),
{
    match span.style {
        Style::Plain => span.text.clone(),
        Style::Tint(color) => paint(span.text.as_str(), color),
        Style::Strong(color) => paint_bold(span.text.as_str(), color),
    }
}

/// Turns a list of spans into strings, span by span.
pub fn show_all(spans: &Vec<Span<String>>) -> (parts: Vec<String>)
    ensures
        painted_as(span_views(spans@), texts(parts@)),
{
    let mut parts: Vec<String> = Vec::new();
    let n = spans.len();
    let mut i: usize = 0;
    while i < n
        invariant
            i <= n,
            n == spans.len(),
            painted_as(span_views(spans@).take(i as int), texts(parts@)),
        decreases n - i,
    {
        let part = show(&spans[i]);
        parts.push(part);
        proof {
            let before = span_views(spans@).take(i as int);
            let after = span_views(spans@).take(i + 1);
            assert forall|j: int| 0 <= j < after.len() implies shown_as(
                #[trigger] after[j],
                texts(parts@)[j],
            ) by {
                if j < i {
                    assert(before[j] == after[j]);
                }
            }
        }
        i = i + 1;
    }
    proof {
        assert(span_views(spans@).take(n as int) =~= span_views(spans@));
    }
    parts
}

/// Joins `parts` into one string.
pub fn join(parts: &Vec<String>) -> (out: String)
    ensures
        out@ == concat_all(texts(parts@)),
{
    let mut out = String::new();
    let n = parts.len();
    let mut i: usize = 0;
    while i < n
        invariant
            i <= n,
            n == parts.len(),
            out@ == concat_all(texts(parts@).take(i as int)),
        decreases n - i,
    {
        proof {
            let t = texts(parts@);
            assert(t.take(i + 1).drop_last() =~= t.take(i as int));
            assert(t.take(i + 1).last() == parts@[i as int]@);
        }
        out.append(parts[i].as_str());
        i = i + 1;
    }
    proof {
        assert(texts(parts@).take(n as int) =~= texts(parts@));
    }
    out
}

/// Turns `spans` into the string that is sent: each plain span as it is,
/// each other span as `colored` formats it.
pub fn render(spans: &Vec<Span<String>>) -> (out: String)
    ensures
        renders(span_views(spans@), out@),
{
    let parts = show_all(spans);
    join(&parts)
}

} // verus!
