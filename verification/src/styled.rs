//! Text styling with ANSI escape sequences.
//!
//! A style is a foreground colour, a background colour and six emphasis
//! flags. Rendering wraps the text in one "select graphic rendition"
//! sequence that lists the codes of everything that is set, and a reset
//! sequence behind it. A style with nothing set leaves the text as it is.

use crate::text::{decimal, push_decimal};
use vstd::prelude::*;

verus! {

/// The colours a text or its background can have.
#[derive(Debug, Clone, Copy)]
pub enum Color {
    /// Black color.
    Black,
    /// Red color.
    Red,
    /// Green color.
    Green,
    /// Yellow color.
    Yellow,
    /// Blue color.
    Blue,
    /// Magenta color.
    Magenta,
    /// Cyan color.
    Cyan,
    /// White color.
    White,
    /// Bright Black color.
    BrightBlack,
    /// Bright Red color.
    BrightRed,
    /// Bright Green color.
    BrightGreen,
    /// Bright Yellow color.
    BrightYellow,
    /// Bright Blue color.
    BrightBlue,
    /// Bright Magenta color.
    BrightMagenta,
    /// Bright Cyan color.
    BrightCyan,
    /// Bright White color.
    BrightWhite,
    /// A foreground code of the caller's choice.
    ANSI(u8),
}

impl Color {
    /// The code that selects this colour for the text.
    pub open spec fn code(self) -> nat {
        match self {
            Color::Black => 30,
            Color::Red => 31,
            Color::Green => 32,
            Color::Yellow => 33,
            Color::Blue => 34,
            Color::Magenta => 35,
            Color::Cyan => 36,
            Color::White => 37,
            Color::BrightBlack => 90,
            Color::BrightRed => 91,
            Color::BrightGreen => 92,
            Color::BrightYellow => 93,
            Color::BrightBlue => 94,
            Color::BrightMagenta => 95,
            Color::BrightCyan => 96,
            Color::BrightWhite => 97,
            Color::ANSI(c) => c as nat,
        }
    }

    /// The code that selects this colour for the background: ten above the
    /// foreground code.
    pub open spec fn background_code(self) -> nat {
        self.code() + 10
    }

    /// Whether the background code fits the byte it is computed in. Every
    /// named colour does; a custom code does up to 245.
    pub open spec fn has_background(self) -> bool {
        self.background_code() <= u8::MAX
    }

    /// Converts a color to its ANSI foreground variant.
    pub fn fg_code(self) -> (c: u8)
        ensures
            c == self.code(),
    {
        match self {
            Color::Black => 30,
            Color::Red => 31,
            Color::Green => 32,
            Color::Yellow => 33,
            Color::Blue => 34,
            Color::Magenta => 35,
            Color::Cyan => 36,
            Color::White => 37,
            Color::BrightBlack => 90,
            Color::BrightRed => 91,
            Color::BrightGreen => 92,
            Color::BrightYellow => 93,
            Color::BrightBlue => 94,
            Color::BrightMagenta => 95,
            Color::BrightCyan => 96,
            Color::BrightWhite => 97,
            Color::ANSI(c) => c,
        }
    }

    /// Converts a color to its ANSI background variant.
    pub fn bg_code(self) -> (c: u8)
        requires
            self.has_background(),
        ensures
            c == self.background_code(),
    {
        self.fg_code() + 10
    }
}

/// One of the six emphasis flags of a style.
#[derive(Debug, Clone, Copy)]
pub enum Emphasis {
    /// Heavier weight; code 1.
    Bold,
    /// Slanted; code 3.
    Italic,
    /// A line under the text; code 4.
    Underline,
    /// Blinking; code 5.
    Blink,
    /// Foreground and background swapped; code 7.
    Reverse,
    /// A line through the text; code 9.
    Strikethrough,
}

/// What a text is decorated with: two optional colours and six flags, each
/// independent of the others.
#[derive(Debug, Clone, Copy)]
pub struct StyleSpec {
    /// The colour of the text, if any.
    pub fg: Option<Color>,
    /// The colour of the background, if any.
    pub bg: Option<Color>,
    pub bold: bool,
    pub italic: bool,
    pub underline: bool,
    pub blink: bool,
    pub reverse: bool,
    pub strikethrough: bool,
}

impl StyleSpec {
    /// The style with no colour and no flag.
    pub open spec fn plain() -> StyleSpec {
        StyleSpec {
            fg: None,
            bg: None,
            bold: false,
            italic: false,
            underline: false,
            blink: false,
            reverse: false,
            strikethrough: false,
        }
    }

    /// This style with the foreground colour set to `color`.
    pub open spec fn with_fg(self, color: Color) -> StyleSpec {
        StyleSpec { fg: Some(color), ..self }
    }

    /// This style with the background colour set to `color`.
    pub open spec fn with_bg(self, color: Color) -> StyleSpec {
        StyleSpec { bg: Some(color), ..self }
    }

    /// This style with one emphasis flag switched on.
    pub open spec fn with(self, emphasis: Emphasis) -> StyleSpec {
        match emphasis {
            Emphasis::Bold => StyleSpec { bold: true, ..self },
            Emphasis::Italic => StyleSpec { italic: true, ..self },
            Emphasis::Underline => StyleSpec { underline: true, ..self },
            Emphasis::Blink => StyleSpec { blink: true, ..self },
            Emphasis::Reverse => StyleSpec { reverse: true, ..self },
            Emphasis::Strikethrough => StyleSpec { strikethrough: true, ..self },
        }
    }

    /// Whether the style can be rendered: its background code, if it has
    /// one, fits a byte.
    pub open spec fn renderable(self) -> bool {
        self.bg matches Some(c) ==> c.has_background()
    }

    /// Whether the style can be rendered.
    pub fn is_renderable(&self) -> (renderable: bool)
        ensures
            renderable == self.renderable(),
    {
        match self.bg {
            Some(color) => color.fg_code() <= 245,
            None => true,
        }
    }

    /// A style with nothing set.
    pub fn new() -> (spec: StyleSpec)
        ensures
            spec == StyleSpec::plain(),
    {
        StyleSpec {
            fg: None,
            bg: None,
            bold: false,
            italic: false,
            underline: false,
            blink: false,
            reverse: false,
            strikethrough: false,
        }
    }
}

/// The contribution of one optional code to the code list.
pub open spec fn code_if(present: bool, code: nat) -> Seq<nat> {
    if present {
        seq![code]
    } else {
        Seq::empty()
    }
}

/// The codes of a style in the order they are written: foreground,
/// background, then bold 1, italic 3, underline 4, blink 5, reverse 7 and
/// strikethrough 9, each only if set.
pub open spec fn sgr_codes(spec: StyleSpec) -> Seq<nat> {
    code_if(spec.fg is Some, spec.fg.unwrap().code())
        + code_if(spec.bg is Some, spec.bg.unwrap().background_code())
        + code_if(spec.bold, 1)
        + code_if(spec.italic, 3)
        + code_if(spec.underline, 4)
        + code_if(spec.blink, 5)
        + code_if(spec.reverse, 7)
        + code_if(spec.strikethrough, 9)
}

/// The codes in decimal, with a semicolon between neighbours.
pub open spec fn join_codes(codes: Seq<nat>) -> Seq<char>
    decreases codes.len(),
{
    if codes.len() == 0 {
        Seq::empty()
    } else if codes.len() == 1 {
        decimal(codes[0])
    } else {
        join_codes(codes.drop_last()) + seq![';'] + decimal(codes.last())
    }
}

/// The text as the style decorates it. With no code the text itself; else
/// the escape character, `[`, the joined codes, `m`, the text, and the
/// reset sequence.
pub open spec fn styled(text: Seq<char>, spec: StyleSpec) -> Seq<char> {
    let codes = sgr_codes(spec);
    if codes.len() == 0 {
        text
    } else {
        "\x1B["@ + join_codes(codes) + "m"@ + text + "\x1B[0m"@
    }
}

/// The byte codes as numbers.
pub open spec fn code_values(codes: Seq<u8>) -> Seq<nat> {
    codes.map_values(|c: u8| c as nat)
}

/// Appends `code` to the list if `present`.
fn push_code_if(codes: &mut Vec<u8>, present: bool, code: u8)
    ensures
        code_values(final(codes)@) == code_values(old(codes)@) + code_if(present, code as nat),
{
    if present {
        codes.push(code);
    }
    assert(code_values(codes@) =~= code_values(old(codes)@) + code_if(present, code as nat));
}

/// Appends the codes to `out`, in decimal and separated by semicolons.
fn push_joined(out: &mut String, codes: &Vec<u8>)
    ensures
        final(out)@ == old(out)@ + join_codes(code_values(codes@)),
{
    let mut i: usize = 0;
    while i < codes.len()
        invariant
            i <= codes.len(),
            out@ == old(out)@ + join_codes(code_values(codes@.take(i as int))),
        decreases codes.len() - i,
    {
        let ghost before = code_values(codes@.take(i as int));
        let ghost after = code_values(codes@.take(i + 1));
        assert(after.drop_last() =~= before);
        assert(after.last() == codes@[i as int] as nat);
        if i > 0 {
            proof {
                reveal_strlit(";");
                assert(";"@ =~= seq![';']);
            }
            out.append(";");
        }
        push_decimal(out, codes[i] as u128);
        i += 1;
    }
    assert(codes@.take(i as int) =~= codes@);
}

/// Decorates `text` as `spec` says.
pub fn style(text: &str, spec: &StyleSpec) -> (out: String)
    requires
        spec.renderable(),
    ensures
        out@ == styled(text@, *spec),
{
    let mut codes: Vec<u8> = Vec::new();
    assert(code_values(codes@) =~= Seq::<nat>::empty());
    match spec.fg {
        Some(fg) => push_code_if(&mut codes, true, fg.fg_code()),
        None => push_code_if(&mut codes, false, 0),
    }
    match spec.bg {
        Some(bg) => push_code_if(&mut codes, true, bg.bg_code()),
        None => push_code_if(&mut codes, false, 0),
    }
    push_code_if(&mut codes, spec.bold, 1);
    push_code_if(&mut codes, spec.italic, 3);
    push_code_if(&mut codes, spec.underline, 4);
    push_code_if(&mut codes, spec.blink, 5);
    push_code_if(&mut codes, spec.reverse, 7);
    push_code_if(&mut codes, spec.strikethrough, 9);
    assert(code_values(codes@) =~= sgr_codes(*spec));
    if codes.len() == 0 {
        return text.to_owned();
    }
    let mut out = String::new();
    out.append("\x1B[");
    push_joined(&mut out, &codes);
    out.append("m");
    out.append(text);
    out.append("\x1B[0m");
    out
}

/// Represents a piece of text with optional color and formatting.
pub struct StyledText<'a> {
    text: &'a str,
    style: StyleSpec,
}

impl<'a> View for StyledText<'a> {
    type V = (Seq<char>, StyleSpec);

    /// The text and its style.
    closed spec fn view(&self) -> (Seq<char>, StyleSpec) {
        (self.text@, self.style)
    }
}

impl<'a> StyledText<'a> {
    /// Creates a new `StyledText` instance with no colors or formatting
    /// applied.
    pub fn new(text: &'a str) -> (styled: Self)
        ensures
            styled@ == (text@, StyleSpec::plain()),
    {
        Self { text, style: StyleSpec::new() }
    }

    /// Sets the foreground color of the text.
    pub fn fg(self, color: Color) -> (styled: Self)
        ensures
            styled@ == (self@.0, self@.1.with_fg(color)),
    {
        let mut styled = self;
        styled.style.fg = Some(color);
        styled
    }

    /// Sets the background color of the text.
    pub fn bg(self, color: Color) -> (styled: Self)
        ensures
            styled@ == (self@.0, self@.1.with_bg(color)),
    {
        let mut styled = self;
        styled.style.bg = Some(color);
        styled
    }

    /// Enables bold formatting for the text.
    pub fn bold(self) -> (styled: Self)
        ensures
            styled@ == (self@.0, self@.1.with(Emphasis::Bold)),
    {
        let mut styled = self;
        styled.style.bold = true;
        styled
    }

    /// Enables italic formatting for the text.
    pub fn italic(self) -> (styled: Self)
        ensures
            styled@ == (self@.0, self@.1.with(Emphasis::Italic)),
    {
        let mut styled = self;
        styled.style.italic = true;
        styled
    }

    /// Enables underline formatting for the text.
    pub fn underline(self) -> (styled: Self)
        ensures
            styled@ == (self@.0, self@.1.with(Emphasis::Underline)),
    {
        let mut styled = self;
        styled.style.underline = true;
        styled
    }

    /// Enables blink effect for the text.
    pub fn blink(self) -> (styled: Self)
        ensures
            styled@ == (self@.0, self@.1.with(Emphasis::Blink)),
    {
        let mut styled = self;
        styled.style.blink = true;
        styled
    }

    /// Enables reverse video (inverts foreground and background colors).
    pub fn reverse(self) -> (styled: Self)
        ensures
            styled@ == (self@.0, self@.1.with(Emphasis::Reverse)),
    {
        let mut styled = self;
        styled.style.reverse = true;
        styled
    }

    /// Enables strikethrough formatting for the text.
    pub fn strikethrough(self) -> (styled: Self)
        ensures
            styled@ == (self@.0, self@.1.with(Emphasis::Strikethrough)),
    {
        let mut styled = self;
        styled.style.strikethrough = true;
        styled
    }

    /// Whether the text can be rendered with the style it has.
    pub fn is_renderable(&self) -> (renderable: bool)
        ensures
            renderable == self@.1.renderable(),
    {
        self.style.is_renderable()
    }

    /// Converts the colored text into a formatted ANSI escape sequence
    /// string.
    pub fn format_sequence(&'a self) -> (out: String)
        requires
            self@.1.renderable(),
        ensures
            out@ == styled(self@.0, self@.1),
    {
        style(self.text, &self.style)
    }
}

/// A style with no colour and no flag leaves every text exactly as it is:
/// nothing is wrapped round it.
pub proof fn lemma_plain_style_keeps_text(text: Seq<char>)
    ensures
        styled(text, StyleSpec::plain()) == text,
{
    assert(sgr_codes(StyleSpec::plain()) =~= Seq::<nat>::empty());
}

/// Attributes can be set in either order. Any two emphasis flags, a flag and
/// a colour, and the two colours commute, and setting a flag twice is
/// setting it once.
pub proof fn lemma_attributes_commute(
    spec: StyleSpec,
    a: Emphasis,
    b: Emphasis,
    fg: Color,
    bg: Color,
)
    ensures
        spec.with(a).with(b) == spec.with(b).with(a),
        spec.with(a).with(a) == spec.with(a),
        spec.with(a).with_fg(fg) == spec.with_fg(fg).with(a),
        spec.with(a).with_bg(bg) == spec.with_bg(bg).with(a),
        spec.with_fg(fg).with_bg(bg) == spec.with_bg(bg).with_fg(fg),
{
}

/// The order in which attributes are applied does not matter to what is
/// rendered: with any two emphasis flags, a flag and a colour, or the two
/// colours set in either order, every text is decorated in the same way.
pub proof fn lemma_style_order_independent(
    text: Seq<char>,
    spec: StyleSpec,
    a: Emphasis,
    b: Emphasis,
    fg: Color,
    bg: Color,
)
    ensures
        styled(text, spec.with(a).with(b)) == styled(text, spec.with(b).with(a)),
        styled(text, spec.with(a).with_fg(fg)) == styled(text, spec.with_fg(fg).with(a)),
        styled(text, spec.with(a).with_bg(bg)) == styled(text, spec.with_bg(bg).with(a)),
        styled(text, spec.with_fg(fg).with_bg(bg)) == styled(text, spec.with_bg(bg).with_fg(fg)),
{
    lemma_attributes_commute(spec, a, b, fg, bg);
}

} // verus!
