//! Styled text: spans of text with a terminal presentation, and rows of spans.

use vstd::prelude::*;

verus! {

/// A 24-bit colour.
#[derive(Clone, Copy, Debug, PartialEq, Eq)]
pub struct Rgb {
    pub r: u8,
    pub g: u8,
    pub b: u8,
}

/// How a span is presented: an optional true-colour foreground and background.
#[derive(Clone, Copy, Debug, PartialEq, Eq)]
pub struct Style {
    pub fg: Option<Rgb>,
    pub bg: Option<Rgb>,
}

impl Style {
    /// The style that changes nothing.
    pub fn new() -> (r: Style)
        ensures
            r == (Style { fg: None, bg: None }),
    {
        Style { fg: None, bg: None }
    }

    /// This style with the foreground set to `(r, g, b)`.
    pub fn truecolor(self, r: u8, g: u8, b: u8) -> (s: Style)
        ensures
            s == (Style { fg: Some(Rgb { r, g, b }), ..self }),
    {
        Style { fg: Some(Rgb { r, g, b }), ..self }
    }

    /// This style with the background set to `(r, g, b)`.
    pub fn on_truecolor(self, r: u8, g: u8, b: u8) -> (s: Style)
        ensures
            s == (Style { bg: Some(Rgb { r, g, b }), ..self }),
    {
        Style { bg: Some(Rgb { r, g, b }), ..self }
    }

    /// Whether the style leaves text as it is.
    pub open spec fn is_plain(self) -> bool {
        self.fg is None && self.bg is None
    }
}

/// The terminal text that presents `text` in `style`.
pub uninterp spec fn painted(text: Seq<char>, style: Style) -> Seq<char>;

/// Relies on owo_colors::Style::{new, truecolor, on_truecolor} and
/// OwoColorize::style for the escape sequences; a style without colours
/// writes no escape sequence at all.
#[verifier::external_body]
fn paint(text: &str, style: Style) -> (r: String)
    ensures
        r@ == painted(text@, style),
        style.is_plain() ==> r@ == text@,
{
    let mut s = owo_colors::Style::new();
    if let Some(c) = style.fg {
        s = s.truecolor(c.r, c.g, c.b);
    }
    if let Some(c) = style.bg {
        s = s.on_truecolor(c.r, c.g, c.b);
    }
    format!("{}", owo_colors::OwoColorize::style(&text, s))
}

/// A string with a style applied to it.
#[derive(Debug)]
pub struct StyleString {
    string: String,
    style: Style,
}

/// A span as mathematical values: its text and its style.
pub struct SpanView {
    pub text: Seq<char>,
    pub style: Style,
}

impl View for StyleString {
    type V = SpanView;

    closed spec fn view(&self) -> SpanView {
        SpanView { text: self.string@, style: self.style }
    }
}

impl SpanView {
    /// The terminal text of the span.
    pub open spec fn rendered(self) -> Seq<char> {
        painted(self.text, self.style)
    }
}

impl StyleString {
    pub fn new(string: String, style: Style) -> (r: StyleString)
        ensures
            r@ == (SpanView { text: string@, style }),
    {
        StyleString { string, style }
    }

    /// A span of `s` with the plain style.
    pub fn plain(s: &str) -> (r: StyleString)
        ensures
            r@ == (SpanView { text: s@, style: Style { fg: None, bg: None } }),
    {
        StyleString { string: s.to_owned(), style: Style::new() }
    }

    pub fn text(&self) -> (r: &String)
        ensures
            r@ == self@.text,
    {
        &self.string
    }

    pub fn style(&self) -> (r: Style)
        ensures
            r == self@.style,
    {
        self.style
    }

    /// The span as terminal text.
    pub fn to_string(&self) -> (r: String)
        ensures
            r@ == self@.rendered(),
    {
        paint(self.string.as_str(), self.style)
    }
}

/// The terminal text of a sequence of spans, one after another.
pub open spec fn rendered_spans(spans: Seq<SpanView>) -> Seq<char>
    decreases spans.len(),
{
    if spans.len() == 0 {
        Seq::empty()
    } else {
        rendered_spans(spans.drop_last()) + spans.last().rendered()
    }
}

/// One printable line: spans in order.
#[derive(Debug)]
pub struct Row {
    items: Vec<StyleString>,
}

impl View for Row {
    type V = Seq<SpanView>;

    closed spec fn view(&self) -> Seq<SpanView> {
        self.items@.map_values(|s: StyleString| s@)
    }
}

impl Row {
    pub fn new(items: Vec<StyleString>) -> (r: Row)
        ensures
            r@ == items@.map_values(|s: StyleString| s@),
    {
        Row { items }
    }

    /// The number of spans.
    pub fn len(&self) -> (r: usize)
        ensures
            r == self@.len(),
    {
        self.items.len()
    }

    /// The span at `i`.
    pub fn item(&self, i: usize) -> (r: &StyleString)
        requires
            i < self@.len(),
        ensures
            r@ == self@[i as int],
    {
        &self.items[i]
    }

    /// This row's spans followed by `other`'s.
    pub fn concat(self, other: Row) -> (r: Row)
        ensures
            r@ == self@ + other@,
    {
        let mut items = self.items;
        let mut rest = other.items;
        let ghost a = items@;
        let ghost b = rest@;
        items.append(&mut rest);
        proof {
            assert(items@.map_values(|s: StyleString| s@) =~= a.map_values(|s: StyleString| s@)
                + b.map_values(|s: StyleString| s@));
        }
        Row { items }
    }

    /// The row as terminal text.
    pub fn to_string(&self) -> (r: String)
        ensures
            r@ == rendered_spans(self@),
    {
        let mut out = String::new();
        let mut i: usize = 0;
        while i < self.items.len()
            invariant
                i <= self.items@.len(),
                out@ == rendered_spans(self@.take(i as int)),
            decreases self.items@.len() - i,
        {
            let piece = self.items[i].to_string();
            out.append(piece.as_str());
            proof {
                assert(self@.take(i as int + 1).drop_last() =~= self@.take(i as int));
            }
            i = i + 1;
        }
        proof {
            assert(self@.take(i as int) =~= self@);
        }
        out
    }
}

} // verus!
