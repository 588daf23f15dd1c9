//! The renderer: a normalised pixel grid, the filter it is resized with and a
//! brightness threshold, producing rows of quadrant-block glyphs.

use vstd::prelude::*;
use crate::glyph::{brightness, glyph_for_index, glyph_index, glyph_text, mean_brightness, pattern};
use crate::pixels::{resampled, resize_fits, Filter, Pixels, PixelsView};
use crate::style::{rendered_spans, Row, SpanView, Style, StyleString};

verus! {

/// The threshold a renderer starts with.
pub const DEFAULT_THRESHOLD: u8 = 65;

/// What a renderer holds, as mathematical values.
pub struct StringifierView {
    pub pixels: PixelsView,
    pub filter: Filter,
    pub threshold: u8,
}

/// The grey of a patch's mean brightness.
pub open spec fn grey(a: u8, b: u8, c: u8, d: u8) -> Style {
    let br = mean_brightness(a, b, c, d) as u8;
    Style { fg: Some(crate::style::Rgb { r: br, g: br, b: br }), bg: None }
}

/// The span for the 2x2 patch whose top-left corner is `(x, y)`.
pub open spec fn block_span(p: PixelsView, threshold: u8, x: int, y: int) -> SpanView {
    let a = p.at(x, y);
    let b = p.at(x + 1, y);
    let c = p.at(x, y + 1);
    let d = p.at(x + 1, y + 1);
    SpanView { text: glyph_text(glyph_index(a, b, c, d, threshold)), style: grey(a, b, c, d) }
}

/// The number of blocks across a grid: one per two columns, rounded up.
pub open spec fn blocks_across(p: PixelsView) -> nat {
    (p.width + 1) / 2
}

/// The row of blocks sampled from rows `y` and `y + 1`, left to right.
pub open spec fn block_row(p: PixelsView, threshold: u8, y: int) -> Seq<SpanView> {
    Seq::new(blocks_across(p), |i: int| block_span(p, threshold, 2 * i, y))
}

/// The number of rows in a whole render: every other row, rounded up.
pub open spec fn rendered_count(p: PixelsView) -> nat {
    (p.height + 1) / 2
}

/// A renderer after resizing its grid to `nwidth` x `nheight` with its own
/// filter; the threshold and filter stay.
pub open spec fn resized(v: StringifierView, nwidth: u32, nheight: u32) -> StringifierView {
    StringifierView {
        pixels: PixelsView {
            width: nwidth as nat,
            height: nheight as nat,
            data: resampled(v.pixels.width, v.pixels.height, v.pixels.data, v.filter, nwidth, nheight),
        },
        ..v
    }
}

/// The lines of a render, each followed by a line break.
pub open spec fn rendered_lines(rows: Seq<Seq<SpanView>>) -> Seq<char>
    decreases rows.len(),
{
    if rows.len() == 0 {
        Seq::empty()
    } else {
        rendered_lines(rows.drop_last()) + rendered_spans(rows.last()) + seq!['\n']
    }
}

/// The spans of each row of a sequence.
pub open spec fn row_views(rows: Seq<Row>) -> Seq<Seq<SpanView>> {
    rows.map_values(|r: Row| r@)
}

/// A span of text in the plain style.
pub open spec fn plain_span(text: Seq<char>) -> SpanView {
    SpanView { text, style: Style { fg: None, bg: None } }
}

/// The annotation line beside rendered row `k`: empty past the last line.
pub open spec fn annotation(lines: Seq<String>, k: int) -> Seq<char> {
    if k < lines.len() {
        lines[k]@
    } else {
        Seq::empty()
    }
}

/// The spans placed beside rendered row `k`: none past the last given row.
pub open spec fn beside(others: Seq<Seq<SpanView>>, k: int) -> Seq<SpanView> {
    if k < others.len() {
        others[k]
    } else {
        Seq::empty()
    }
}

/// Renders a single-channel image as rows of coloured quadrant blocks.
#[derive(Debug)]
pub struct ImageStringifier {
    image: Pixels,
    filter: Filter,
    threshold: u8,
}

impl View for ImageStringifier {
    type V = StringifierView;

    closed spec fn view(&self) -> StringifierView {
        StringifierView { pixels: self.image@, filter: self.filter, threshold: self.threshold }
    }
}

/// A source of rows, addressed by an index.
pub trait MakeRow {
    type Index;

    /// The spans of the row at `row`.
    spec fn row_view(&self, row: Self::Index) -> Seq<SpanView>;

    fn make_row(&self, row: Self::Index) -> (r: Row)
        ensures
            r@ == self.row_view(row),
    ;
}

impl ImageStringifier {
    /// A renderer for `image`, resized with `filter` to twice its width and
    /// half its height (rounded down), with the default threshold.
    pub fn new(image: &Pixels, filter: Filter) -> (r: ImageStringifier)
        requires
            image@.width * 2 <= u32::MAX,
            resize_fits(image@.width as int, (image@.width * 2) as int, (image@.height / 2) as int),
        ensures
            r@.pixels.wf(),
            r@.pixels.width == image@.width * 2,
            r@.pixels.height == image@.height / 2,
            r@.pixels.data == resampled(
                image@.width,
                image@.height,
                image@.data,
                filter,
                (image@.width * 2) as u32,
                (image@.height / 2) as u32,
            ),
            r@.filter == filter,
            r@.threshold == DEFAULT_THRESHOLD,
    {
        let width = image.width();
        let height = image.height();
        let image = image.resize(width * 2, height / 2, filter);
        ImageStringifier { image, filter, threshold: DEFAULT_THRESHOLD }
    }

    /// A renderer over a grid that is already normalised: it is used as it is,
    /// and `filter` serves later resizes. The threshold is the default.
    pub fn from_normalized(image: Pixels, filter: Filter) -> (r: ImageStringifier)
        ensures
            r@ == (StringifierView { pixels: image@, filter, threshold: DEFAULT_THRESHOLD }),
    {
        ImageStringifier { image, filter, threshold: DEFAULT_THRESHOLD }
    }

    /// The sample at `(x, y)`; 0 at any coordinate outside the image.
    pub fn get_pixel(&self, x: u32, y: u32) -> (r: u8)
        ensures
            r == self@.pixels.at(x as int, y as int),
            x >= self@.pixels.width || y >= self@.pixels.height ==> r == 0,
    {
        self.image.get(x, y)
    }

    pub fn width(&self) -> (r: u32)
        ensures
            r == self@.pixels.width,
    {
        self.image.width()
    }

    pub fn height(&self) -> (r: u32)
        ensures
            r == self@.pixels.height,
    {
        self.image.height()
    }
}

impl ImageStringifier {
    /// The glyph for a patch of samples under this renderer's threshold.
    pub fn str_from_u8s(&self, a: u8, b: u8, c: u8, d: u8) -> (r: &'static str)
        ensures
            r@ == glyph_text(glyph_index(a, b, c, d, self@.threshold)),
    {
        glyph_for_index(pattern(a, b, c, d, self.threshold))
    }

    /// The sample at `(x, y + 1)`, where `y + 1` may pass the largest index.
    fn pixel_below(&self, x: u32, y: u32) -> (r: u8)
        ensures
            r == self@.pixels.at(x as int, y as int + 1),
    {
        if y < self.height() {
            self.get_pixel(x, y + 1)
        } else {
            0
        }
    }

    /// The styled glyph for the patch whose top-left corner is `(x, y)`.
    fn block(&self, x: u32, y: u32) -> (r: StyleString)
        requires
            x < u32::MAX,
        ensures
            r@ == block_span(self@.pixels, self@.threshold, x as int, y as int),
    {
        let a = self.get_pixel(x, y);
        let b = self.get_pixel(x + 1, y);
        let c = self.pixel_below(x, y);
        let d = self.pixel_below(x + 1, y);
        let br = brightness(a, b, c, d);
        let text = self.str_from_u8s(a, b, c, d).to_owned();
        StyleString::new(text, Style::new().truecolor(br, br, br))
    }

    /// The row of blocks sampled from rows `row` and `row + 1`.
    fn row_at(&self, row: u32) -> (r: Row)
        ensures
            r@ == block_row(self@.pixels, self@.threshold, row as int),
    {
        let width = self.width();
        let n: u32 = width / 2 + width % 2;
        assert(n == blocks_across(self@.pixels));
        let mut items: Vec<StyleString> = Vec::new();
        let mut i: u32 = 0;
        while i < n
            invariant
                n == blocks_across(self@.pixels),
                width == self@.pixels.width,
                i <= n,
                items@.len() == i,
                forall|k: int| 0 <= k < i ==> #[trigger] items@[k]@
                    == block_span(self@.pixels, self@.threshold, 2 * k, row as int),
            decreases n - i,
        {
            let span = self.block(2 * i, row);
            items.push(span);
            i = i + 1;
        }
        let r = Row::new(items);
        proof {
            assert(r@ =~= block_row(self@.pixels, self@.threshold, row as int));
        }
        r
    }
}

impl ImageStringifier {
    /// This renderer with its grid resampled to `nwidth` x `nheight`.
    pub fn resize_exact(self, nwidth: u32, nheight: u32) -> (r: ImageStringifier)
        requires
            resize_fits(self@.pixels.width as int, nwidth as int, nheight as int),
        ensures
            r@ == resized(self@, nwidth, nheight),
            r@.pixels.wf(),
    {
        let image = self.image.resize(nwidth, nheight, self.filter);
        ImageStringifier { image, filter: self.filter, threshold: self.threshold }
    }

    /// Both sides multiplied by `n`.
    pub fn scale_up(self, n: u32) -> (r: ImageStringifier)
        requires
            self@.pixels.width * n <= u32::MAX,
            self@.pixels.height * n <= u32::MAX,
            resize_fits(self@.pixels.width as int, (self@.pixels.width * n) as int, (self@.pixels.height * n) as int),
        ensures
            r@ == resized(self@, (self@.pixels.width * n) as u32, (self@.pixels.height * n) as u32),
            r@.pixels.wf(),
    {
        let width = self.width();
        let height = self.height();
        self.resize_exact(width * n, height * n)
    }

    /// Both sides divided by `n`, rounded down.
    pub fn scale_down(self, n: u32) -> (r: ImageStringifier)
        requires
            n > 0,
            resize_fits(self@.pixels.width as int, (self@.pixels.width / n as nat) as int, (self@.pixels.height / n as nat) as int),
        ensures
            r@ == resized(self@, (self@.pixels.width / n as nat) as u32, (self@.pixels.height / n as nat) as u32),
            r@.pixels.wf(),
    {
        let width = self.width();
        let height = self.height();
        self.resize_exact(width / n, height / n)
    }

    /// The width multiplied by `n`.
    pub fn multiply_width(self, n: u32) -> (r: ImageStringifier)
        requires
            self@.pixels.width * n <= u32::MAX,
            resize_fits(self@.pixels.width as int, (self@.pixels.width * n) as int, self@.pixels.height as int),
        ensures
            r@ == resized(self@, (self@.pixels.width * n) as u32, self@.pixels.height as u32),
            r@.pixels.wf(),
    {
        let width = self.width();
        let height = self.height();
        self.resize_exact(width * n, height)
    }

    /// The width divided by `n`, rounded down.
    pub fn divide_width(self, n: u32) -> (r: ImageStringifier)
        requires
            n > 0,
            resize_fits(self@.pixels.width as int, (self@.pixels.width / n as nat) as int, self@.pixels.height as int),
        ensures
            r@ == resized(self@, (self@.pixels.width / n as nat) as u32, self@.pixels.height as u32),
            r@.pixels.wf(),
    {
        let width = self.width();
        let height = self.height();
        self.resize_exact(width / n, height)
    }

    /// The height multiplied by `n`.
    pub fn multiply_height(self, n: u32) -> (r: ImageStringifier)
        requires
            self@.pixels.height * n <= u32::MAX,
            resize_fits(self@.pixels.width as int, self@.pixels.width as int, (self@.pixels.height * n) as int),
        ensures
            r@ == resized(self@, self@.pixels.width as u32, (self@.pixels.height * n) as u32),
            r@.pixels.wf(),
    {
        let width = self.width();
        let height = self.height();
        self.resize_exact(width, height * n)
    }

    /// The height divided by `n`, rounded down.
    pub fn divide_height(self, n: u32) -> (r: ImageStringifier)
        requires
            n > 0,
            resize_fits(self@.pixels.width as int, self@.pixels.width as int, (self@.pixels.height / n as nat) as int),
        ensures
            r@ == resized(self@, self@.pixels.width as u32, (self@.pixels.height / n as nat) as u32),
            r@.pixels.wf(),
    {
        let width = self.width();
        let height = self.height();
        self.resize_exact(width, height / n)
    }

    /// This renderer with another threshold.
    pub fn with_threshold(self, threshold: u8) -> (r: ImageStringifier)
        ensures
            r@ == (StringifierView { threshold, ..self@ }),
    {
        ImageStringifier { threshold, ..self }
    }
}

/// Rows as terminal text, each followed by a line break.
pub fn render_rows(rows: &Vec<Row>) -> (r: String)
    ensures
        r@ == rendered_lines(row_views(rows@)),
{
    let mut out = String::new();
    let mut i: usize = 0;
    while i < rows.len()
        invariant
            i <= rows@.len(),
            out@ == rendered_lines(row_views(rows@.take(i as int))),
        decreases rows@.len() - i,
    {
        let line = rows[i].to_string();
        out.append(line.as_str());
        out.append("\n");
        proof {
            reveal_strlit("\n");
            assert(row_views(rows@.take(i as int + 1)).drop_last() =~= row_views(rows@.take(i as int)));
            assert(row_views(rows@.take(i as int + 1)).last() == rows@[i as int]@);
        }
        i = i + 1;
    }
    proof {
        assert(rows@.take(i as int) =~= rows@);
    }
    out
}

impl ImageStringifier {
    /// One row for every raw row index `0, 1, ..., height - 1`.
    pub fn iter_rows(self) -> (r: Vec<Row>)
        ensures
            r@.len() == self@.pixels.height,
            forall|i: int| 0 <= i < r@.len() ==> #[trigger] r@[i]@
                == block_row(self@.pixels, self@.threshold, i),
    {
        let height = self.height();
        let mut rows: Vec<Row> = Vec::new();
        let mut i: u32 = 0;
        while i < height
            invariant
                height == self@.pixels.height,
                i <= height,
                rows@.len() == i,
                forall|k: int| 0 <= k < i ==> #[trigger] rows@[k]@
                    == block_row(self@.pixels, self@.threshold, k),
            decreases height - i,
        {
            rows.push(self.make_row(i));
            i = i + 1;
        }
        rows
    }

    /// The rows of a whole render: row indices `0, 2, 4, ...` below the height.
    pub fn rendered_rows(&self) -> (r: Vec<Row>)
        ensures
            r@.len() == rendered_count(self@.pixels),
            forall|k: int| 0 <= k < r@.len() ==> #[trigger] r@[k]@
                == block_row(self@.pixels, self@.threshold, 2 * k),
    {
        let height = self.height();
        let n: u32 = height / 2 + height % 2;
        let mut rows: Vec<Row> = Vec::new();
        let mut k: u32 = 0;
        while k < n
            invariant
                height == self@.pixels.height,
                n == rendered_count(self@.pixels),
                k <= n,
                rows@.len() == k,
                forall|j: int| 0 <= j < k ==> #[trigger] rows@[j]@
                    == block_row(self@.pixels, self@.threshold, 2 * j),
            decreases n - k,
        {
            rows.push(self.make_row(2 * k));
            k = k + 1;
        }
        rows
    }

    /// The whole render as terminal text, one line per rendered row.
    pub fn to_string(&self) -> (r: String)
        ensures
            r@ == rendered_lines(
                Seq::new(rendered_count(self@.pixels), |k: int| block_row(self@.pixels, self@.threshold, 2 * k)),
            ),
    {
        let rows = self.rendered_rows();
        let r = render_rows(&rows);
        proof {
            assert(row_views(rows@) =~= Seq::new(
                rendered_count(self@.pixels),
                |k: int| block_row(self@.pixels, self@.threshold, 2 * k),
            ));
        }
        r
    }

    /// Each rendered row followed by `separator` and the line of `lines` at the
    /// same position; a row past the last line gets an empty annotation.
    pub fn rows_with_text(&self, lines: &Vec<String>, separator: &str) -> (r: Vec<Row>)
        ensures
            r@.len() == rendered_count(self@.pixels),
            forall|k: int| 0 <= k < r@.len() ==> #[trigger] r@[k]@
                == block_row(self@.pixels, self@.threshold, 2 * k)
                + seq![plain_span(separator@), plain_span(annotation(lines@, k))],
    {
        let rows = self.rendered_rows();
        let mut out: Vec<Row> = Vec::new();
        let mut rest = rows;
        let ghost all = rest@;
        let n = rest.len();
        let mut k: usize = 0;
        while k < n
            invariant
                n == all.len(),
                all.len() == rendered_count(self@.pixels),
                k <= all.len(),
                rest@ == all.subrange(k as int, all.len() as int),
                out@.len() == k,
                forall|j: int| 0 <= j < all.len() ==> #[trigger] all[j]@
                    == block_row(self@.pixels, self@.threshold, 2 * j),
                forall|j: int| 0 <= j < k ==> #[trigger] out@[j]@
                    == block_row(self@.pixels, self@.threshold, 2 * j)
                    + seq![plain_span(separator@), plain_span(annotation(lines@, j))],
            decreases all.len() - k,
        {
            let row = rest.remove(0);
            let note = if k < lines.len() {
                StyleString::plain(lines[k].as_str())
            } else {
                StyleString::plain("")
            };
            proof {
                reveal_strlit("");
            }
            let ghost note_view = note@;
            assert(note_view.text =~= annotation(lines@, k as int));
            assert(note_view == plain_span(annotation(lines@, k as int)));
            assert(row@ == all[k as int]@);
            let tail = Row::new(vec![StyleString::plain(separator), note]);
            assert(tail@ =~= seq![plain_span(separator@), note_view]);
            let joined = row.concat(tail);
            proof {
                assert(joined@ =~= block_row(self@.pixels, self@.threshold, 2 * k)
                    + seq![plain_span(separator@), plain_span(annotation(lines@, k as int))]);
                assert(rest@ =~= all.subrange(k as int + 1, all.len() as int));
            }
            out.push(joined);
            k = k + 1;
        }
        out
    }

    /// Each rendered row followed by the row of `others` at the same position;
    /// rendered rows past the last of `others` stand alone, and rows of
    /// `others` past the last rendered row are dropped.
    pub fn rows_beside(&self, others: Vec<Row>) -> (r: Vec<Row>)
        ensures
            r@.len() == rendered_count(self@.pixels),
            forall|k: int| 0 <= k < r@.len() ==> #[trigger] r@[k]@
                == block_row(self@.pixels, self@.threshold, 2 * k) + beside(row_views(others@), k),
    {
        let rows = self.rendered_rows();
        let ghost all = rows@;
        let ghost given = others@;
        let mut rest = rows;
        let mut extra = others;
        let mut out: Vec<Row> = Vec::new();
        let n = rest.len();
        let mut k: usize = 0;
        while k < n
            invariant
                n == all.len(),
                all.len() == rendered_count(self@.pixels),
                k <= all.len(),
                rest@ == all.subrange(k as int, all.len() as int),
                k <= given.len() ==> extra@ == given.subrange(k as int, given.len() as int),
                k > given.len() ==> extra@.len() == 0,
                out@.len() == k,
                forall|j: int| 0 <= j < all.len() ==> #[trigger] all[j]@
                    == block_row(self@.pixels, self@.threshold, 2 * j),
                forall|j: int| 0 <= j < k ==> #[trigger] out@[j]@
                    == block_row(self@.pixels, self@.threshold, 2 * j) + beside(row_views(given), j),
            decreases all.len() - k,
        {
            let row = rest.remove(0);
            assert(row@ == all[k as int]@);
            let joined = if extra.len() > 0 {
                let other = extra.remove(0);
                assert(other@ == row_views(given)[k as int]);
                row.concat(other)
            } else {
                let none = Row::new(Vec::new());
                assert(none@ =~= Seq::<SpanView>::empty());
                row.concat(none)
            };
            proof {
                assert(joined@ =~= block_row(self@.pixels, self@.threshold, 2 * k)
                    + beside(row_views(given), k as int));
                assert(rest@ =~= all.subrange(k as int + 1, all.len() as int));
                if k + 1 <= given.len() {
                    assert(extra@ =~= given.subrange(k as int + 1, given.len() as int));
                }
            }
            out.push(joined);
            k = k + 1;
        }
        out
    }
}

impl MakeRow for ImageStringifier {
    type Index = u32;

    open spec fn row_view(&self, row: u32) -> Seq<SpanView> {
        block_row(self@.pixels, self@.threshold, row as int)
    }

    fn make_row(&self, row: u32) -> (r: Row) {
        self.row_at(row)
    }
}

} // verus!
