//! Drawings: the plain shapes that a legend is made of, and lists of
//! swatches.

use crate::entries::Entry;
use crate::layout::{
    icon_list_height, icon_rows_height, list_height, row_offset, swatch_list_height,
};
use vstd::prelude::*;

verus! {

/// What stands for one entry in a list: a rectangle, a stroke, a disc or an icon.
#[derive(Clone, Copy, Debug, PartialEq, Eq, Structural)]
pub enum SwatchKind {
    Fill,
    Line,
    Circle,
    Icon,
}

/// One thing to draw. Lengths that a style gives as numbers are kept as
/// the text of the number.
#[derive(Debug, PartialEq, Eq)]
pub enum Shape {
    /// A rectangle, with an outline where `outline` names its colour.
    Rect { x: u32, y: u32, width: u32, height: u32, fill: String, opacity: String, outline: Option<
        String,
    > },
    /// A straight stroke.
    Line { x1: u32, y1: u32, x2: u32, y2: u32, stroke: String, stroke_width: String },
    /// A disc with an outline.
    Circle {
        cx: u32,
        cy: u32,
        radius: String,
        fill: String,
        opacity: String,
        stroke: String,
        stroke_width: String,
    },
    /// An icon of the sprite, by its name.
    Image { x: u32, y: u32, width: u32, height: u32, icon: String },
    /// A line of black text; `bold` says whether a weight is named, and which.
    Text { x: u32, y: u32, size: u32, bold: Option<bool>, content: String },
    /// A bold black letter that stands for text.
    Glyph { x: u32, y: u32, size: u32, content: String },
    /// A thin rule under a title, centred in a drawing of the given width.
    Separator { width: u32, x: u32, y: u32 },
    /// The checkerboard that stands for a raster layer.
    Checkerboard,
    /// The glowing spot that stands for a heatmap layer.
    Heat,
}

/// A drawing: its width, its height where one is set, and its shapes
/// from back to front.
#[derive(Debug, PartialEq, Eq)]
pub struct Drawing {
    pub width: u32,
    pub height: Option<u32>,
    pub shapes: Vec<Shape>,
}

/// The colours and widths that a paint object sets beside the main colour.
#[derive(Debug, PartialEq, Eq)]
pub struct Strokes {
    /// The opacity of the filling.
    pub opacity: String,
    /// The colour of the outline.
    pub stroke: String,
    /// The width of the stroke or outline.
    pub stroke_width: String,
}

/// One thing to draw, as mathematical values.
pub enum ShapeView {
    Rect {
        x: int,
        y: int,
        width: int,
        height: int,
        fill: Seq<char>,
        opacity: Seq<char>,
        outline: Option<Seq<char>>,
    },
    Line { x1: int, y1: int, x2: int, y2: int, stroke: Seq<char>, stroke_width: Seq<char> },
    Circle {
        cx: int,
        cy: int,
        radius: Seq<char>,
        fill: Seq<char>,
        opacity: Seq<char>,
        stroke: Seq<char>,
        stroke_width: Seq<char>,
    },
    Image { x: int, y: int, width: int, height: int, icon: Seq<char> },
    Text { x: int, y: int, size: int, bold: Option<bool>, content: Seq<char> },
    Glyph { x: int, y: int, size: int, content: Seq<char> },
    Separator { width: int, x: int, y: int },
    Checkerboard,
    Heat,
}

/// A drawing as mathematical values.
pub struct DrawingView {
    pub width: int,
    pub height: Option<int>,
    pub shapes: Seq<ShapeView>,
}

/// Colours and widths as mathematical values.
pub struct StrokesView {
    pub opacity: Seq<char>,
    pub stroke: Seq<char>,
    pub stroke_width: Seq<char>,
}

impl View for Shape {
    type V = ShapeView;

    open spec fn view(&self) -> ShapeView {
        match self {
            Shape::Rect { x, y, width, height, fill, opacity, outline } => ShapeView::Rect {
                x: *x as int,
                y: *y as int,
                width: *width as int,
                height: *height as int,
                fill: fill@,
                opacity: opacity@,
                outline: match outline {
                    Some(color) => Some(color@),
                    None => None,
                },
            },
            Shape::Line { x1, y1, x2, y2, stroke, stroke_width } => ShapeView::Line {
                x1: *x1 as int,
                y1: *y1 as int,
                x2: *x2 as int,
                y2: *y2 as int,
                stroke: stroke@,
                stroke_width: stroke_width@,
            },
            Shape::Circle { cx, cy, radius, fill, opacity, stroke, stroke_width } => {
                ShapeView::Circle {
                    cx: *cx as int,
                    cy: *cy as int,
                    radius: radius@,
                    fill: fill@,
                    opacity: opacity@,
                    stroke: stroke@,
                    stroke_width: stroke_width@,
                }
            },
            Shape::Image { x, y, width, height, icon } => ShapeView::Image {
                x: *x as int,
                y: *y as int,
                width: *width as int,
                height: *height as int,
                icon: icon@,
            },
            Shape::Text { x, y, size, bold, content } => ShapeView::Text {
                x: *x as int,
                y: *y as int,
                size: *size as int,
                bold: *bold,
                content: content@,
            },
            Shape::Glyph { x, y, size, content } => ShapeView::Glyph {
                x: *x as int,
                y: *y as int,
                size: *size as int,
                content: content@,
            },
            Shape::Separator { width, x, y } => ShapeView::Separator {
                width: *width as int,
                x: *x as int,
                y: *y as int,
            },
            Shape::Checkerboard => ShapeView::Checkerboard,
            Shape::Heat => ShapeView::Heat,
        }
    }
}

impl DeepView for Shape {
    type V = ShapeView;

    open spec fn deep_view(&self) -> ShapeView {
        self@
    }
}

impl View for Drawing {
    type V = DrawingView;

    open spec fn view(&self) -> DrawingView {
        DrawingView {
            width: self.width as int,
            height: match self.height {
                Some(h) => Some(h as int),
                None => None,
            },
            shapes: self.shapes.deep_view(),
        }
    }
}

impl View for Strokes {
    type V = StrokesView;

    open spec fn view(&self) -> StrokesView {
        StrokesView {
            opacity: self.opacity@,
            stroke: self.stroke@,
            stroke_width: self.stroke_width@,
        }
    }
}

/// A line of text in the colour and size of a legend.
pub open spec fn text_shape(x: int, y: int, bold: Option<bool>, content: Seq<char>) -> ShapeView {
    ShapeView::Text { x, y, size: 14, bold, content }
}

/// Where the first row of a list of the given kind starts, before a
/// title moves it down.
pub open spec fn top_of(kind: SwatchKind) -> int {
    match kind {
        SwatchKind::Line => 20,
        _ => 10,
    }
}

/// The height of a list of `entries` rows of the given kind.
pub open spec fn height_of(kind: SwatchKind, entries: int, has_label: bool) -> int {
    match kind {
        SwatchKind::Icon => icon_list_height(entries, has_label),
        _ => list_height(entries, has_label),
    }
}

/// The two shapes of one row that starts at `y`: the swatch of the entry
/// and, to its right, the label of the entry.
pub open spec fn row_of(kind: SwatchKind, entry: Entry, y: int, strokes: StrokesView) -> Seq<
    ShapeView,
> {
    match kind {
        SwatchKind::Fill => seq![
            ShapeView::Rect {
                x: 10,
                y,
                width: 30,
                height: 20,
                fill: entry.1,
                opacity: strokes.opacity,
                outline: None,
            },
            text_shape(45, y + 15, None, entry.0),
        ],
        SwatchKind::Line => seq![
            ShapeView::Line { x1: 10, y1: y, x2: 40, y2: y, stroke: entry.1, stroke_width: "4"@ },
            text_shape(45, y + 5, None, entry.0),
        ],
        SwatchKind::Circle => seq![
            ShapeView::Circle {
                cx: 20,
                cy: y + 10,
                radius: "10"@,
                fill: entry.1,
                opacity: strokes.opacity,
                stroke: strokes.stroke,
                stroke_width: strokes.stroke_width,
            },
            text_shape(40, y + 15, None, entry.0),
        ],
        SwatchKind::Icon => seq![
            ShapeView::Image { x: 10, y, width: 20, height: 20, icon: entry.1 },
            text_shape(40, y + 15, None, entry.0),
        ],
    }
}

/// The rows of a list, one below the other, thirty units apart.
pub open spec fn rows_of(
    kind: SwatchKind,
    entries: Seq<Entry>,
    has_label: bool,
    strokes: StrokesView,
) -> Seq<ShapeView>
    decreases entries.len(),
{
    if entries.len() == 0 {
        Seq::empty()
    } else {
        rows_of(kind, entries.drop_last(), has_label, strokes) + row_of(
            kind,
            entries.last(),
            row_offset(top_of(kind), has_label, entries.len() - 1),
            strokes,
        )
    }
}

/// The title above a list: the label in bold, and a rule below it.
pub open spec fn title_of(label: Seq<char>, width: int) -> Seq<ShapeView> {
    seq![text_shape(10, 20, Some(true), label), ShapeView::Separator { width, x: 0, y: 10 }]
}

/// The drawing of a list of entries: the title where there is one, then
/// one row for each entry.
pub open spec fn list_drawing(
    kind: SwatchKind,
    title: Option<Seq<char>>,
    entries: Seq<Entry>,
    strokes: StrokesView,
    width: int,
) -> DrawingView {
    DrawingView {
        width,
        height: Some(height_of(kind, entries.len() as int, title is Some)),
        shapes: match title {
            Some(label) => title_of(label, width) + rows_of(kind, entries, true, strokes),
            None => rows_of(kind, entries, false, strokes),
        },
    }
}

/// Builds a line of text in the colour and size of a legend.
pub(crate) fn text_at(x: u32, y: u32, bold: Option<bool>, content: &str) -> (r: Shape)
    ensures
        r@ == text_shape(x as int, y as int, bold, content@),
{
    Shape::Text { x, y, size: 14, bold, content: String::from_str(content) }
}

/// Where the first row of a list of the given kind starts.
pub(crate) fn top(kind: SwatchKind) -> (r: u32)
    ensures
        r == top_of(kind),
{
    match kind {
        SwatchKind::Line => 20,
        _ => 10,
    }
}

/// Computes the height of a list of rows of the given kind, where it fits.
pub(crate) fn list_drawing_height(kind: SwatchKind, entries: usize, has_label: bool) -> (r: Option<u32>)
    ensures
        match r {
            Some(height) => height == height_of(kind, entries as int, has_label),
            None => height_of(kind, entries as int, has_label) > u32::MAX,
        },
{
    match kind {
        SwatchKind::Icon => icon_rows_height(entries, has_label),
        _ => swatch_list_height(entries, has_label),
    }
}

/// Appends the two shapes of one row.
fn push_row(
    shapes: &mut Vec<Shape>,
    kind: SwatchKind,
    entry: &(String, String),
    y: u32,
    strokes: &Strokes,
)
    requires
        y + 15 <= u32::MAX,
    ensures
        final(shapes).deep_view() == old(shapes).deep_view() + row_of(
            kind,
            (entry.0@, entry.1@),
            y as int,
            strokes@,
        ),
{
    let ghost before = shapes.deep_view();
    let color = entry.1.clone();
    let swatch = match kind {
        SwatchKind::Fill => Shape::Rect {
            x: 10,
            y,
            width: 30,
            height: 20,
            fill: color,
            opacity: strokes.opacity.clone(),
            outline: None,
        },
        SwatchKind::Line => Shape::Line {
            x1: 10,
            y1: y,
            x2: 40,
            y2: y,
            stroke: color,
            stroke_width: String::from_str("4"),
        },
        SwatchKind::Circle => Shape::Circle {
            cx: 20,
            cy: y + 10,
            radius: String::from_str("10"),
            fill: color,
            opacity: strokes.opacity.clone(),
            stroke: strokes.stroke.clone(),
            stroke_width: strokes.stroke_width.clone(),
        },
        SwatchKind::Icon => Shape::Image { x: 10, y, width: 20, height: 20, icon: color },
    };
    let caption = match kind {
        SwatchKind::Fill => text_at(45, y + 15, None, entry.0.as_str()),
        SwatchKind::Line => text_at(45, y + 5, None, entry.0.as_str()),
        SwatchKind::Circle => text_at(40, y + 15, None, entry.0.as_str()),
        SwatchKind::Icon => text_at(40, y + 15, None, entry.0.as_str()),
    };
    let ghost first = swatch@;
    let ghost second = caption@;
    shapes.push(swatch);
    shapes.push(caption);
    assert(shapes.deep_view() =~= before + seq![first, second]);
    assert(row_of(kind, (entry.0@, entry.1@), y as int, strokes@) =~= seq![first, second]);
}

/// Draws a list of entries: the title where there is one, then one row
/// for each entry. Nothing is drawn where the list is too long for its
/// height to be a 32-bit number.
pub fn draw_list(
    kind: SwatchKind,
    title: Option<&str>,
    entries: &Vec<(String, String)>,
    strokes: &Strokes,
    width: u32,
) -> (r: Option<Drawing>)
    ensures
        match r {
            Some(drawing) => drawing@ == list_drawing(
                kind,
                match title {
                    Some(label) => Some(label@),
                    None => None,
                },
                entries.deep_view(),
                strokes@,
                width as int,
            ),
            None => height_of(kind, entries.len() as int, title is Some) > u32::MAX,
        },
{
    let has_label = title.is_some();
    let height = match list_drawing_height(kind, entries.len(), has_label) {
        Some(height) => height,
        None => {
            return None;
        },
    };
    let ghost all = entries.deep_view();
    let mut shapes: Vec<Shape> = Vec::new();
    if let Some(label) = title {
        shapes.push(text_at(10, 20, Some(true), label));
        shapes.push(Shape::Separator { width, x: 0, y: 10 });
    }
    let ghost head = shapes.deep_view();
    assert(head =~= match title {
        Some(label) => title_of(label@, width as int),
        None => Seq::empty(),
    });
    let mut k: usize = 0;
    assert(all.take(0) =~= Seq::empty());
    assert(shapes.deep_view() =~= head + rows_of(kind, all.take(0), has_label, strokes@));
    while k < entries.len()
        invariant
            k <= entries.len(),
            all == entries.deep_view(),
            height == height_of(kind, entries.len() as int, has_label),
            shapes.deep_view() == head + rows_of(kind, all.take(k as int), has_label, strokes@),
        decreases entries.len() - k,
    {
        let shift: u32 = if has_label {
            30
        } else {
            0
        };
        let y: u32 = top(kind) + 30 * (k as u32) + shift;
        assert(all.take(k + 1).drop_last() =~= all.take(k as int));
        assert(all.take(k + 1).last() == (entries[k as int].0@, entries[k as int].1@));
        push_row(&mut shapes, kind, &entries[k], y, strokes);
        assert(shapes.deep_view() =~= head + rows_of(
            kind,
            all.take(k + 1),
            has_label,
            strokes@,
        )) by {
            let earlier = rows_of(kind, all.take(k as int), has_label, strokes@);
            let row = row_of(kind, all.take(k + 1).last(), y as int, strokes@);
            assert(rows_of(kind, all.take(k + 1), has_label, strokes@) == earlier + row);
            assert((head + earlier) + row =~= head + (earlier + row));
        }
        k += 1;
    }
    assert(all.take(k as int) =~= all);
    assert(Seq::<ShapeView>::empty() + rows_of(kind, all, has_label, strokes@) =~= rows_of(
        kind,
        all,
        has_label,
        strokes@,
    ));
    Some(Drawing { width, height: Some(height), shapes })
}

} // verus!
