//! The drawing of each kind of layer.

use crate::drawing::{
    draw_list, height_of, list_drawing, text_at, text_shape, Drawing, DrawingView, Shape,
    ShapeView, Strokes, StrokesView, SwatchKind,
};
use crate::error::{invalid_json, ErrorView, LegendError};
use crate::expression::{color_of, extract_color};
use crate::json::{find_member, lookup, Json, JsonView, Members};
use crate::layer::{get_layer_label, label_of, Layer, LayerView};
use crate::number::{has_more, read_whole, whole_part};
use crate::plan::{
    paint_swatches, plan_symbol, swatches_of, symbol_of, Swatches, SwatchesView, Symbol,
    SymbolView,
};
use crate::text::join3;
use vstd::prelude::*;

verus! {

/// The radius of the disc that stands for a circle layer.
#[derive(Debug, PartialEq, Eq)]
pub struct Radius {
    /// The radius as text.
    pub text: String,
    /// By how much the disc makes its drawing taller than the default.
    pub extra: u32,
}

/// The radius that a paint object asks for, as drawn in a legend. The
/// number under `circle-radius` is the radius, and 10 where there is
/// none. A radius above 25 is drawn as 25. From 20 on, the drawing grows
/// by the whole part of the radius.
pub open spec fn radius_of(paint: Members) -> RadiusView {
    match lookup(paint, "circle-radius"@) {
        Some(JsonView::Number(n)) => {
            let whole = whole_part(n.plain);
            if whole > 25 || (whole == 25 && has_more(n.plain)) {
                RadiusView { text: "25"@, extra: 25 }
            } else if whole >= 20 {
                RadiusView { text: n.plain, extra: whole as int }
            } else {
                RadiusView { text: n.plain, extra: 0 }
            }
        },
        _ => RadiusView { text: "10"@, extra: 0 },
    }
}

/// The radius of the kinds that draw no disc: none.
pub open spec fn radius_for(kind: SwatchKind, paint: Members) -> RadiusView {
    match kind {
        SwatchKind::Circle => radius_of(paint),
        _ => RadiusView { text: Seq::empty(), extra: 0 },
    }
}

/// A radius as mathematical values.
pub struct RadiusView {
    pub text: Seq<char>,
    pub extra: int,
}

impl View for Radius {
    type V = RadiusView;

    open spec fn view(&self) -> RadiusView {
        RadiusView { text: self.text@, extra: self.extra as int }
    }
}

/// A drawing with its width and height, or an error.
pub type Rendering = Result<(DrawingView, int, int), ErrorView>;

/// The outcome of a renderer as mathematical values.
pub open spec fn rendering_view(r: Result<(Drawing, u32, u32), LegendError>) -> Rendering {
    match r {
        Ok((drawing, width, height)) => Ok((drawing@, width as int, height as int)),
        Err(e) => Err(e@),
    }
}

/// The plain text of the number under `key`, or `fallback` where there
/// is no number.
pub open spec fn number_text(members: Members, key: Seq<char>, fallback: Seq<char>) -> Seq<char> {
    match lookup(members, key) {
        Some(JsonView::Number(n)) => n.plain,
        _ => fallback,
    }
}

/// The colour under `key`, or `fallback` where there is no colour.
pub open spec fn color_or(members: Members, key: Seq<char>, fallback: Seq<char>) -> Seq<char> {
    match color_of(lookup(members, key)) {
        Ok(color) => color,
        Err(_) => fallback,
    }
}

/// The paint property that colours a layer of the given kind.
pub open spec fn color_key(kind: SwatchKind) -> Seq<char> {
    match kind {
        SwatchKind::Fill => "fill-color"@,
        SwatchKind::Line => "line-color"@,
        SwatchKind::Circle => "circle-color"@,
        SwatchKind::Icon => "icon-image"@,
    }
}

/// What a paint object sets beside the main colour, with the defaults of
/// each kind. What a kind does not draw with is left empty.
pub open spec fn strokes_of(kind: SwatchKind, paint: Members) -> StrokesView {
    match kind {
        SwatchKind::Fill => StrokesView {
            opacity: number_text(paint, "fill-opacity"@, "1"@),
            stroke: color_or(paint, "fill-outline-color"@, "black"@),
            stroke_width: Seq::empty(),
        },
        SwatchKind::Line => StrokesView {
            opacity: Seq::empty(),
            stroke: Seq::empty(),
            stroke_width: number_text(paint, "line-width"@, "3"@),
        },
        SwatchKind::Circle => StrokesView {
            opacity: number_text(paint, "circle-opacity"@, "1"@),
            stroke: color_or(paint, "circle-stroke-color"@, "black"@),
            stroke_width: number_text(paint, "circle-stroke-width"@, "0"@),
        },
        SwatchKind::Icon => StrokesView {
            opacity: Seq::empty(),
            stroke: Seq::empty(),
            stroke_width: Seq::empty(),
        },
    }
}

/// The error for a legend whose height is no 32-bit number.
pub open spec fn too_tall(layer: LayerView) -> ErrorView {
    invalid_json("The legend of layer '"@ + layer.id + "' is too tall"@)
}

/// The title to draw: the layer's label where a title is asked for.
pub open spec fn title_for(layer: LayerView, has_label: bool) -> Result<
    Option<Seq<char>>,
    ErrorView,
> {
    if has_label {
        match label_of(layer) {
            Ok(label) => Ok(Some(label)),
            Err(e) => Err(e),
        }
    } else {
        Ok(None)
    }
}

/// The height of a drawing with a single swatch: the default height, and
/// for a disc as much more as its radius asks for.
pub open spec fn single_height(kind: SwatchKind, radius: RadiusView, default_height: int) -> int {
    match kind {
        SwatchKind::Circle => default_height + radius.extra,
        _ => default_height,
    }
}

/// The single swatch of a layer in the given colour.
pub open spec fn single_shape(
    kind: SwatchKind,
    color: Seq<char>,
    strokes: StrokesView,
    radius: RadiusView,
    height: int,
) -> ShapeView {
    match kind {
        SwatchKind::Fill => ShapeView::Rect {
            x: 10,
            y: 10,
            width: 30,
            height: 20,
            fill: color,
            opacity: strokes.opacity,
            outline: Some(strokes.stroke),
        },
        SwatchKind::Line => ShapeView::Line {
            x1: 10,
            y1: 20,
            x2: 40,
            y2: 20,
            stroke: color,
            stroke_width: strokes.stroke_width,
        },
        SwatchKind::Circle => ShapeView::Circle {
            cx: 26,
            cy: height / 2,
            radius: radius.text,
            fill: color,
            opacity: strokes.opacity,
            stroke: strokes.stroke,
            stroke_width: strokes.stroke_width,
        },
        SwatchKind::Icon => ShapeView::Image { x: 10, y: 10, width: 20, height: 20, icon: color },
    }
}

/// The label beside a single swatch.
pub open spec fn single_caption(kind: SwatchKind, label: Seq<char>, height: int) -> ShapeView {
    match kind {
        SwatchKind::Circle => text_shape(55, height / 2 + 5, Some(false), label),
        SwatchKind::Icon => text_shape(40, 25, Some(false), label),
        _ => text_shape(55, 25, Some(false), label),
    }
}

/// The drawing of a single swatch with the layer's label beside it. The
/// drawing of an icon sets no height.
pub open spec fn single_drawing(
    kind: SwatchKind,
    title: Option<Seq<char>>,
    color: Seq<char>,
    strokes: StrokesView,
    radius: RadiusView,
    width: int,
    default_height: int,
) -> DrawingView {
    let height = single_height(kind, radius, default_height);
    let swatch = single_shape(kind, color, strokes, radius, height);
    DrawingView {
        width,
        height: if kind == SwatchKind::Icon {
            None
        } else {
            Some(height)
        },
        shapes: match title {
            Some(label) => seq![swatch, single_caption(kind, label, height)],
            None => seq![swatch],
        },
    }
}

/// The drawing of swatches: a list of rows, or a single swatch.
pub open spec fn swatches_drawing(
    kind: SwatchKind,
    layer: LayerView,
    title: Option<Seq<char>>,
    swatches: SwatchesView,
    strokes: StrokesView,
    radius: RadiusView,
    width: int,
    default_height: int,
) -> Rendering {
    match swatches {
        SwatchesView::List(entries) => {
            let height = height_of(kind, entries.len() as int, title is Some);
            if height > u32::MAX {
                Err(too_tall(layer))
            } else {
                Ok((list_drawing(kind, title, entries, strokes, width), width, height))
            }
        },
        SwatchesView::Single(color) => {
            let height = single_height(kind, radius, default_height);
            if height > u32::MAX {
                Err(too_tall(layer))
            } else {
                Ok(
                    (
                        single_drawing(kind, title, color, strokes, radius, width, default_height),
                        width,
                        height,
                    ),
                )
            }
        },
    }
}

/// The legend of a layer that is coloured by a paint property: the
/// entries of that property as a list, or a single swatch with the
/// layer's label.
pub open spec fn paint_drawing(
    kind: SwatchKind,
    layer: LayerView,
    paint: Members,
    width: int,
    default_height: int,
    has_label: bool,
) -> Rendering {
    match swatches_of(layer, paint, color_key(kind)) {
        Err(e) => Err(e),
        Ok(swatches) => match title_for(layer, has_label) {
            Err(e) => Err(e),
            Ok(title) => swatches_drawing(
                kind,
                layer,
                title,
                swatches,
                strokes_of(kind, paint),
                radius_for(kind, paint),
                width,
                default_height,
            ),
        },
    }
}

/// The legend of a symbol layer: its icons as a list, its one icon, or
/// a letter that stands for its text.
pub open spec fn symbol_drawing(
    layer: LayerView,
    has_sprite: bool,
    width: int,
    default_height: int,
    has_label: bool,
) -> Rendering {
    match symbol_of(layer, has_sprite) {
        Err(e) => Err(e),
        Ok(symbol) => match title_for(layer, has_label) {
            Err(e) => Err(e),
            Ok(title) => match symbol {
                SymbolView::Icon(name) => swatches_drawing(
                    SwatchKind::Icon,
                    layer,
                    title,
                    SwatchesView::Single(name),
                    strokes_of(SwatchKind::Icon, Seq::empty()),
                    RadiusView { text: Seq::empty(), extra: 0 },
                    width,
                    default_height,
                ),
                SymbolView::Icons(entries) => swatches_drawing(
                    SwatchKind::Icon,
                    layer,
                    title,
                    SwatchesView::List(entries),
                    strokes_of(SwatchKind::Icon, Seq::empty()),
                    RadiusView { text: Seq::empty(), extra: 0 },
                    width,
                    default_height,
                ),
                SymbolView::Text => Ok(
                    (
                        DrawingView {
                            width,
                            height: Some(default_height),
                            shapes: match title {
                                Some(label) => seq![
                                    ShapeView::Glyph { x: 14, y: 25, size: 16, content: "T"@ },
                                    text_shape(30, 25, Some(false), label),
                                ],
                                None => seq![
                                    ShapeView::Glyph { x: 14, y: 25, size: 16, content: "T"@ },
                                ],
                            },
                        },
                        width,
                        default_height,
                    ),
                ),
            },
        },
    }
}

/// The legend of a layer of any other type: a grey rectangle, with the
/// layer's label where one is asked for and can be read.
pub open spec fn default_drawing(
    layer: LayerView,
    width: int,
    default_height: int,
    has_label: bool,
) -> DrawingView {
    let swatch = ShapeView::Rect {
        x: 10,
        y: 10,
        width: 30,
        height: 20,
        fill: "#cccccc"@,
        opacity: "0.8"@,
        outline: Some("#333333"@),
    };
    DrawingView {
        width,
        height: Some(default_height),
        shapes: match title_for(layer, has_label) {
            Ok(Some(label)) => seq![swatch, text_shape(55, 25, Some(false), label)],
            _ => seq![swatch],
        },
    }
}

/// Reads the plain text of the number under `key`.
fn number_or(members: &Vec<(String, Json)>, key: &str, fallback: &str) -> (r: String)
    ensures
        r@ == number_text(members.deep_view(), key@, fallback@),
{
    match find_member(members, key) {
        Some(value) => match value.as_number() {
            Some(n) => n.plain.clone(),
            None => String::from_str(fallback),
        },
        None => String::from_str(fallback),
    }
}

/// Reads the colour under `key`.
fn color_under(members: &Vec<(String, Json)>, key: &str, fallback: &str) -> (r: String)
    ensures
        r@ == color_or(members.deep_view(), key@, fallback@),
{
    match extract_color(find_member(members, key)) {
        Ok(color) => color,
        Err(_) => String::from_str(fallback),
    }
}

/// Reads what a paint object sets beside the main colour.
fn strokes_for(kind: SwatchKind, paint: &Vec<(String, Json)>) -> (r: Strokes)
    ensures
        r@ == strokes_of(kind, paint.deep_view()),
{
    match kind {
        SwatchKind::Fill => Strokes {
            opacity: number_or(paint, "fill-opacity", "1"),
            stroke: color_under(paint, "fill-outline-color", "black"),
            stroke_width: String::new(),
        },
        SwatchKind::Line => Strokes {
            opacity: String::new(),
            stroke: String::new(),
            stroke_width: number_or(paint, "line-width", "3"),
        },
        SwatchKind::Circle => Strokes {
            opacity: number_or(paint, "circle-opacity", "1"),
            stroke: color_under(paint, "circle-stroke-color", "black"),
            stroke_width: number_or(paint, "circle-stroke-width", "0"),
        },
        SwatchKind::Icon => Strokes {
            opacity: String::new(),
            stroke: String::new(),
            stroke_width: String::new(),
        },
    }
}

/// Builds the error for a legend whose height is no 32-bit number.
fn too_tall_error(layer: &Layer) -> (e: LegendError)
    ensures
        e@ == too_tall(layer@),
{
    LegendError::InvalidJson(join3("The legend of layer '", layer.id.as_str(), "' is too tall"))
}

/// Reads the title to draw.
fn title_to_draw(layer: &Layer, has_label: bool) -> (r: Result<Option<String>, LegendError>)
    ensures
        match r {
            Ok(Some(label)) => title_for(layer@, has_label) == Ok::<Option<Seq<char>>, ErrorView>(
                Some(label@),
            ),
            Ok(None) => title_for(layer@, has_label) == Ok::<Option<Seq<char>>, ErrorView>(None),
            Err(e) => title_for(layer@, has_label) == Err::<Option<Seq<char>>, ErrorView>(e@),
        },
{
    if has_label {
        match get_layer_label(layer) {
            Ok(label) => Ok(Some(label)),
            Err(e) => Err(e),
        }
    } else {
        Ok(None)
    }
}

/// Draws a single swatch with the layer's label beside it.
fn draw_single(
    kind: SwatchKind,
    title: &Option<String>,
    color: String,
    strokes: &Strokes,
    radius: &Radius,
    width: u32,
    height: u32,
) -> (r: Drawing)
    ensures
        r@.width == width,
        r@.height == if kind == SwatchKind::Icon {
            None
        } else {
            Some(height as int)
        },
        r@.shapes == match title {
            Some(label) => seq![
                single_shape(kind, color@, strokes@, radius@, height as int),
                single_caption(kind, label@, height as int),
            ],
            None => seq![single_shape(kind, color@, strokes@, radius@, height as int)],
        },
{
    let swatch = match kind {
        SwatchKind::Fill => Shape::Rect {
            x: 10,
            y: 10,
            width: 30,
            height: 20,
            fill: color,
            opacity: strokes.opacity.clone(),
            outline: Some(strokes.stroke.clone()),
        },
        SwatchKind::Line => Shape::Line {
            x1: 10,
            y1: 20,
            x2: 40,
            y2: 20,
            stroke: color,
            stroke_width: strokes.stroke_width.clone(),
        },
        SwatchKind::Circle => Shape::Circle {
            cx: 26,
            cy: height / 2,
            radius: radius.text.clone(),
            fill: color,
            opacity: strokes.opacity.clone(),
            stroke: strokes.stroke.clone(),
            stroke_width: strokes.stroke_width.clone(),
        },
        SwatchKind::Icon => Shape::Image { x: 10, y: 10, width: 20, height: 20, icon: color },
    };
    let ghost first = swatch@;
    let mut shapes: Vec<Shape> = Vec::new();
    shapes.push(swatch);
    assert(shapes.deep_view() =~= seq![first]);
    if let Some(label) = title {
        let caption = match kind {
            SwatchKind::Circle => text_at(55, height / 2 + 5, Some(false), label.as_str()),
            SwatchKind::Icon => text_at(40, 25, Some(false), label.as_str()),
            _ => text_at(55, 25, Some(false), label.as_str()),
        };
        let ghost second = caption@;
        shapes.push(caption);
        assert(shapes.deep_view() =~= seq![first, second]);
    }
    Drawing {
        width,
        height: match kind {
            SwatchKind::Icon => None,
            _ => Some(height),
        },
        shapes,
    }
}

/// Draws swatches: a list of rows, or a single swatch.
fn draw_swatches(
    kind: SwatchKind,
    layer: &Layer,
    title: Option<String>,
    swatches: Swatches,
    strokes: &Strokes,
    radius: &Radius,
    width: u32,
    default_height: u32,
) -> (r: Result<(Drawing, u32, u32), LegendError>)
    ensures
        rendering_view(r) == swatches_drawing(
            kind,
            layer@,
            match title {
                Some(label) => Some(label@),
                None => None,
            },
            swatches@,
            strokes@,
            radius@,
            width as int,
            default_height as int,
        ),
{
    match swatches {
        Swatches::List(entries) => {
            let label = match &title {
                Some(label) => Some(label.as_str()),
                None => None,
            };
            match draw_list(kind, label, &entries, strokes, width) {
                Some(drawing) => {
                    let height = match drawing.height {
                        Some(height) => height,
                        None => 0,
                    };
                    Ok((drawing, width, height))
                },
                None => Err(too_tall_error(layer)),
            }
        },
        Swatches::Single(color) => {
            let height: u32 = match kind {
                SwatchKind::Circle => {
                    if radius.extra > 4294967295 - default_height {
                        return Err(too_tall_error(layer));
                    }
                    default_height + radius.extra
                },
                _ => default_height,
            };
            let drawing = draw_single(kind, &title, color, strokes, radius, width, height);
            Ok((drawing, width, height))
        },
    }
}

/// Reads the radius that a paint object asks for.
fn radius_under(kind: SwatchKind, paint: &Vec<(String, Json)>) -> (r: Radius)
    ensures
        r@ == radius_for(kind, paint.deep_view()),
{
    match kind {
        SwatchKind::Circle => {
            let number = match find_member(paint, "circle-radius") {
                Some(value) => value.as_number(),
                None => None,
            };
            match number {
                Some(n) => {
                    let (whole, more) = read_whole(n.plain.as_str(), 26);
                    if whole > 25 || (whole == 25 && more) {
                        Radius { text: String::from_str("25"), extra: 25 }
                    } else if whole >= 20 {
                        Radius { text: n.plain.clone(), extra: whole }
                    } else {
                        Radius { text: n.plain.clone(), extra: 0 }
                    }
                },
                None => Radius { text: String::from_str("10"), extra: 0 },
            }
        },
        _ => no_radius(),
    }
}

/// Draws the legend of a layer that is coloured by a paint property.
fn render_paint(
    kind: SwatchKind,
    key: &str,
    layer: &Layer,
    paint: &Vec<(String, Json)>,
    width: u32,
    default_height: u32,
    has_label: bool,
) -> (r: Result<(Drawing, u32, u32), LegendError>)
    requires
        key@ == color_key(kind),
    ensures
        rendering_view(r) == paint_drawing(
            kind,
            layer@,
            paint.deep_view(),
            width as int,
            default_height as int,
            has_label,
        ),
{
    let swatches = match paint_swatches(layer, paint, key) {
        Ok(swatches) => swatches,
        Err(e) => {
            return Err(e);
        },
    };
    let title = match title_to_draw(layer, has_label) {
        Ok(title) => title,
        Err(e) => {
            return Err(e);
        },
    };
    let strokes = strokes_for(kind, paint);
    let radius = radius_under(kind, paint);
    draw_swatches(kind, layer, title, swatches, &strokes, &radius, width, default_height)
}

/// A radius for the kinds that draw no disc.
fn no_radius() -> (r: Radius)
    ensures
        r@ == (RadiusView { text: Seq::empty(), extra: 0 }),
{
    Radius { text: String::new(), extra: 0 }
}

/// Draws the legend of a fill layer: one rectangle for each entry of
/// `fill-color`, or a single outlined rectangle with the layer's label.
pub fn render_fill(
    layer: &Layer,
    paint: &Vec<(String, Json)>,
    default_width: u32,
    default_height: u32,
    has_label: bool,
) -> (r: Result<(Drawing, u32, u32), LegendError>)
    ensures
        rendering_view(r) == paint_drawing(
            SwatchKind::Fill,
            layer@,
            paint.deep_view(),
            default_width as int,
            default_height as int,
            has_label,
        ),
{
    render_paint(
        SwatchKind::Fill,
        "fill-color",
        layer,
        paint,
        default_width,
        default_height,
        has_label,
    )
}

/// Draws the legend of a line layer: one stroke for each entry of
/// `line-color`, or a single stroke with the layer's label.
pub fn render_line(
    layer: &Layer,
    paint: &Vec<(String, Json)>,
    default_width: u32,
    default_height: u32,
    has_label: bool,
) -> (r: Result<(Drawing, u32, u32), LegendError>)
    ensures
        rendering_view(r) == paint_drawing(
            SwatchKind::Line,
            layer@,
            paint.deep_view(),
            default_width as int,
            default_height as int,
            has_label,
        ),
{
    render_paint(
        SwatchKind::Line,
        "line-color",
        layer,
        paint,
        default_width,
        default_height,
        has_label,
    )
}

/// Draws the legend of a circle layer: one disc for each entry of
/// `circle-color`, or a single disc of the radius that the paint object
/// asks for, with the layer's label.
pub fn render_circle(
    layer: &Layer,
    paint: &Vec<(String, Json)>,
    default_width: u32,
    default_height: u32,
    has_label: bool,
) -> (r: Result<(Drawing, u32, u32), LegendError>)
    ensures
        rendering_view(r) == paint_drawing(
            SwatchKind::Circle,
            layer@,
            paint.deep_view(),
            default_width as int,
            default_height as int,
            has_label,
        ),
{
    render_paint(
        SwatchKind::Circle,
        "circle-color",
        layer,
        paint,
        default_width,
        default_height,
        has_label,
    )
}

/// The legend of a layer that is drawn as one fixed picture, with the
/// layer's label beside it where one is asked for.
pub open spec fn picture_drawing(
    picture: ShapeView,
    layer: LayerView,
    width: int,
    default_height: int,
    has_label: bool,
) -> Rendering {
    match title_for(layer, has_label) {
        Err(e) => Err(e),
        Ok(title) => Ok(
            (
                DrawingView {
                    width,
                    height: Some(default_height),
                    shapes: match title {
                        Some(label) => seq![picture, text_shape(55, 25, Some(false), label)],
                        None => seq![picture],
                    },
                },
                width,
                default_height,
            ),
        ),
    }
}

/// Draws one fixed picture with the layer's label beside it.
fn render_picture(
    picture: Shape,
    layer: &Layer,
    default_width: u32,
    default_height: u32,
    has_label: bool,
) -> (r: Result<(Drawing, u32, u32), LegendError>)
    ensures
        rendering_view(r) == picture_drawing(
            picture@,
            layer@,
            default_width as int,
            default_height as int,
            has_label,
        ),
{
    let title = match title_to_draw(layer, has_label) {
        Ok(title) => title,
        Err(e) => {
            return Err(e);
        },
    };
    let ghost first = picture@;
    let mut shapes: Vec<Shape> = Vec::new();
    shapes.push(picture);
    assert(shapes.deep_view() =~= seq![first]);
    if let Some(label) = title {
        let caption = text_at(55, 25, Some(false), label.as_str());
        let ghost second = caption@;
        shapes.push(caption);
        assert(shapes.deep_view() =~= seq![first, second]);
    }
    Ok(
        (
            Drawing { width: default_width, height: Some(default_height), shapes },
            default_width,
            default_height,
        ),
    )
}

/// Draws the legend of a raster layer: a checkerboard, with the layer's
/// label where one is asked for.
pub fn render_raster(layer: &Layer, default_width: u32, default_height: u32, has_label: bool) -> (r:
    Result<(Drawing, u32, u32), LegendError>)
    ensures
        rendering_view(r) == picture_drawing(
            ShapeView::Checkerboard,
            layer@,
            default_width as int,
            default_height as int,
            has_label,
        ),
{
    render_picture(Shape::Checkerboard, layer, default_width, default_height, has_label)
}

/// Draws the legend of a heatmap layer: a glowing spot, with the layer's
/// label where one is asked for.
pub fn render_heatmap(layer: &Layer, default_width: u32, default_height: u32, has_label: bool) -> (r:
    Result<(Drawing, u32, u32), LegendError>)
    ensures
        rendering_view(r) == picture_drawing(
            ShapeView::Heat,
            layer@,
            default_width as int,
            default_height as int,
            has_label,
        ),
{
    render_picture(Shape::Heat, layer, default_width, default_height, has_label)
}

/// Draws the legend of a symbol layer: its icons as a list, its one
/// icon, or a letter that stands for its text. Icons are named, not drawn.
pub fn render_symbol(
    layer: &Layer,
    default_width: u32,
    default_height: u32,
    has_label: bool,
    has_sprite: bool,
) -> (r: Result<(Drawing, u32, u32), LegendError>)
    ensures
        rendering_view(r) == symbol_drawing(
            layer@,
            has_sprite,
            default_width as int,
            default_height as int,
            has_label,
        ),
{
    let symbol = match plan_symbol(layer, has_sprite) {
        Ok(symbol) => symbol,
        Err(e) => {
            return Err(e);
        },
    };
    let title = match title_to_draw(layer, has_label) {
        Ok(title) => title,
        Err(e) => {
            return Err(e);
        },
    };
    let members: Vec<(String, Json)> = Vec::new();
    assert(members.deep_view() =~= Seq::empty());
    let strokes = strokes_for(SwatchKind::Icon, &members);
    let radius = no_radius();
    match symbol {
        Symbol::Icon(name) => draw_swatches(
            SwatchKind::Icon,
            layer,
            title,
            Swatches::Single(name),
            &strokes,
            &radius,
            default_width,
            default_height,
        ),
        Symbol::Icons(entries) => draw_swatches(
            SwatchKind::Icon,
            layer,
            title,
            Swatches::List(entries),
            &strokes,
            &radius,
            default_width,
            default_height,
        ),
        Symbol::Text => {
            let glyph = Shape::Glyph { x: 14, y: 25, size: 16, content: String::from_str("T") };
            let ghost first = glyph@;
            let mut shapes: Vec<Shape> = Vec::new();
            shapes.push(glyph);
            assert(shapes.deep_view() =~= seq![first]);
            if let Some(label) = title {
                let caption = text_at(30, 25, Some(false), label.as_str());
                let ghost second = caption@;
                shapes.push(caption);
                assert(shapes.deep_view() =~= seq![first, second]);
            }
            Ok(
                (
                    Drawing { width: default_width, height: Some(default_height), shapes },
                    default_width,
                    default_height,
                ),
            )
        },
    }
}

/// Draws the legend of a layer of any other type: a grey rectangle, with
/// the layer's label where one is asked for and can be read.
pub fn render_default(layer: &Layer, default_width: u32, default_height: u32, has_label: bool) -> (r:
    Option<(Drawing, u32, u32)>)
    ensures
        r matches Some((drawing, width, height)) && drawing@ == default_drawing(
            layer@,
            default_width as int,
            default_height as int,
            has_label,
        ) && width == default_width && height == default_height,
{
    let swatch = Shape::Rect {
        x: 10,
        y: 10,
        width: 30,
        height: 20,
        fill: String::from_str("#cccccc"),
        opacity: String::from_str("0.8"),
        outline: Some(String::from_str("#333333")),
    };
    let ghost first = swatch@;
    let mut shapes: Vec<Shape> = Vec::new();
    shapes.push(swatch);
    assert(shapes.deep_view() =~= seq![first]);
    if let Ok(Some(label)) = title_to_draw(layer, has_label) {
        let caption = text_at(55, 25, Some(false), label.as_str());
        let ghost second = caption@;
        shapes.push(caption);
        assert(shapes.deep_view() =~= seq![first, second]);
    }
    Some(
        (
            Drawing { width: default_width, height: Some(default_height), shapes },
            default_width,
            default_height,
        ),
    )
}

/// Adds the layer's label to a drawing, at (55, 25) and in normal weight
/// unless told otherwise.
pub fn render_label(
    layer: &Layer,
    drawing: &mut Drawing,
    x: Option<u32>,
    y: Option<u32>,
    is_bold: Option<bool>,
) -> (r: Result<(), LegendError>)
    ensures
        final(drawing)@.width == old(drawing)@.width,
        final(drawing)@.height == old(drawing)@.height,
        match r {
            Ok(_) => label_of(layer@) is Ok && final(drawing)@.shapes == old(drawing)@.shapes.push(
                text_shape(
                    match x {
                        Some(x) => x as int,
                        None => 55,
                    },
                    match y {
                        Some(y) => y as int,
                        None => 25,
                    },
                    Some(
                        match is_bold {
                            Some(bold) => bold,
                            None => false,
                        },
                    ),
                    label_of(layer@)->Ok_0,
                ),
            ),
            Err(e) => label_of(layer@) == Err::<Seq<char>, ErrorView>(e@)
                && final(drawing)@.shapes == old(drawing)@.shapes,
        },
{
    let label = match get_layer_label(layer) {
        Ok(label) => label,
        Err(e) => {
            return Err(e);
        },
    };
    let x = match x {
        Some(x) => x,
        None => 55,
    };
    let y = match y {
        Some(y) => y,
        None => 25,
    };
    let bold = match is_bold {
        Some(bold) => bold,
        None => false,
    };
    let ghost before = drawing.shapes.deep_view();
    let caption = text_at(x, y, Some(bold), label.as_str());
    let ghost added = caption@;
    drawing.shapes.push(caption);
    assert(drawing.shapes.deep_view() =~= before.push(added));
    Ok(())
}

/// Adds a rule to a drawing: a thin line centred in the width given,
/// sixteen units below `y`.
pub fn render_separator(drawing: &mut Drawing, default_width: u32, x: u32, y: u32)
    ensures
        final(drawing)@.width == old(drawing)@.width,
        final(drawing)@.height == old(drawing)@.height,
        final(drawing)@.shapes == old(drawing)@.shapes.push(
            ShapeView::Separator { width: default_width as int, x: x as int, y: y as int },
        ),
{
    let ghost before = drawing.shapes.deep_view();
    drawing.shapes.push(Shape::Separator { width: default_width, x, y });
    assert(drawing.shapes.deep_view() =~= before.push(
        ShapeView::Separator { width: default_width as int, x: x as int, y: y as int },
    ));
}

} // verus!
