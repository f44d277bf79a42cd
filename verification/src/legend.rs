//! A whole legend: every layer of a style drawn by its type, and stacked into
//! one document.

use crate::drawing::{Drawing, DrawingView, ShapeView, SwatchKind};
use crate::entries::{gather, lemma_gather_error, lemma_gather_next};
use crate::error::{ErrorView, LegendError};
use crate::layer::{Layer, LayerView, Style, StyleView};
use crate::layout::{heights_sum, placement_of, stack_layers, widths_max};
use crate::markup::{inner_markup, inner_markup_of};
use crate::plan::{get_paint_object, paint_of, renderer_for, renderer_of, Renderer};
use crate::render::{
    default_drawing, paint_drawing, picture_drawing, render_circle, render_default, render_fill,
    render_line, render_raster, render_symbol, rendering_view, symbol_drawing, Rendering,
};
use crate::text::{decimal_text, write_decimal};
use vstd::prelude::*;

verus! {

/// What a layer contributes to a legend: its drawing, or nothing where
/// the layer is left out, with the width and height it takes.
pub type LayerRendering = Result<(Option<DrawingView>, int, int), ErrorView>;

/// A legend: a style, and how its layers are to be drawn.
#[derive(Debug, PartialEq, Eq)]
pub struct MapLibreLegend {
    /// The style whose layers are drawn.
    pub style: Style,
    /// The width of every drawing.
    pub default_width: u32,
    /// The height of a drawing with a single swatch.
    pub default_height: u32,
    /// Whether the label of a layer is drawn.
    pub has_label: bool,
    /// Whether raster layers are drawn.
    pub include_raster: bool,
    /// Whether the sprite of the style is at hand, so that icons can be drawn.
    pub has_sprite: bool,
}

/// A legend as mathematical values.
pub struct LegendView {
    pub style: StyleView,
    pub default_width: int,
    pub default_height: int,
    pub has_label: bool,
    pub include_raster: bool,
    pub has_sprite: bool,
}

impl View for MapLibreLegend {
    type V = LegendView;

    open spec fn view(&self) -> LegendView {
        LegendView {
            style: self.style@,
            default_width: self.default_width as int,
            default_height: self.default_height as int,
            has_label: self.has_label,
            include_raster: self.include_raster,
            has_sprite: self.has_sprite,
        }
    }
}

/// A rendering that draws something.
pub open spec fn drawn(r: Rendering) -> LayerRendering {
    match r {
        Ok((drawing, width, height)) => Ok((Some(drawing), width, height)),
        Err(e) => Err(e),
    }
}

/// The legend of a layer painted by a paint object, which it must have.
pub open spec fn painted(
    kind: SwatchKind,
    layer: LayerView,
    width: int,
    height: int,
    has_label: bool,
) -> LayerRendering {
    match paint_of(layer) {
        Err(e) => Err(e),
        Ok(paint) => drawn(paint_drawing(kind, layer, paint, width, height, has_label)),
    }
}

/// The legend of one layer, by the type of the layer. A raster layer
/// that is not asked for contributes nothing, of no size.
pub open spec fn layer_rendering(
    layer: LayerView,
    width: int,
    height: int,
    has_label: bool,
    include_raster: bool,
    has_sprite: bool,
) -> LayerRendering {
    match renderer_of(layer.layer_type, include_raster) {
        Renderer::Fill => painted(SwatchKind::Fill, layer, width, height, has_label),
        Renderer::Line => painted(SwatchKind::Line, layer, width, height, has_label),
        Renderer::Circle => painted(SwatchKind::Circle, layer, width, height, has_label),
        Renderer::Symbol => drawn(symbol_drawing(layer, has_sprite, width, height, has_label)),
        Renderer::Raster => drawn(
            picture_drawing(ShapeView::Checkerboard, layer, width, height, has_label),
        ),
        Renderer::Nothing => Ok((None, 0, 0)),
        Renderer::Default => Ok(
            (Some(default_drawing(layer, width, height, has_label)), width, height),
        ),
    }
}

/// The outcome of rendering a layer as mathematical values.
pub open spec fn layer_rendering_view(
    r: Result<(Option<Drawing>, u32, u32), LegendError>,
) -> LayerRendering {
    match r {
        Ok((Some(drawing), width, height)) => Ok((Some(drawing@), width as int, height as int)),
        Ok((None, width, height)) => Ok((None, width as int, height as int)),
        Err(e) => Err(e@),
    }
}

/// A rendering that draws something.
fn some_drawing(r: Result<(Drawing, u32, u32), LegendError>) -> (out: Result<
    (Option<Drawing>, u32, u32),
    LegendError,
>)
    ensures
        layer_rendering_view(out) == drawn(rendering_view(r)),
{
    match r {
        Ok((drawing, width, height)) => Ok((Some(drawing), width, height)),
        Err(e) => Err(e),
    }
}

/// Draws the legend of one layer, by the type of the layer.
pub fn render_layer_svg(
    layer: &Layer,
    def_w: u32,
    def_h: u32,
    render_label: bool,
    include_raster: bool,
    has_sprite: bool,
) -> (r: Result<(Option<Drawing>, u32, u32), LegendError>)
    ensures
        layer_rendering_view(r) == layer_rendering(
            layer@,
            def_w as int,
            def_h as int,
            render_label,
            include_raster,
            has_sprite,
        ),
{
    match renderer_for(layer.layer_type.as_str(), include_raster) {
        Renderer::Fill => match get_paint_object(layer) {
            Ok(paint) => some_drawing(render_fill(layer, paint, def_w, def_h, render_label)),
            Err(e) => Err(e),
        },
        Renderer::Line => match get_paint_object(layer) {
            Ok(paint) => some_drawing(render_line(layer, paint, def_w, def_h, render_label)),
            Err(e) => Err(e),
        },
        Renderer::Circle => match get_paint_object(layer) {
            Ok(paint) => some_drawing(render_circle(layer, paint, def_w, def_h, render_label)),
            Err(e) => Err(e),
        },
        Renderer::Symbol => some_drawing(
            render_symbol(layer, def_w, def_h, render_label, has_sprite),
        ),
        Renderer::Raster => some_drawing(render_raster(layer, def_w, def_h, render_label)),
        Renderer::Nothing => Ok((None, 0, 0)),
        Renderer::Default => match render_default(layer, def_w, def_h, render_label) {
            Some((drawing, width, height)) => Ok((Some(drawing), width, height)),
            None => Ok((None, 0, 0)),
        },
    }
}

/// The layers in the order they are drawn in, from top to bottom.
pub open spec fn drawing_order(layers: Seq<LayerView>, rev: bool) -> Seq<LayerView> {
    if rev {
        layers.reverse()
    } else {
        layers
    }
}

/// The legends of all layers of a style, in the order they are drawn in.
pub open spec fn layer_renderings(legend: LegendView, rev: bool) -> Seq<LayerRendering> {
    Seq::new(
        legend.style.layers.len(),
        |k: int|
            layer_rendering(
                drawing_order(legend.style.layers, rev)[k],
                legend.default_width,
                legend.default_height,
                legend.has_label,
                legend.include_raster,
                legend.has_sprite,
            ),
    )
}

/// The legend of the first layer with the given identifier.
pub open spec fn rendering_of(legend: LegendView, id: Seq<char>, has_label: Option<bool>)
    -> LayerRendering {
    match crate::layer::layer_position(legend.style.layers, id) {
        None => Err(crate::error::invalid_json("Layer with ID '"@ + id + "' not found"@)),
        Some(position) => layer_rendering(
            legend.style.layers[position],
            legend.default_width,
            legend.default_height,
            match has_label {
                Some(wanted) => wanted,
                None => legend.has_label,
            },
            legend.include_raster,
            legend.has_sprite,
        ),
    }
}

/// A list of renderings as mathematical values.
pub open spec fn renderings_view(parts: Seq<(Option<Drawing>, u32, u32)>) -> Seq<
    (Option<DrawingView>, int, int),
> {
    Seq::new(
        parts.len(),
        |k: int|
            (
                match parts[k].0 {
                    Some(drawing) => Some(drawing@),
                    None => None,
                },
                parts[k].1 as int,
                parts[k].2 as int,
            ),
    )
}

impl MapLibreLegend {
    /// A legend of the given style.
    pub fn new(
        style: Style,
        default_width: u32,
        default_height: u32,
        has_label: bool,
        include_raster: bool,
        has_sprite: bool,
    ) -> (r: MapLibreLegend)
        ensures
            r.style == style,
            r.default_width == default_width,
            r.default_height == default_height,
            r.has_label == has_label,
            r.include_raster == include_raster,
            r.has_sprite == has_sprite,
    {
        MapLibreLegend {
            style,
            default_width,
            default_height,
            has_label,
            include_raster,
            has_sprite,
        }
    }

    /// Draws the legend of the first layer with the given identifier.
    /// `has_label` decides whether the label is drawn; where it says
    /// nothing, the legend's own setting decides.
    pub fn render_layer(&self, id: &str, has_label: Option<bool>) -> (r: Result<
        (Option<Drawing>, u32, u32),
        LegendError,
    >)
        ensures
            layer_rendering_view(r) == rendering_of(self@, id@, has_label),
    {
        let layer = match self.style.find_layer(id) {
            Ok(layer) => layer,
            Err(e) => {
                return Err(e);
            },
        };
        let wanted = match has_label {
            Some(wanted) => wanted,
            None => self.has_label,
        };
        render_layer_svg(
            layer,
            self.default_width,
            self.default_height,
            wanted,
            self.include_raster,
            self.has_sprite,
        )
    }

    /// Draws the legend of every layer, in the order of the style or, with
    /// `rev`, from its last layer to its first. A layer that cannot be
    /// drawn is reported in its place and holds up no other layer.
    pub fn render_each(&self, rev: bool) -> (r: Vec<
        Result<(Option<Drawing>, u32, u32), LegendError>,
    >)
        ensures
            r.len() == self.style.layers.len(),
            forall|k: int|
                0 <= k < r.len() ==> layer_rendering_view(#[trigger] r[k]) == layer_renderings(
                    self@,
                    rev,
                )[k],
    {
        let total = self.style.layers.len();
        let mut parts: Vec<Result<(Option<Drawing>, u32, u32), LegendError>> = Vec::new();
        let mut k: usize = 0;
        while k < total
            invariant
                total == self.style.layers.len(),
                k <= total,
                parts.len() == k,
                forall|j: int|
                    0 <= j < k ==> layer_rendering_view(#[trigger] parts[j]) == layer_renderings(
                        self@,
                        rev,
                    )[j],
            decreases total - k,
        {
            let index = if rev {
                total - 1 - k
            } else {
                k
            };
            let rendered = render_layer_svg(
                &self.style.layers[index],
                self.default_width,
                self.default_height,
                self.has_label,
                self.include_raster,
                self.has_sprite,
            );
            assert(drawing_order(self@.style.layers, rev)[k as int]
                == self.style.layers[index as int]@);
            parts.push(rendered);
            k += 1;
        }
        parts
    }

    /// Draws the legends of all layers, in the order of the style or, with
    /// `rev`, from its last layer to its first. The first layer that cannot
    /// be drawn decides the error.
    pub fn render_all(&self, rev: bool) -> (r: Result<
        Vec<(Option<Drawing>, u32, u32)>,
        LegendError,
    >)
        ensures
            match r {
                Ok(parts) => gather(layer_renderings(self@, rev)) == Ok::<
                    Seq<(Option<DrawingView>, int, int)>,
                    ErrorView,
                >(renderings_view(parts@)),
                Err(e) => gather(layer_renderings(self@, rev)) == Err::<
                    Seq<(Option<DrawingView>, int, int)>,
                    ErrorView,
                >(e@),
            },
    {
        let ghost all = layer_renderings(self@, rev);
        let total = self.style.layers.len();
        let mut parts: Vec<(Option<Drawing>, u32, u32)> = Vec::new();
        let mut k: usize = 0;
        assert(all.take(0) =~= Seq::empty());
        assert(renderings_view(parts@) =~= Seq::empty());
        while k < total
            invariant
                total == self.style.layers.len(),
                all == layer_renderings(self@, rev),
                k <= total,
                gather(all.take(k as int)) == Ok::<
                    Seq<(Option<DrawingView>, int, int)>,
                    ErrorView,
                >(renderings_view(parts@)),
            decreases total - k,
        {
            let index = if rev {
                total - 1 - k
            } else {
                k
            };
            let rendered = render_layer_svg(
                &self.style.layers[index],
                self.default_width,
                self.default_height,
                self.has_label,
                self.include_raster,
                self.has_sprite,
            );
            assert(drawing_order(self@.style.layers, rev)[k as int]
                == self.style.layers[index as int]@);
            assert(layer_rendering_view(rendered) == all[k as int]);
            match rendered {
                Ok(part) => {
                    let ghost before = renderings_view(parts@);
                    let ghost added = all[k as int]->Ok_0;
                    proof {
                        lemma_gather_next(all, k as int);
                    }
                    parts.push(part);
                    assert(renderings_view(parts@) =~= before.push(added));
                },
                Err(e) => {
                    proof {
                        lemma_gather_error(all, k as int);
                    }
                    return Err(e);
                },
            }
            k += 1;
        }
        assert(all.take(k as int) =~= all);
        Ok(parts)
    }
}

/// The sizes of the parts of a stack: the width and height of each.
pub open spec fn sizes_of(parts: Seq<(Seq<char>, u32, u32)>) -> Seq<(u32, u32)> {
    Seq::new(parts.len(), |k: int| (parts[k].1, parts[k].2))
}

/// The markup of one layer in a stack, moved down to its place.
pub open spec fn layer_block(inner: Seq<char>, offset: int) -> Seq<char> {
    "<g transform='translate(0,"@ + decimal_text(offset as nat) + ")'>"@ + inner + "\n</g>\n"@
}

/// The markup of the rule between two layers of a stack.
pub open spec fn rule_line(y: int, width: int) -> Seq<char> {
    "<line x1='0' y1='"@ + decimal_text(y as nat) + "' x2='"@ + decimal_text(width as nat)
        + "' y2='"@ + decimal_text(y as nat) + "' stroke='#333333' stroke-width='0.5'/>\n"@
}

/// The markup of the first `count` layers of a stack: each layer, and a
/// rule below every layer but the last of the stack.
pub open spec fn stacked_body(parts: Seq<(Seq<char>, u32, u32)>, count: int) -> Seq<char>
    decreases count,
{
    if count <= 0 {
        Seq::empty()
    } else {
        let (offset, bottom, width) = placement_of(sizes_of(parts), count - 1);
        let block = layer_block(parts[count - 1].0, offset);
        if count < parts.len() {
            stacked_body(parts, count - 1) + block + rule_line(bottom, width)
        } else {
            stacked_body(parts, count - 1) + block
        }
    }
}

/// The document that stacks the given layers: as wide as the widest of
/// them, as high as all of them together.
pub open spec fn stacked_svg(parts: Seq<(Seq<char>, u32, u32)>) -> Seq<char> {
    let width = decimal_text(widths_max(sizes_of(parts), parts.len() as int) as nat);
    let height = decimal_text(heights_sum(sizes_of(parts), parts.len() as int) as nat);
    "<svg xmlns='http://www.w3.org/2000/svg' width='"@ + width + "' height='"@ + height
        + "' viewBox='0 0 "@ + width + " "@ + height + "'>\n"@ + stacked_body(
        parts,
        parts.len() as int,
    ) + "</svg>"@
}

/// Writes the document that stacks the given layers one below the other.
/// Each part is the markup of a layer with its width and height. Nothing
/// is written where the heights do not add up within 32 bits.
pub fn combine_layers(parts: &Vec<(String, u32, u32)>) -> (r: Option<String>)
    ensures
        match r {
            Some(svg) => svg@ == stacked_svg(parts.deep_view()),
            None => heights_sum(sizes_of(parts.deep_view()), parts.len() as int) > u32::MAX,
        },
{
    let ghost all = parts.deep_view();
    let mut sizes: Vec<(u32, u32)> = Vec::new();
    let mut i: usize = 0;
    while i < parts.len()
        invariant
            i <= parts.len(),
            all == parts.deep_view(),
            sizes@ =~= sizes_of(all).take(i as int),
        decreases parts.len() - i,
    {
        sizes.push((parts[i].1, parts[i].2));
        i += 1;
    }
    assert(sizes@ =~= sizes_of(all));
    let places = match stack_layers(&sizes) {
        Some(places) => places,
        None => {
            return None;
        },
    };
    let mut body = String::new();
    let mut width: u32 = 0;
    let mut height: u32 = 0;
    let mut k: usize = 0;
    while k < parts.len()
        invariant
            k <= parts.len(),
            all == parts.deep_view(),
            sizes@ == sizes_of(all),
            places.len() == parts.len(),
            forall|j: int|
                0 <= j < places.len() ==> (
                    #[trigger] places[j].offset as int,
                    places[j].bottom as int,
                    places[j].width as int,
                ) == placement_of(sizes@, j),
            body@ == stacked_body(all, k as int),
            width == widths_max(sizes@, k as int),
            height == heights_sum(sizes@, k as int),
        decreases parts.len() - k,
    {
        let place = places[k];
        assert((place.offset as int, place.bottom as int, place.width as int) == placement_of(
            sizes@,
            k as int,
        ));
        let offset = write_decimal(place.offset as u64);
        body.append("<g transform='translate(0,");
        body.append(offset.as_str());
        body.append(")'>");
        body.append(parts[k].0.as_str());
        body.append("\n</g>\n");
        if k + 1 < parts.len() {
            let y = write_decimal(place.bottom as u64);
            let x = write_decimal(place.width as u64);
            body.append("<line x1='0' y1='");
            body.append(y.as_str());
            body.append("' x2='");
            body.append(x.as_str());
            body.append("' y2='");
            body.append(y.as_str());
            body.append("' stroke='#333333' stroke-width='0.5'/>\n");
        }
        width = place.width;
        height = place.bottom;
        assert(body@ =~= stacked_body(all, k + 1));
        k += 1;
    }
    let w = write_decimal(width as u64);
    let h = write_decimal(height as u64);
    let mut svg = String::from_str("<svg xmlns='http://www.w3.org/2000/svg' width='");
    svg.append(w.as_str());
    svg.append("' height='");
    svg.append(h.as_str());
    svg.append("' viewBox='0 0 ");
    svg.append(w.as_str());
    svg.append(" ");
    svg.append(h.as_str());
    svg.append("'>\n");
    svg.append(body.as_str());
    svg.append("</svg>");
    assert(svg@ =~= stacked_svg(all));
    Some(svg)
}

/// The parts of a stack of documents: what each document draws, with
/// its width and height.
pub open spec fn parts_of(documents: Seq<(Seq<char>, u32, u32)>) -> Seq<(Seq<char>, u32, u32)> {
    Seq::new(
        documents.len(),
        |k: int| (inner_markup_of(documents[k].0), documents[k].1, documents[k].2),
    )
}

/// Writes the document that stacks the drawings of the given documents
/// one below the other. Each comes with its width and height. Nothing is
/// written where the heights do not add up within 32 bits.
pub fn stack_documents(documents: &Vec<(String, u32, u32)>) -> (r: Option<String>)
    ensures
        match r {
            Some(svg) => svg@ == stacked_svg(parts_of(documents.deep_view())),
            None => heights_sum(
                sizes_of(parts_of(documents.deep_view())),
                documents.len() as int,
            ) > u32::MAX,
        },
{
    let ghost all = documents.deep_view();
    let mut parts: Vec<(String, u32, u32)> = Vec::new();
    let mut i: usize = 0;
    while i < documents.len()
        invariant
            i <= documents.len(),
            all == documents.deep_view(),
            parts.deep_view() =~= parts_of(all).take(i as int),
        decreases documents.len() - i,
    {
        let ghost before = parts.deep_view();
        let inner = inner_markup(documents[i].0.as_str());
        let ghost added = (inner@, documents[i as int].1, documents[i as int].2);
        parts.push((inner, documents[i].1, documents[i].2));
        assert(parts.deep_view() =~= before.push(added));
        i += 1;
    }
    assert(parts.deep_view() =~= parts_of(all));
    combine_layers(&parts)
}

} // verus!
