//! What a layer puts into a legend, before it is drawn.

use crate::entries::Entry;
use crate::error::{invalid_json, json_error, ErrorView, LegendError};
use crate::expression::{color_of, extract_color, legend_of_value, parse_expression};
use crate::json::{find_member, lookup, Json, JsonView, Members};
use crate::layer::{get_layout_object, layout_of, Layer, LayerView};
use crate::text::{join3, text_is};
use vstd::prelude::*;

verus! {

/// The drawing that stands for a layer in a legend.
#[derive(Clone, Copy, Debug, PartialEq, Eq, Structural)]
pub enum Renderer {
    /// Filled rectangles, coloured by `fill-color`.
    Fill,
    /// Strokes, coloured by `line-color`.
    Line,
    /// Discs, coloured by `circle-color`.
    Circle,
    /// Icons or a text glyph, chosen by the layout.
    Symbol,
    /// A small checkerboard.
    Raster,
    /// An empty drawing of no size.
    Nothing,
    /// A grey rectangle.
    Default,
}

/// The drawing for a layer of the given type. Raster layers are drawn
/// only on request.
pub open spec fn renderer_of(layer_type: Seq<char>, include_raster: bool) -> Renderer {
    if layer_type == "fill"@ {
        Renderer::Fill
    } else if layer_type == "line"@ {
        Renderer::Line
    } else if layer_type == "circle"@ {
        Renderer::Circle
    } else if layer_type == "symbol"@ {
        Renderer::Symbol
    } else if layer_type == "raster"@ {
        if include_raster {
            Renderer::Raster
        } else {
            Renderer::Nothing
        }
    } else {
        Renderer::Default
    }
}

/// Chooses the drawing for a layer of the given type.
pub fn renderer_for(layer_type: &str, include_raster: bool) -> (r: Renderer)
    ensures
        r == renderer_of(layer_type@, include_raster),
{
    if text_is(layer_type, "fill") {
        Renderer::Fill
    } else if text_is(layer_type, "line") {
        Renderer::Line
    } else if text_is(layer_type, "circle") {
        Renderer::Circle
    } else if text_is(layer_type, "symbol") {
        Renderer::Symbol
    } else if text_is(layer_type, "raster") {
        if include_raster {
            Renderer::Raster
        } else {
            Renderer::Nothing
        }
    } else {
        Renderer::Default
    }
}

/// The members of the `paint` object of a layer.
pub open spec fn paint_of(layer: LayerView) -> Result<Members, ErrorView> {
    match layer.paint {
        None => Err(invalid_json("Missing the 'paint' field for layer '"@ + layer.id + "'"@)),
        Some(JsonView::Object(members)) => Ok(members),
        Some(_) => Err(
            invalid_json("The 'paint' field is not an object for layer '"@ + layer.id + "'"@),
        ),
    }
}

/// The `paint` object of the layer.
pub fn get_paint_object(layer: &Layer) -> (r: Result<&Vec<(String, Json)>, LegendError>)
    ensures
        match r {
            Ok(members) => paint_of(layer@) == Ok::<Members, ErrorView>(members.deep_view()),
            Err(e) => paint_of(layer@) == Err::<Members, ErrorView>(e@),
        },
{
    match &layer.paint {
        None => Err(
            LegendError::InvalidJson(
                join3("Missing the 'paint' field for layer '", layer.id.as_str(), "'"),
            ),
        ),
        Some(paint) => match paint.as_object() {
            Some(members) => Ok(members),
            None => Err(
                LegendError::InvalidJson(
                    join3(
                        "The 'paint' field is not an object for layer '",
                        layer.id.as_str(),
                        "'",
                    ),
                ),
            ),
        },
    }
}

/// What a paint property puts into a legend.
#[derive(Debug, PartialEq, Eq)]
pub enum Swatches {
    /// One swatch in the given colour, beside the layer's label.
    Single(String),
    /// One row for each entry: its label and its colour.
    List(Vec<(String, String)>),
}

/// What a paint property puts into a legend, as mathematical values.
pub enum SwatchesView {
    Single(Seq<char>),
    List(Seq<Entry>),
}

impl View for Swatches {
    type V = SwatchesView;

    open spec fn view(&self) -> SwatchesView {
        match self {
            Swatches::Single(color) => SwatchesView::Single(color@),
            Swatches::List(entries) => SwatchesView::List(entries.deep_view()),
        }
    }
}

/// The swatches of the paint property `key`: the entries of its legend,
/// or, where the legend is empty, one swatch in the property's colour.
pub open spec fn swatches_of(layer: LayerView, paint: Members, key: Seq<char>) -> Result<
    SwatchesView,
    ErrorView,
> {
    match lookup(paint, key) {
        None => Err(invalid_json("Missing the '"@ + key + "' field in paint"@)),
        Some(value) => match legend_of_value(layer, value) {
            Err(e) => Err(e),
            Ok(entries) => if entries.len() > 0 {
                Ok(SwatchesView::List(entries))
            } else {
                match color_of(Some(value)) {
                    Ok(color) => Ok(SwatchesView::Single(color)),
                    Err(e) => Err(e),
                }
            },
        },
    }
}

/// Derives the swatches of the paint property `key` of a layer.
pub fn paint_swatches(layer: &Layer, paint: &Vec<(String, Json)>, key: &str) -> (r: Result<
    Swatches,
    LegendError,
>)
    ensures
        match r {
            Ok(swatches) => swatches_of(layer@, paint.deep_view(), key@) == Ok::<
                SwatchesView,
                ErrorView,
            >(swatches@),
            Err(e) => swatches_of(layer@, paint.deep_view(), key@) == Err::<
                SwatchesView,
                ErrorView,
            >(e@),
        },
{
    let value = match find_member(paint, key) {
        Some(value) => value,
        None => {
            return Err(LegendError::InvalidJson(join3("Missing the '", key, "' field in paint")));
        },
    };
    let entries = match parse_expression(layer, value) {
        Ok(entries) => entries,
        Err(e) => {
            return Err(e);
        },
    };
    if entries.len() > 0 {
        Ok(Swatches::List(entries))
    } else {
        match extract_color(Some(value)) {
            Ok(color) => Ok(Swatches::Single(color)),
            Err(e) => Err(e),
        }
    }
}

/// What a symbol layer puts into a legend.
#[derive(Debug, PartialEq, Eq)]
pub enum Symbol {
    /// One icon of the sprite, beside the layer's label.
    Icon(String),
    /// One row for each entry: its label and the name of its icon.
    Icons(Vec<(String, String)>),
    /// A glyph that stands for text.
    Text,
}

/// What a symbol layer puts into a legend, as mathematical values.
pub enum SymbolView {
    Icon(Seq<char>),
    Icons(Seq<Entry>),
    Text,
}

impl View for Symbol {
    type V = SymbolView;

    open spec fn view(&self) -> SymbolView {
        match self {
            Symbol::Icon(name) => SymbolView::Icon(name@),
            Symbol::Icons(entries) => SymbolView::Icons(entries.deep_view()),
            Symbol::Text => SymbolView::Text,
        }
    }
}

/// What the layout of a symbol layer asks for: the icons of `icon-image`,
/// which need a sprite, or else a glyph for `text-field`.
pub open spec fn symbol_of(layer: LayerView, has_sprite: bool) -> Result<SymbolView, ErrorView> {
    match layout_of(layer) {
        Err(e) => Err(e),
        Ok(layout) => match lookup(layout, "icon-image"@) {
            Some(icon) => if !has_sprite {
                Err(invalid_json("Missing sprite data for 'icon-image'"@))
            } else {
                match icon {
                    JsonView::String(name) => Ok(SymbolView::Icon(name)),
                    JsonView::Array(_) => match legend_of_value(layer, icon) {
                        Ok(entries) => Ok(SymbolView::Icons(entries)),
                        Err(e) => Err(e),
                    },
                    _ => Err(
                        invalid_json("The field 'icon-image' is neither a string nor an array"@),
                    ),
                }
            },
            None => if lookup(layout, "text-field"@) is Some {
                Ok(SymbolView::Text)
            } else {
                Err(
                    invalid_json(
                        "Neither 'text-field' nor 'icon-image' are present in 'layout'"@,
                    ),
                )
            },
        },
    }
}

/// Decides what a symbol layer puts into a legend.
pub fn plan_symbol(layer: &Layer, has_sprite: bool) -> (r: Result<Symbol, LegendError>)
    ensures
        match r {
            Ok(symbol) => symbol_of(layer@, has_sprite) == Ok::<SymbolView, ErrorView>(symbol@),
            Err(e) => symbol_of(layer@, has_sprite) == Err::<SymbolView, ErrorView>(e@),
        },
{
    let layout = match get_layout_object(layer) {
        Ok(layout) => layout,
        Err(e) => {
            return Err(e);
        },
    };
    match find_member(layout, "icon-image") {
        Some(icon) => {
            if !has_sprite {
                return Err(json_error("Missing sprite data for 'icon-image'"));
            }
            if let Some(name) = icon.as_str() {
                Ok(Symbol::Icon(String::from_str(name)))
            } else if icon.is_array() {
                match parse_expression(layer, icon) {
                    Ok(entries) => Ok(Symbol::Icons(entries)),
                    Err(e) => Err(e),
                }
            } else {
                Err(json_error("The field 'icon-image' is neither a string nor an array"))
            }
        },
        None => {
            if find_member(layout, "text-field").is_some() {
                Ok(Symbol::Text)
            } else {
                Err(json_error("Neither 'text-field' nor 'icon-image' are present in 'layout'"))
            }
        },
    }
}

} // verus!
