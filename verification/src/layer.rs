//! Layers and styles, and the legend metadata of a layer.

use crate::error::{invalid_json, json_error, ErrorView, LegendError};
use crate::json::{find_member, lookup, member, Json, JsonView, Members};
use crate::text::{join3, text_is};
use vstd::prelude::*;

verus! {

/// One layer of a style document.
#[derive(Debug, PartialEq, Eq)]
pub struct Layer {
    /// The identifier of the layer, unique within its style.
    pub id: String,
    /// The kind of the layer: `fill`, `line`, `circle`, `symbol`, `raster`, ...
    pub layer_type: String,
    /// The paint properties, if the layer has any.
    pub paint: Option<Json>,
    /// The layout properties, if the layer has any.
    pub layout: Option<Json>,
    /// Free-form metadata; its `legend` member configures the legend.
    pub metadata: Option<Json>,
}

/// A style document: its layers and, where it has one, the address of its sprite.
#[derive(Debug, PartialEq, Eq)]
pub struct Style {
    pub layers: Vec<Layer>,
    pub sprite: Option<String>,
}

/// What a layer's `legend` metadata says about its legend.
#[derive(Debug, PartialEq, Eq)]
pub struct LayerMetadata {
    /// The title of the legend.
    pub label: String,
    /// The label of the default branch of an expression.
    pub default_label: String,
    /// Labels that replace the derived ones, position by position.
    pub custom_labels: Vec<String>,
}

/// A layer as mathematical values.
pub struct LayerView {
    pub id: Seq<char>,
    pub layer_type: Seq<char>,
    pub paint: Option<JsonView>,
    pub layout: Option<JsonView>,
    pub metadata: Option<JsonView>,
}

/// Legend metadata as mathematical values.
pub struct LayerMetadataView {
    pub label: Seq<char>,
    pub default_label: Seq<char>,
    pub custom_labels: Seq<Seq<char>>,
}

/// The view of a JSON value that may be absent.
pub open spec fn optional_view(value: Option<Json>) -> Option<JsonView> {
    match value {
        Some(v) => Some(v@),
        None => None,
    }
}

impl View for Layer {
    type V = LayerView;

    open spec fn view(&self) -> LayerView {
        LayerView {
            id: self.id@,
            layer_type: self.layer_type@,
            paint: optional_view(self.paint),
            layout: optional_view(self.layout),
            metadata: optional_view(self.metadata),
        }
    }
}

impl DeepView for Layer {
    type V = LayerView;

    open spec fn deep_view(&self) -> LayerView {
        self@
    }
}

impl View for LayerMetadata {
    type V = LayerMetadataView;

    open spec fn view(&self) -> LayerMetadataView {
        LayerMetadataView {
            label: self.label@,
            default_label: self.default_label@,
            custom_labels: self.custom_labels.deep_view(),
        }
    }
}

/// A style document as mathematical values.
pub struct StyleView {
    pub layers: Seq<LayerView>,
    pub sprite: Option<Seq<char>>,
}

impl View for Style {
    type V = StyleView;

    open spec fn view(&self) -> StyleView {
        StyleView {
            layers: self.layers.deep_view(),
            sprite: match self.sprite {
                Some(address) => Some(address@),
                None => None,
            },
        }
    }
}

/// Copies a JSON value that may be absent.
fn copy_optional(value: &Option<Json>) -> (r: Option<Json>)
    ensures
        optional_view(r) == optional_view(*value),
{
    match value {
        Some(v) => Some(v.clone()),
        None => None,
    }
}

impl Clone for Layer {
    fn clone(&self) -> (r: Self)
        ensures
            r@ == self@,
    {
        Layer {
            id: self.id.clone(),
            layer_type: self.layer_type.clone(),
            paint: copy_optional(&self.paint),
            layout: copy_optional(&self.layout),
            metadata: copy_optional(&self.metadata),
        }
    }
}

/// The members of the `legend` object in a layer's metadata. A layer
/// without metadata, or whose metadata has no `legend` member, has none;
/// a `legend` member that is not an object is an error.
pub open spec fn legend_of(layer: LayerView) -> Result<Option<Members>, ErrorView> {
    match layer.metadata {
        None => Ok(None),
        Some(metadata) => match member(metadata, "legend"@) {
            None => Ok(None),
            Some(JsonView::Object(members)) => Ok(Some(members)),
            Some(_) => Err(invalid_json("The 'legend' field is not an object"@)),
        },
    }
}

/// The string under `key` in the legend object, or `fallback` where the
/// legend object, the member or its string is missing.
pub open spec fn legend_text(legend: Option<Members>, key: Seq<char>, fallback: Seq<char>) -> Seq<
    char,
> {
    match legend {
        Some(members) => match lookup(members, key) {
            Some(JsonView::String(s)) => s,
            _ => fallback,
        },
        None => fallback,
    }
}

/// The strings among the items, in order; other items are passed over.
pub open spec fn strings_in(items: Seq<JsonView>) -> Seq<Seq<char>>
    decreases items.len(),
{
    if items.len() == 0 {
        Seq::empty()
    } else {
        match items.last() {
            JsonView::String(s) => strings_in(items.drop_last()).push(s),
            _ => strings_in(items.drop_last()),
        }
    }
}

/// The custom labels of the legend object: the strings of its
/// `custom-labels` array, or none where there is no such array.
pub open spec fn legend_labels(legend: Option<Members>) -> Seq<Seq<char>> {
    match legend {
        Some(members) => match lookup(members, "custom-labels"@) {
            Some(JsonView::Array(items)) => strings_in(items),
            _ => Seq::empty(),
        },
        None => Seq::empty(),
    }
}

/// The legend metadata of a layer, each text falling back to the layer's
/// identifier.
pub open spec fn metadata_of(layer: LayerView) -> Result<LayerMetadataView, ErrorView> {
    match legend_of(layer) {
        Err(e) => Err(e),
        Ok(legend) => Ok(
            LayerMetadataView {
                label: legend_text(legend, "label"@, layer.id),
                default_label: legend_text(legend, "default"@, layer.id),
                custom_labels: legend_labels(legend),
            },
        ),
    }
}

/// The title of a layer's legend.
pub open spec fn label_of(layer: LayerView) -> Result<Seq<char>, ErrorView> {
    match metadata_of(layer) {
        Err(e) => Err(e),
        Ok(metadata) => Ok(metadata.label),
    }
}

/// The label of the default branch in a layer's legend.
pub open spec fn default_label_of(layer: LayerView) -> Result<Seq<char>, ErrorView> {
    match metadata_of(layer) {
        Err(e) => Err(e),
        Ok(metadata) => Ok(metadata.default_label),
    }
}

/// The custom labels of a layer's legend.
pub open spec fn custom_labels_of(layer: LayerView) -> Result<Seq<Seq<char>>, ErrorView> {
    match metadata_of(layer) {
        Err(e) => Err(e),
        Ok(metadata) => Ok(metadata.custom_labels),
    }
}

/// The members of the `layout` object of a layer.
pub open spec fn layout_of(layer: LayerView) -> Result<Members, ErrorView> {
    match layer.layout {
        None => Err(invalid_json("Missing 'layout' field"@)),
        Some(JsonView::Object(members)) => Ok(members),
        Some(_) => Err(invalid_json("The 'layout' field is not an object"@)),
    }
}

/// A text result as mathematical values.
pub open spec fn text_outcome(r: Result<String, LegendError>) -> Result<Seq<char>, ErrorView> {
    match r {
        Ok(s) => Ok(s@),
        Err(e) => Err(e@),
    }
}

/// Finds the `legend` object in the layer's metadata.
pub fn get_legend_object(layer: &Layer) -> (r: Result<Option<&Vec<(String, Json)>>, LegendError>)
    ensures
        match r {
            Ok(Some(members)) => legend_of(layer@) == Ok::<Option<Members>, ErrorView>(
                Some(members.deep_view()),
            ),
            Ok(None) => legend_of(layer@) == Ok::<Option<Members>, ErrorView>(None),
            Err(e) => legend_of(layer@) == Err::<Option<Members>, _>(e@),
        },
{
    let metadata = match &layer.metadata {
        Some(m) => m,
        None => {
            return Ok(None);
        },
    };
    let legend = match metadata.get("legend") {
        Some(l) => l,
        None => {
            return Ok(None);
        },
    };
    match legend.as_object() {
        Some(members) => Ok(Some(members)),
        None => Err(json_error("The 'legend' field is not an object")),
    }
}

/// Reads the string under `key` in the legend object, or copies `fallback`.
fn legend_string(legend: Option<&Vec<(String, Json)>>, key: &str, fallback: &String) -> (r: String)
    ensures
        r@ == legend_text(
            match legend {
                Some(members) => Some(members.deep_view()),
                None => None,
            },
            key@,
            fallback@,
        ),
{
    match legend {
        Some(members) => match find_member(members, key) {
            Some(value) => match value.as_str() {
                Some(s) => String::from_str(s),
                None => fallback.clone(),
            },
            None => fallback.clone(),
        },
        None => fallback.clone(),
    }
}

/// Collects the strings among the items, in order.
fn collect_strings(items: &Vec<Json>) -> (r: Vec<String>)
    ensures
        r.deep_view() == strings_in(items.deep_view()),
{
    let ghost all = items.deep_view();
    let mut out: Vec<String> = Vec::new();
    let mut i: usize = 0;
    assert(all.take(0) =~= Seq::empty());
    assert(out.deep_view() =~= Seq::empty());
    while i < items.len()
        invariant
            i <= items.len(),
            all == items.deep_view(),
            out.deep_view() == strings_in(all.take(i as int)),
        decreases items.len() - i,
    {
        let ghost before = out.deep_view();
        assert(all.take(i + 1).drop_last() =~= all.take(i as int));
        assert(all.take(i + 1).last() == items@[i as int]@);
        match items[i].as_str() {
            Some(s) => {
                out.push(String::from_str(s));
                assert(out.deep_view() =~= before.push(s@));
            },
            None => {},
        }
        i += 1;
    }
    assert(all.take(i as int) =~= all);
    out
}

/// Reads the custom labels out of the legend object.
fn legend_custom_labels(legend: Option<&Vec<(String, Json)>>) -> (r: Vec<String>)
    ensures
        r.deep_view() == legend_labels(
            match legend {
                Some(members) => Some(members.deep_view()),
                None => None,
            },
        ),
{
    match legend {
        Some(members) => match find_member(members, "custom-labels") {
            Some(value) => match value.as_array() {
                Some(items) => collect_strings(items),
                None => {
                    let none: Vec<String> = Vec::new();
                    assert(none.deep_view() =~= Seq::empty());
                    none
                },
            },
            None => {
                let none: Vec<String> = Vec::new();
                assert(none.deep_view() =~= Seq::empty());
                none
            },
        },
        None => {
            let none: Vec<String> = Vec::new();
            assert(none.deep_view() =~= Seq::empty());
            none
        },
    }
}

/// The title of the layer's legend: the `label` of its legend metadata, or
/// the layer's identifier.
pub fn get_layer_label(layer: &Layer) -> (r: Result<String, LegendError>)
    ensures
        text_outcome(r) == label_of(layer@),
{
    match get_legend_object(layer) {
        Ok(legend) => Ok(legend_string(legend, "label", &layer.id)),
        Err(e) => Err(e),
    }
}

/// The label of an expression's default branch: the `default` of the
/// layer's legend metadata, or the layer's identifier.
pub fn get_layer_default_label(layer: &Layer) -> (r: Result<String, LegendError>)
    ensures
        text_outcome(r) == default_label_of(layer@),
{
    match get_legend_object(layer) {
        Ok(legend) => Ok(legend_string(legend, "default", &layer.id)),
        Err(e) => Err(e),
    }
}

/// The custom labels of the layer's legend: the strings of `custom-labels`
/// in its legend metadata, in order.
pub fn get_custom_labels(layer: &Layer) -> (r: Result<Vec<String>, LegendError>)
    ensures
        match r {
            Ok(labels) => custom_labels_of(layer@) == Ok::<_, ErrorView>(labels.deep_view()),
            Err(e) => custom_labels_of(layer@) == Err::<Seq<Seq<char>>, _>(e@),
        },
{
    match get_legend_object(layer) {
        Ok(legend) => Ok(legend_custom_labels(legend)),
        Err(e) => Err(e),
    }
}

/// Everything the layer's legend metadata says, read at once.
pub fn get_layer_metadata(layer: &Layer) -> (r: Result<LayerMetadata, LegendError>)
    ensures
        match r {
            Ok(metadata) => metadata_of(layer@) == Ok::<_, ErrorView>(metadata@),
            Err(e) => metadata_of(layer@) == Err::<LayerMetadataView, _>(e@),
        },
{
    match get_legend_object(layer) {
        Ok(legend) => Ok(
            LayerMetadata {
                label: legend_string(legend, "label", &layer.id),
                default_label: legend_string(legend, "default", &layer.id),
                custom_labels: legend_custom_labels(legend),
            },
        ),
        Err(e) => Err(e),
    }
}

/// The position of the first layer with the given identifier, if there is one.
pub open spec fn layer_position(layers: Seq<LayerView>, id: Seq<char>) -> Option<int>
    decreases layers.len(),
{
    if layers.len() == 0 {
        None
    } else {
        match layer_position(layers.drop_last(), id) {
            Some(position) => Some(position),
            None => if layers.last().id == id {
                Some(layers.len() - 1)
            } else {
                None
            },
        }
    }
}

impl Style {
    /// Finds the first layer with the given identifier.
    pub fn find_layer(&self, id: &str) -> (r: Result<&Layer, LegendError>)
        ensures
            match r {
                Ok(layer) => layer_position(self@.layers, id@) matches Some(position)
                    && 0 <= position < self.layers.len() && *layer == self.layers[position],
                Err(e) => layer_position(self@.layers, id@) is None && e@ == invalid_json(
                    "Layer with ID '"@ + id@ + "' not found"@,
                ),
            },
    {
        let ghost all = self@.layers;
        let mut i: usize = 0;
        assert(all.take(0) =~= Seq::empty());
        while i < self.layers.len()
            invariant
                i <= self.layers.len(),
                all == self.layers.deep_view(),
                layer_position(all.take(i as int), id@) is None,
            decreases self.layers.len() - i,
        {
            assert(all.take(i + 1).drop_last() =~= all.take(i as int));
            assert(all.take(i + 1).last() == self.layers[i as int]@);
            if text_is(self.layers[i].id.as_str(), id) {
                proof {
                    lemma_position_stays(all, i + 1);
                }
                return Ok(&self.layers[i]);
            }
            i += 1;
        }
        assert(all.take(i as int) =~= all);
        Err(LegendError::InvalidJson(join3("Layer with ID '", id, "' not found")))
    }
}

/// A layer found among the first `count` layers is the one found among all.
pub proof fn lemma_position_stays(layers: Seq<LayerView>, count: int)
    requires
        0 <= count <= layers.len(),
    ensures
        forall|id: Seq<char>|
            layer_position(layers.take(count), id) is Some ==> #[trigger] layer_position(
                layers,
                id,
            ) == layer_position(layers.take(count), id),
    decreases layers.len() - count,
{
    if count < layers.len() {
        lemma_position_stays(layers, count + 1);
        assert(layers.take(count + 1).drop_last() =~= layers.take(count));
    } else {
        assert(layers.take(count) =~= layers);
    }
}

/// The `layout` object of the layer.
pub fn get_layout_object(layer: &Layer) -> (r: Result<&Vec<(String, Json)>, LegendError>)
    ensures
        match r {
            Ok(members) => layout_of(layer@) == Ok::<_, ErrorView>(members.deep_view()),
            Err(e) => layout_of(layer@) == Err::<Members, _>(e@),
        },
{
    match &layer.layout {
        None => Err(json_error("Missing 'layout' field")),
        Some(layout) => match layout.as_object() {
            Some(members) => Ok(members),
            None => Err(json_error("The 'layout' field is not an object")),
        },
    }
}

} // verus!
