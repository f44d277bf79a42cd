//! What holds of every legend: proved statements that relate the functions of
//! the library.

use crate::drawing::{
    height_of, list_drawing, row_of, rows_of, top_of, StrokesView, SwatchKind,
};
use crate::entries::{
    gather, label_for, layer_fault, lemma_gather_all_ok, lemma_gather_error_source,
    lemma_gather_ok, outcome_view, Entry, Outcome,
};
use crate::error::{ErrorKind, ErrorView, LegendError};
use crate::expression::{
    branch_count, branch_of, branches_of, case_legend, interpolate_legend, kind_of,
    legend_of_value, match_legend, shape_accepted, step_legend, ExpressionKind,
};
use crate::field::{field_of, is_transform};
use crate::json::{literal_text, Json, JsonView};
use crate::layer::{metadata_of, Layer, LayerMetadataView, LayerView};
use crate::layout::row_offset;
use vstd::prelude::*;

verus! {

/// The legend of an expression of the given form, by the handler of that form.
pub open spec fn legend_by_kind(kind: ExpressionKind, layer: LayerView, items: Seq<JsonView>)
    -> Outcome {
    match kind {
        ExpressionKind::Match => match_legend(layer, items),
        ExpressionKind::Case => case_legend(layer, items),
        ExpressionKind::Interpolate => interpolate_legend(layer, items),
        ExpressionKind::Step => step_legend(layer, items),
    }
}

/// The property that the input of an expression of the given form reads:
/// the element after the tag, or for `interpolate` the one after the
/// curve. `case` has no input.
pub open spec fn input_field(kind: ExpressionKind, items: Seq<JsonView>) -> Seq<char> {
    match kind {
        ExpressionKind::Match => field_of(items[1])->Ok_0,
        ExpressionKind::Case => Seq::empty(),
        ExpressionKind::Interpolate => field_of(items[2])->Ok_0,
        ExpressionKind::Step => field_of(items[1])->Ok_0,
    }
}

/// Whether an error is one about a malformed expression that names the layer.
pub open spec fn names_layer(error: ErrorView, layer: LayerView) -> bool {
    exists|reason: Seq<char>| error == layer_fault(layer, reason)
}

/// A literal yields exactly one entry: the layer's label with the
/// literal as text. Only unreadable legend metadata stands in the way.
pub proof fn law_literal_single_entry(layer: LayerView, value: JsonView)
    requires
        value is String || value is Number || value is Bool,
    ensures
        match metadata_of(layer) {
            Ok(meta) => legend_of_value(layer, value) == Ok::<Seq<Entry>, ErrorView>(
                seq![(meta.label, literal_text(value)->Some_0)],
            ),
            Err(e) => legend_of_value(layer, value) == Err::<Seq<Entry>, ErrorView>(e),
        },
{
}

/// Every accepted expression yields exactly one entry for each of its
/// branches, in source order: entry `k` is what branch `k` contributes.
pub proof fn law_entries_follow_branches(
    kind: ExpressionKind,
    layer: LayerView,
    items: Seq<JsonView>,
)
    requires
        legend_by_kind(kind, layer, items) is Ok,
    ensures
        shape_accepted(kind, items.len() as int),
        metadata_of(layer) is Ok,
        legend_by_kind(kind, layer, items)->Ok_0.len() == branch_count(kind, items.len() as int),
        forall|k: int|
            0 <= k < branch_count(kind, items.len() as int) ==> branch_of(
                kind,
                layer,
                metadata_of(layer)->Ok_0,
                input_field(kind, items),
                items,
                k,
            ) == Ok::<Entry, ErrorView>(#[trigger] legend_by_kind(kind, layer, items)->Ok_0[k]),
{
    let meta = metadata_of(layer)->Ok_0;
    let branches = branches_of(kind, layer, meta, input_field(kind, items), items);
    assert(legend_by_kind(kind, layer, items) == gather(branches));
    lemma_gather_ok(branches);
}

/// The value of pair `k` of a `match`.
pub open spec fn pair_value(items: Seq<JsonView>, k: int) -> JsonView {
    items[2 + 2 * k]
}

/// The colour of pair `k` of a `match`.
pub open spec fn pair_color(items: Seq<JsonView>, k: int) -> JsonView {
    items[3 + 2 * k]
}

/// A `match` with `n` value/colour pairs and a default, whose values are
/// literals and whose colours are strings, yields `n + 1` entries: pair
/// `k` as the text of its value (or the custom label at `k`) with its
/// colour, then the default colour under the default label (or the
/// custom label at `n`).
pub proof fn law_match_pairs_then_default(layer: LayerView, items: Seq<JsonView>, n: int)
    requires
        n >= 1,
        items.len() == 3 + 2 * n,
        field_of(items[1]) is Ok,
        metadata_of(layer) is Ok,
        forall|k: int| 0 <= k < n ==> literal_text(#[trigger] pair_value(items, k)) is Some,
        forall|k: int| 0 <= k < n ==> (#[trigger] pair_color(items, k)) is String,
        items.last() is String,
    ensures
        match_legend(layer, items) is Ok,
        match_legend(layer, items)->Ok_0.len() == n + 1,
        forall|k: int|
            0 <= k < n ==> #[trigger] match_legend(layer, items)->Ok_0[k] == (
                label_for(
                    metadata_of(layer)->Ok_0.custom_labels,
                    k,
                    literal_text(pair_value(items, k))->Some_0,
                ),
                pair_color(items, k)->String_0,
            ),
        match_legend(layer, items)->Ok_0[n] == (
            label_for(
                metadata_of(layer)->Ok_0.custom_labels,
                n,
                metadata_of(layer)->Ok_0.default_label,
            ),
            items.last()->String_0,
        ),
{
    let meta = metadata_of(layer)->Ok_0;
    let field = field_of(items[1])->Ok_0;
    let branches = branches_of(ExpressionKind::Match, layer, meta, field, items);
    assert forall|k: int| 0 <= k < branches.len() implies (#[trigger] branches[k]) is Ok by {
        if k < n {
            assert(literal_text(pair_value(items, k)) is Some);
            assert(pair_color(items, k) is String);
        }
    }
    lemma_gather_all_ok(branches);
    lemma_gather_ok(branches);
    let entries = gather(branches)->Ok_0;
    assert forall|k: int| 0 <= k < n implies #[trigger] entries[k] == (
        label_for(meta.custom_labels, k, literal_text(pair_value(items, k))->Some_0),
        pair_color(items, k)->String_0,
    ) by {
        assert(branches[k] == Ok::<Entry, ErrorView>(entries[k]));
        assert(literal_text(pair_value(items, k)) is Some);
        assert(pair_color(items, k) is String);
    }
    assert(branches[n] == Ok::<Entry, ErrorView>(entries[n]));
}

/// Custom labels replace derived labels position by position, over all
/// entries of an expression, until the list of custom labels runs out.
pub proof fn law_custom_labels_by_position(
    kind: ExpressionKind,
    layer: LayerView,
    items: Seq<JsonView>,
    k: int,
)
    requires
        legend_by_kind(kind, layer, items) is Ok,
        0 <= k < legend_by_kind(kind, layer, items)->Ok_0.len(),
        k < metadata_of(layer)->Ok_0.custom_labels.len(),
    ensures
        legend_by_kind(kind, layer, items)->Ok_0[k].0 == metadata_of(layer)->Ok_0.custom_labels[k],
{
    law_entries_follow_branches(kind, layer, items);
    let entry = legend_by_kind(kind, layer, items)->Ok_0[k];
    let meta = metadata_of(layer)->Ok_0;
    assert(branch_of(kind, layer, meta, input_field(kind, items), items, k) == Ok::<
        Entry,
        ErrorView,
    >(entry));
}

/// A list of entries is drawn as two shapes for each entry.
pub proof fn law_two_shapes_for_each_entry(
    kind: SwatchKind,
    entries: Seq<Entry>,
    has_label: bool,
    strokes: StrokesView,
)
    ensures
        rows_of(kind, entries, has_label, strokes).len() == 2 * entries.len(),
    decreases entries.len(),
{
    if entries.len() > 0 {
        law_two_shapes_for_each_entry(kind, entries.drop_last(), has_label, strokes);
    }
}

/// The two shapes of entry `k` are the swatch and the label of the row
/// that starts thirty units below the row of entry `k - 1`.
pub proof fn law_rows_follow_entries(
    kind: SwatchKind,
    entries: Seq<Entry>,
    has_label: bool,
    strokes: StrokesView,
    k: int,
)
    requires
        0 <= k < entries.len(),
    ensures
        rows_of(kind, entries, has_label, strokes).len() == 2 * entries.len(),
        rows_of(kind, entries, has_label, strokes).subrange(2 * k, 2 * k + 2) == row_of(
            kind,
            entries[k],
            row_offset(top_of(kind), has_label, k),
            strokes,
        ),
    decreases entries.len(),
{
    let earlier = entries.drop_last();
    let rows = rows_of(kind, entries, has_label, strokes);
    let before = rows_of(kind, earlier, has_label, strokes);
    let last = row_of(
        kind,
        entries.last(),
        row_offset(top_of(kind), has_label, entries.len() - 1),
        strokes,
    );
    law_two_shapes_for_each_entry(kind, earlier, has_label, strokes);
    assert(rows == before + last);
    assert(last.len() == 2);
    if k < earlier.len() {
        law_rows_follow_entries(kind, earlier, has_label, strokes, k);
        assert(earlier[k] == entries[k]);
        assert(rows.subrange(2 * k, 2 * k + 2) =~= before.subrange(2 * k, 2 * k + 2));
    } else {
        assert(rows.subrange(2 * k, 2 * k + 2) =~= last);
    }
}

/// The drawing of a list is as high as its rows ask for: twenty units
/// and thirty for each entry, and twenty more under a title; a list of
/// icons takes another ten under a title. It holds two shapes for each
/// entry, after the two shapes of the title where there is one.
pub proof fn law_list_drawing_grows_with_entries(
    kind: SwatchKind,
    title: Option<Seq<char>>,
    entries: Seq<Entry>,
    strokes: StrokesView,
    width: int,
)
    ensures
        list_drawing(kind, title, entries, strokes, width).width == width,
        list_drawing(kind, title, entries, strokes, width).height == Some(
            height_of(kind, entries.len() as int, title is Some),
        ),
        height_of(kind, entries.len() as int, title is Some) == 20 + 30 * entries.len() + (
        if title is Some {
            if kind == SwatchKind::Icon {
                30int
            } else {
                20int
            }
        } else {
            0int
        }),
        list_drawing(kind, title, entries, strokes, width).shapes.len() == 2 * entries.len() + (
        if title is Some {
            2int
        } else {
            0int
        }),
{
    law_two_shapes_for_each_entry(kind, entries, title is Some, strokes);
}

/// A transform around an input changes nothing about the property it reads.
pub proof fn law_transform_keeps_field(op: Seq<char>, inner: JsonView)
    requires
        is_transform(op),
    ensures
        field_of(JsonView::Array(seq![JsonView::String(op), inner])) == field_of(inner),
{
    reveal_strlit("get");
    reveal_strlit("downcase");
    reveal_strlit("upcase");
    reveal_strlit("to-string");
    reveal_strlit("to-number");
    assert(op.len() != "get"@.len());
}

/// `["get", name]` reads the property `name`.
pub proof fn law_get_reads_name(name: Seq<char>)
    ensures
        field_of(JsonView::Array(seq![JsonView::String("get"@), JsonView::String(name)])) == Ok::<
            Seq<char>,
            Seq<char>,
        >(name),
{
}

/// Two runs on the same layer and value end the same way: the outcome is
/// a function of the two inputs alone.
pub proof fn law_same_inputs_same_legend(
    layer: Layer,
    value: Json,
    first: Result<Vec<(String, String)>, LegendError>,
    second: Result<Vec<(String, String)>, LegendError>,
)
    requires
        outcome_view(first) == legend_of_value(layer@, value@),
        outcome_view(second) == legend_of_value(layer@, value@),
    ensures
        outcome_view(first) == outcome_view(second),
{
}

/// A `match` of fewer than four elements is refused as a malformed expression.
pub proof fn law_short_match_refused(layer: LayerView, items: Seq<JsonView>)
    requires
        1 <= items.len() < 4,
        items[0] == JsonView::String("match"@),
    ensures
        legend_of_value(layer, JsonView::Array(items)) is Err,
        legend_of_value(layer, JsonView::Array(items))->Err_0.kind == ErrorKind::InvalidExpression,
        names_layer(legend_of_value(layer, JsonView::Array(items))->Err_0, layer),
{
    assert(legend_of_value(layer, JsonView::Array(items))->Err_0 == layer_fault(
        layer,
        "Array 'match' too short"@,
    ));
}

/// An array whose tag names none of the four forms is refused as a
/// malformed expression.
pub proof fn law_unknown_tag_refused(layer: LayerView, items: Seq<JsonView>, tag: Seq<char>)
    requires
        items.len() >= 1,
        items[0] == JsonView::String(tag),
        kind_of(tag) is None,
    ensures
        legend_of_value(layer, JsonView::Array(items)) is Err,
        legend_of_value(layer, JsonView::Array(items))->Err_0.kind == ErrorKind::InvalidExpression,
        names_layer(legend_of_value(layer, JsonView::Array(items))->Err_0, layer),
{
    assert(legend_of_value(layer, JsonView::Array(items))->Err_0 == layer_fault(
        layer,
        "Unknown expression type: "@ + tag,
    ));
}

/// Every error of the interpreter is either the error of the layer's
/// legend metadata, or one about a malformed expression that names the layer.
pub proof fn law_errors_name_layer(layer: LayerView, value: JsonView)
    requires
        legend_of_value(layer, value) is Err,
    ensures
        metadata_of(layer) == Err::<LayerMetadataView, ErrorView>(
            legend_of_value(layer, value)->Err_0,
        ) || names_layer(legend_of_value(layer, value)->Err_0, layer),
{
    let error = legend_of_value(layer, value)->Err_0;
    match value {
        JsonView::Array(items) => {
            if items.len() > 0 && items[0] is String && kind_of(items[0]->String_0) is Some {
                let kind = kind_of(items[0]->String_0)->Some_0;
                assert(legend_of_value(layer, value) == legend_by_kind(kind, layer, items));
                lemma_kind_errors_name_layer(kind, layer, items);
            } else if items.len() == 0 {
                assert(error == layer_fault(layer, "Empty array in the expression"@));
            } else if items[0] is String {
                assert(error == layer_fault(
                    layer,
                    "Unknown expression type: "@ + items[0]->String_0,
                ));
            } else {
                assert(error == layer_fault(layer, "The first element is not a string"@));
            }
        },
        _ => {
            if literal_text(value) is None {
                assert(error == layer_fault(
                    layer,
                    "The value is neither a string, a number, nor a boolean"@,
                ));
            }
        },
    }
}

/// The errors of one form's handler.
proof fn lemma_kind_errors_name_layer(kind: ExpressionKind, layer: LayerView, items: Seq<JsonView>)
    requires
        legend_by_kind(kind, layer, items) is Err,
    ensures
        metadata_of(layer) == Err::<LayerMetadataView, ErrorView>(
            legend_by_kind(kind, layer, items)->Err_0,
        ) || names_layer(legend_by_kind(kind, layer, items)->Err_0, layer),
{
    let error = legend_by_kind(kind, layer, items)->Err_0;
    if metadata_of(layer) is Ok && shape_accepted(kind, items.len() as int) {
        let meta = metadata_of(layer)->Ok_0;
        let reads = match kind {
            ExpressionKind::Match => field_of(items[1]),
            ExpressionKind::Case => Ok(Seq::empty()),
            ExpressionKind::Interpolate => field_of(items[2]),
            ExpressionKind::Step => field_of(items[1]),
        };
        if reads is Ok {
            let branches = branches_of(kind, layer, meta, input_field(kind, items), items);
            assert(legend_by_kind(kind, layer, items) == gather(branches));
            let k = lemma_gather_error_source(branches);
            lemma_branch_error_names_layer(kind, layer, meta, input_field(kind, items), items, k);
        } else {
            lemma_structural_error_names_layer(kind, layer, items);
        }
    } else {
        lemma_structural_error_names_layer(kind, layer, items);
    }
}

/// The error of a branch names the layer.
proof fn lemma_branch_error_names_layer(
    kind: ExpressionKind,
    layer: LayerView,
    meta: LayerMetadataView,
    field: Seq<char>,
    items: Seq<JsonView>,
    k: int,
)
    requires
        branch_of(kind, layer, meta, field, items, k) is Err,
    ensures
        names_layer(branch_of(kind, layer, meta, field, items, k)->Err_0, layer),
{
}

/// The errors that a handler raises before it reads any branch.
proof fn lemma_structural_error_names_layer(
    kind: ExpressionKind,
    layer: LayerView,
    items: Seq<JsonView>,
)
    requires
        legend_by_kind(kind, layer, items) is Err,
        !(metadata_of(layer) is Ok && shape_accepted(kind, items.len() as int) && (match kind {
            ExpressionKind::Match => field_of(items[1]) is Ok,
            ExpressionKind::Case => true,
            ExpressionKind::Interpolate => field_of(items[2]) is Ok,
            ExpressionKind::Step => field_of(items[1]) is Ok,
        })),
    ensures
        metadata_of(layer) == Err::<LayerMetadataView, ErrorView>(
            legend_by_kind(kind, layer, items)->Err_0,
        ) || names_layer(legend_by_kind(kind, layer, items)->Err_0, layer),
{
}

} // verus!
