//! Style expressions: from a `match`, `case`, `interpolate` or `step`
//! expression, or a literal, to legend entries.

use crate::condition::{condition_text, format_condition};
use crate::entries::{
    branch_view, fault, gather, label_for, layer_fault, lemma_gather_error, lemma_gather_next,
    outcome_view, pick_label, Branch, Entry, Outcome,
};
use crate::error::{
    invalid_expression, invalid_json, json_error, message_of, ErrorView, LegendError,
};
use crate::field::{extract_field, field_of};
use crate::json::{literal_text, Json, JsonView};
use crate::layer::{
    get_layer_metadata, metadata_of, text_outcome, Layer, LayerMetadata, LayerMetadataView,
    LayerView,
};
use crate::text::{join2, join3, join5, text_is};
use vstd::prelude::*;

verus! {

/// The four forms of expression that a legend can be derived from.
#[derive(Clone, Copy, Debug, PartialEq, Eq, Structural)]
pub enum ExpressionKind {
    Match,
    Case,
    Interpolate,
    Step,
}

/// The form that a tag names, if it names one.
pub open spec fn kind_of(tag: Seq<char>) -> Option<ExpressionKind> {
    if tag == "match"@ {
        Some(ExpressionKind::Match)
    } else if tag == "case"@ {
        Some(ExpressionKind::Case)
    } else if tag == "interpolate"@ {
        Some(ExpressionKind::Interpolate)
    } else if tag == "step"@ {
        Some(ExpressionKind::Step)
    } else {
        None
    }
}

impl ExpressionKind {
    /// Reads the form that a tag names.
    pub fn from_str(s: &str) -> (r: Result<ExpressionKind, LegendError>)
        ensures
            match r {
                Ok(kind) => kind_of(s@) == Some(kind),
                Err(e) => kind_of(s@) is None && e@ == invalid_expression(
                    "Unknown expression type: "@ + s@,
                ),
            },
    {
        if text_is(s, "match") {
            Ok(ExpressionKind::Match)
        } else if text_is(s, "case") {
            Ok(ExpressionKind::Case)
        } else if text_is(s, "interpolate") {
            Ok(ExpressionKind::Interpolate)
        } else if text_is(s, "step") {
            Ok(ExpressionKind::Step)
        } else {
            Err(LegendError::InvalidExpression(join2("Unknown expression type: ", s)))
        }
    }
}

/// The number of entries that an array of `len` elements yields under the
/// given form, where its shape is accepted: for `match` the value/colour
/// pairs and the default; for `case` the condition/colour pairs and, where
/// the length is even, the default; for `interpolate` the stop/colour
/// pairs; for `step` the base and the threshold/colour pairs.
pub open spec fn branch_count(kind: ExpressionKind, len: int) -> int {
    match kind {
        ExpressionKind::Match => (len - 3) / 2 + 1,
        ExpressionKind::Case => if len == 0 {
            0
        } else if len % 2 == 0 {
            (len - 1) / 2 + 1
        } else {
            (len - 1) / 2
        },
        ExpressionKind::Interpolate => (len - 3) / 2,
        ExpressionKind::Step => (len - 3) / 2 + 1,
    }
}

/// Whether an array of `len` elements is long enough for the branches of
/// the given form to be read.
pub open spec fn shape_accepted(kind: ExpressionKind, len: int) -> bool {
    match kind {
        ExpressionKind::Match => len >= 4,
        ExpressionKind::Case => true,
        ExpressionKind::Interpolate => len >= 4,
        ExpressionKind::Step => len >= 3 && (len == 3 || len % 2 == 1),
    }
}

/// Branch `k` of `["match", input, v0, c0, v1, c1, ..., default]`: pair
/// `k` is labelled with its value as text, be it a string, a number or a
/// boolean; the branch after the last pair is the default colour under
/// the default label.
pub open spec fn match_branch(
    layer: LayerView,
    meta: LayerMetadataView,
    items: Seq<JsonView>,
    k: int,
) -> Branch {
    if k + 1 < branch_count(ExpressionKind::Match, items.len() as int) {
        match literal_text(items[2 + 2 * k]) {
            Some(value) => match items[3 + 2 * k] {
                JsonView::String(color) => Ok((label_for(meta.custom_labels, k, value), color)),
                _ => Err(layer_fault(layer, "Color is not a string in 'match'"@)),
            },
            None => Err(layer_fault(layer, "Value is not a literal in 'match'"@)),
        }
    } else {
        match items.last() {
            JsonView::String(color) => Ok(
                (label_for(meta.custom_labels, k, meta.default_label), color),
            ),
            _ => Err(layer_fault(layer, "Default color is not a string in 'match'"@)),
        }
    }
}

/// Branch `k` of `["case", cond0, c0, cond1, c1, ..., default?]`: pair `k`
/// is labelled with its condition as text, unless a custom label takes its
/// place; the last element of an array of even length is the default
/// colour under the default label.
pub open spec fn case_branch(
    layer: LayerView,
    meta: LayerMetadataView,
    items: Seq<JsonView>,
    k: int,
) -> Branch {
    if k < (items.len() - 1) / 2 {
        match items[2 + 2 * k] {
            JsonView::String(color) => if k < meta.custom_labels.len() {
                Ok((meta.custom_labels[k], color))
            } else {
                match condition_text(items[1 + 2 * k]) {
                    Ok(text) => Ok((text, color)),
                    Err(reason) => Err(layer_fault(layer, reason)),
                }
            },
            _ => Err(layer_fault(layer, "Color is not a string in 'case'"@)),
        }
    } else {
        match items.last() {
            JsonView::String(color) => Ok(
                (label_for(meta.custom_labels, k, meta.default_label), color),
            ),
            _ => Err(layer_fault(layer, "Default color is not a string in 'case'"@)),
        }
    }
}

/// Branch `k` of `["interpolate", curve, input, s0, c0, s1, c1, ...]`:
/// pair `k` is labelled `<field> ≥ <stop>`.
pub open spec fn interpolate_branch(
    layer: LayerView,
    meta: LayerMetadataView,
    field: Seq<char>,
    items: Seq<JsonView>,
    k: int,
) -> Branch {
    match items[3 + 2 * k] {
        JsonView::Number(stop) => match items[4 + 2 * k] {
            JsonView::String(color) => Ok(
                (label_for(meta.custom_labels, k, field + " \u{2265} "@ + stop.plain), color),
            ),
            _ => Err(layer_fault(layer, "Color is not a string in 'interpolate'"@)),
        },
        _ => Err(layer_fault(layer, "Value is not a number in 'interpolate'"@)),
    }
}

/// The label of the base entry of a `step`: `<field> < <first threshold>`,
/// or the layer's own label where there is no threshold.
pub open spec fn step_base_branch(
    layer: LayerView,
    meta: LayerMetadataView,
    field: Seq<char>,
    items: Seq<JsonView>,
) -> Branch {
    match items[2] {
        JsonView::String(color) => if items.len() == 3 {
            Ok((label_for(meta.custom_labels, 0, meta.label), color))
        } else {
            match items[3] {
                JsonView::Number(first) => Ok(
                    (label_for(meta.custom_labels, 0, field + " < "@ + first.plain), color),
                ),
                _ => Err(layer_fault(layer, "Threshold is not a number in 'step'"@)),
            }
        },
        _ => Err(layer_fault(layer, "Base color is not a string in 'step'"@)),
    }
}

/// Branch `k` of `["step", input, base, t1, c1, t2, c2, ...]`: branch 0 is
/// the base colour; branch `k` is labelled `<t_k> ≤ <field> < <t_k+1>`,
/// and the last one `<field> ≥ <t_k>`.
pub open spec fn step_branch(
    layer: LayerView,
    meta: LayerMetadataView,
    field: Seq<char>,
    items: Seq<JsonView>,
    k: int,
) -> Branch {
    if k == 0 {
        step_base_branch(layer, meta, field, items)
    } else {
        match items[1 + 2 * k] {
            JsonView::Number(threshold) => match items[2 + 2 * k] {
                JsonView::String(color) => if 3 + 2 * k < items.len() {
                    match items[3 + 2 * k] {
                        JsonView::Number(next) => Ok(
                            (
                                label_for(
                                    meta.custom_labels,
                                    k,
                                    threshold.plain + " \u{2264} "@ + field + " < "@ + next.plain,
                                ),
                                color,
                            ),
                        ),
                        _ => Err(layer_fault(layer, "Threshold is not a number in 'step'"@)),
                    }
                } else {
                    Ok(
                        (
                            label_for(
                                meta.custom_labels,
                                k,
                                field + " \u{2265} "@ + threshold.plain,
                            ),
                            color,
                        ),
                    )
                },
                _ => Err(layer_fault(layer, "Color is not a string in 'step'"@)),
            },
            _ => Err(layer_fault(layer, "Threshold is not a number in 'step'"@)),
        }
    }
}

/// Branch `k` of an expression of the given form. `field` is the property
/// that the input reads; `match` and `case` do not show it.
pub open spec fn branch_of(
    kind: ExpressionKind,
    layer: LayerView,
    meta: LayerMetadataView,
    field: Seq<char>,
    items: Seq<JsonView>,
    k: int,
) -> Branch {
    match kind {
        ExpressionKind::Match => match_branch(layer, meta, items, k),
        ExpressionKind::Case => case_branch(layer, meta, items, k),
        ExpressionKind::Interpolate => interpolate_branch(layer, meta, field, items, k),
        ExpressionKind::Step => step_branch(layer, meta, field, items, k),
    }
}

/// All branches of an expression of the given form, in source order.
pub open spec fn branches_of(
    kind: ExpressionKind,
    layer: LayerView,
    meta: LayerMetadataView,
    field: Seq<char>,
    items: Seq<JsonView>,
) -> Seq<Branch> {
    Seq::new(
        branch_count(kind, items.len() as int) as nat,
        |k: int| branch_of(kind, layer, meta, field, items, k),
    )
}

/// The error for an input expression that reads no property.
pub open spec fn input_fault(layer: LayerView, form: Seq<char>, reason: Seq<char>) -> ErrorView {
    layer_fault(
        layer,
        "Invalid input expression in '"@ + form + "': "@ + message_of(invalid_expression(reason)),
    )
}

/// The legend of a `match` expression.
pub open spec fn match_legend(layer: LayerView, items: Seq<JsonView>) -> Outcome {
    if items.len() < 4 {
        Err(layer_fault(layer, "Array 'match' too short"@))
    } else {
        match field_of(items[1]) {
            Err(reason) => Err(input_fault(layer, "match"@, reason)),
            Ok(field) => match metadata_of(layer) {
                Err(e) => Err(e),
                Ok(meta) => gather(branches_of(ExpressionKind::Match, layer, meta, field, items)),
            },
        }
    }
}

/// The legend of a `case` expression.
pub open spec fn case_legend(layer: LayerView, items: Seq<JsonView>) -> Outcome {
    match metadata_of(layer) {
        Err(e) => Err(e),
        Ok(meta) => gather(branches_of(ExpressionKind::Case, layer, meta, Seq::empty(), items)),
    }
}

/// The legend of an `interpolate` expression.
pub open spec fn interpolate_legend(layer: LayerView, items: Seq<JsonView>) -> Outcome {
    if items.len() < 4 {
        Err(layer_fault(layer, "Array 'interpolate' too short"@))
    } else {
        match metadata_of(layer) {
            Err(e) => Err(e),
            Ok(meta) => match field_of(items[2]) {
                Err(reason) => Err(input_fault(layer, "interpolate"@, reason)),
                Ok(field) => gather(
                    branches_of(ExpressionKind::Interpolate, layer, meta, field, items),
                ),
            },
        }
    }
}

/// The legend of a `step` expression.
pub open spec fn step_legend(layer: LayerView, items: Seq<JsonView>) -> Outcome {
    if items.len() < 3 {
        Err(
            layer_fault(
                layer,
                "Array 'step' too short: must have at least operator, input, and base output"@,
            ),
        )
    } else if items.len() > 3 && items.len() % 2 == 0 {
        Err(layer_fault(layer, "Array 'step' has incomplete threshold-color pair"@))
    } else {
        match metadata_of(layer) {
            Err(e) => Err(e),
            Ok(meta) => match field_of(items[1]) {
                Err(reason) => Err(input_fault(layer, "step"@, reason)),
                Ok(field) => gather(branches_of(ExpressionKind::Step, layer, meta, field, items)),
            },
        }
    }
}

/// The legend of a value that is no array: one entry, the layer's label
/// with the literal as text.
pub open spec fn literal_legend(layer: LayerView, value: JsonView) -> Outcome {
    match literal_text(value) {
        None => Err(
            layer_fault(layer, "The value is neither a string, a number, nor a boolean"@),
        ),
        Some(text) => match metadata_of(layer) {
            Err(e) => Err(e),
            Ok(meta) => Ok(seq![(meta.label, text)]),
        },
    }
}

/// The legend of a style property of a layer.
pub open spec fn legend_of_value(layer: LayerView, value: JsonView) -> Outcome {
    match value {
        JsonView::Array(items) => if items.len() == 0 {
            Err(layer_fault(layer, "Empty array in the expression"@))
        } else {
            match items[0] {
                JsonView::String(tag) => match kind_of(tag) {
                    Some(ExpressionKind::Match) => match_legend(layer, items),
                    Some(ExpressionKind::Case) => case_legend(layer, items),
                    Some(ExpressionKind::Interpolate) => interpolate_legend(layer, items),
                    Some(ExpressionKind::Step) => step_legend(layer, items),
                    None => Err(layer_fault(layer, "Unknown expression type: "@ + tag)),
                },
                _ => Err(layer_fault(layer, "The first element is not a string"@)),
            }
        },
        _ => literal_legend(layer, value),
    }
}

/// Reads branch `k` of a `match` expression.
fn match_branch_at(layer: &Layer, meta: &LayerMetadata, arr: &[Json], k: usize) -> (r: Result<
    (String, String),
    LegendError,
>)
    requires
        arr.len() >= 4,
        k < branch_count(ExpressionKind::Match, arr.len() as int),
    ensures
        branch_view(r) == match_branch(layer@, meta@, arr.deep_view(), k as int),
{
    if k + 1 < (arr.len() - 3) / 2 + 1 {
        let value = match arr[2 + 2 * k].to_literal_text() {
            Some(value) => value,
            None => {
                return Err(fault(layer, "Value is not a literal in 'match'"));
            },
        };
        let color = match arr[3 + 2 * k].as_str() {
            Some(color) => color,
            None => {
                return Err(fault(layer, "Color is not a string in 'match'"));
            },
        };
        Ok((pick_label(&meta.custom_labels, k, value), String::from_str(color)))
    } else {
        match arr[arr.len() - 1].as_str() {
            Some(color) => Ok(
                (
                    pick_label(&meta.custom_labels, k, meta.default_label.clone()),
                    String::from_str(color),
                ),
            ),
            None => Err(fault(layer, "Default color is not a string in 'match'")),
        }
    }
}

/// Reads branch `k` of a `case` expression.
fn case_branch_at(layer: &Layer, meta: &LayerMetadata, arr: &[Json], k: usize) -> (r: Result<
    (String, String),
    LegendError,
>)
    requires
        k < branch_count(ExpressionKind::Case, arr.len() as int),
    ensures
        branch_view(r) == case_branch(layer@, meta@, arr.deep_view(), k as int),
{
    if k < (arr.len() - 1) / 2 {
        let color = match arr[2 + 2 * k].as_str() {
            Some(color) => color,
            None => {
                return Err(fault(layer, "Color is not a string in 'case'"));
            },
        };
        if k < meta.custom_labels.len() {
            Ok((meta.custom_labels[k].clone(), String::from_str(color)))
        } else {
            match format_condition(&arr[1 + 2 * k]) {
                Ok(text) => Ok((text, String::from_str(color))),
                Err(e) => Err(fault(layer, e.detail())),
            }
        }
    } else {
        match arr[arr.len() - 1].as_str() {
            Some(color) => Ok(
                (
                    pick_label(&meta.custom_labels, k, meta.default_label.clone()),
                    String::from_str(color),
                ),
            ),
            None => Err(fault(layer, "Default color is not a string in 'case'")),
        }
    }
}

/// Reads branch `k` of an `interpolate` expression.
fn interpolate_branch_at(
    layer: &Layer,
    meta: &LayerMetadata,
    field: &str,
    arr: &[Json],
    k: usize,
) -> (r: Result<(String, String), LegendError>)
    requires
        arr.len() >= 4,
        k < branch_count(ExpressionKind::Interpolate, arr.len() as int),
    ensures
        branch_view(r) == interpolate_branch(layer@, meta@, field@, arr.deep_view(), k as int),
{
    let stop = match arr[3 + 2 * k].as_number() {
        Some(stop) => stop,
        None => {
            return Err(fault(layer, "Value is not a number in 'interpolate'"));
        },
    };
    let color = match arr[4 + 2 * k].as_str() {
        Some(color) => color,
        None => {
            return Err(fault(layer, "Color is not a string in 'interpolate'"));
        },
    };
    let derived = join3(field, " \u{2265} ", stop.plain.as_str());
    Ok((pick_label(&meta.custom_labels, k, derived), String::from_str(color)))
}

/// Reads the base branch of a `step` expression.
fn step_base_at(layer: &Layer, meta: &LayerMetadata, field: &str, arr: &[Json]) -> (r: Result<
    (String, String),
    LegendError,
>)
    requires
        arr.len() >= 3,
    ensures
        branch_view(r) == step_base_branch(layer@, meta@, field@, arr.deep_view()),
{
    let color = match arr[2].as_str() {
        Some(color) => color,
        None => {
            return Err(fault(layer, "Base color is not a string in 'step'"));
        },
    };
    if arr.len() == 3 {
        Ok((pick_label(&meta.custom_labels, 0, meta.label.clone()), String::from_str(color)))
    } else {
        match arr[3].as_number() {
            Some(first) => {
                let derived = join3(field, " < ", first.plain.as_str());
                Ok((pick_label(&meta.custom_labels, 0, derived), String::from_str(color)))
            },
            None => Err(fault(layer, "Threshold is not a number in 'step'")),
        }
    }
}

/// Reads branch `k` of a `step` expression.
fn step_branch_at(layer: &Layer, meta: &LayerMetadata, field: &str, arr: &[Json], k: usize) -> (r:
    Result<(String, String), LegendError>)
    requires
        shape_accepted(ExpressionKind::Step, arr.len() as int),
        k < branch_count(ExpressionKind::Step, arr.len() as int),
    ensures
        branch_view(r) == step_branch(layer@, meta@, field@, arr.deep_view(), k as int),
{
    if k == 0 {
        return step_base_at(layer, meta, field, arr);
    }
    let threshold = match arr[1 + 2 * k].as_number() {
        Some(threshold) => threshold,
        None => {
            return Err(fault(layer, "Threshold is not a number in 'step'"));
        },
    };
    let color = match arr[2 + 2 * k].as_str() {
        Some(color) => color,
        None => {
            return Err(fault(layer, "Color is not a string in 'step'"));
        },
    };
    let derived = if 3 + 2 * k < arr.len() {
        match arr[3 + 2 * k].as_number() {
            Some(next) => join5(
                threshold.plain.as_str(),
                " \u{2264} ",
                field,
                " < ",
                next.plain.as_str(),
            ),
            None => {
                return Err(fault(layer, "Threshold is not a number in 'step'"));
            },
        }
    } else {
        join3(field, " \u{2265} ", threshold.plain.as_str())
    };
    Ok((pick_label(&meta.custom_labels, k, derived), String::from_str(color)))
}

/// Counts the branches of an array of `len` elements under the given form.
fn count_branches(kind: ExpressionKind, len: usize) -> (n: usize)
    requires
        shape_accepted(kind, len as int),
    ensures
        n == branch_count(kind, len as int),
{
    match kind {
        ExpressionKind::Match => (len - 3) / 2 + 1,
        ExpressionKind::Case => if len == 0 {
            0
        } else if len % 2 == 0 {
            (len - 1) / 2 + 1
        } else {
            (len - 1) / 2
        },
        ExpressionKind::Interpolate => (len - 3) / 2,
        ExpressionKind::Step => (len - 3) / 2 + 1,
    }
}

/// Reads the branches of an expression one after the other and stops at
/// the first that is malformed.
fn collect_branches(
    kind: ExpressionKind,
    layer: &Layer,
    meta: &LayerMetadata,
    field: &str,
    arr: &[Json],
) -> (r: Result<Vec<(String, String)>, LegendError>)
    requires
        shape_accepted(kind, arr.len() as int),
    ensures
        outcome_view(r) == gather(branches_of(kind, layer@, meta@, field@, arr.deep_view())),
{
    let ghost branches = branches_of(kind, layer@, meta@, field@, arr.deep_view());
    let count = count_branches(kind, arr.len());
    let mut entries: Vec<(String, String)> = Vec::new();
    let mut k: usize = 0;
    assert(branches.take(0) =~= Seq::empty());
    assert(entries.deep_view() =~= Seq::empty());
    while k < count
        invariant
            shape_accepted(kind, arr.len() as int),
            count == branch_count(kind, arr.len() as int),
            branches == branches_of(kind, layer@, meta@, field@, arr.deep_view()),
            k <= count,
            gather(branches.take(k as int)) == Ok::<Seq<Entry>, ErrorView>(entries.deep_view()),
        decreases count - k,
    {
        let branch = match kind {
            ExpressionKind::Match => match_branch_at(layer, meta, arr, k),
            ExpressionKind::Case => case_branch_at(layer, meta, arr, k),
            ExpressionKind::Interpolate => interpolate_branch_at(layer, meta, field, arr, k),
            ExpressionKind::Step => step_branch_at(layer, meta, field, arr, k),
        };
        assert(branch_view(branch) == branches[k as int]);
        match branch {
            Ok(entry) => {
                let ghost before = entries.deep_view();
                let ghost added = (entry.0@, entry.1@);
                proof {
                    lemma_gather_next(branches, k as int);
                }
                entries.push(entry);
                assert(entries.deep_view() =~= before.push(added));
            },
            Err(e) => {
                proof {
                    lemma_gather_error(branches, k as int);
                }
                return Err(e);
            },
        }
        k += 1;
    }
    assert(branches.take(k as int) =~= branches);
    Ok(entries)
}

/// Builds the error for an input expression that reads no property.
fn input_error(layer: &Layer, form: &str, cause: &LegendError) -> (e: LegendError)
    requires
        cause@.kind == crate::error::ErrorKind::InvalidExpression,
    ensures
        e@ == input_fault(layer@, form@, cause@.detail),
{
    let message = cause.message();
    let reason = join5("Invalid input expression in '", form, "': ", message.as_str(), "");
    proof {
        assert(""@ =~= Seq::<char>::empty()) by {
            reveal_strlit("");
        }
        assert(reason@ =~= "Invalid input expression in '"@ + form@ + "': "@ + message@);
    }
    fault(layer, reason.as_str())
}

/// Derives the legend of `["match", input, v0, c0, ..., default]`: one
/// entry for each value/colour pair, labelled with the value as text,
/// then the default colour under the layer's default label. Custom labels
/// replace the derived ones position by position.
pub fn parse_match(layer: &Layer, arr: &[Json]) -> (r: Result<Vec<(String, String)>, LegendError>)
    ensures
        outcome_view(r) == match_legend(layer@, arr.deep_view()),
{
    if arr.len() < 4 {
        return Err(fault(layer, "Array 'match' too short"));
    }
    let field = match extract_field(&arr[1]) {
        Ok(field) => field,
        Err(e) => {
            return Err(input_error(layer, "match", &e));
        },
    };
    let meta = match get_layer_metadata(layer) {
        Ok(meta) => meta,
        Err(e) => {
            return Err(e);
        },
    };
    collect_branches(ExpressionKind::Match, layer, &meta, field, arr)
}

/// Derives the legend of `["case", cond0, c0, ..., default?]`: one entry
/// for each condition/colour pair, labelled with the condition as text,
/// then, where the array has even length, the default colour under the
/// layer's default label.
pub fn parse_case(layer: &Layer, arr: &[Json]) -> (r: Result<Vec<(String, String)>, LegendError>)
    ensures
        outcome_view(r) == case_legend(layer@, arr.deep_view()),
{
    let meta = match get_layer_metadata(layer) {
        Ok(meta) => meta,
        Err(e) => {
            return Err(e);
        },
    };
    proof {
        reveal_strlit("");
        assert(""@ =~= Seq::<char>::empty());
    }
    collect_branches(ExpressionKind::Case, layer, &meta, "", arr)
}

/// Derives the legend of `["interpolate", curve, input, s0, c0, ...]`:
/// one entry for each stop/colour pair, labelled `<field> ≥ <stop>`.
pub fn parse_interpolate(layer: &Layer, arr: &[Json]) -> (r: Result<
    Vec<(String, String)>,
    LegendError,
>)
    ensures
        outcome_view(r) == interpolate_legend(layer@, arr.deep_view()),
{
    if arr.len() < 4 {
        return Err(fault(layer, "Array 'interpolate' too short"));
    }
    let meta = match get_layer_metadata(layer) {
        Ok(meta) => meta,
        Err(e) => {
            return Err(e);
        },
    };
    let field = match extract_field(&arr[2]) {
        Ok(field) => field,
        Err(e) => {
            return Err(input_error(layer, "interpolate", &e));
        },
    };
    collect_branches(ExpressionKind::Interpolate, layer, &meta, field, arr)
}

/// Derives the legend of `["step", input, base, t1, c1, ...]`: the base
/// colour labelled `<field> < <t1>`, then one entry for each
/// threshold/colour pair, labelled with the range it covers.
pub fn parse_step(layer: &Layer, arr: &[Json]) -> (r: Result<Vec<(String, String)>, LegendError>)
    ensures
        outcome_view(r) == step_legend(layer@, arr.deep_view()),
{
    if arr.len() < 3 {
        return Err(
            fault(
                layer,
                "Array 'step' too short: must have at least operator, input, and base output",
            ),
        );
    }
    if arr.len() > 3 && arr.len() % 2 == 0 {
        return Err(fault(layer, "Array 'step' has incomplete threshold-color pair"));
    }
    let meta = match get_layer_metadata(layer) {
        Ok(meta) => meta,
        Err(e) => {
            return Err(e);
        },
    };
    let field = match extract_field(&arr[1]) {
        Ok(field) => field,
        Err(e) => {
            return Err(input_error(layer, "step", &e));
        },
    };
    collect_branches(ExpressionKind::Step, layer, &meta, field, arr)
}

/// Derives the legend entries of one style property of a layer: a literal
/// yields one entry under the layer's label; a `match`, `case`,
/// `interpolate` or `step` expression yields one entry for each branch, in
/// source order.
pub fn parse_expression(layer: &Layer, value: &Json) -> (r: Result<
    Vec<(String, String)>,
    LegendError,
>)
    ensures
        outcome_view(r) == legend_of_value(layer@, value@),
{
    let items = match value.as_array() {
        Some(items) => items,
        None => {
            let text = match value.to_literal_text() {
                Some(text) => text,
                None => {
                    return Err(
                        fault(layer, "The value is neither a string, a number, nor a boolean"),
                    );
                },
            };
            let meta = match get_layer_metadata(layer) {
                Ok(meta) => meta,
                Err(e) => {
                    return Err(e);
                },
            };
            let mut entries: Vec<(String, String)> = Vec::new();
            entries.push((meta.label, text));
            assert(entries.deep_view() =~= seq![(meta.label@, text@)]);
            return Ok(entries);
        },
    };
    if items.len() == 0 {
        return Err(fault(layer, "Empty array in the expression"));
    }
    let tag = match items[0].as_str() {
        Some(tag) => tag,
        None => {
            return Err(fault(layer, "The first element is not a string"));
        },
    };
    let arr = items.as_slice();
    assert(arr.deep_view() =~= items.deep_view());
    match ExpressionKind::from_str(tag) {
        Ok(ExpressionKind::Match) => parse_match(layer, arr),
        Ok(ExpressionKind::Case) => parse_case(layer, arr),
        Ok(ExpressionKind::Interpolate) => parse_interpolate(layer, arr),
        Ok(ExpressionKind::Step) => parse_step(layer, arr),
        Err(e) => Err(fault(layer, e.detail())),
    }
}

/// The colour to draw a plain swatch in: a string is the colour itself, an
/// expression stands for grey; nothing else is a colour.
pub open spec fn color_of(value: Option<JsonView>) -> Result<Seq<char>, ErrorView> {
    match value {
        None => Err(invalid_json("Missing JSON value"@)),
        Some(JsonView::String(s)) => Ok(s),
        Some(JsonView::Array(_)) => Ok("#cccccc"@),
        Some(_) => Err(invalid_json("JSON value is neither a string nor an array"@)),
    }
}

/// Reads the colour of a plain swatch.
pub fn extract_color(value: Option<&Json>) -> (r: Result<String, LegendError>)
    ensures
        text_outcome(r) == color_of(
            match value {
                Some(v) => Some(v@),
                None => None,
            },
        ),
{
    match value {
        None => Err(json_error("Missing JSON value")),
        Some(Json::String(s)) => Ok(s.clone()),
        Some(Json::Array(_)) => Ok(String::from_str("#cccccc")),
        Some(_) => Err(json_error("JSON value is neither a string nor an array")),
    }
}

} // verus!
