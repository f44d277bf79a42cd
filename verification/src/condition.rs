//! How the conditions of a `case` expression read as labels.

use crate::error::{expression_error, invalid_expression, LegendError};
use crate::field::{extract_field, field_of};
use crate::json::{literal_text, Json, JsonView};
use crate::text::{join2, join5, text_is};
use vstd::prelude::*;

verus! {

/// Whether `op` is one of the six comparisons `==`, `!=`, `>`, `>=`, `<`, `<=`.
pub open spec fn is_comparison(op: Seq<char>) -> bool {
    op == "=="@ || op == "!="@ || op == ">"@ || op == ">="@ || op == "<"@ || op == "<="@
}

/// How a negation reads: `without <field>` for `["!", ["has", field]]`,
/// and `undefined` for every other negation.
pub open spec fn negation_text(items: Seq<JsonView>) -> Seq<char> {
    if items.len() >= 2 {
        match items[1] {
            JsonView::Array(inner) => if inner.len() >= 2 && inner[0] == JsonView::String(
                "has"@,
            ) {
                match inner[1] {
                    JsonView::String(field) => "without "@ + field,
                    _ => "undefined"@,
                }
            } else {
                "undefined"@
            },
            _ => "undefined"@,
        }
    } else {
        "undefined"@
    }
}

/// How a presence test reads: `has <field>` for `["has", field]`, and the
/// placeholder `cond` where the field is missing or no string.
pub open spec fn presence_text(items: Seq<JsonView>) -> Seq<char> {
    if items.len() >= 2 {
        match items[1] {
            JsonView::String(field) => "has "@ + field,
            _ => "cond"@,
        }
    } else {
        "cond"@
    }
}

/// How a comparison reads: `<field> <op> <literal>`. A comparison whose
/// value is no literal is an error; one that is too short, or whose input
/// reads no property, falls back to the placeholder `cond`.
pub open spec fn comparison_text(op: Seq<char>, items: Seq<JsonView>) -> Result<
    Seq<char>,
    Seq<char>,
> {
    if items.len() < 3 {
        Ok("cond"@)
    } else {
        match literal_text(items[2]) {
            None => Err("Invalid value in comparison"@),
            Some(value) => match field_of(items[1]) {
                Ok(field) => Ok(field + " "@ + op + " "@ + value),
                Err(_) => Ok("cond"@),
            },
        }
    }
}

/// How a condition reads in a legend, or the reason why it cannot be
/// shown. Every shape that is not recognised reads as the placeholder `cond`.
pub open spec fn condition_text(cond: JsonView) -> Result<Seq<char>, Seq<char>> {
    match cond {
        JsonView::Array(items) => if items.len() == 0 {
            Ok("cond"@)
        } else {
            match items[0] {
                JsonView::String(op) => if op == "!"@ {
                    Ok(negation_text(items))
                } else if op == "has"@ {
                    Ok(presence_text(items))
                } else if is_comparison(op) {
                    comparison_text(op, items)
                } else {
                    Ok("cond"@)
                },
                _ => Ok("cond"@),
            }
        },
        _ => Ok("cond"@),
    }
}

/// Whether `op` is one of the six comparisons.
pub(crate) fn names_comparison(op: &str) -> (r: bool)
    ensures
        r == is_comparison(op@),
{
    text_is(op, "==") || text_is(op, "!=") || text_is(op, ">") || text_is(op, ">=") || text_is(
        op,
        "<",
    ) || text_is(op, "<=")
}

/// Renders a negation.
fn format_negation(items: &Vec<Json>) -> (r: String)
    ensures
        r@ == negation_text(items.deep_view()),
{
    if items.len() >= 2 {
        if let Some(inner) = items[1].as_array() {
            if inner.len() >= 2 {
                if let Some(word) = inner[0].as_str() {
                    if text_is(word, "has") {
                        if let Some(field) = inner[1].as_str() {
                            return join2("without ", field);
                        }
                    }
                }
            }
        }
    }
    String::from_str("undefined")
}

/// Renders a presence test.
fn format_presence(items: &Vec<Json>) -> (r: String)
    ensures
        r@ == presence_text(items.deep_view()),
{
    if items.len() >= 2 {
        if let Some(field) = items[1].as_str() {
            return join2("has ", field);
        }
    }
    String::from_str("cond")
}

/// Renders a comparison.
fn format_comparison(op: &str, items: &Vec<Json>) -> (r: Result<String, LegendError>)
    ensures
        match r {
            Ok(text) => comparison_text(op@, items.deep_view()) == Ok::<Seq<char>, Seq<char>>(
                text@,
            ),
            Err(e) => comparison_text(op@, items.deep_view()) is Err && e@ == invalid_expression(
                comparison_text(op@, items.deep_view())->Err_0,
            ),
        },
{
    if items.len() < 3 {
        return Ok(String::from_str("cond"));
    }
    let value = match items[2].to_literal_text() {
        Some(value) => value,
        None => {
            return Err(expression_error("Invalid value in comparison"));
        },
    };
    match extract_field(&items[1]) {
        Ok(field) => Ok(join5(field, " ", op, " ", value.as_str())),
        Err(_) => Ok(String::from_str("cond")),
    }
}

/// Renders a condition as the label of its branch. Conditions that are
/// not recognised read `cond`; only a comparison against a value that is
/// no literal is refused.
pub fn format_condition(cond: &Json) -> (r: Result<String, LegendError>)
    ensures
        match r {
            Ok(text) => condition_text(cond@) == Ok::<Seq<char>, Seq<char>>(text@),
            Err(e) => condition_text(cond@) is Err && e@ == invalid_expression(
                condition_text(cond@)->Err_0,
            ),
        },
{
    let items = match cond.as_array() {
        Some(items) => items,
        None => {
            return Ok(String::from_str("cond"));
        },
    };
    if items.len() == 0 {
        return Ok(String::from_str("cond"));
    }
    let op = match items[0].as_str() {
        Some(op) => op,
        None => {
            return Ok(String::from_str("cond"));
        },
    };
    if text_is(op, "!") {
        Ok(format_negation(items))
    } else if text_is(op, "has") {
        Ok(format_presence(items))
    } else if names_comparison(op) {
        format_comparison(op, items)
    } else {
        Ok(String::from_str("cond"))
    }
}

} // verus!
