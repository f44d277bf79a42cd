//! The property that the input of an expression reads.

use crate::error::{expression_error, invalid_expression, LegendError};
use crate::json::{lemma_array_view, lemma_item_smaller, Json, JsonView};
use crate::text::{join2, join3, text_is};
use vstd::prelude::*;

verus! {

/// Whether `op` names a transform that keeps the property it is applied to:
/// `downcase`, `upcase`, `to-string` or `to-number`.
pub open spec fn is_transform(op: Seq<char>) -> bool {
    op == "downcase"@ || op == "upcase"@ || op == "to-string"@ || op == "to-number"@
}

/// The property that an input expression reads, or the reason why it reads
/// none. `["get", name]` reads `name`; a transform applied to one argument
/// reads what its argument reads.
pub open spec fn field_of(expr: JsonView) -> Result<Seq<char>, Seq<char>>
    decreases expr,
{
    match expr {
        JsonView::Array(items) => if items.len() == 0 {
            Err("Empty expression array"@)
        } else {
            match items[0] {
                JsonView::String(op) => if op == "get"@ {
                    if items.len() != 2 {
                        Err("Invalid 'get' expression: must have exactly one argument"@)
                    } else {
                        match items[1] {
                            JsonView::String(name) => Ok(name),
                            _ => Err("Field name in 'get' is not a string"@),
                        }
                    }
                } else if is_transform(op) {
                    if items.len() != 2 {
                        Err("Invalid '"@ + op + "' expression: must have exactly one argument"@)
                    } else {
                        field_of(items[1])
                    }
                } else {
                    Err("Unsupported operator in field extraction: "@ + op)
                },
                _ => Err("Operator is not a string"@),
            }
        },
        _ => Err("Expression is not an array"@),
    }
}

/// Whether `op` names a transform that keeps the property it is applied to.
pub(crate) fn names_transform(op: &str) -> (r: bool)
    ensures
        r == is_transform(op@),
{
    text_is(op, "downcase") || text_is(op, "upcase") || text_is(op, "to-string") || text_is(
        op,
        "to-number",
    )
}

/// Resolves an input expression to the property it reads, looking through
/// any chain of transforms around a `get`.
pub fn extract_field(expr: &Json) -> (r: Result<&str, LegendError>)
    ensures
        match r {
            Ok(name) => field_of(expr@) == Ok::<Seq<char>, Seq<char>>(name@),
            Err(e) => field_of(expr@) is Err && e@ == invalid_expression(field_of(expr@)->Err_0),
        },
    decreases expr,
{
    let items = match expr {
        Json::Array(items) => items,
        _ => {
            return Err(expression_error("Expression is not an array"));
        },
    };
    proof {
        lemma_array_view(*items);
    }
    if items.len() == 0 {
        return Err(expression_error("Empty expression array"));
    }
    let op = match items[0].as_str() {
        Some(op) => op,
        None => {
            return Err(expression_error("Operator is not a string"));
        },
    };
    if text_is(op, "get") {
        if items.len() != 2 {
            return Err(
                expression_error("Invalid 'get' expression: must have exactly one argument"),
            );
        }
        match items[1].as_str() {
            Some(name) => Ok(name),
            None => Err(expression_error("Field name in 'get' is not a string")),
        }
    } else if names_transform(op) {
        if items.len() != 2 {
            let detail = join3("Invalid '", op, "' expression: must have exactly one argument");
            return Err(LegendError::InvalidExpression(detail));
        }
        proof {
            lemma_item_smaller(*expr, 1);
        }
        extract_field(&items[1])
    } else {
        Err(LegendError::InvalidExpression(join2("Unsupported operator in field extraction: ", op)))
    }
}

} // verus!
