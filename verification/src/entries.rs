//! Legend entries, and how the branches of an expression are gathered into
//! them.

use crate::error::{invalid_expression, ErrorView, LegendError};
use crate::layer::{Layer, LayerView};
use crate::text::join3;
use vstd::prelude::*;

verus! {

/// One row of a legend: its label and the colour or icon it stands for.
pub type Entry = (Seq<char>, Seq<char>);

/// What one branch of an expression contributes: an entry or an error.
pub type Branch = Result<Entry, ErrorView>;

/// What an expression yields: its entries in source order, or an error.
pub type Outcome = Result<Seq<Entry>, ErrorView>;

/// The values of all branches, in order, or the error of the first
/// branch that has one.
pub open spec fn gather<T>(branches: Seq<Result<T, ErrorView>>) -> Result<Seq<T>, ErrorView>
    decreases branches.len(),
{
    if branches.len() == 0 {
        Ok(Seq::empty())
    } else {
        match gather(branches.drop_last()) {
            Err(e) => Err(e),
            Ok(entries) => match branches.last() {
                Err(e) => Err(e),
                Ok(entry) => Ok(entries.push(entry)),
            },
        }
    }
}

/// The label of the entry at `index`: the custom label at that position
/// where there is one, the derived label otherwise.
pub open spec fn label_for(labels: Seq<Seq<char>>, index: int, derived: Seq<char>) -> Seq<char> {
    if 0 <= index < labels.len() {
        labels[index]
    } else {
        derived
    }
}

/// The error for a malformed expression in a layer: the reason, then the
/// identifier of the layer.
pub open spec fn layer_fault(layer: LayerView, reason: Seq<char>) -> ErrorView {
    invalid_expression(reason + ". Layer: "@ + layer.id)
}

/// A branch result as mathematical values.
pub open spec fn branch_view(r: Result<(String, String), LegendError>) -> Branch {
    match r {
        Ok(entry) => Ok((entry.0@, entry.1@)),
        Err(e) => Err(e@),
    }
}

/// A list of entries, or an error, as mathematical values.
pub open spec fn outcome_view(r: Result<Vec<(String, String)>, LegendError>) -> Outcome {
    match r {
        Ok(entries) => Ok(entries.deep_view()),
        Err(e) => Err(e@),
    }
}

/// Gathering one more successful branch appends its entry.
pub proof fn lemma_gather_next<T>(branches: Seq<Result<T, ErrorView>>, k: int)
    requires
        0 <= k < branches.len(),
        gather(branches.take(k)) is Ok,
        branches[k] is Ok,
    ensures
        gather(branches.take(k + 1)) == Ok::<Seq<T>, ErrorView>(
            gather(branches.take(k))->Ok_0.push(branches[k]->Ok_0),
        ),
{
    assert(branches.take(k + 1).drop_last() =~= branches.take(k));
    assert(branches.take(k + 1).last() == branches[k]);
}

/// The first branch with an error decides the outcome.
pub proof fn lemma_gather_error<T>(branches: Seq<Result<T, ErrorView>>, k: int)
    requires
        0 <= k < branches.len(),
        gather(branches.take(k)) is Ok,
        branches[k] is Err,
    ensures
        gather(branches) == Err::<Seq<T>, ErrorView>(branches[k]->Err_0),
    decreases branches.len(),
{
    if k == branches.len() - 1 {
        assert(branches.drop_last() =~= branches.take(k));
    } else {
        let shorter = branches.drop_last();
        assert(shorter.take(k) =~= branches.take(k));
        lemma_gather_error(shorter, k);
    }
}

/// Where the outcome is a list of entries, every branch succeeded and the
/// list holds their entries in order.
pub proof fn lemma_gather_ok<T>(branches: Seq<Result<T, ErrorView>>)
    requires
        gather(branches) is Ok,
    ensures
        gather(branches)->Ok_0.len() == branches.len(),
        forall|k: int|
            0 <= k < branches.len() ==> branches[k] == Ok::<T, ErrorView>(
                #[trigger] gather(branches)->Ok_0[k],
            ),
    decreases branches.len(),
{
    if branches.len() > 0 {
        lemma_gather_ok(branches.drop_last());
    }
}

/// Where every branch succeeds, the outcome is a list of entries.
pub proof fn lemma_gather_all_ok<T>(branches: Seq<Result<T, ErrorView>>)
    requires
        forall|k: int| 0 <= k < branches.len() ==> (#[trigger] branches[k]) is Ok,
    ensures
        gather(branches) is Ok,
    decreases branches.len(),
{
    if branches.len() > 0 {
        lemma_gather_all_ok(branches.drop_last());
    }
}

/// Where the outcome is an error, it is the error of one of the branches.
pub proof fn lemma_gather_error_source<T>(branches: Seq<Result<T, ErrorView>>) -> (k: int)
    requires
        gather(branches) is Err,
    ensures
        0 <= k < branches.len(),
        branches[k] == Err::<T, ErrorView>(gather(branches)->Err_0),
    decreases branches.len(),
{
    if gather(branches.drop_last()) is Err {
        lemma_gather_error_source(branches.drop_last())
    } else {
        branches.len() - 1
    }
}

/// Picks the label of the entry at `index`.
pub(crate) fn pick_label(labels: &Vec<String>, index: usize, derived: String) -> (r: String)
    ensures
        r@ == label_for(labels.deep_view(), index as int, derived@),
{
    if index < labels.len() {
        labels[index].clone()
    } else {
        derived
    }
}

/// Builds the error for a malformed expression in a layer.
pub(crate) fn fault(layer: &Layer, reason: &str) -> (e: LegendError)
    ensures
        e@ == layer_fault(layer@, reason@),
{
    LegendError::InvalidExpression(join3(reason, ". Layer: ", layer.id.as_str()))
}

} // verus!
