//! Builds a search index of the key front matter and contents of the pages of a
//! Hugo site, for Lunr and Lunr-like search: the verified core of the index
//! builder.

pub mod cli_error;
pub mod config;
pub mod file_location;
pub mod foreign;
pub mod hugo_to_json_error;
pub mod operation_result;
pub mod page_index;
pub mod program_error;
pub mod settings;
pub mod text;
pub mod traverse_results;

use vstd::prelude::*;
use crate::hugo_to_json_error::HugotoJsonError;
use crate::operation_result::OperationResult;
use crate::page_index::PageIndex;
use crate::traverse_results::TraverseResults;

verus! {

/// The pages among the outcomes of a traversal, in order.
pub open spec fn pages_of(index: Seq<Result<PageIndex, OperationResult>>) -> Seq<PageIndex>
    decreases index.len(),
{
    if index.len() == 0 {
        Seq::empty()
    } else {
        let rest = pages_of(index.drop_first());
        match index[0] {
            Ok(page) => seq![page] + rest,
            Err(_) => rest,
        }
    }
}

/// The errors among the outcomes of a traversal, in order.
pub open spec fn errors_of(index: Seq<Result<PageIndex, OperationResult>>) -> Seq<OperationResult>
    decreases index.len(),
{
    if index.len() == 0 {
        Seq::empty()
    } else {
        let rest = errors_of(index.drop_first());
        match index[0] {
            Ok(_) => rest,
            Err(e) => seq![e] + rest,
        }
    }
}

/// Splits the outcomes of traversing the content directory, one per document,
/// into the pages of the index and the errors, each in the order found.
pub fn create_page_index(index: Vec<Result<PageIndex, OperationResult>>) -> (res: TraverseResults)
    ensures
        res.page_index@ == pages_of(index@),
        res.errors@ == errors_of(index@),
        res.error_count == res.errors.len(),
        res.well_formed(),
{
    let ghost all = index@;
    let mut pages: Vec<PageIndex> = Vec::new();
    let mut errors: Vec<OperationResult> = Vec::new();
    assert(all.skip(0) =~= all);
    assert(pages@ + pages_of(all) =~= pages_of(all));
    assert(errors@ + errors_of(all) =~= errors_of(all));
    for item in iter: index.into_iter()
        invariant
            iter.seq() == all,
            pages@ + pages_of(all.skip(iter.index())) == pages_of(all),
            errors@ + errors_of(all.skip(iter.index())) == errors_of(all),
    {
        let ghost k = iter.index();
        let ghost rest = all.skip(k);
        assert(rest[0] == item);
        assert(rest.drop_first() =~= all.skip(k + 1));
        match item {
            Ok(page) => {
                let ghost old_pages = pages@;
                pages.push(page);
                assert(pages@ + pages_of(all.skip(k + 1)) =~= old_pages + pages_of(rest));
            },
            Err(e) => {
                let ghost old_errors = errors@;
                errors.push(e);
                assert(errors@ + errors_of(all.skip(k + 1)) =~= old_errors + errors_of(rest));
            },
        }
    }
    assert(all.skip(all.len() as int) =~= Seq::<Result<PageIndex, OperationResult>>::empty());
    assert(pages@ =~= pages@ + pages_of(all.skip(all.len() as int)));
    assert(errors@ =~= errors@ + errors_of(all.skip(all.len() as int)));
    TraverseResults::new(pages, errors)
}

/// One outcome alone: a page is kept as the only page, an error as the only
/// error.
pub proof fn lemma_single_outcome(outcome: Result<PageIndex, OperationResult>)
    ensures
        outcome matches Ok(page) ==> pages_of(seq![outcome]) == seq![page] && errors_of(
            seq![outcome],
        ).len() == 0,
        outcome matches Err(e) ==> errors_of(seq![outcome]) == seq![e] && pages_of(
            seq![outcome],
        ).len() == 0,
{
    let one = seq![outcome];
    assert(one.drop_first() =~= Seq::<Result<PageIndex, OperationResult>>::empty());
    assert(pages_of(one.drop_first()) =~= Seq::<PageIndex>::empty());
    assert(errors_of(one.drop_first()) =~= Seq::<OperationResult>::empty());
    assert(seq![outcome][0] == outcome);
}

/// The pages and errors of two stretches of a traversal, one after the other,
/// are those of the first followed by those of the second: both keep the
/// order in which the outcomes were found.
pub proof fn lemma_outcomes_in_order(
    s: Seq<Result<PageIndex, OperationResult>>,
    t: Seq<Result<PageIndex, OperationResult>>,
)
    ensures
        pages_of(s + t) == pages_of(s) + pages_of(t),
        errors_of(s + t) == errors_of(s) + errors_of(t),
    decreases s.len(),
{
    if s.len() == 0 {
        assert(s + t =~= t);
        assert(pages_of(s) + pages_of(t) =~= pages_of(t));
        assert(errors_of(s) + errors_of(t) =~= errors_of(t));
    } else {
        lemma_outcomes_in_order(s.drop_first(), t);
        assert((s + t).drop_first() =~= s.drop_first() + t);
        assert((s + t)[0] == s[0]);
        match s[0] {
            Ok(page) => {
                assert(pages_of(s + t) =~= seq![page] + (pages_of(s.drop_first()) + pages_of(t)));
                assert(pages_of(s) + pages_of(t) =~= seq![page] + (pages_of(s.drop_first())
                    + pages_of(t)));
            },
            Err(e) => {
                assert(errors_of(s + t) =~= seq![e] + (errors_of(s.drop_first()) + errors_of(t)));
                assert(errors_of(s) + errors_of(t) =~= seq![e] + (errors_of(s.drop_first())
                    + errors_of(t)));
            },
        }
    }
}

/// Every outcome of a traversal is kept, either as a page or as an error.
pub proof fn lemma_nothing_lost(index: Seq<Result<PageIndex, OperationResult>>)
    ensures
        pages_of(index).len() + errors_of(index).len() == index.len(),
    decreases index.len(),
{
    if index.len() > 0 {
        lemma_nothing_lost(index.drop_first());
    }
}

/// A run succeeds exactly when every outcome of the traversal was a page.
pub proof fn lemma_no_errors_iff_all_pages(index: Seq<Result<PageIndex, OperationResult>>)
    ensures
        errors_of(index).len() == 0 <==> forall|i: int| 0 <= i < index.len() ==> index[i] is Ok,
    decreases index.len(),
{
    if index.len() > 0 {
        let rest = index.drop_first();
        lemma_no_errors_iff_all_pages(rest);
        assert forall|i: int| 1 <= i < index.len() implies index[i] == rest[i - 1] by {}
        if errors_of(index).len() == 0 {
            assert forall|i: int| 0 <= i < index.len() implies index[i] is Ok by {
                if i > 0 {
                    assert(rest[i - 1] is Ok);
                }
            }
        }
        if forall|i: int| 0 <= i < index.len() ==> index[i] is Ok {
            assert(index[0] is Ok);
            assert forall|i: int| 0 <= i < rest.len() implies rest[i] is Ok by {
                assert(index[i + 1] is Ok);
            }
        }
    }
}

/// How a run ends once the index is written: with success when every
/// document was processed, else with the count of those that were not.
pub fn outcome_of(results: &TraverseResults) -> (res: Result<(), HugotoJsonError>)
    ensures
        res is Ok <==> results.error_count == 0,
        res matches Err(e) ==> e matches HugotoJsonError::Meta { total } && total
            == results.error_count,
{
    if results.error_count > 0 {
        Err(HugotoJsonError::Meta { total: results.error_count })
    } else {
        Ok(())
    }
}

} // verus!
