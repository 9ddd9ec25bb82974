//! What the outcomes of one round over the repositories come to: the
//! tree that they make and the failures that are kept.

use crate::text::decimal;
use crate::workflows::api::FetchFailure;
use crate::workflows::dsl::{ListRecord, WorkflowRecord};
use crate::workflows::tree::{lemma_placed, placed, tree_map, well_formed, OwnerView, WorkflowView};
use vstd::prelude::*;

verus! {

/// What the listing of one repository came to: the repository, by its
/// owner's name and its own, and the list or the failure.
pub struct OutcomeView {
    pub owner: Seq<char>,
    pub repo: Seq<char>,
    pub result: Result<ListRecord, FetchFailure>,
}

/// What the dashboard shows of a workflow that the API described: its name,
/// its path, its id in decimal and its state.
pub open spec fn shown(record: WorkflowRecord) -> WorkflowView {
    WorkflowView {
        name: Some(record.name),
        path: Some(record.path),
        id: Some(decimal(record.id)),
        active: Some(record.state),
    }
}

/// What the dashboard shows of the workflows of a list, in the list's order.
pub open spec fn shown_list(list: ListRecord) -> Seq<WorkflowView> {
    list.workflows.map_values(|record: WorkflowRecord| shown(record))
}

/// The tree that the outcomes make, taken in their order: each list is put
/// under its repository, a failure changes nothing.
pub open spec fn grown(outcomes: Seq<OutcomeView>) -> Seq<OwnerView>
    decreases outcomes.len(),
{
    if outcomes.len() == 0 {
        Seq::empty()
    } else {
        let last = outcomes.last();
        match last.result {
            Ok(list) => placed(grown(outcomes.drop_last()), last.owner, last.repo, shown_list(list)),
            Err(_) => grown(outcomes.drop_last()),
        }
    }
}

/// The workflows of each repository that was listed, by the owner's name and
/// the repository's name. A repository that failed has no entry; of two
/// lists for one repository the later one stands.
pub open spec fn merged(outcomes: Seq<OutcomeView>) -> Map<(Seq<char>, Seq<char>), Seq<WorkflowView>>
    decreases outcomes.len(),
{
    if outcomes.len() == 0 {
        Map::empty()
    } else {
        let last = outcomes.last();
        match last.result {
            Ok(list) => merged(outcomes.drop_last()).insert(
                (last.owner, last.repo),
                shown_list(list),
            ),
            Err(_) => merged(outcomes.drop_last()),
        }
    }
}

/// The failures among the outcomes, in the order of the outcomes.
pub open spec fn failed(outcomes: Seq<OutcomeView>) -> Seq<FetchFailure>
    decreases outcomes.len(),
{
    if outcomes.len() == 0 {
        Seq::empty()
    } else {
        match outcomes.last().result {
            Ok(_) => failed(outcomes.drop_last()),
            Err(failure) => failed(outcomes.drop_last()).push(failure),
        }
    }
}

/// The tree that the outcomes make is well formed, and it holds the
/// workflows of each repository that was listed.
pub proof fn lemma_grown(outcomes: Seq<OutcomeView>)
    ensures
        well_formed(grown(outcomes)),
        tree_map(grown(outcomes)) == merged(outcomes),
    decreases outcomes.len(),
{
    if outcomes.len() > 0 {
        let last = outcomes.last();
        lemma_grown(outcomes.drop_last());
        if last.result is Ok {
            lemma_placed(
                grown(outcomes.drop_last()),
                last.owner,
                last.repo,
                shown_list(last.result->Ok_0),
            );
        }
    }
}

/// Whether `key` is the repository that `outcome` is about and `outcome`
/// holds a list.
pub open spec fn lists(outcome: OutcomeView, key: (Seq<char>, Seq<char>)) -> bool {
    outcome.result is Ok && outcome.owner == key.0 && outcome.repo == key.1
}

/// Whether no two outcomes are about one repository.
pub open spec fn one_outcome_each(outcomes: Seq<OutcomeView>) -> bool {
    forall|i: int, k: int|
        0 <= i < k < outcomes.len() ==> !((#[trigger] outcomes[i]).owner == (
        #[trigger] outcomes[k]).owner && outcomes[i].repo == outcomes[k].repo)
}

/// Where no two outcomes are about one repository, this holds of the
/// outcomes without the last one too.
proof fn lemma_one_outcome_each_earlier(outcomes: Seq<OutcomeView>)
    requires
        one_outcome_each(outcomes),
        outcomes.len() > 0,
    ensures
        one_outcome_each(outcomes.drop_last()),
{
    let earlier = outcomes.drop_last();
    assert forall|i: int, k: int| 0 <= i < k < earlier.len() implies !((
    #[trigger] earlier[i]).owner == (#[trigger] earlier[k]).owner && earlier[i].repo
        == earlier[k].repo) by {
        assert(earlier[i] == outcomes[i] && earlier[k] == outcomes[k]);
    }
}

/// The repositories of the tree are those for which an outcome holds a
/// list: a failure puts nothing into the tree and takes nothing out of it.
pub proof fn lemma_merged_repositories(outcomes: Seq<OutcomeView>, key: (Seq<char>, Seq<char>))
    ensures
        merged(outcomes).contains_key(key) <==> exists|i: int|
            0 <= i < outcomes.len() && lists(#[trigger] outcomes[i], key),
    decreases outcomes.len(),
{
    if outcomes.len() > 0 {
        let earlier = outcomes.drop_last();
        lemma_merged_repositories(earlier, key);
        if merged(earlier).contains_key(key) {
            let i = choose|i: int| 0 <= i < earlier.len() && lists(#[trigger] earlier[i], key);
            assert(lists(outcomes[i], key));
        }
        if exists|i: int| 0 <= i < outcomes.len() && lists(#[trigger] outcomes[i], key) {
            let i = choose|i: int| 0 <= i < outcomes.len() && lists(#[trigger] outcomes[i], key);
            if i < earlier.len() {
                assert(lists(earlier[i], key));
            }
        }
    }
}

/// Where no two outcomes are about one repository, the tree holds for each
/// list its workflows as the dashboard shows them, in the list's order.
pub proof fn lemma_merged_workflows(outcomes: Seq<OutcomeView>, at: int)
    requires
        one_outcome_each(outcomes),
        0 <= at < outcomes.len(),
        outcomes[at].result is Ok,
    ensures
        merged(outcomes).contains_key((outcomes[at].owner, outcomes[at].repo)),
        merged(outcomes)[(outcomes[at].owner, outcomes[at].repo)] == shown_list(
            outcomes[at].result->Ok_0,
        ),
    decreases outcomes.len(),
{
    let earlier = outcomes.drop_last();
    if at < earlier.len() {
        lemma_one_outcome_each_earlier(outcomes);
        lemma_merged_workflows(earlier, at);
    }
}

/// The order in which the outcomes arrive does not matter: where no two
/// are about one repository, the same outcomes in any order make the same
/// tree.
pub proof fn lemma_merged_any_order(first: Seq<OutcomeView>, second: Seq<OutcomeView>)
    requires
        one_outcome_each(first),
        one_outcome_each(second),
        forall|outcome: OutcomeView| first.contains(outcome) <==> second.contains(outcome),
    ensures
        merged(first) == merged(second),
{
    assert forall|key: (Seq<char>, Seq<char>)| #[trigger]
        merged(first).contains_key(key) == merged(second).contains_key(key) by {
        lemma_merged_repositories(first, key);
        lemma_merged_repositories(second, key);
        if merged(first).contains_key(key) {
            let i = choose|i: int| 0 <= i < first.len() && lists(#[trigger] first[i], key);
            assert(second.contains(first[i]));
        }
        if merged(second).contains_key(key) {
            let i = choose|i: int| 0 <= i < second.len() && lists(#[trigger] second[i], key);
            assert(first.contains(second[i]));
        }
    }
    assert forall|key: (Seq<char>, Seq<char>)| #[trigger]
        merged(first).contains_key(key) implies merged(first)[key] == merged(second)[key] by {
        lemma_merged_repositories(first, key);
        let i = choose|i: int| 0 <= i < first.len() && lists(#[trigger] first[i], key);
        assert(second.contains(first[i]));
        let k = choose|k: int| 0 <= k < second.len() && second[k] == first[i];
        lemma_merged_workflows(first, i);
        lemma_merged_workflows(second, k);
    }
}

/// Every failure among the outcomes is kept.
pub proof fn lemma_failure_is_kept(outcomes: Seq<OutcomeView>, at: int)
    requires
        0 <= at < outcomes.len(),
        outcomes[at].result is Err,
    ensures
        failed(outcomes).contains(outcomes[at].result->Err_0),
    decreases outcomes.len(),
{
    let earlier = outcomes.drop_last();
    if at < earlier.len() {
        lemma_failure_is_kept(earlier, at);
        let found = choose|i: int|
            0 <= i < failed(earlier).len() && failed(earlier)[i] == outcomes[at].result->Err_0;
        assert(failed(outcomes)[found] == outcomes[at].result->Err_0);
    } else {
        assert(failed(outcomes).last() == outcomes[at].result->Err_0);
    }
}

/// Every outcome is accounted for: where no two are about one repository,
/// the repositories of the tree and the failures are together as many as
/// the outcomes.
pub proof fn lemma_every_outcome_counts(outcomes: Seq<OutcomeView>)
    requires
        one_outcome_each(outcomes),
    ensures
        merged(outcomes).dom().finite(),
        merged(outcomes).dom().len() + failed(outcomes).len() == outcomes.len(),
    decreases outcomes.len(),
{
    if outcomes.len() > 0 {
        let earlier = outcomes.drop_last();
        let last = outcomes.last();
        lemma_one_outcome_each_earlier(outcomes);
        lemma_every_outcome_counts(earlier);
        if last.result is Ok {
            let key = (last.owner, last.repo);
            lemma_merged_repositories(earlier, key);
            assert(!merged(earlier).contains_key(key)) by {
                if merged(earlier).contains_key(key) {
                    let i = choose|i: int|
                        0 <= i < earlier.len() && lists(#[trigger] earlier[i], key);
                    assert(earlier[i] == outcomes[i]);
                }
            }
            assert(merged(outcomes).dom() =~= merged(earlier).dom().insert(key));
        }
    }
}

} // verus!
