//! The workflows of the configured repositories: the tree of owners,
//! repositories and workflows, and its making from the answers of the API.

pub mod api;
pub mod dsl;
pub mod json;
pub mod merge;
pub mod tree;

use crate::config;
use crate::config::{credentials, distinct_repositories, Credential};
use crate::model::{option_view, result_view};
use crate::text::decimal_string;
use crate::workflows::api::{
    answered, completed, list, request_for, Action, FetchError, FetchFailure, Request,
    TransportError,
};
use crate::workflows::dsl::{list_of_json, ListResponse, WorkflowReponse};
use crate::workflows::json::Json;
use crate::workflows::merge::{
    failed, grown, lemma_every_outcome_counts, lemma_grown, merged, shown, shown_list,
    OutcomeView,
};
use crate::workflows::tree::{
    lemma_first_place, owner_names, placed, repo_names, repo_rows, row_of, tree_map, tree_rows,
    well_formed, with_repo, OwnerView, RepoView, WorkflowView,
};
use vstd::prelude::*;

verus! {

/// One workflow as the dashboard shows it. Each part is set by itself.
#[derive(Debug, PartialEq, Eq)]
pub struct Workflow {
    pub name: Option<String>,
    pub path: Option<String>,
    pub id: Option<String>,
    pub active: Option<String>,
}

impl View for Workflow {
    type V = WorkflowView;

    open spec fn view(&self) -> WorkflowView {
        WorkflowView {
            name: option_view(self.name),
            path: option_view(self.path),
            id: option_view(self.id),
            active: option_view(self.active),
        }
    }
}

impl Workflow {
    /// A workflow of which no part is set.
    pub fn new() -> (r: Workflow)
        ensures
            r@ == (WorkflowView { name: None, path: None, id: None, active: None }),
    {
        Workflow { name: None, path: None, id: None, active: None }
    }

    /// Sets the name and leaves the other parts as they are.
    pub fn set_name<'a>(&'a mut self, name: String) -> (r: &'a mut Workflow)
        ensures
            r@ == (WorkflowView { name: Some(name@), ..old(self)@ }),
            *final(self) == *final(r),
    {
        self.name = Some(name);
        self
    }

    /// Sets the path and leaves the other parts as they are.
    pub fn set_path<'a>(&'a mut self, path: String) -> (r: &'a mut Workflow)
        ensures
            r@ == (WorkflowView { path: Some(path@), ..old(self)@ }),
            *final(self) == *final(r),
    {
        self.path = Some(path);
        self
    }

    /// Sets the id and leaves the other parts as they are.
    pub fn set_id<'a>(&'a mut self, id: String) -> (r: &'a mut Workflow)
        ensures
            r@ == (WorkflowView { id: Some(id@), ..old(self)@ }),
            *final(self) == *final(r),
    {
        self.id = Some(id);
        self
    }

    /// Sets the state and leaves the other parts as they are.
    pub fn set_active<'a>(&'a mut self, active: String) -> (r: &'a mut Workflow)
        ensures
            r@ == (WorkflowView { active: Some(active@), ..old(self)@ }),
            *final(self) == *final(r),
    {
        self.active = Some(active);
        self
    }

    /// What the dashboard shows of a workflow that the API described.
    pub fn from_response(record: &WorkflowReponse) -> (r: Workflow)
        ensures
            r@ == shown(record@),
    {
        let mut workflow = Workflow::new();
        workflow.set_name(record.name.clone()).set_path(record.path.clone()).set_id(
            decimal_string(record.id),
        ).set_active(record.state.clone());
        workflow
    }
}

/// One repository with its workflows.
#[derive(Debug, PartialEq, Eq)]
pub struct Repo {
    pub name: String,
    pub workflows: Vec<Workflow>,
}

/// The views of a sequence of workflows.
pub open spec fn workflow_views(workflows: Seq<Workflow>) -> Seq<WorkflowView> {
    workflows.map_values(|workflow: Workflow| workflow@)
}

impl View for Repo {
    type V = RepoView;

    open spec fn view(&self) -> RepoView {
        RepoView { name: self.name@, workflows: workflow_views(self.workflows@) }
    }
}

/// The views of a sequence of repositories.
pub open spec fn repo_views(repos: Seq<Repo>) -> Seq<RepoView> {
    repos.map_values(|repo: Repo| repo@)
}

/// All repositories of one owner.
#[derive(Debug, PartialEq, Eq)]
pub struct Owner {
    pub name: String,
    pub repos: Vec<Repo>,
}

impl View for Owner {
    type V = OwnerView;

    open spec fn view(&self) -> OwnerView {
        OwnerView { name: self.name@, repos: repo_views(self.repos@) }
    }
}

/// The views of a sequence of owners.
pub open spec fn owner_views(owners: Seq<Owner>) -> Seq<OwnerView> {
    owners.map_values(|owner: Owner| owner@)
}

/// Puts the workflows of one repository into the tree: in place of the ones
/// that the first repository of that name had under the first owner of that
/// name, or under a new repository, of a new owner where there was none of
/// that name. New nodes stand behind the others.
pub fn place(owners: &mut Vec<Owner>, owner: &String, repo: &String, workflows: Vec<Workflow>)
    ensures
        owner_views(final(owners)@) == placed(
            owner_views(old(owners)@),
            owner@,
            repo@,
            workflow_views(workflows@),
        ),
{
    let ghost before = owner_views(owners@);
    let ghost shown = workflow_views(workflows@);
    let mut i: usize = 0;
    while i < owners.len() && !(owners[i].name == *owner)
        invariant
            i <= owners.len(),
            forall|k: int| 0 <= k < i ==> (#[trigger] owners@[k]).name@ != owner@,
        decreases owners.len() - i,
    {
        i += 1;
    }
    proof {
        lemma_first_place(owner_names(before), owner@, i as int);
    }
    if i == owners.len() {
        let mut repos: Vec<Repo> = Vec::new();
        repos.push(Repo { name: repo.clone(), workflows });
        owners.push(Owner { name: owner.clone(), repos });
        proof {
            let added = OwnerView {
                name: owner@,
                repos: seq![RepoView { name: repo@, workflows: shown }],
            };
            assert(owners@.last()@.repos =~= added.repos);
        }
    } else {
        let ghost below = before[i as int].repos;
        let mut j: usize = 0;
        while j < owners[i].repos.len() && !(owners[i].repos[j].name == *repo)
            invariant
                i < owners.len(),
                j <= owners[i as int].repos.len(),
                forall|k: int| 0 <= k < j ==> (#[trigger] owners@[i as int].repos@[k]).name@ != repo@,
            decreases owners[i as int].repos.len() - j,
        {
            j += 1;
        }
        proof {
            lemma_first_place(repo_names(below), repo@, j as int);
        }
        if j == owners[i].repos.len() {
            owners[i].repos.push(Repo { name: repo.clone(), workflows });
        } else {
            owners[i].repos[j].workflows = workflows;
        }
        proof {
            let changed = OwnerView { name: owner@, repos: with_repo(below, repo@, shown) };
            assert(owners@[i as int]@.repos =~= changed.repos);
        }
    }
}

/// What the listing of one repository came to: the repository, by its
/// owner's name and its own, and the list or the failure.
#[derive(Debug, PartialEq, Eq)]
pub struct RepoOutcome {
    pub owner: String,
    pub repo: String,
    pub result: Result<ListResponse, FetchError>,
}

impl View for RepoOutcome {
    type V = OutcomeView;

    open spec fn view(&self) -> OutcomeView {
        OutcomeView { owner: self.owner@, repo: self.repo@, result: result_view(self.result) }
    }
}

impl RepoOutcome {
    /// The outcome `result` of listing the repository `cfg`.
    pub fn new(cfg: &config::Repo, result: Result<ListResponse, FetchError>) -> (r: RepoOutcome)
        ensures
            r@ == (OutcomeView { owner: cfg.owner@, repo: cfg.repo@, result: result_view(result) }),
    {
        RepoOutcome { owner: cfg.owner.clone(), repo: cfg.repo.clone(), result }
    }
}

/// The views of a sequence of outcomes.
pub open spec fn outcome_views(outcomes: Seq<RepoOutcome>) -> Seq<OutcomeView> {
    outcomes.map_values(|outcome: RepoOutcome| outcome@)
}

/// The views of a sequence of failures.
pub open spec fn failure_views(failures: Seq<FetchError>) -> Seq<FetchFailure> {
    failures.map_values(|failure: FetchError| failure@)
}

/// What the dashboard knows after one round over the repositories: the tree
/// of the repositories that were listed, and the failures of the others.
#[derive(Debug, PartialEq, Eq)]
pub struct Workflows {
    pub owners: Vec<Owner>,
    pub failures: Vec<FetchError>,
}

/// A `Workflows` as a mathematical value.
pub struct WorkflowsView {
    pub owners: Seq<OwnerView>,
    pub failures: Seq<FetchFailure>,
}

impl View for Workflows {
    type V = WorkflowsView;

    open spec fn view(&self) -> WorkflowsView {
        WorkflowsView {
            owners: owner_views(self.owners@),
            failures: failure_views(self.failures@),
        }
    }
}

impl WorkflowsView {
    /// The workflows of each repository of the tree.
    pub open spec fn repos(self) -> Map<(Seq<char>, Seq<char>), Seq<WorkflowView>> {
        tree_map(self.owners)
    }
}

/// The view of a row: its two texts.
pub open spec fn row_views(rows: Seq<(String, String)>) -> Seq<(Seq<char>, Seq<char>)> {
    rows.map_values(|row: (String, String)| (row.0@, row.1@))
}

impl Workflow {
    /// The row that the screen shows for the workflow.
    pub fn row(&self) -> (r: (String, String))
        ensures
            (r.0@, r.1@) == row_of(self@),
    {
        let name = match &self.name {
            Some(name) => name.clone(),
            None => String::new(),
        };
        let mut id = String::from_str("id:");
        if let Some(text) = &self.id {
            id.append(text.as_str());
        }
        (name, id)
    }
}

impl Workflows {
    /// The rows that the screen shows: one for each workflow of the tree, in
    /// the tree's order.
    pub fn rows(&self) -> (r: Vec<(String, String)>)
        ensures
            row_views(r@) == tree_rows(self@.owners),
    {
        let ghost owners = self@.owners;
        let mut rows: Vec<(String, String)> = Vec::new();
        let mut i: usize = 0;
        while i < self.owners.len()
            invariant
                i <= self.owners.len(),
                owners == self@.owners,
                row_views(rows@) == tree_rows(owners.take(i as int)),
            decreases self.owners.len() - i,
        {
            let owner = &self.owners[i];
            let ghost repos = owner@.repos;
            let ghost before = row_views(rows@);
            let mut j: usize = 0;
            while j < owner.repos.len()
                invariant
                    j <= owner.repos.len(),
                    repos == owner@.repos,
                    row_views(rows@) == before + repo_rows(repos.take(j as int)),
                decreases owner.repos.len() - j,
            {
                let repo = &owner.repos[j];
                let ghost shown = repo@.workflows;
                let ghost above = row_views(rows@);
                let mut k: usize = 0;
                while k < repo.workflows.len()
                    invariant
                        k <= repo.workflows.len(),
                        shown == repo@.workflows,
                        row_views(rows@) == above + shown.take(k as int).map_values(
                            |workflow: WorkflowView| row_of(workflow),
                        ),
                    decreases repo.workflows.len() - k,
                {
                    let ghost earlier = row_views(rows@);
                    rows.push(repo.workflows[k].row());
                    proof {
                        assert(shown[k as int] == repo.workflows@[k as int]@);
                        assert(row_views(rows@) =~= earlier.push(row_of(shown[k as int])));
                        assert(shown.take(k + 1).map_values(
                            |workflow: WorkflowView| row_of(workflow),
                        ) =~= shown.take(k as int).map_values(
                            |workflow: WorkflowView| row_of(workflow),
                        ).push(row_of(shown[k as int])));
                    }
                    k += 1;
                }
                proof {
                    assert(shown.take(k as int) =~= shown);
                    assert(repos.take(j + 1).drop_last() =~= repos.take(j as int));
                }
                j += 1;
            }
            proof {
                assert(repos.take(j as int) =~= repos);
                assert(owners.take(i + 1).drop_last() =~= owners.take(i as int));
            }
            i += 1;
        }
        proof {
            assert(owners.take(i as int) =~= owners);
        }
        rows
    }
}

/// What the dashboard shows of the workflows of a list, in the list's order.
pub fn shown_workflows(list: &ListResponse) -> (r: Vec<Workflow>)
    ensures
        workflow_views(r@) == shown_list(list@),
{
    let mut out: Vec<Workflow> = Vec::new();
    let mut i: usize = 0;
    while i < list.workflows.len()
        invariant
            i <= list.workflows.len(),
            out@.len() == i,
            forall|k: int| 0 <= k < i ==> (#[trigger] out@[k])@ == shown(list.workflows@[k]@),
        decreases list.workflows.len() - i,
    {
        out.push(Workflow::from_response(&list.workflows[i]));
        i += 1;
    }
    out
}

/// Folds the outcomes of one round into what the dashboard knows: each list
/// goes into the tree under its repository, each failure is kept with the
/// others. The outcomes are taken as they arrived; only the names that an
/// outcome carries say where it belongs.
pub fn aggregate(outcomes: Vec<RepoOutcome>) -> (r: Workflows)
    ensures
        r@.owners == grown(outcome_views(outcomes@)),
        r@.failures == failed(outcome_views(outcomes@)),
        well_formed(r@.owners),
        r@.repos() == merged(outcome_views(outcomes@)),
{
    let ghost all = outcome_views(outcomes@);
    let mut owners: Vec<Owner> = Vec::new();
    let mut failures: Vec<FetchError> = Vec::new();
    for outcome in iter: outcomes
        invariant
            all == outcome_views(outcomes@),
            owner_views(owners@) == grown(all.take(iter.index() as int)),
            failure_views(failures@) == failed(all.take(iter.index() as int)),
    {
        let ghost n = iter.index() as int;
        assert(all.take(n + 1).drop_last() =~= all.take(n));
        match outcome.result {
            Ok(list) => {
                let workflows = shown_workflows(&list);
                place(&mut owners, &outcome.owner, &outcome.repo, workflows);
            },
            Err(failure) => {
                failures.push(failure);
            },
        }
    }
    proof {
        assert(all.take(all.len() as int) =~= all);
        lemma_grown(all);
    }
    Workflows { owners, failures }
}

/// Whether `outcome` is what listing the repository `cfg` through
/// `transport` may have come to: it carries the names of `cfg`, and its
/// result is what an answer of `transport` to the request for the list
/// comes to.
pub open spec fn listed<T: Fn(&Request) -> Result<String, TransportError>>(
    cfg: Credential,
    transport: T,
    outcome: OutcomeView,
) -> bool {
    &&& outcome.owner == cfg.owner
    &&& outcome.repo == cfg.repo
    &&& exists|reply: Result<String, TransportError>|
        answered(transport, request_for(cfg, Action::List, None), reply) && outcome.result
            == completed(cfg, |tree: Json| list_of_json(tree), result_view(reply))
}

/// Lists every configured repository through `transport`, one after the
/// other. There is one outcome for each repository, in the order of the
/// configuration: a failure for one repository is that repository's outcome
/// and touches no other.
///
/// A caller that sends the requests at once builds each with
/// `api::prepare`, finishes each answer with `api::complete_list` and hands
/// the outcomes, as they arrive, to `aggregate`.
pub fn collect<T: Fn(&Request) -> Result<String, TransportError>>(
    config: &config::Config,
    transport: &T,
) -> (r: Vec<RepoOutcome>)
    requires
        forall|i: int, request: Request|
            #![trigger config.repos[i], call_requires(*transport, (&request,))]
            0 <= i < config.repos.len() && request@ == request_for(
                config.repos[i]@,
                Action::List,
                None,
            ) ==> call_requires(*transport, (&request,)),
    ensures
        r.len() == config.repos.len(),
        forall|i: int|
            0 <= i < r.len() ==> listed(config.repos[i]@, *transport, (#[trigger] r[i])@),
{
    let mut outcomes: Vec<RepoOutcome> = Vec::new();
    let mut i: usize = 0;
    while i < config.repos.len()
        invariant
            i <= config.repos.len(),
            outcomes.len() == i,
            forall|k: int, request: Request|
                #![trigger config.repos[k], call_requires(*transport, (&request,))]
                0 <= k < config.repos.len() && request@ == request_for(
                    config.repos[k]@,
                    Action::List,
                    None,
                ) ==> call_requires(*transport, (&request,)),
            forall|k: int|
                0 <= k < i ==> listed(config.repos[k]@, *transport, (#[trigger] outcomes[k])@),
        decreases config.repos.len() - i,
    {
        let cfg = &config.repos[i];
        let result = list(cfg, transport);
        outcomes.push(RepoOutcome::new(cfg, result));
        i += 1;
    }
    outcomes
}

/// One round over the configured repositories: lists each through
/// `transport`, one after the other, and folds the outcomes into what the
/// dashboard knows. What was known before plays no part. Where no two
/// configured repositories are the same, each is either in the tree or
/// among the failures.
pub fn load<T: Fn(&Request) -> Result<String, TransportError>>(
    config: &config::Config,
    transport: &T,
) -> (r: Workflows)
    requires
        forall|i: int, request: Request|
            #![trigger config.repos[i], call_requires(*transport, (&request,))]
            0 <= i < config.repos.len() && request@ == request_for(
                config.repos[i]@,
                Action::List,
                None,
            ) ==> call_requires(*transport, (&request,)),
    ensures
        well_formed(r@.owners),
        exists|outcomes: Seq<OutcomeView>|
            {
                &&& outcomes.len() == config.repos.len()
                &&& forall|i: int|
                    0 <= i < outcomes.len() ==> listed(
                        config.repos[i]@,
                        *transport,
                        #[trigger] outcomes[i],
                    )
                &&& r@.owners == grown(outcomes)
                &&& r@.failures == failed(outcomes)
                &&& r@.repos() == merged(outcomes)
            },
        distinct_repositories(credentials(config.repos@)) ==> r@.repos().dom().finite()
            && r@.repos().dom().len() + r@.failures.len() == config.repos.len(),
{
    let outcomes = collect(config, transport);
    let ghost witness = outcome_views(outcomes@);
    let r = aggregate(outcomes);
    assert forall|i: int| 0 <= i < witness.len() implies listed(
        config.repos[i]@,
        *transport,
        #[trigger] witness[i],
    ) by {
        assert(witness[i] == outcomes@[i]@);
    }
    proof {
        let repos = credentials(config.repos@);
        if distinct_repositories(repos) {
            assert forall|i: int, k: int| 0 <= i < k < witness.len() implies !((
            #[trigger] witness[i]).owner == (#[trigger] witness[k]).owner && witness[i].repo
                == witness[k].repo) by {
                assert(listed(config.repos[i]@, *transport, witness[i]));
                assert(listed(config.repos[k]@, *transport, witness[k]));
                assert(repos[i] == config.repos[i]@ && repos[k] == config.repos[k]@);
            }
            lemma_every_outcome_counts(witness);
        }
    }
    r
}

} // verus!
