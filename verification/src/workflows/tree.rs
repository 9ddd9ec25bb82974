//! The tree of owners, repositories and workflows as a mathematical value,
//! and what putting a repository into it does.

use vstd::prelude::*;

verus! {

/// A workflow of the tree: each part is there or not.
pub struct WorkflowView {
    pub name: Option<Seq<char>>,
    pub path: Option<Seq<char>>,
    pub id: Option<Seq<char>>,
    pub active: Option<Seq<char>>,
}

/// A repository of the tree: its name and its workflows, in their order.
pub struct RepoView {
    pub name: Seq<char>,
    pub workflows: Seq<WorkflowView>,
}

/// An owner of the tree: the name and the repositories, in their order.
pub struct OwnerView {
    pub name: Seq<char>,
    pub repos: Seq<RepoView>,
}

/// The row that the screen shows for a workflow: its name, and its id behind
/// `id:`; a part that is not set is shown empty.
pub open spec fn row_of(workflow: WorkflowView) -> (Seq<char>, Seq<char>) {
    (
        match workflow.name {
            Some(name) => name,
            None => Seq::empty(),
        },
        "id:"@ + match workflow.id {
            Some(id) => id,
            None => Seq::empty(),
        },
    )
}

/// The rows of the workflows of some repositories: repository after
/// repository, each with its workflows in their order.
pub open spec fn repo_rows(repos: Seq<RepoView>) -> Seq<(Seq<char>, Seq<char>)>
    decreases repos.len(),
{
    if repos.len() == 0 {
        Seq::empty()
    } else {
        repo_rows(repos.drop_last()) + repos.last().workflows.map_values(
            |workflow: WorkflowView| row_of(workflow),
        )
    }
}

/// The rows of the workflows of a tree: owner after owner, each with its
/// repositories in their order.
pub open spec fn tree_rows(owners: Seq<OwnerView>) -> Seq<(Seq<char>, Seq<char>)>
    decreases owners.len(),
{
    if owners.len() == 0 {
        Seq::empty()
    } else {
        tree_rows(owners.drop_last()) + repo_rows(owners.last().repos)
    }
}

/// Whether the repository `key`, an owner's name and a repository's name,
/// stands at place `j` under the owner at place `i`.
pub open spec fn stands_at(owners: Seq<OwnerView>, i: int, j: int, key: (Seq<char>, Seq<char>)) -> bool {
    &&& 0 <= i < owners.len()
    &&& 0 <= j < owners[i].repos.len()
    &&& owners[i].name == key.0
    &&& owners[i].repos[j].name == key.1
}

/// Whether a tree is well formed: no two owners have one name, no two
/// repositories of one owner have one name, and every owner has a repository.
pub open spec fn well_formed(owners: Seq<OwnerView>) -> bool {
    &&& forall|i: int, k: int|
        0 <= i < k < owners.len() ==> (#[trigger] owners[i]).name != (#[trigger] owners[k]).name
    &&& forall|i: int, j: int, k: int|
        0 <= i < owners.len() && 0 <= j < k < owners[i].repos.len() ==> (
        #[trigger] owners[i].repos[j]).name != (#[trigger] owners[i].repos[k]).name
    &&& forall|i: int| 0 <= i < owners.len() ==> (#[trigger] owners[i]).repos.len() > 0
}

/// The workflows of each repository of a tree, by the owner's name and the
/// repository's name.
pub open spec fn tree_map(owners: Seq<OwnerView>) -> Map<(Seq<char>, Seq<char>), Seq<WorkflowView>> {
    Map::new(
        |key: (Seq<char>, Seq<char>)| exists|i: int, j: int| stands_at(owners, i, j, key),
        |key: (Seq<char>, Seq<char>)|
            {
                let (i, j) = choose|i: int, j: int| stands_at(owners, i, j, key);
                owners[i].repos[j].workflows
            },
    )
}

/// Whether `at` is the first place at which `name` stands among `names`, or
/// their number where it stands at none.
pub open spec fn is_first_place(names: Seq<Seq<char>>, name: Seq<char>, at: int) -> bool {
    &&& 0 <= at <= names.len()
    &&& forall|k: int| 0 <= k < at ==> #[trigger] names[k] != name
    &&& at < names.len() ==> names[at] == name
}

/// The first place at which `name` stands among `names`, or their number
/// where it stands at none.
pub open spec fn first_place(names: Seq<Seq<char>>, name: Seq<char>) -> int {
    choose|at: int| is_first_place(names, name, at)
}

/// There is one first place, and no other.
pub proof fn lemma_first_place(names: Seq<Seq<char>>, name: Seq<char>, at: int)
    requires
        is_first_place(names, name, at),
    ensures
        first_place(names, name) == at,
{
}

/// Every name has a first place.
pub proof fn lemma_first_place_exists(names: Seq<Seq<char>>, name: Seq<char>)
    ensures
        is_first_place(names, name, first_place(names, name)),
    decreases names.len(),
{
    if names.len() == 0 {
        assert(is_first_place(names, name, 0));
    } else {
        let front = names.drop_last();
        lemma_first_place_exists(front, name);
        let at = first_place(front, name);
        if at < front.len() {
            assert forall|k: int| 0 <= k < at implies #[trigger] names[k] != name by {
                assert(front[k] != name);
            }
            assert(is_first_place(names, name, at));
        } else {
            assert forall|k: int| 0 <= k < at implies #[trigger] names[k] != name by {
                assert(front[k] != name);
            }
            if names.last() == name {
                assert(is_first_place(names, name, at));
            } else {
                assert(is_first_place(names, name, at + 1));
            }
        }
    }
}

/// The names of the owners, in their order.
pub open spec fn owner_names(owners: Seq<OwnerView>) -> Seq<Seq<char>> {
    owners.map_values(|owner: OwnerView| owner.name)
}

/// The names of the repositories, in their order.
pub open spec fn repo_names(repos: Seq<RepoView>) -> Seq<Seq<char>> {
    repos.map_values(|repo: RepoView| repo.name)
}

/// The repositories of one owner after `workflows` were put under the name
/// `repo`: in place of the workflows of the first repository of that name,
/// or with a new repository behind the others.
pub open spec fn with_repo(repos: Seq<RepoView>, repo: Seq<char>, workflows: Seq<WorkflowView>) -> Seq<
    RepoView,
> {
    let at = first_place(repo_names(repos), repo);
    if at < repos.len() {
        repos.update(at, RepoView { name: repo, workflows })
    } else {
        repos.push(RepoView { name: repo, workflows })
    }
}

/// The tree after `workflows` were put under the names `owner` and `repo`:
/// among the repositories of the first owner of that name, or under a new
/// owner behind the others.
pub open spec fn placed(
    owners: Seq<OwnerView>,
    owner: Seq<char>,
    repo: Seq<char>,
    workflows: Seq<WorkflowView>,
) -> Seq<OwnerView> {
    let at = first_place(owner_names(owners), owner);
    if at < owners.len() {
        owners.update(
            at,
            OwnerView { name: owner, repos: with_repo(owners[at].repos, repo, workflows) },
        )
    } else {
        owners.push(OwnerView { name: owner, repos: seq![RepoView { name: repo, workflows }] })
    }
}

/// In a well-formed tree a repository is found under its names.
pub proof fn lemma_tree_lookup(owners: Seq<OwnerView>, i: int, j: int)
    requires
        well_formed(owners),
        0 <= i < owners.len(),
        0 <= j < owners[i].repos.len(),
    ensures
        tree_map(owners).contains_key((owners[i].name, owners[i].repos[j].name)),
        tree_map(owners)[(owners[i].name, owners[i].repos[j].name)]
            == owners[i].repos[j].workflows,
{
    let key = (owners[i].name, owners[i].repos[j].name);
    assert(stands_at(owners, i, j, key));
}

/// A new owner with one repository, put behind the others, adds that
/// repository to the tree and leaves the rest as it was.
proof fn lemma_push_owner(
    owners: Seq<OwnerView>,
    owner: Seq<char>,
    repo: Seq<char>,
    workflows: Seq<WorkflowView>,
)
    requires
        well_formed(owners),
        forall|i: int| 0 <= i < owners.len() ==> (#[trigger] owners[i]).name != owner,
    ensures
        well_formed(owners.push(OwnerView { name: owner, repos: seq![RepoView { name: repo, workflows }] })),
        tree_map(owners.push(OwnerView { name: owner, repos: seq![RepoView { name: repo, workflows }] }))
            == tree_map(owners).insert((owner, repo), workflows),
{
    let after = owners.push(OwnerView { name: owner, repos: seq![RepoView { name: repo, workflows }] });
    let n = owners.len() as int;
    assert forall|key: (Seq<char>, Seq<char>)|
        tree_map(after).contains_key(key) == #[trigger] tree_map(owners).insert(
            (owner, repo),
            workflows,
        ).contains_key(key) by {
        if tree_map(after).contains_key(key) {
            let (i, j) = choose|i: int, j: int| stands_at(after, i, j, key);
            if i < n {
                assert(stands_at(owners, i, j, key));
            }
        }
        if tree_map(owners).contains_key(key) {
            let (i, j) = choose|i: int, j: int| stands_at(owners, i, j, key);
            assert(stands_at(after, i, j, key));
        }
        if key == (owner, repo) {
            assert(stands_at(after, n, 0, key));
        }
    }
    assert forall|key: (Seq<char>, Seq<char>)| #[trigger]
        tree_map(after).contains_key(key) implies tree_map(after)[key] == tree_map(owners).insert(
        (owner, repo),
        workflows,
    )[key] by {
        let (i, j) = choose|i: int, j: int| stands_at(after, i, j, key);
        lemma_tree_lookup(after, i, j);
        if i < n {
            lemma_tree_lookup(owners, i, j);
        }
    }
}

/// A new repository, put behind the others of its owner, adds that
/// repository to the tree and leaves the rest as it was.
proof fn lemma_push_repo(
    owners: Seq<OwnerView>,
    at: int,
    repo: Seq<char>,
    workflows: Seq<WorkflowView>,
)
    requires
        well_formed(owners),
        0 <= at < owners.len(),
        forall|j: int|
            0 <= j < owners[at].repos.len() ==> (#[trigger] owners[at].repos[j]).name != repo,
    ensures
        well_formed(
            owners.update(
                at,
                OwnerView {
                    name: owners[at].name,
                    repos: owners[at].repos.push(RepoView { name: repo, workflows }),
                },
            ),
        ),
        tree_map(
            owners.update(
                at,
                OwnerView {
                    name: owners[at].name,
                    repos: owners[at].repos.push(RepoView { name: repo, workflows }),
                },
            ),
        ) == tree_map(owners).insert((owners[at].name, repo), workflows),
{
    let after = owners.update(
        at,
        OwnerView {
            name: owners[at].name,
            repos: owners[at].repos.push(RepoView { name: repo, workflows }),
        },
    );
    let m = owners[at].repos.len() as int;
    let added = (owners[at].name, repo);
    assert(well_formed(after));
    assert forall|key: (Seq<char>, Seq<char>)|
        tree_map(after).contains_key(key) == #[trigger] tree_map(owners).insert(
            added,
            workflows,
        ).contains_key(key) by {
        if tree_map(after).contains_key(key) {
            let (i, j) = choose|i: int, j: int| stands_at(after, i, j, key);
            if !(i == at && j == m) {
                assert(stands_at(owners, i, j, key));
            }
        }
        if tree_map(owners).contains_key(key) {
            let (i, j) = choose|i: int, j: int| stands_at(owners, i, j, key);
            assert(stands_at(after, i, j, key));
        }
        if key == added {
            assert(stands_at(after, at, m, key));
        }
    }
    assert forall|key: (Seq<char>, Seq<char>)| #[trigger]
        tree_map(after).contains_key(key) implies tree_map(after)[key] == tree_map(owners).insert(
        added,
        workflows,
    )[key] by {
        let (i, j) = choose|i: int, j: int| stands_at(after, i, j, key);
        lemma_tree_lookup(after, i, j);
        if !(i == at && j == m) {
            lemma_tree_lookup(owners, i, j);
        }
    }
}

/// New workflows for a repository of the tree replace the ones it had and
/// leave the rest as it was.
proof fn lemma_replace_workflows(
    owners: Seq<OwnerView>,
    at: int,
    place: int,
    workflows: Seq<WorkflowView>,
)
    requires
        well_formed(owners),
        0 <= at < owners.len(),
        0 <= place < owners[at].repos.len(),
    ensures
        well_formed(
            owners.update(
                at,
                OwnerView {
                    name: owners[at].name,
                    repos: owners[at].repos.update(
                        place,
                        RepoView { name: owners[at].repos[place].name, workflows },
                    ),
                },
            ),
        ),
        tree_map(
            owners.update(
                at,
                OwnerView {
                    name: owners[at].name,
                    repos: owners[at].repos.update(
                        place,
                        RepoView { name: owners[at].repos[place].name, workflows },
                    ),
                },
            ),
        ) == tree_map(owners).insert((owners[at].name, owners[at].repos[place].name), workflows),
{
    let after = owners.update(
        at,
        OwnerView {
            name: owners[at].name,
            repos: owners[at].repos.update(
                place,
                RepoView { name: owners[at].repos[place].name, workflows },
            ),
        },
    );
    let changed = (owners[at].name, owners[at].repos[place].name);
    assert(well_formed(after));
    assert forall|key: (Seq<char>, Seq<char>)|
        tree_map(after).contains_key(key) == #[trigger] tree_map(owners).insert(
            changed,
            workflows,
        ).contains_key(key) by {
        if tree_map(after).contains_key(key) {
            let (i, j) = choose|i: int, j: int| stands_at(after, i, j, key);
            assert(stands_at(owners, i, j, key));
        }
        if tree_map(owners).contains_key(key) {
            let (i, j) = choose|i: int, j: int| stands_at(owners, i, j, key);
            assert(stands_at(after, i, j, key));
        }
        if key == changed {
            assert(stands_at(after, at, place, key));
        }
    }
    assert forall|key: (Seq<char>, Seq<char>)| #[trigger]
        tree_map(after).contains_key(key) implies tree_map(after)[key] == tree_map(owners).insert(
        changed,
        workflows,
    )[key] by {
        let (i, j) = choose|i: int, j: int| stands_at(after, i, j, key);
        lemma_tree_lookup(after, i, j);
        lemma_tree_lookup(owners, i, j);
    }
}

/// Putting workflows into a well-formed tree leaves it well formed, with
/// these workflows under their repository and every other repository as it
/// was.
pub proof fn lemma_placed(
    owners: Seq<OwnerView>,
    owner: Seq<char>,
    repo: Seq<char>,
    workflows: Seq<WorkflowView>,
)
    requires
        well_formed(owners),
    ensures
        well_formed(placed(owners, owner, repo, workflows)),
        tree_map(placed(owners, owner, repo, workflows)) == tree_map(owners).insert(
            (owner, repo),
            workflows,
        ),
{
    let names = owner_names(owners);
    lemma_first_place_exists(names, owner);
    let at = first_place(names, owner);
    if at < owners.len() {
        let repos = owners[at].repos;
        let below = repo_names(repos);
        lemma_first_place_exists(below, repo);
        let place = first_place(below, repo);
        if place < repos.len() {
            lemma_replace_workflows(owners, at, place, workflows);
        } else {
            assert forall|j: int| 0 <= j < repos.len() implies (#[trigger] owners[at].repos[j]).name
                != repo by {
                assert(below[j] != repo);
            }
            lemma_push_repo(owners, at, repo, workflows);
        }
    } else {
        assert forall|i: int| 0 <= i < owners.len() implies (#[trigger] owners[i]).name
            != owner by {
            assert(names[i] != owner);
        }
        lemma_push_owner(owners, owner, repo, workflows);
    }
}

} // verus!
