use lazyworkflows::config::{Config, Repo};
use lazyworkflows::workflows::api::{FetchCause, FetchError, Request, TransportError};
use lazyworkflows::workflows::dsl::{ListResponse, WorkflowReponse};
use lazyworkflows::workflows::{
    aggregate, collect, load, place, shown_workflows, Owner, RepoOutcome, Workflow, Workflows,
};

fn cred(owner: &str, repo: &str) -> Repo {
    Repo { token: format!("token-{}", repo), owner: owner.to_string(), repo: repo.to_string() }
}

fn record(id: i32, name: &str, state: &str) -> WorkflowReponse {
    WorkflowReponse {
        id,
        node_id: format!("node-{}", id),
        name: name.to_string(),
        path: format!(".github/workflows/{}.yaml", name),
        state: state.to_string(),
        created_at: "2020-01-08T23:48:37.000-08:00".to_string(),
        updated_at: "2020-01-08T23:50:21.000-08:00".to_string(),
        url: format!("https://api.github.com/workflows/{}", id),
        html_url: format!("https://github.com/workflows/{}", id),
        badge_url: format!("https://github.com/workflows/{}/badge.svg", id),
    }
}

fn shown(id: &str, name: &str, state: &str) -> Workflow {
    Workflow {
        name: Some(name.to_string()),
        path: Some(format!(".github/workflows/{}.yaml", name)),
        id: Some(id.to_string()),
        active: Some(state.to_string()),
    }
}

fn listing(records: Vec<WorkflowReponse>) -> ListResponse {
    ListResponse { total_count: records.len() as i32, workflows: records }
}

fn body(id: i32, name: &str) -> String {
    format!(
        r#"{{"total_count": 1, "workflows": [{{"id":{id},"node_id":"n","name":"{name}","path":"p","state":"active","created_at":"c","updated_at":"u","url":"a","html_url":"h","badge_url":"b"}}]}}"#,
        id = id,
        name = name
    )
}

fn workflows_of<'a>(tree: &'a Workflows, owner: &str, repo: &str) -> Option<&'a Vec<Workflow>> {
    let found: Vec<&Owner> = tree.owners.iter().filter(|o| o.name == owner).collect();
    assert!(found.len() <= 1);
    let repos: Vec<_> = found.first()?.repos.iter().filter(|r| r.name == repo).collect();
    assert!(repos.len() <= 1);
    repos.first().map(|r| &r.workflows)
}

#[test]
fn from_response_shows_name_path_id_and_state() {
    let workflow = Workflow::from_response(&record(161335, "CI", "active"));
    assert_eq!(workflow, shown("161335", "CI", "active"));
    let workflow = Workflow::from_response(&record(-3, "CD", "disabled"));
    assert_eq!(workflow.id, Some("-3".to_string()));
    assert_eq!(workflow.active, Some("disabled".to_string()));
}

#[test]
fn shown_workflows_keeps_the_order() {
    let list = listing(vec![record(2, "b", "active"), record(1, "a", "disabled")]);
    assert_eq!(shown_workflows(&list), vec![shown("2", "b", "active"), shown("1", "a", "disabled")]);
    assert_eq!(shown_workflows(&listing(Vec::new())), Vec::new());
}

#[test]
fn place_groups_by_owner_and_repository() {
    let mut owners: Vec<Owner> = Vec::new();
    place(&mut owners, &"a".to_string(), &"x".to_string(), vec![shown("1", "one", "active")]);
    place(&mut owners, &"b".to_string(), &"x".to_string(), vec![]);
    place(&mut owners, &"a".to_string(), &"y".to_string(), vec![shown("2", "two", "active")]);
    assert_eq!(owners.len(), 2);
    assert_eq!(owners[0].name, "a");
    assert_eq!(owners[0].repos.len(), 2);
    assert_eq!(owners[0].repos[0].name, "x");
    assert_eq!(owners[0].repos[0].workflows, vec![shown("1", "one", "active")]);
    assert_eq!(owners[0].repos[1].name, "y");
    assert_eq!(owners[0].repos[1].workflows, vec![shown("2", "two", "active")]);
    assert_eq!(owners[1].name, "b");
    assert_eq!(owners[1].repos.len(), 1);
    assert_eq!(owners[1].repos[0].name, "x");
    assert!(owners[1].repos[0].workflows.is_empty());
}

#[test]
fn place_replaces_the_workflows_of_a_repository() {
    let mut owners: Vec<Owner> = Vec::new();
    place(&mut owners, &"a".to_string(), &"x".to_string(), vec![shown("1", "one", "active")]);
    place(&mut owners, &"a".to_string(), &"x".to_string(), vec![shown("2", "two", "disabled")]);
    assert_eq!(owners.len(), 1);
    assert_eq!(owners[0].repos.len(), 1);
    assert_eq!(owners[0].repos[0].workflows, vec![shown("2", "two", "disabled")]);
}

#[test]
fn one_failure_of_three_leaves_the_other_two_in_the_tree() {
    let config = Config { repos: vec![cred("a", "one"), cred("a", "two"), cred("b", "three")] };
    let transport = |request: &Request| {
        if request.url.contains("/repos/a/two/") {
            Err(TransportError::Connection("timed out".to_string()))
        } else if request.url.contains("/repos/a/one/") {
            Ok(body(1, "first"))
        } else {
            Ok(body(3, "third"))
        }
    };
    let outcomes = collect(&config, &transport);
    assert_eq!(outcomes.len(), 3);
    assert_eq!((outcomes[0].owner.as_str(), outcomes[0].repo.as_str()), ("a", "one"));
    assert_eq!((outcomes[1].owner.as_str(), outcomes[1].repo.as_str()), ("a", "two"));
    assert_eq!((outcomes[2].owner.as_str(), outcomes[2].repo.as_str()), ("b", "three"));
    assert!(outcomes[0].result.is_ok());
    assert!(outcomes[1].result.is_err());
    assert!(outcomes[2].result.is_ok());

    let model = load(&config, &transport);
    let repos: usize = model.owners.iter().map(|o| o.repos.len()).sum();
    assert_eq!(repos + model.failures.len(), 3);
    assert_eq!(repos, 2);
    assert_eq!(workflows_of(&model, "a", "one").unwrap()[0].name, Some("first".to_string()));
    assert_eq!(workflows_of(&model, "a", "one").unwrap()[0].id, Some("1".to_string()));
    assert_eq!(workflows_of(&model, "b", "three").unwrap()[0].name, Some("third".to_string()));
    assert!(workflows_of(&model, "a", "two").is_none());
    assert_eq!(
        model.failures,
        vec![FetchError {
            owner: "a".to_string(),
            repo: "two".to_string(),
            cause: FetchCause::Transport(TransportError::Connection("timed out".to_string())),
        }]
    );
}

#[test]
fn the_transport_is_asked_once_for_each_repository_with_its_token() {
    let config = Config { repos: vec![cred("a", "one"), cred("b", "two")] };
    let seen = std::cell::RefCell::new(Vec::new());
    let transport = |request: &Request| {
        seen.borrow_mut().push((request.url.clone(), request.headers[1].value.clone()));
        Ok(r#"{"total_count": 0, "workflows": []}"#.to_string())
    };
    let model = load(&config, &transport);
    assert!(model.failures.is_empty());
    assert_eq!(
        *seen.borrow(),
        vec![
            ("https://api.github.com/repos/a/one/actions/workflows".to_string(), "token token-one".to_string()),
            ("https://api.github.com/repos/b/two/actions/workflows".to_string(), "token token-two".to_string()),
        ]
    );
}

#[test]
fn no_repository_gives_an_empty_model() {
    let model = aggregate(Vec::new());
    assert!(model.owners.is_empty());
    assert!(model.failures.is_empty());
    let transport = |_request: &Request| Ok(String::new());
    let model = load(&Config { repos: Vec::new() }, &transport);
    assert!(model.owners.is_empty());
    assert!(model.failures.is_empty());
}

fn three_outcomes(order: [usize; 3]) -> Vec<RepoOutcome> {
    let make = |i: usize| match i {
        0 => RepoOutcome::new(&cred("a", "one"), Ok(listing(vec![record(1, "x", "active")]))),
        1 => RepoOutcome::new(
            &cred("b", "two"),
            Ok(listing(vec![record(2, "y", "active"), record(3, "z", "disabled")])),
        ),
        _ => RepoOutcome::new(&cred("a", "three"), Ok(listing(Vec::new()))),
    };
    order.iter().map(|i| make(*i)).collect()
}

#[test]
fn the_order_of_arrival_does_not_change_what_the_tree_holds() {
    let orders = [[0, 1, 2], [0, 2, 1], [1, 0, 2], [1, 2, 0], [2, 0, 1], [2, 1, 0]];
    for order in orders {
        let model = aggregate(three_outcomes(order));
        assert!(model.failures.is_empty());
        assert_eq!(model.owners.len(), 2);
        assert_eq!(workflows_of(&model, "a", "one").unwrap(), &vec![shown("1", "x", "active")]);
        assert_eq!(
            workflows_of(&model, "b", "two").unwrap(),
            &vec![shown("2", "y", "active"), shown("3", "z", "disabled")]
        );
        assert_eq!(workflows_of(&model, "a", "three").unwrap(), &Vec::new());
        assert!(workflows_of(&model, "b", "one").is_none());
    }
}

#[test]
fn of_two_lists_for_one_repository_the_later_stands() {
    let outcomes = vec![
        RepoOutcome::new(&cred("a", "one"), Ok(listing(vec![record(1, "old", "active")]))),
        RepoOutcome::new(&cred("a", "one"), Ok(listing(vec![record(2, "new", "active")]))),
    ];
    let model = aggregate(outcomes);
    assert_eq!(model.owners.len(), 1);
    assert_eq!(model.owners[0].repos.len(), 1);
    assert_eq!(workflows_of(&model, "a", "one").unwrap(), &vec![shown("2", "new", "active")]);
}

#[test]
fn failures_are_kept_in_their_order() {
    let failure = |repo: &str| FetchError {
        owner: "a".to_string(),
        repo: repo.to_string(),
        cause: FetchCause::Transport(TransportError::Status(500, String::new())),
    };
    let outcomes = vec![
        RepoOutcome::new(&cred("a", "one"), Err(failure("one"))),
        RepoOutcome::new(&cred("a", "two"), Ok(listing(Vec::new()))),
        RepoOutcome::new(&cred("a", "three"), Err(failure("three"))),
    ];
    let model = aggregate(outcomes);
    assert_eq!(model.failures, vec![failure("one"), failure("three")]);
    assert_eq!(model.owners.len(), 1);
    assert_eq!(model.owners[0].repos.len(), 1);
    assert_eq!(model.owners[0].repos[0].name, "two");
}

#[test]
fn a_row_shows_the_name_and_the_id() {
    assert_eq!(shown("161335", "CI", "active").row(), ("CI".to_string(), "id:161335".to_string()));
    assert_eq!(Workflow::new().row(), (String::new(), "id:".to_string()));
    let mut nameless = Workflow::new();
    nameless.set_id("7".to_string());
    assert_eq!(nameless.row(), (String::new(), "id:7".to_string()));
}

#[test]
fn rows_follow_the_tree() {
    let outcomes = vec![
        RepoOutcome::new(&cred("a", "one"), Ok(listing(vec![record(1, "x", "active"), record(2, "y", "active")]))),
        RepoOutcome::new(&cred("b", "two"), Ok(listing(vec![record(3, "z", "disabled")]))),
        RepoOutcome::new(&cred("a", "three"), Ok(listing(Vec::new()))),
        RepoOutcome::new(&cred("a", "four"), Ok(listing(vec![record(4, "w", "active")]))),
    ];
    let model = aggregate(outcomes);
    let row = |name: &str, id: &str| (name.to_string(), id.to_string());
    assert_eq!(
        model.rows(),
        vec![row("x", "id:1"), row("y", "id:2"), row("w", "id:4"), row("z", "id:3")]
    );
    assert_eq!(aggregate(Vec::new()).rows(), Vec::new());
}
