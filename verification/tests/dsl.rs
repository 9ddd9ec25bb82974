use lazyworkflows::workflows::dsl::{
    DecodeErrorKind, DisableResponse, DispatchResponse, EnableResponse, GetResponse, ListResponse,
    WorkflowReponse,
};

fn workflow1<'a>() -> &'a str {
    r#"{"id":161335,"node_id":"MDg6V29ya2Zsb3cxNjEzMzU=","name":"CI","path":".github/workflows/blank.yaml","state":"active","created_at":"2020-01-08T23:48:37.000-08:00","updated_at":"2020-01-08T23:50:21.000-08:00","url":"https://api.github.com/repos/octo-org/octo-repo/actions/workflows/161335","html_url":"https://github.com/octo-org/octo-repo/blob/master/.github/workflows/161335","badge_url":"https://github.com/octo-org/octo-repo/workflows/CI/badge.svg"}"#
}

fn workflow2<'a>() -> &'a str {
    r#"{"id":20,"node_id":"MDg6V29ya2Zsb3cxNjEzMzU=","name":"CD","path":".github/workflows/other.yaml","state":"disabled","created_at":"2020-01-08T23:48:37.000-08:00","updated_at":"2020-01-08T23:50:21.000-08:00","url":"https://api.github.com/repos/octo-org/octo-repo/actions/workflows/161335","html_url":"https://github.com/octo-org/octo-repo/blob/master/.github/workflows/161335","badge_url":"https://github.com/octo-org/octo-repo/workflows/CI/badge.svg"}"#
}

#[test]
fn serialize_enable_response() {
    let input = r#"{"status": 200}"#;
    let response = EnableResponse::serialize_from(input).expect("the body decodes");
    assert_eq!(response.status, 200);
}

#[test]
fn serialize_disable_response() {
    let input = r#"{"status": 200}"#;
    let response = DisableResponse::serialize_from(&input.to_string()).expect("the body decodes");
    assert_eq!(response.status, 200);
}

#[test]
fn serialize_dispatch_response() {
    let input = r#"{"status": 200}"#;
    let response = DispatchResponse::serialize_from(&input.to_string()).expect("the body decodes");
    assert_eq!(response.status, 200);
}

#[test]
fn serialize_get_response() {
    let input = workflow1();

    let response = GetResponse::serialize_from(&input.to_string()).expect("the body decodes");
    let workflow = response.workflow;

    assert_eq!(workflow.id, 161335);
    assert_eq!(&workflow.name, "CI");
    assert_eq!(&workflow.path, ".github/workflows/blank.yaml");
    assert_eq!(&workflow.state, "active");
    assert_eq!(&workflow.created_at, "2020-01-08T23:48:37.000-08:00");
    assert_eq!(&workflow.updated_at, "2020-01-08T23:50:21.000-08:00");
    assert_eq!(&workflow.url, "https://api.github.com/repos/octo-org/octo-repo/actions/workflows/161335");
    assert_eq!(&workflow.html_url, "https://github.com/octo-org/octo-repo/blob/master/.github/workflows/161335");
    assert_eq!(&workflow.badge_url, "https://github.com/octo-org/octo-repo/workflows/CI/badge.svg");
}

#[test]
fn serialize_list_response() {
    let mut input = String::new();
    input.push_str(r#"{"total_count": 2, "workflows": ["#);
    input.push_str(workflow1());
    input.push_str(",");
    input.push_str(workflow2());
    input.push_str("]}");

    let response = ListResponse::serialize_from(&input.to_string()).expect("the body decodes");
    let workflows = response.workflows;

    assert_eq!(workflows.len(), 2);
    assert_eq!(workflows[0].id, 161335);
    assert_eq!(&workflows[0].name, "CI");
    assert_eq!(&workflows[0].path, ".github/workflows/blank.yaml");
    assert_eq!(&workflows[0].state, "active");
    assert_eq!(&workflows[0].created_at, "2020-01-08T23:48:37.000-08:00");
    assert_eq!(&workflows[0].updated_at, "2020-01-08T23:50:21.000-08:00");
    assert_eq!(&workflows[0].url, "https://api.github.com/repos/octo-org/octo-repo/actions/workflows/161335");
    assert_eq!(&workflows[0].html_url, "https://github.com/octo-org/octo-repo/blob/master/.github/workflows/161335");
    assert_eq!(&workflows[0].badge_url, "https://github.com/octo-org/octo-repo/workflows/CI/badge.svg");
    assert_eq!(workflows[1].id, 20);
    assert_eq!(&workflows[1].name, "CD");
    assert_eq!(&workflows[1].path, ".github/workflows/other.yaml");
    assert_eq!(&workflows[1].state, "disabled");
    assert_eq!(&workflows[1].created_at, "2020-01-08T23:48:37.000-08:00");
    assert_eq!(&workflows[1].updated_at, "2020-01-08T23:50:21.000-08:00");
    assert_eq!(&workflows[1].url, "https://api.github.com/repos/octo-org/octo-repo/actions/workflows/161335");
    assert_eq!(&workflows[1].html_url, "https://github.com/octo-org/octo-repo/blob/master/.github/workflows/161335");
    assert_eq!(&workflows[1].badge_url, "https://github.com/octo-org/octo-repo/workflows/CI/badge.svg");
}

#[test]
fn list_keeps_total_count_and_node_ids() {
    let body = format!(r#"{{"total_count": 7, "workflows": [{}]}}"#, workflow2());
    let response = ListResponse::serialize_from(&body).expect("the body decodes");
    assert_eq!(response.total_count, 7);
    assert_eq!(response.workflows.len(), 1);
    assert_eq!(&response.workflows[0].node_id, "MDg6V29ya2Zsb3cxNjEzMzU=");
}

#[test]
fn get_reads_the_workflow_of_an_envelope() {
    let body = format!(r#"{{"workflow": {}}}"#, workflow2());
    let response = GetResponse::serialize_from(&body).expect("the body decodes");
    assert_eq!(response.workflow.id, 20);
    assert_eq!(&response.workflow.name, "CD");
}

#[test]
fn truncated_body_is_a_syntax_error_that_keeps_the_body() {
    let body = r#"{"status": 20"#;
    let e = EnableResponse::serialize_from(body).unwrap_err();
    assert_eq!(e.kind, DecodeErrorKind::Syntax);
    assert_eq!(e.body, body);
    let e = DisableResponse::serialize_from(body).unwrap_err();
    assert_eq!(e.kind, DecodeErrorKind::Syntax);
    assert_eq!(e.body, body);
    let e = DispatchResponse::serialize_from(body).unwrap_err();
    assert_eq!(e.kind, DecodeErrorKind::Syntax);
    assert_eq!(e.body, body);
    let e = GetResponse::serialize_from(body).unwrap_err();
    assert_eq!(e.kind, DecodeErrorKind::Syntax);
    assert_eq!(e.body, body);
    let e = ListResponse::serialize_from(body).unwrap_err();
    assert_eq!(e.kind, DecodeErrorKind::Syntax);
    assert_eq!(e.body, body);
}

#[test]
fn error_payload_is_a_schema_error_that_keeps_the_body() {
    let body = r#"{"message": "API rate limit exceeded", "documentation_url": "https://docs.github.com"}"#;
    let e = ListResponse::serialize_from(body).unwrap_err();
    assert_eq!(e.kind, DecodeErrorKind::Schema);
    assert_eq!(e.body, body);
    let e = GetResponse::serialize_from(body).unwrap_err();
    assert_eq!(e.kind, DecodeErrorKind::Schema);
    let e = EnableResponse::serialize_from(body).unwrap_err();
    assert_eq!(e.kind, DecodeErrorKind::Schema);
}

#[test]
fn status_must_be_an_integer_that_fits() {
    assert_eq!(EnableResponse::serialize_from(r#"{"status": 204}"#).unwrap().status, 204);
    assert_eq!(EnableResponse::serialize_from(r#"{"status": -1}"#).unwrap().status, -1);
    assert_eq!(
        EnableResponse::serialize_from(r#"{"status": 2147483647}"#).unwrap().status,
        2147483647
    );
    for body in [
        r#"{"status": 2147483648}"#,
        r#"{"status": 18446744073709551615}"#,
        r#"{"status": 200.5}"#,
        r#"{"status": "200"}"#,
        r#"{"status": null}"#,
        r#"[200]"#,
        r#"200"#,
    ] {
        let e = EnableResponse::serialize_from(body).unwrap_err();
        assert_eq!(e.kind, DecodeErrorKind::Schema);
        assert_eq!(e.body, body);
    }
}

#[test]
fn workflow_with_a_missing_or_mistyped_member_is_refused() {
    let missing = workflow1().replace(r#""name":"CI","#, "");
    let value = serde_json::from_str::<serde_json::Value>(&missing).unwrap();
    assert!(WorkflowReponse::from_value(&value).is_none());
    let mistyped = workflow1().replace(r#""id":161335"#, r#""id":"161335""#);
    let value = serde_json::from_str::<serde_json::Value>(&mistyped).unwrap();
    assert!(WorkflowReponse::from_value(&value).is_none());
    let extra = workflow1().replace(r#""name":"CI","#, r#""name":"CI","more":[1,2],"#);
    let value = serde_json::from_str::<serde_json::Value>(&extra).unwrap();
    assert_eq!(WorkflowReponse::from_value(&value).unwrap().name, "CI");
}

#[test]
fn list_with_one_bad_workflow_is_refused() {
    let body = format!(r#"{{"total_count": 2, "workflows": [{}, {{"id": 1}}]}}"#, workflow1());
    let e = ListResponse::serialize_from(&body).unwrap_err();
    assert_eq!(e.kind, DecodeErrorKind::Schema);
    let body = r#"{"total_count": 0, "workflows": []}"#;
    let list = ListResponse::serialize_from(body).unwrap();
    assert_eq!(list.total_count, 0);
    assert!(list.workflows.is_empty());
    let body = r#"{"total_count": 0, "workflows": {}}"#;
    assert_eq!(ListResponse::serialize_from(body).unwrap_err().kind, DecodeErrorKind::Schema);
}
