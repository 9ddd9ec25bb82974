//! The replies of the workflow API and their decoding from JSON.

use crate::model::{option_view, result_view};
use crate::workflows::json::{json_of_text, json_tree, member, parse, Json};
use vstd::prelude::*;

verus! {

/// Why a reply could not be decoded.
#[derive(Clone, Copy, Debug, PartialEq, Eq, Structural)]
pub enum DecodeErrorKind {
    /// The body is not JSON.
    Syntax,
    /// The body is JSON of another shape than the one expected.
    Schema,
}

/// A reply that could not be decoded, with the body as it was received.
#[derive(Debug, PartialEq, Eq)]
pub struct DecodeError {
    pub kind: DecodeErrorKind,
    pub body: String,
}

/// A `DecodeError` as a mathematical value.
pub struct DecodeFailure {
    pub kind: DecodeErrorKind,
    pub body: Seq<char>,
}

impl View for DecodeError {
    type V = DecodeFailure;

    open spec fn view(&self) -> DecodeFailure {
        DecodeFailure { kind: self.kind, body: self.body@ }
    }
}

/// The text under `key` in an object, where there is one.
pub open spec fn text_at(tree: Json, key: Seq<char>) -> Option<Seq<char>> {
    match tree {
        Json::Object(members) => if members.contains_key(key) {
            match members[key] {
                Json::Text(text) => Some(text),
                _ => None,
            }
        } else {
            None
        },
        _ => None,
    }
}

/// The integer under `key` in an object, where there is one and it fits `i32`.
pub open spec fn int_at(tree: Json, key: Seq<char>) -> Option<int> {
    match tree {
        Json::Object(members) => if members.contains_key(key) {
            match members[key] {
                Json::Int(n) => if i32::MIN <= n <= i32::MAX {
                    Some(n)
                } else {
                    None
                },
                _ => None,
            }
        } else {
            None
        },
        _ => None,
    }
}

/// What decoding a body gives, for a shape that reads a document.
pub open spec fn decoded<T>(body: Seq<char>, shape: spec_fn(Json) -> Option<T>) -> Result<
    T,
    DecodeFailure,
> {
    match json_of_text(body) {
        None => Err(DecodeFailure { kind: DecodeErrorKind::Syntax, body }),
        Some(tree) => match shape(tree) {
            Some(record) => Ok(record),
            None => Err(DecodeFailure { kind: DecodeErrorKind::Schema, body }),
        },
    }
}

/// The text member `key` of an object.
pub fn text_member(value: &serde_json::Value, key: &str) -> (r: Option<String>)
    ensures
        match r {
            Some(text) => text_at(json_tree(*value), key@) == Some(text@),
            None => text_at(json_tree(*value), key@) is None,
        },
{
    match member(value, key) {
        Some(found) => match found.as_str() {
            Some(text) => Some(text.to_owned()),
            None => None,
        },
        None => None,
    }
}

/// The integer member `key` of an object, where it fits `i32`.
pub fn int_member(value: &serde_json::Value, key: &str) -> (r: Option<i32>)
    ensures
        match r {
            Some(n) => int_at(json_tree(*value), key@) == Some(n as int),
            None => int_at(json_tree(*value), key@) is None,
        },
{
    match member(value, key) {
        Some(found) => match found.as_i64() {
            Some(n) => if -2147483648 <= n && n <= 2147483647 {
                Some(n as i32)
            } else {
                None
            },
            None => None,
        },
        None => None,
    }
}

/// Parses a body, keeping the body in the error where it is not JSON.
pub fn serialize(input: &str) -> (r: Result<serde_json::Value, DecodeError>)
    ensures
        match r {
            Ok(value) => json_of_text(input@) == Some(json_tree(value)),
            Err(e) => json_of_text(input@) is None && e@ == (DecodeFailure {
                kind: DecodeErrorKind::Syntax,
                body: input@,
            }),
        },
{
    match parse(input) {
        Ok(value) => Ok(value),
        Err(_) => Err(DecodeError { kind: DecodeErrorKind::Syntax, body: input.to_owned() }),
    }
}

/// One workflow as the API describes it.
#[derive(Debug, PartialEq, Eq)]
pub struct WorkflowReponse {
    pub id: i32,
    pub node_id: String,
    pub name: String,
    pub path: String,
    pub state: String,
    pub created_at: String,
    pub updated_at: String,
    pub url: String,
    pub html_url: String,
    pub badge_url: String,
}

/// A `WorkflowReponse` as a mathematical value.
pub struct WorkflowRecord {
    pub id: int,
    pub node_id: Seq<char>,
    pub name: Seq<char>,
    pub path: Seq<char>,
    pub state: Seq<char>,
    pub created_at: Seq<char>,
    pub updated_at: Seq<char>,
    pub url: Seq<char>,
    pub html_url: Seq<char>,
    pub badge_url: Seq<char>,
}

impl View for WorkflowReponse {
    type V = WorkflowRecord;

    open spec fn view(&self) -> WorkflowRecord {
        WorkflowRecord {
            id: self.id as int,
            node_id: self.node_id@,
            name: self.name@,
            path: self.path@,
            state: self.state@,
            created_at: self.created_at@,
            updated_at: self.updated_at@,
            url: self.url@,
            html_url: self.html_url@,
            badge_url: self.badge_url@,
        }
    }
}

/// The workflow that a document describes: an object with an integer `id`
/// that fits `i32` and the nine texts. Other members are passed over.
pub open spec fn workflow_of_json(tree: Json) -> Option<WorkflowRecord> {
    if int_at(tree, "id"@) is Some && text_at(tree, "node_id"@) is Some && text_at(
        tree,
        "name"@,
    ) is Some && text_at(tree, "path"@) is Some && text_at(tree, "state"@) is Some && text_at(
        tree,
        "created_at"@,
    ) is Some && text_at(tree, "updated_at"@) is Some && text_at(tree, "url"@) is Some
        && text_at(tree, "html_url"@) is Some && text_at(tree, "badge_url"@) is Some {
        Some(
            WorkflowRecord {
                id: int_at(tree, "id"@).unwrap(),
                node_id: text_at(tree, "node_id"@).unwrap(),
                name: text_at(tree, "name"@).unwrap(),
                path: text_at(tree, "path"@).unwrap(),
                state: text_at(tree, "state"@).unwrap(),
                created_at: text_at(tree, "created_at"@).unwrap(),
                updated_at: text_at(tree, "updated_at"@).unwrap(),
                url: text_at(tree, "url"@).unwrap(),
                html_url: text_at(tree, "html_url"@).unwrap(),
                badge_url: text_at(tree, "badge_url"@).unwrap(),
            },
        )
    } else {
        None
    }
}

impl Default for WorkflowReponse {
    /// The workflow with the id 0 and every text empty.
    fn default() -> (r: WorkflowReponse)
        ensures
            r@ == (WorkflowRecord {
                id: 0,
                node_id: Seq::empty(),
                name: Seq::empty(),
                path: Seq::empty(),
                state: Seq::empty(),
                created_at: Seq::empty(),
                updated_at: Seq::empty(),
                url: Seq::empty(),
                html_url: Seq::empty(),
                badge_url: Seq::empty(),
            }),
    {
        WorkflowReponse {
            id: 0,
            node_id: String::new(),
            name: String::new(),
            path: String::new(),
            state: String::new(),
            created_at: String::new(),
            updated_at: String::new(),
            url: String::new(),
            html_url: String::new(),
            badge_url: String::new(),
        }
    }
}

impl WorkflowReponse {
    /// Reads one workflow from a parsed document.
    pub fn from_value(value: &serde_json::Value) -> (r: Option<WorkflowReponse>)
        ensures
            option_view(r) == workflow_of_json(json_tree(*value)),
    {
        let id: i32 = match int_member(value, "id") {
            Some(n) => n,
            None => return None,
        };
        let node_id = match text_member(value, "node_id") {
            Some(text) => text,
            None => return None,
        };
        let name = match text_member(value, "name") {
            Some(text) => text,
            None => return None,
        };
        let path = match text_member(value, "path") {
            Some(text) => text,
            None => return None,
        };
        let state = match text_member(value, "state") {
            Some(text) => text,
            None => return None,
        };
        let created_at = match text_member(value, "created_at") {
            Some(text) => text,
            None => return None,
        };
        let updated_at = match text_member(value, "updated_at") {
            Some(text) => text,
            None => return None,
        };
        let url = match text_member(value, "url") {
            Some(text) => text,
            None => return None,
        };
        let html_url = match text_member(value, "html_url") {
            Some(text) => text,
            None => return None,
        };
        let badge_url = match text_member(value, "badge_url") {
            Some(text) => text,
            None => return None,
        };
        Some(
            WorkflowReponse {
                id,
                node_id,
                name,
                path,
                state,
                created_at,
                updated_at,
                url,
                html_url,
                badge_url,
            },
        )
    }
}

/// The reply to a request for one workflow.
#[derive(Debug, PartialEq, Eq)]
pub struct GetResponse {
    pub workflow: WorkflowReponse,
}

/// The workflow that a reply to a request for one workflow describes: the
/// member `workflow` of an object that has one, else the document itself.
pub open spec fn get_of_json(tree: Json) -> Option<WorkflowRecord> {
    match tree {
        Json::Object(members) => if members.contains_key("workflow"@) {
            workflow_of_json(members["workflow"@])
        } else {
            workflow_of_json(tree)
        },
        _ => None,
    }
}

impl View for GetResponse {
    type V = WorkflowRecord;

    open spec fn view(&self) -> WorkflowRecord {
        self.workflow@
    }
}

impl GetResponse {
    /// Reads the reply from a parsed document.
    pub fn from_value(value: &serde_json::Value) -> (r: Option<GetResponse>)
        ensures
            option_view(r) == get_of_json(json_tree(*value)),
    {
        let found = match member(value, "workflow") {
            Some(inner) => WorkflowReponse::from_value(inner),
            None => WorkflowReponse::from_value(value),
        };
        match found {
            Some(workflow) => Some(GetResponse { workflow }),
            None => None,
        }
    }

    /// Decodes the body of a reply to a request for one workflow.
    pub fn serialize_from(input: &str) -> (r: Result<GetResponse, DecodeError>)
        ensures
            result_view(r) == decoded(input@, |tree: Json| get_of_json(tree)),
    {
        let value = match serialize(input) {
            Ok(value) => value,
            Err(e) => return Err(e),
        };
        match GetResponse::from_value(&value) {
            Some(reply) => Ok(reply),
            None => Err(DecodeError { kind: DecodeErrorKind::Schema, body: input.to_owned() }),
        }
    }
}

/// The reply to a request for the workflows of a repository.
#[derive(Debug, PartialEq, Eq)]
pub struct ListResponse {
    pub total_count: i32,
    pub workflows: Vec<WorkflowReponse>,
}

/// A `ListResponse` as a mathematical value. `total_count` is what the API
/// reported; it need not be the length of `workflows`.
pub struct ListRecord {
    pub total_count: int,
    pub workflows: Seq<WorkflowRecord>,
}

impl View for ListResponse {
    type V = ListRecord;

    open spec fn view(&self) -> ListRecord {
        ListRecord {
            total_count: self.total_count as int,
            workflows: self.workflows@.map_values(|workflow: WorkflowReponse| workflow@),
        }
    }
}

/// The workflows that the elements of an array describe, in the array's
/// order; `None` where one element describes none.
pub open spec fn workflows_of_json(items: Seq<Json>) -> Option<Seq<WorkflowRecord>> {
    if forall|i: int| 0 <= i < items.len() ==> workflow_of_json(#[trigger] items[i]) is Some {
        Some(items.map_values(|item: Json| workflow_of_json(item).unwrap()))
    } else {
        None
    }
}

/// The list that a document describes: an object with an integer
/// `total_count` that fits `i32` and an array `workflows` of workflows.
pub open spec fn list_of_json(tree: Json) -> Option<ListRecord> {
    match tree {
        Json::Object(members) => if int_at(tree, "total_count"@) is Some && members.contains_key(
            "workflows"@,
        ) {
            match members["workflows"@] {
                Json::Array(items) => match workflows_of_json(items) {
                    Some(workflows) => Some(
                        ListRecord {
                            total_count: int_at(tree, "total_count"@).unwrap(),
                            workflows,
                        },
                    ),
                    None => None,
                },
                _ => None,
            }
        } else {
            None
        },
        _ => None,
    }
}

impl ListResponse {
    /// Reads the list from a parsed document.
    pub fn from_value(value: &serde_json::Value) -> (r: Option<ListResponse>)
        ensures
            option_view(r) == list_of_json(json_tree(*value)),
    {
        let total_count: i32 = match int_member(value, "total_count") {
            Some(n) => n,
            None => return None,
        };
        let items = match member(value, "workflows") {
            Some(found) => match found.as_array() {
                Some(items) => items,
                None => return None,
            },
            None => return None,
        };
        let ghost trees = items@.map_values(|item: serde_json::Value| json_tree(item));
        let mut workflows: Vec<WorkflowReponse> = Vec::new();
        let mut i: usize = 0;
        while i < items.len()
            invariant
                i <= items.len(),
                trees == items@.map_values(|item: serde_json::Value| json_tree(item)),
                list_of_json(json_tree(*value)) == match workflows_of_json(trees) {
                    Some(found) => Some(
                        ListRecord { total_count: total_count as int, workflows: found },
                    ),
                    None => None,
                },
                workflows@.len() == i,
                forall|j: int|
                    0 <= j < i ==> workflow_of_json(trees[j]) == Some(#[trigger] workflows@[j]@),
            decreases items.len() - i,
        {
            match WorkflowReponse::from_value(&items[i]) {
                Some(workflow) => workflows.push(workflow),
                None => {
                    assert(workflow_of_json(trees[i as int]) is None);
                    return None;
                },
            }
            i += 1;
        }
        let list = ListResponse { total_count, workflows };
        assert(workflows_of_json(trees) == Some(list@.workflows)) by {
            assert forall|j: int| 0 <= j < trees.len() implies workflow_of_json(
                #[trigger] trees[j],
            ) is Some by {
                assert(workflow_of_json(trees[j]) == Some(list.workflows@[j]@));
            }
        }
        Some(list)
    }

    /// Decodes the body of a reply to a request for the workflows.
    pub fn serialize_from(input: &str) -> (r: Result<ListResponse, DecodeError>)
        ensures
            result_view(r) == decoded(input@, |tree: Json| list_of_json(tree)),
    {
        let value = match serialize(input) {
            Ok(value) => value,
            Err(e) => return Err(e),
        };
        match ListResponse::from_value(&value) {
            Some(list) => Ok(list),
            None => Err(DecodeError { kind: DecodeErrorKind::Schema, body: input.to_owned() }),
        }
    }
}

/// The status that an acknowledgement carries: the integer `status` of an
/// object, where it fits `i32`.
pub open spec fn status_of_json(tree: Json) -> Option<int> {
    int_at(tree, "status"@)
}

/// Decodes the body of an acknowledgement to its status.
pub fn serialize_status(input: &str) -> (r: Result<i32, DecodeError>)
    ensures
        match r {
            Ok(status) => decoded(input@, |tree: Json| status_of_json(tree)) == Ok::<
                int,
                DecodeFailure,
            >(status as int),
            Err(e) => decoded(input@, |tree: Json| status_of_json(tree)) == Err::<
                int,
                DecodeFailure,
            >(e@),
        },
{
    let value = match serialize(input) {
        Ok(value) => value,
        Err(e) => return Err(e),
    };
    match int_member(&value, "status") {
        Some(status) => Ok(status),
        None => Err(DecodeError { kind: DecodeErrorKind::Schema, body: input.to_owned() }),
    }
}

/// The acknowledgement of a request to enable a workflow.
#[derive(Debug, PartialEq, Eq)]
pub struct EnableResponse {
    pub status: i32,
}

impl View for EnableResponse {
    type V = int;

    open spec fn view(&self) -> int {
        self.status as int
    }
}

impl EnableResponse {
    /// Decodes the body of the acknowledgement.
    pub fn serialize_from(input: &str) -> (r: Result<EnableResponse, DecodeError>)
        ensures
            result_view(r) == decoded(input@, |tree: Json| status_of_json(tree)),
    {
        match serialize_status(input) {
            Ok(status) => Ok(EnableResponse { status }),
            Err(e) => Err(e),
        }
    }
}

/// The acknowledgement of a request to disable a workflow.
#[derive(Debug, PartialEq, Eq)]
pub struct DisableResponse {
    pub status: i32,
}

impl View for DisableResponse {
    type V = int;

    open spec fn view(&self) -> int {
        self.status as int
    }
}

impl DisableResponse {
    /// Decodes the body of the acknowledgement.
    pub fn serialize_from(input: &str) -> (r: Result<DisableResponse, DecodeError>)
        ensures
            result_view(r) == decoded(input@, |tree: Json| status_of_json(tree)),
    {
        match serialize_status(input) {
            Ok(status) => Ok(DisableResponse { status }),
            Err(e) => Err(e),
        }
    }
}

/// The acknowledgement of a request to dispatch a workflow.
#[derive(Debug, PartialEq, Eq)]
pub struct DispatchResponse {
    pub status: i32,
}

impl View for DispatchResponse {
    type V = int;

    open spec fn view(&self) -> int {
        self.status as int
    }
}

impl DispatchResponse {
    /// Decodes the body of the acknowledgement.
    pub fn serialize_from(input: &str) -> (r: Result<DispatchResponse, DecodeError>)
        ensures
            result_view(r) == decoded(input@, |tree: Json| status_of_json(tree)),
    {
        match serialize_status(input) {
            Ok(status) => Ok(DispatchResponse { status }),
            Err(e) => Err(e),
        }
    }
}

/// A body that is not JSON is refused as a syntax error, whatever shape was
/// expected.
pub proof fn lemma_malformed_body_is_refused<T>(body: Seq<char>, shape: spec_fn(Json) -> Option<T>)
    ensures
        json_of_text(body) is None ==> decoded(body, shape) == Err::<T, DecodeFailure>(
            DecodeFailure { kind: DecodeErrorKind::Syntax, body },
        ),
{
}

/// Every failure to decode a body holds that body, unchanged.
pub proof fn lemma_failure_keeps_body<T>(body: Seq<char>, shape: spec_fn(Json) -> Option<T>)
    ensures
        decoded(body, shape) matches Err(failure) ==> failure.body == body,
{
}

/// A body that is an object whose `status` is an integer that fits `i32`
/// decodes to that status.
pub proof fn lemma_status_is_read(body: Seq<char>, members: Map<Seq<char>, Json>, status: int)
    requires
        members.contains_key("status"@),
        members["status"@] == Json::Int(status),
        i32::MIN <= status <= i32::MAX,
    ensures
        json_of_text(body) == Some(Json::Object(members)) ==> decoded(
            body,
            |tree: Json| status_of_json(tree),
        ) == Ok::<int, DecodeFailure>(status),
{
}

/// A list that was read has one workflow for each element of the array
/// `workflows`, in the array's order, each as the element describes it.
pub proof fn lemma_list_keeps_order(
    members: Map<Seq<char>, Json>,
    items: Seq<Json>,
    list: ListRecord,
)
    requires
        list_of_json(Json::Object(members)) == Some(list),
        members["workflows"@] == Json::Array(items),
    ensures
        list.workflows.len() == items.len(),
        forall|i: int|
            0 <= i < items.len() ==> workflow_of_json(items[i]) == Some(
                #[trigger] list.workflows[i],
            ),
{
}

/// The object that describes a workflow: its ten members and no other.
pub open spec fn json_of_workflow(record: WorkflowRecord) -> Json {
    Json::Object(
        map![
            "id"@ => Json::Int(record.id),
            "node_id"@ => Json::Text(record.node_id),
            "name"@ => Json::Text(record.name),
            "path"@ => Json::Text(record.path),
            "state"@ => Json::Text(record.state),
            "created_at"@ => Json::Text(record.created_at),
            "updated_at"@ => Json::Text(record.updated_at),
            "url"@ => Json::Text(record.url),
            "html_url"@ => Json::Text(record.html_url),
            "badge_url"@ => Json::Text(record.badge_url),
        ],
    )
}

/// The object that describes a list of workflows.
pub open spec fn json_of_list(list: ListRecord) -> Json {
    Json::Object(
        map![
            "total_count"@ => Json::Int(list.total_count),
            "workflows"@ => Json::Array(
                list.workflows.map_values(|record: WorkflowRecord| json_of_workflow(record)),
            ),
        ],
    )
}

/// No two of the names of a workflow's members are the same.
proof fn lemma_member_names_differ()
    ensures
        "id"@.len() == 2,
        "url"@.len() == 3,
        "name"@.len() == 4,
        "path"@.len() == 4,
        "state"@.len() == 5,
        "node_id"@.len() == 7,
        "html_url"@.len() == 8,
        "workflow"@.len() == 8,
        "badge_url"@.len() == 9,
        "created_at"@.len() == 10,
        "updated_at"@.len() == 10,
        "name"@ != "path"@,
        "html_url"@ != "workflow"@,
        "created_at"@ != "updated_at"@,
{
    reveal_strlit("id");
    reveal_strlit("url");
    reveal_strlit("name");
    reveal_strlit("path");
    reveal_strlit("state");
    reveal_strlit("node_id");
    reveal_strlit("html_url");
    reveal_strlit("workflow");
    reveal_strlit("badge_url");
    reveal_strlit("created_at");
    reveal_strlit("updated_at");
    assert("name"@[0] != "path"@[0]);
    assert("html_url"@[0] != "workflow"@[0]);
    assert("created_at"@[0] != "updated_at"@[0]);
}

/// Writing a workflow as an object and reading the object gives the
/// workflow back, every part unchanged; so does reading it as the answer to
/// a request for one workflow.
pub proof fn lemma_workflow_round_trip(workflow: WorkflowReponse)
    ensures
        workflow_of_json(json_of_workflow(workflow@)) == Some(workflow@),
        get_of_json(json_of_workflow(workflow@)) == Some(workflow@),
{
    lemma_member_names_differ();
}

/// Writing a list as an object and reading the object gives the list back:
/// the count, and the workflows in their order.
pub proof fn lemma_list_round_trip(list: ListResponse)
    ensures
        list_of_json(json_of_list(list@)) == Some(list@),
{
    reveal_strlit("total_count");
    reveal_strlit("workflows");
    let records = list@.workflows;
    let items = records.map_values(|record: WorkflowRecord| json_of_workflow(record));
    assert forall|i: int| 0 <= i < items.len() implies workflow_of_json(#[trigger] items[i])
        == Some(records[i]) by {
        lemma_workflow_round_trip(list.workflows@[i]);
    }
    assert(workflows_of_json(items).unwrap() =~= records);
    assert("total_count"@.len() != "workflows"@.len());
}

} // verus!
