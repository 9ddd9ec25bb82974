//! Requests to the workflow API.

use crate::config;
use crate::config::Credential;
use crate::model::{option_view, result_view};
use crate::workflows::dsl::{
    decoded, get_of_json, list_of_json, status_of_json, DecodeError, DecodeFailure,
    DisableResponse, DispatchResponse, EnableResponse, GetResponse, ListRecord, ListResponse,
    WorkflowRecord,
};
use crate::workflows::json::Json;
use vstd::prelude::*;

verus! {

/// What a request asks of the API.
#[derive(Clone, Copy, Debug, PartialEq, Eq, Structural)]
pub enum Action {
    List,
    Get,
    Dispatch,
    Enable,
    Disable,
}

/// The HTTP method of a request.
#[derive(Clone, Copy, Debug, PartialEq, Eq, Structural)]
pub enum Method {
    Get,
    Post,
    Put,
}

impl Action {
    /// Whether the action is about one workflow, so that its request names
    /// the workflow's id.
    pub open spec fn needs_id(self) -> bool {
        !(self is List)
    }

    /// The method by which the action is requested: reading with `Get`,
    /// triggering with `Post`, changing the state with `Put`.
    pub open spec fn method(self) -> Method {
        match self {
            Action::List => Method::Get,
            Action::Get => Method::Get,
            Action::Dispatch => Method::Post,
            Action::Enable => Method::Put,
            Action::Disable => Method::Put,
        }
    }
}

/// A part that a request in the making lacks.
#[derive(Clone, Copy, Debug, PartialEq, Eq, Structural)]
pub enum ConfigurationError {
    MissingAction,
    MissingOwner,
    MissingRepo,
    MissingId,
    MissingToken,
}

/// One header of a request.
#[derive(Debug, PartialEq, Eq)]
pub struct Header {
    pub name: String,
    pub value: String,
}

/// A request as it is to be sent: nothing in it is missing, and nothing has
/// been sent yet.
#[derive(Debug, PartialEq, Eq)]
pub struct Request {
    pub method: Method,
    pub url: String,
    pub headers: Vec<Header>,
}

/// A `Request` as a mathematical value; a header is its name and its value.
pub struct RequestView {
    pub method: Method,
    pub url: Seq<char>,
    pub headers: Seq<(Seq<char>, Seq<char>)>,
}

impl View for Header {
    type V = (Seq<char>, Seq<char>);

    open spec fn view(&self) -> (Seq<char>, Seq<char>) {
        (self.name@, self.value@)
    }
}

impl View for Request {
    type V = RequestView;

    open spec fn view(&self) -> RequestView {
        RequestView {
            method: self.method,
            url: self.url@,
            headers: self.headers@.map_values(|header: Header| header@),
        }
    }
}

/// A request in the making: each part is set by itself, in any order.
#[derive(Debug, PartialEq, Eq)]
pub struct APIRequest {
    pub action: Option<Action>,
    pub owner: Option<String>,
    pub repo: Option<String>,
    pub id: Option<String>,
    pub token: Option<String>,
}

/// An `APIRequest` as a mathematical value.
pub struct Draft {
    pub action: Option<Action>,
    pub owner: Option<Seq<char>>,
    pub repo: Option<Seq<char>>,
    pub id: Option<Seq<char>>,
    pub token: Option<Seq<char>>,
}

/// The text that an optional string holds.
pub open spec fn text_of(field: Option<String>) -> Option<Seq<char>> {
    match field {
        Some(text) => Some(text@),
        None => None,
    }
}

impl View for APIRequest {
    type V = Draft;

    open spec fn view(&self) -> Draft {
        Draft {
            action: self.action,
            owner: text_of(self.owner),
            repo: text_of(self.repo),
            id: text_of(self.id),
            token: text_of(self.token),
        }
    }
}

/// The address of the workflows of a repository.
pub open spec fn workflows_url(owner: Seq<char>, repo: Seq<char>) -> Seq<char> {
    "https://api.github.com/repos/"@ + owner + "/"@ + repo + "/actions/workflows"@
}

/// The address that an action is requested at.
pub open spec fn action_url(action: Action, owner: Seq<char>, repo: Seq<char>, id: Seq<char>) -> Seq<
    char,
> {
    match action {
        Action::List => workflows_url(owner, repo),
        Action::Get => workflows_url(owner, repo) + "/"@ + id,
        Action::Dispatch => workflows_url(owner, repo) + "/"@ + id + "/dispatches"@,
        Action::Enable => workflows_url(owner, repo) + "/"@ + id + "/enable"@,
        Action::Disable => workflows_url(owner, repo) + "/"@ + id + "/disable"@,
    }
}

/// The headers that every request carries.
pub open spec fn request_headers(token: Seq<char>) -> Seq<(Seq<char>, Seq<char>)> {
    seq![
        ("Accept"@, "application/vnd.github.v3+json"@),
        ("Authorization"@, "token "@ + token),
        ("User-Agent"@, "lazyworkflows"@),
    ]
}

impl Draft {
    /// The first part that the address lacks: the action, then the owner,
    /// the repository and, for an action on one workflow, the id.
    pub open spec fn url_gap(self) -> Option<ConfigurationError> {
        if self.action is None {
            Some(ConfigurationError::MissingAction)
        } else if self.owner is None {
            Some(ConfigurationError::MissingOwner)
        } else if self.repo is None {
            Some(ConfigurationError::MissingRepo)
        } else if self.action.unwrap().needs_id() && self.id is None {
            Some(ConfigurationError::MissingId)
        } else {
            None
        }
    }

    /// The first part that the request lacks: what the address lacks, then
    /// the token.
    pub open spec fn gap(self) -> Option<ConfigurationError> {
        if self.url_gap() is Some {
            self.url_gap()
        } else if self.token is None {
            Some(ConfigurationError::MissingToken)
        } else {
            None
        }
    }

    /// The address of the request. An id that was set is passed over where
    /// the action needs none.
    pub open spec fn url(self) -> Seq<char> {
        action_url(
            self.action.unwrap(),
            self.owner.unwrap(),
            self.repo.unwrap(),
            if self.id is Some {
                self.id.unwrap()
            } else {
                Seq::empty()
            },
        )
    }

    /// The request that the parts make, or the first part that is missing.
    pub open spec fn built(self) -> Result<RequestView, ConfigurationError> {
        match self.gap() {
            Some(missing) => Err(missing),
            None => Ok(
                RequestView {
                    method: self.action.unwrap().method(),
                    url: self.url(),
                    headers: request_headers(self.token.unwrap()),
                },
            ),
        }
    }
}

impl APIRequest {
    /// A request of which no part is set.
    pub fn new() -> (r: APIRequest)
        ensures
            r@ == (Draft { action: None, owner: None, repo: None, id: None, token: None }),
    {
        APIRequest { action: None, owner: None, repo: None, id: None, token: None }
    }

    /// Sets the action and leaves the other parts as they are.
    pub fn set_action(&mut self, action: &Action) -> (r: &mut Self)
        ensures
            r@ == (Draft { action: Some(*action), ..old(self)@ }),
            *final(self) == *final(r),
    {
        self.action = Some(*action);
        self
    }

    /// Sets the owner and leaves the other parts as they are.
    pub fn set_owner(&mut self, owner: &String) -> (r: &mut Self)
        ensures
            r@ == (Draft { owner: Some(owner@), ..old(self)@ }),
            *final(self) == *final(r),
    {
        self.owner = Some(owner.clone());
        self
    }

    /// Sets the repository and leaves the other parts as they are.
    pub fn set_repo(&mut self, reponame: &String) -> (r: &mut Self)
        ensures
            r@ == (Draft { repo: Some(reponame@), ..old(self)@ }),
            *final(self) == *final(r),
    {
        self.repo = Some(reponame.clone());
        self
    }

    /// Sets the id of the workflow and leaves the other parts as they are.
    pub fn set_id(&mut self, id: &String) -> (r: &mut Self)
        ensures
            r@ == (Draft { id: Some(id@), ..old(self)@ }),
            *final(self) == *final(r),
    {
        self.id = Some(id.clone());
        self
    }

    /// Sets the token and leaves the other parts as they are.
    pub fn set_token(&mut self, token: &String) -> (r: &mut Self)
        ensures
            r@ == (Draft { token: Some(token@), ..old(self)@ }),
            *final(self) == *final(r),
    {
        self.token = Some(token.clone());
        self
    }

    /// Sets owner, repository and token from a configured repository.
    pub fn use_repo(&mut self, repo: &config::Repo) -> (r: &mut Self)
        ensures
            r@ == (Draft {
                owner: Some(repo.owner@),
                repo: Some(repo.repo@),
                token: Some(repo.token@),
                ..old(self)@
            }),
            *final(self) == *final(r),
    {
        self.set_owner(&repo.owner).set_repo(&repo.repo).set_token(&repo.token);
        self
    }

    /// The address of the request, or the first part that it lacks.
    pub fn generate_url(&self) -> (r: Result<String, ConfigurationError>)
        ensures
            match r {
                Ok(url) => self@.url_gap() is None && url@ == self@.url(),
                Err(missing) => self@.url_gap() == Some(missing),
            },
    {
        let action = match self.action {
            Some(action) => action,
            None => return Err(ConfigurationError::MissingAction),
        };
        let owner = match &self.owner {
            Some(owner) => owner,
            None => return Err(ConfigurationError::MissingOwner),
        };
        let repo = match &self.repo {
            Some(repo) => repo,
            None => return Err(ConfigurationError::MissingRepo),
        };
        let mut url = String::from_str("https://api.github.com/repos/");
        url.append(owner.as_str());
        url.append("/");
        url.append(repo.as_str());
        url.append("/actions/workflows");
        if let Action::List = action {
            return Ok(url);
        }
        let id = match &self.id {
            Some(id) => id,
            None => return Err(ConfigurationError::MissingId),
        };
        url.append("/");
        url.append(id.as_str());
        match action {
            Action::Dispatch => url.append("/dispatches"),
            Action::Enable => url.append("/enable"),
            Action::Disable => url.append("/disable"),
            _ => {},
        }
        Ok(url)
    }

    /// The method of the request, or `MissingAction`.
    pub fn apply_http_method(&self) -> (r: Result<Method, ConfigurationError>)
        ensures
            match r {
                Ok(method) => self@.action is Some && method == self@.action.unwrap().method(),
                Err(missing) => self@.action is None && missing
                    == ConfigurationError::MissingAction,
            },
    {
        match self.action {
            Some(action) => Ok(
                match action {
                    Action::List => Method::Get,
                    Action::Get => Method::Get,
                    Action::Dispatch => Method::Post,
                    Action::Enable => Method::Put,
                    Action::Disable => Method::Put,
                },
            ),
            None => Err(ConfigurationError::MissingAction),
        }
    }

    /// The request that the parts make, or the first part that is missing.
    /// Nothing is sent.
    pub fn build(&self) -> (r: Result<Request, ConfigurationError>)
        ensures
            match r {
                Ok(request) => self@.built() == Ok::<RequestView, ConfigurationError>(request@),
                Err(missing) => self@.built() == Err::<RequestView, ConfigurationError>(missing),
            },
    {
        let url = match self.generate_url() {
            Ok(url) => url,
            Err(missing) => return Err(missing),
        };
        let method = match self.apply_http_method() {
            Ok(method) => method,
            Err(missing) => return Err(missing),
        };
        let token = match &self.token {
            Some(token) => token,
            None => return Err(ConfigurationError::MissingToken),
        };
        let mut authorization = String::from_str("token ");
        authorization.append(token.as_str());
        let mut headers: Vec<Header> = Vec::new();
        headers.push(
            Header {
                name: String::from_str("Accept"),
                value: String::from_str("application/vnd.github.v3+json"),
            },
        );
        headers.push(Header { name: String::from_str("Authorization"), value: authorization });
        headers.push(
            Header { name: String::from_str("User-Agent"), value: String::from_str("lazyworkflows") },
        );
        let request = Request { method, url, headers };
        assert(request@.headers =~= request_headers(token@));
        Ok(request)
    }
}

/// Why a request brought no body back.
#[derive(Debug, PartialEq, Eq)]
pub enum TransportError {
    /// No answer came; the text says why.
    Connection(String),
    /// The answer had a status outside 200 to 299, and this body.
    Status(u16, String),
}

/// A `TransportError` as a mathematical value.
pub enum TransportFailure {
    Connection(Seq<char>),
    Status(int, Seq<char>),
}

impl View for TransportError {
    type V = TransportFailure;

    open spec fn view(&self) -> TransportFailure {
        match self {
            TransportError::Connection(why) => TransportFailure::Connection(why@),
            TransportError::Status(status, body) => TransportFailure::Status(*status as int, body@),
        }
    }
}

/// Whether a status reports success.
pub open spec fn is_success(status: int) -> bool {
    200 <= status <= 299
}

/// What an answer with this status and body counts as: the body where the
/// status reports success, else the failure that holds both.
pub fn reply_of(status: u16, body: String) -> (r: Result<String, TransportError>)
    ensures
        result_view(r) == if is_success(status as int) {
            Ok::<Seq<char>, TransportFailure>(body@)
        } else {
            Err::<Seq<char>, TransportFailure>(TransportFailure::Status(status as int, body@))
        },
{
    if 200 <= status && status <= 299 {
        Ok(body)
    } else {
        Err(TransportError::Status(status, body))
    }
}

/// The step at which the work for one repository failed, with what failed
/// there.
#[derive(Debug, PartialEq, Eq)]
pub enum FetchCause {
    Build(ConfigurationError),
    Transport(TransportError),
    Decode(DecodeError),
}

/// A `FetchCause` as a mathematical value.
pub enum FetchCauseView {
    Build(ConfigurationError),
    Transport(TransportFailure),
    Decode(DecodeFailure),
}

impl View for FetchCause {
    type V = FetchCauseView;

    open spec fn view(&self) -> FetchCauseView {
        match self {
            FetchCause::Build(missing) => FetchCauseView::Build(*missing),
            FetchCause::Transport(failure) => FetchCauseView::Transport(failure@),
            FetchCause::Decode(failure) => FetchCauseView::Decode(failure@),
        }
    }
}

/// The failure of the work for one repository.
#[derive(Debug, PartialEq, Eq)]
pub struct FetchError {
    pub owner: String,
    pub repo: String,
    pub cause: FetchCause,
}

/// A `FetchError` as a mathematical value.
pub struct FetchFailure {
    pub owner: Seq<char>,
    pub repo: Seq<char>,
    pub cause: FetchCauseView,
}

impl View for FetchError {
    type V = FetchFailure;

    open spec fn view(&self) -> FetchFailure {
        FetchFailure { owner: self.owner@, repo: self.repo@, cause: self.cause@ }
    }
}

impl FetchError {
    /// The failure of `cause` for the repository `cfg`.
    pub fn new(cfg: &config::Repo, cause: FetchCause) -> (r: FetchError)
        ensures
            r@ == (FetchFailure { owner: cfg.owner@, repo: cfg.repo@, cause: cause@ }),
    {
        FetchError { owner: cfg.owner.clone(), repo: cfg.repo.clone(), cause }
    }
}

/// What the answer to a request comes to for the repository `cfg`: a failed
/// transport is a failure at that step, and so is a body of another shape
/// than `shape` at the decoding; else it is the record that the body holds.
pub open spec fn completed<T>(
    cfg: Credential,
    shape: spec_fn(Json) -> Option<T>,
    reply: Result<Seq<char>, TransportFailure>,
) -> Result<T, FetchFailure> {
    match reply {
        Err(failure) => Err(
            FetchFailure {
                owner: cfg.owner,
                repo: cfg.repo,
                cause: FetchCauseView::Transport(failure),
            },
        ),
        Ok(body) => match decoded(body, shape) {
            Ok(record) => Ok(record),
            Err(failure) => Err(
                FetchFailure {
                    owner: cfg.owner,
                    repo: cfg.repo,
                    cause: FetchCauseView::Decode(failure),
                },
            ),
        },
    }
}

/// Finishes the listing of the workflows of `cfg` with the answer to its
/// request.
pub fn complete_list(cfg: &config::Repo, reply: Result<String, TransportError>) -> (r: Result<
    ListResponse,
    FetchError,
>)
    ensures
        result_view(r) == completed(cfg@, |tree: Json| list_of_json(tree), result_view(reply)),
{
    match reply {
        Err(failure) => Err(FetchError::new(cfg, FetchCause::Transport(failure))),
        Ok(body) => match ListResponse::serialize_from(body.as_str()) {
            Ok(list) => Ok(list),
            Err(failure) => Err(FetchError::new(cfg, FetchCause::Decode(failure))),
        },
    }
}

/// Finishes the request for one workflow of `cfg` with the answer to it.
pub fn complete_get(cfg: &config::Repo, reply: Result<String, TransportError>) -> (r: Result<
    GetResponse,
    FetchError,
>)
    ensures
        result_view(r) == completed(cfg@, |tree: Json| get_of_json(tree), result_view(reply)),
{
    match reply {
        Err(failure) => Err(FetchError::new(cfg, FetchCause::Transport(failure))),
        Ok(body) => match GetResponse::serialize_from(body.as_str()) {
            Ok(found) => Ok(found),
            Err(failure) => Err(FetchError::new(cfg, FetchCause::Decode(failure))),
        },
    }
}

/// Finishes the dispatch of a workflow of `cfg` with the answer to its
/// request.
pub fn complete_dispatch(cfg: &config::Repo, reply: Result<String, TransportError>) -> (r: Result<
    DispatchResponse,
    FetchError,
>)
    ensures
        result_view(r) == completed(cfg@, |tree: Json| status_of_json(tree), result_view(reply)),
{
    match reply {
        Err(failure) => Err(FetchError::new(cfg, FetchCause::Transport(failure))),
        Ok(body) => match DispatchResponse::serialize_from(body.as_str()) {
            Ok(done) => Ok(done),
            Err(failure) => Err(FetchError::new(cfg, FetchCause::Decode(failure))),
        },
    }
}

/// Finishes the enabling of a workflow of `cfg` with the answer to its
/// request.
pub fn complete_enable(cfg: &config::Repo, reply: Result<String, TransportError>) -> (r: Result<
    EnableResponse,
    FetchError,
>)
    ensures
        result_view(r) == completed(cfg@, |tree: Json| status_of_json(tree), result_view(reply)),
{
    match reply {
        Err(failure) => Err(FetchError::new(cfg, FetchCause::Transport(failure))),
        Ok(body) => match EnableResponse::serialize_from(body.as_str()) {
            Ok(done) => Ok(done),
            Err(failure) => Err(FetchError::new(cfg, FetchCause::Decode(failure))),
        },
    }
}

/// Finishes the disabling of a workflow of `cfg` with the answer to its
/// request.
pub fn complete_disable(cfg: &config::Repo, reply: Result<String, TransportError>) -> (r: Result<
    DisableResponse,
    FetchError,
>)
    ensures
        result_view(r) == completed(cfg@, |tree: Json| status_of_json(tree), result_view(reply)),
{
    match reply {
        Err(failure) => Err(FetchError::new(cfg, FetchCause::Transport(failure))),
        Ok(body) => match DisableResponse::serialize_from(body.as_str()) {
            Ok(done) => Ok(done),
            Err(failure) => Err(FetchError::new(cfg, FetchCause::Decode(failure))),
        },
    }
}

/// The parts of the request for `action` on the repository `cfg`.
pub open spec fn draft_for(cfg: Credential, action: Action, id: Option<Seq<char>>) -> Draft {
    Draft {
        action: Some(action),
        owner: Some(cfg.owner),
        repo: Some(cfg.repo),
        id,
        token: Some(cfg.token),
    }
}

/// The request for `action` on the repository `cfg`, where no part of it is
/// missing.
pub open spec fn request_for(cfg: Credential, action: Action, id: Option<Seq<char>>) -> RequestView {
    draft_for(cfg, action, id).built()->Ok_0
}

/// Whether `transport`, handed the request `wanted`, may have answered
/// `reply`.
pub open spec fn answered<T: Fn(&Request) -> Result<String, TransportError>>(
    transport: T,
    wanted: RequestView,
    reply: Result<String, TransportError>,
) -> bool {
    exists|request: Request| request@ == wanted && call_ensures(transport, (&request,), reply)
}

impl APIRequest {
    /// Builds the request and hands it to `transport`. With a part missing
    /// nothing is handed over.
    pub fn send<T: Fn(&Request) -> Result<String, TransportError>>(&self, transport: &T) -> (r:
        Result<Result<String, TransportError>, ConfigurationError>)
        requires
            forall|request: Request|
                self@.built() == Ok::<RequestView, ConfigurationError>(request@) ==> call_requires(
                    *transport,
                    (&request,),
                ),
        ensures
            match self@.built() {
                Err(missing) => r == Err::<Result<String, TransportError>, ConfigurationError>(
                    missing,
                ),
                Ok(wanted) => r matches Ok(reply) && answered(*transport, wanted, reply),
            },
    {
        let request = match self.build() {
            Ok(request) => request,
            Err(missing) => return Err(missing),
        };
        let reply = transport(&request);
        Ok(reply)
    }
}

/// Lists the workflows of the repository `cfg`: builds the request, hands it
/// to `transport` and decodes the answer.
pub fn list<T: Fn(&Request) -> Result<String, TransportError>>(cfg: &config::Repo, transport: &T) -> (r:
    Result<ListResponse, FetchError>)
    requires
        forall|request: Request|
            request@ == request_for(cfg@, Action::List, None) ==> call_requires(
                *transport,
                (&request,),
            ),
    ensures
        exists|reply: Result<String, TransportError>|
            answered(*transport, request_for(cfg@, Action::List, None), reply) && result_view(r)
                == completed(cfg@, |tree: Json| list_of_json(tree), result_view(reply)),
{
    let mut request = APIRequest::new();
    request.set_action(&Action::List).use_repo(cfg);
    match request.send(transport) {
        Ok(reply) => complete_list(cfg, reply),
        Err(missing) => Err(FetchError::new(cfg, FetchCause::Build(missing))),
    }
}

/// Asks for the workflow `id` of the repository `cfg`: builds the request,
/// hands it to `transport` and decodes the answer.
pub fn get<T: Fn(&Request) -> Result<String, TransportError>>(
    cfg: &config::Repo,
    id: &String,
    transport: &T,
) -> (r: Result<GetResponse, FetchError>)
    requires
        forall|request: Request|
            request@ == request_for(cfg@, Action::Get, Some(id@)) ==> call_requires(
                *transport,
                (&request,),
            ),
    ensures
        exists|reply: Result<String, TransportError>|
            answered(*transport, request_for(cfg@, Action::Get, Some(id@)), reply) && result_view(
                r,
            ) == completed(cfg@, |tree: Json| get_of_json(tree), result_view(reply)),
{
    let mut request = APIRequest::new();
    request.set_action(&Action::Get).use_repo(cfg).set_id(id);
    match request.send(transport) {
        Ok(reply) => complete_get(cfg, reply),
        Err(missing) => Err(FetchError::new(cfg, FetchCause::Build(missing))),
    }
}

/// Dispatches the workflow `id` of the repository `cfg`: builds the request,
/// hands it to `transport` and decodes the acknowledgement.
pub fn dispatch<T: Fn(&Request) -> Result<String, TransportError>>(
    cfg: &config::Repo,
    id: &String,
    transport: &T,
) -> (r: Result<DispatchResponse, FetchError>)
    requires
        forall|request: Request|
            request@ == request_for(cfg@, Action::Dispatch, Some(id@)) ==> call_requires(
                *transport,
                (&request,),
            ),
    ensures
        exists|reply: Result<String, TransportError>|
            answered(*transport, request_for(cfg@, Action::Dispatch, Some(id@)), reply)
                && result_view(r) == completed(
                cfg@,
                |tree: Json| status_of_json(tree),
                result_view(reply),
            ),
{
    let mut request = APIRequest::new();
    request.set_action(&Action::Dispatch).use_repo(cfg).set_id(id);
    match request.send(transport) {
        Ok(reply) => complete_dispatch(cfg, reply),
        Err(missing) => Err(FetchError::new(cfg, FetchCause::Build(missing))),
    }
}

/// Enables the workflow `id` of the repository `cfg`: builds the request,
/// hands it to `transport` and decodes the acknowledgement.
pub fn enable<T: Fn(&Request) -> Result<String, TransportError>>(
    cfg: &config::Repo,
    id: &String,
    transport: &T,
) -> (r: Result<EnableResponse, FetchError>)
    requires
        forall|request: Request|
            request@ == request_for(cfg@, Action::Enable, Some(id@)) ==> call_requires(
                *transport,
                (&request,),
            ),
    ensures
        exists|reply: Result<String, TransportError>|
            answered(*transport, request_for(cfg@, Action::Enable, Some(id@)), reply)
                && result_view(r) == completed(
                cfg@,
                |tree: Json| status_of_json(tree),
                result_view(reply),
            ),
{
    let mut request = APIRequest::new();
    request.set_action(&Action::Enable).use_repo(cfg).set_id(id);
    match request.send(transport) {
        Ok(reply) => complete_enable(cfg, reply),
        Err(missing) => Err(FetchError::new(cfg, FetchCause::Build(missing))),
    }
}

/// Disables the workflow `id` of the repository `cfg`: builds the request,
/// hands it to `transport` and decodes the acknowledgement.
pub fn disable<T: Fn(&Request) -> Result<String, TransportError>>(
    cfg: &config::Repo,
    id: &String,
    transport: &T,
) -> (r: Result<DisableResponse, FetchError>)
    requires
        forall|request: Request|
            request@ == request_for(cfg@, Action::Disable, Some(id@)) ==> call_requires(
                *transport,
                (&request,),
            ),
    ensures
        exists|reply: Result<String, TransportError>|
            answered(*transport, request_for(cfg@, Action::Disable, Some(id@)), reply)
                && result_view(r) == completed(
                cfg@,
                |tree: Json| status_of_json(tree),
                result_view(reply),
            ),
{
    let mut request = APIRequest::new();
    request.set_action(&Action::Disable).use_repo(cfg).set_id(id);
    match request.send(transport) {
        Ok(reply) => complete_disable(cfg, reply),
        Err(missing) => Err(FetchError::new(cfg, FetchCause::Build(missing))),
    }
}

/// What the API answered to a request, by the action that was requested.
#[derive(Debug, PartialEq, Eq)]
pub enum Response {
    List(ListResponse),
    Get(GetResponse),
    Dispatch(DispatchResponse),
    Enable(EnableResponse),
    Disable(DisableResponse),
}

/// A `Response` as a mathematical value.
pub enum ResponseView {
    List(ListRecord),
    Get(WorkflowRecord),
    Dispatch(int),
    Enable(int),
    Disable(int),
}

impl View for Response {
    type V = ResponseView;

    open spec fn view(&self) -> ResponseView {
        match self {
            Response::List(list) => ResponseView::List(list@),
            Response::Get(found) => ResponseView::Get(found@),
            Response::Dispatch(done) => ResponseView::Dispatch(done@),
            Response::Enable(done) => ResponseView::Enable(done@),
            Response::Disable(done) => ResponseView::Disable(done@),
        }
    }
}

/// What the answer to the request for `action` comes to for the repository
/// `cfg`: the record of the action's shape, or the failure at the transport
/// or at the decoding.
pub open spec fn completed_action(
    cfg: Credential,
    action: Action,
    reply: Result<Seq<char>, TransportFailure>,
) -> Result<ResponseView, FetchFailure> {
    match action {
        Action::List => match completed(cfg, |tree: Json| list_of_json(tree), reply) {
            Ok(list) => Ok(ResponseView::List(list)),
            Err(failure) => Err(failure),
        },
        Action::Get => match completed(cfg, |tree: Json| get_of_json(tree), reply) {
            Ok(found) => Ok(ResponseView::Get(found)),
            Err(failure) => Err(failure),
        },
        Action::Dispatch => match completed(cfg, |tree: Json| status_of_json(tree), reply) {
            Ok(status) => Ok(ResponseView::Dispatch(status)),
            Err(failure) => Err(failure),
        },
        Action::Enable => match completed(cfg, |tree: Json| status_of_json(tree), reply) {
            Ok(status) => Ok(ResponseView::Enable(status)),
            Err(failure) => Err(failure),
        },
        Action::Disable => match completed(cfg, |tree: Json| status_of_json(tree), reply) {
            Ok(status) => Ok(ResponseView::Disable(status)),
            Err(failure) => Err(failure),
        },
    }
}

/// The request for `action` on the repository `cfg`, or the failure of the
/// building where the action needs an id and `id` is none.
pub open spec fn prepared(cfg: Credential, action: Action, id: Option<Seq<char>>) -> Result<
    RequestView,
    FetchFailure,
> {
    match draft_for(cfg, action, id).built() {
        Ok(request) => Ok(request),
        Err(missing) => Err(
            FetchFailure { owner: cfg.owner, repo: cfg.repo, cause: FetchCauseView::Build(missing) },
        ),
    }
}

/// The first step of the work for one repository: builds the request for
/// `action`. Nothing is sent.
pub fn prepare(cfg: &config::Repo, action: Action, id: Option<&String>) -> (r: Result<
    Request,
    FetchError,
>)
    ensures
        result_view(r) == prepared(cfg@, action, option_view(id)),
{
    let mut request = APIRequest::new();
    request.set_action(&action).use_repo(cfg);
    if let Some(id) = id {
        request.set_id(id);
    }
    match request.build() {
        Ok(request) => Ok(request),
        Err(missing) => Err(FetchError::new(cfg, FetchCause::Build(missing))),
    }
}

/// The last step of the work for one repository: what the answer to the
/// request for `action` comes to.
pub fn complete(cfg: &config::Repo, action: Action, reply: Result<String, TransportError>) -> (r:
    Result<Response, FetchError>)
    ensures
        result_view(r) == completed_action(cfg@, action, result_view(reply)),
{
    match action {
        Action::List => match complete_list(cfg, reply) {
            Ok(list) => Ok(Response::List(list)),
            Err(failure) => Err(failure),
        },
        Action::Get => match complete_get(cfg, reply) {
            Ok(found) => Ok(Response::Get(found)),
            Err(failure) => Err(failure),
        },
        Action::Dispatch => match complete_dispatch(cfg, reply) {
            Ok(done) => Ok(Response::Dispatch(done)),
            Err(failure) => Err(failure),
        },
        Action::Enable => match complete_enable(cfg, reply) {
            Ok(done) => Ok(Response::Enable(done)),
            Err(failure) => Err(failure),
        },
        Action::Disable => match complete_disable(cfg, reply) {
            Ok(done) => Ok(Response::Disable(done)),
            Err(failure) => Err(failure),
        },
    }
}

/// The work for one repository from end to end: builds the request for
/// `action`, hands it to `transport` and decodes the answer. Where the
/// building fails nothing is handed over; every failure names the
/// repository and the step.
pub fn fetch<T: Fn(&Request) -> Result<String, TransportError>>(
    cfg: &config::Repo,
    action: Action,
    id: Option<&String>,
    transport: &T,
) -> (r: Result<Response, FetchError>)
    requires
        forall|request: Request|
            prepared(cfg@, action, option_view(id)) == Ok::<RequestView, FetchFailure>(request@)
                ==> call_requires(*transport, (&request,)),
    ensures
        match prepared(cfg@, action, option_view(id)) {
            Err(failure) => result_view(r) == Err::<ResponseView, FetchFailure>(failure),
            Ok(wanted) => exists|reply: Result<String, TransportError>|
                answered(*transport, wanted, reply) && result_view(r) == completed_action(
                    cfg@,
                    action,
                    result_view(reply),
                ),
        },
{
    let request = match prepare(cfg, action, id) {
        Ok(request) => request,
        Err(failure) => return Err(failure),
    };
    let reply = transport(&request);
    assert(answered(*transport, request@, reply));
    complete(cfg, action, reply)
}

/// A request is built exactly when the action, the owner, the repository
/// and the token are set, and the id too where the action is about one
/// workflow.
pub proof fn lemma_built_when_complete(draft: Draft)
    ensures
        draft.built() is Ok <==> draft.action is Some && draft.owner is Some && draft.repo is Some
            && draft.token is Some && (draft.action.unwrap().needs_id() ==> draft.id is Some),
{
}

/// Without an id, an action on one workflow is refused for the id where
/// nothing before it is missing; the list needs none.
pub proof fn lemma_id_is_needed_but_for_the_list(draft: Draft)
    requires
        draft.action is Some,
        draft.owner is Some,
        draft.repo is Some,
        draft.token is Some,
        draft.id is None,
    ensures
        draft.action.unwrap().needs_id() ==> draft.built() == Err::<
            RequestView,
            ConfigurationError,
        >(ConfigurationError::MissingId),
        draft.action == Some(Action::List) ==> draft.built() is Ok,
{
}

/// Every request that is built carries the three headers, with the token in
/// the second, and goes by the method of its action.
pub proof fn lemma_built_request(draft: Draft)
    requires
        draft.built() is Ok,
    ensures
        draft.built()->Ok_0.method == draft.action.unwrap().method(),
        draft.built()->Ok_0.headers.len() == 3,
        draft.built()->Ok_0.headers[0] == ("Accept"@, "application/vnd.github.v3+json"@),
        draft.built()->Ok_0.headers[1] == ("Authorization"@, "token "@ + draft.token.unwrap()),
        draft.built()->Ok_0.headers[2] == ("User-Agent"@, "lazyworkflows"@),
{
}

/// A failure of the work for a repository names that repository, and its
/// step is the transport exactly when no answer came.
pub proof fn lemma_failure_names_repository<T>(
    cfg: Credential,
    shape: spec_fn(Json) -> Option<T>,
    reply: Result<Seq<char>, TransportFailure>,
)
    ensures
        completed(cfg, shape, reply) matches Err(failure) ==> failure.owner == cfg.owner
            && failure.repo == cfg.repo && (failure.cause is Transport <==> reply is Err) && (
        failure.cause is Decode <==> reply is Ok) && !(failure.cause is Build),
{
}

} // verus!
