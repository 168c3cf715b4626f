//! The requests that the Feishu client makes, and what it does with the
//! answers.
//!
//! Every endpoint is a request plan: the method, the full URL and the body.
//! Sending the plan with the access token, and reading the answer, happen
//! outside the library; what was read of the answer comes back to
//! `response_result` (which takes `FeishuError::from_response` when the
//! status is not a success, and `ApiResponse::into_data` otherwise), and
//! then to the endpoint's own finishing step.

use vstd::prelude::*;

use crate::auth::token_store::TokenStoreError;
use crate::feishu::error::{
    body_error_matches, decided_by_status, status_error_matches, FeishuApiErrorResponse, FeishuError,
};
use crate::feishu::http::{is_success_status, status_is_success};
use crate::feishu::types::{ApiResponse, CreateDocumentRequest, CreateTaskRequest, Message, TaskStatus, UpdateDocumentRequest, UpdateTaskRequest};
use crate::text::{decimal_int, push_decimal_signed};

verus! {

/// The answer of the health endpoint.
#[derive(Debug, Clone)]
pub struct HealthResponse {
    pub status: String,
}

/// The HTTP methods the client uses.
#[derive(Debug, Clone, Copy, PartialEq, Eq, Structural)]
pub enum HttpMethod {
    Get,
    Post,
    Put,
    Patch,
}

/// The body of a document search.
#[derive(Debug, Clone)]
pub struct SearchDocumentsBody {
    pub search_key: String,
    pub count: Option<i32>,
}

/// The body of a message sent to a chat.
#[derive(Debug, Clone)]
pub struct SendMessageBody {
    pub receive_id: String,
    pub content: String,
    pub msg_type: String,
}

/// The body of a message search.
#[derive(Debug, Clone)]
pub struct SearchMessagesBody {
    pub query: String,
    pub chat_ids: Option<Vec<String>>,
}

/// The JSON body of a request.
#[derive(Debug, Clone)]
pub enum RequestBody {
    SearchDocuments(SearchDocumentsBody),
    CreateDocument(CreateDocumentRequest),
    UpdateDocument(UpdateDocumentRequest),
    CreateTask(CreateTaskRequest),
    UpdateTaskStatus(UpdateTaskRequest),
    /// The unit value, which JSON renders as `null`.
    Unit,
    SendMessage(SendMessageBody),
    SearchMessages(SearchMessagesBody),
}

/// A request to send: method, full URL, the body (none for `GET`), and the
/// `Authorization` and `Content-Type` headers (none until it is
/// authorized).
#[derive(Debug, Clone)]
pub struct ApiRequest {
    pub method: HttpMethod,
    pub url: String,
    pub body: Option<RequestBody>,
    pub authorization: Option<String>,
    pub content_type: Option<String>,
}

impl ApiRequest {
    /// Whether the request carries no headers yet.
    pub open spec fn unauthorized(&self) -> bool {
        self.authorization is None && self.content_type is None
    }
}

pub open spec fn opt_str(o: Option<&str>) -> Option<Seq<char>> {
    match o {
        Some(s) => Some(s@),
        None => None,
    }
}

pub open spec fn opt_string(o: Option<String>) -> Option<Seq<char>> {
    match o {
        Some(s) => Some(s@),
        None => None,
    }
}

fn to_owned_opt(o: Option<&str>) -> (r: Option<String>)
    ensures
        opt_string(r) == opt_str(o),
{
    match o {
        Some(s) => Some(s.to_owned()),
        None => None,
    }
}

/// Whether a path is already a full URL (it starts with `http`).
pub open spec fn is_full_url(path: Seq<char>) -> bool {
    path.len() >= 4 && path.subrange(0, 4) == "http"@
}

/// The URL of `path` against `base`: `path` itself when it is a full URL,
/// else `base` followed by `path`.
pub open spec fn full_url(base: Seq<char>, path: Seq<char>) -> Seq<char> {
    if is_full_url(path) {
        path
    } else {
        base + path
    }
}

/// The path of the document list: the folder's files when a folder is
/// given, with a page size when one is given.
pub open spec fn list_documents_path(folder_token: Option<Seq<char>>, page_size: Option<i32>) -> Seq<char> {
    let base = "/drive/v1/files"@;
    let with_folder = match folder_token {
        Some(t) => base + "/folders/"@ + t,
        None => base,
    };
    match page_size {
        Some(n) => with_folder + "?page_size="@ + decimal_int(n as int),
        None => with_folder,
    }
}

/// The path of the task list, filtered by goal when one is given.
pub open spec fn list_tasks_path(goal_id: Option<Seq<char>>) -> Seq<char> {
    match goal_id {
        Some(g) => "/task/v2/tasks"@ + "?goal_id="@ + g,
        None => "/task/v2/tasks"@,
    }
}

/// The path of a chat's messages, with a page size when one is given.
pub open spec fn messages_path(chat_id: Seq<char>, limit: Option<i32>) -> Seq<char> {
    let base = "/im/v1/messages?container_id_type=chat&container_id="@ + chat_id;
    match limit {
        Some(l) => base + "&page_size="@ + decimal_int(l as int),
        None => base,
    }
}

/// What the client does with the token store's answer: the stored token,
/// `TokenExpired` when there is none (or it expired), and an internal error
/// when the store failed.
pub open spec fn token_result_matches(
    loaded: Result<Option<(String, u64)>, TokenStoreError>,
    result: Result<String, FeishuError>,
) -> bool {
    match loaded {
        Ok(Some((token, _))) => result matches Ok(t) && t@ == token@,
        Ok(None) => result matches Err(e) && e is TokenExpired,
        Err(_) => result matches Err(e) && e is InternalError,
    }
}

/// The Feishu API client: where the API lives and which application calls it.
#[derive(Debug, Clone)]
pub struct FeishuClient {
    base_url: String,
    app_id: String,
}

impl FeishuClient {
    pub closed spec fn base(&self) -> Seq<char> {
        self.base_url@
    }

    pub closed spec fn app(&self) -> Seq<char> {
        self.app_id@
    }

    /// A client for the API at `base_url`, acting for application `app_id`.
    pub fn new(base_url: String, app_id: String) -> (client: FeishuClient)
        ensures
            client.base() == base_url@,
            client.app() == app_id@,
    {
        FeishuClient { base_url, app_id }
    }

    /// The base URL.
    pub fn base_url(&self) -> (url: &str)
        ensures
            url@ == self.base(),
    {
        self.base_url.as_str()
    }

    /// The application id.
    pub fn app_id(&self) -> (id: &str)
        ensures
            id@ == self.app(),
    {
        self.app_id.as_str()
    }

    /// The token to send, from what the token store answered.
    pub fn token_from_store(loaded: Result<Option<(String, u64)>, TokenStoreError>) -> (result: Result<String, FeishuError>)
        ensures
            token_result_matches(loaded, result),
            loaded matches Err(e) ==> (result matches Err(FeishuError::InternalError(m)) && m@
                == "Failed to load token: "@ + e.to_string_spec()),
    {
        match loaded {
            Ok(Some((token, _))) => Ok(token),
            Ok(None) => Err(FeishuError::TokenExpired),
            Err(e) => {
                let mut msg = "Failed to load token: ".to_owned();
                let text = e.to_string();
                msg.append(text.as_str());
                Err(FeishuError::InternalError(msg))
            },
        }
    }

    /// The full URL of `path`.
    pub fn build_url(&self, path: &str) -> (url: String)
        ensures
            url@ == full_url(self.base(), path@),
    {
        proof {
            reveal_strlit("http");
        }
        let len = path.unicode_len();
        if len >= 4 && path.get_char(0) == 'h' && path.get_char(1) == 't' && path.get_char(2) == 't'
            && path.get_char(3) == 'p' {
            assert(path@.subrange(0, 4) =~= "http"@);
            path.to_owned()
        } else {
            proof {
                if len >= 4 {
                    if path@.subrange(0, 4) == "http"@ {
                        assert(path@[0] == path@.subrange(0, 4)[0]);
                        assert(path@[1] == path@.subrange(0, 4)[1]);
                        assert(path@[2] == path@.subrange(0, 4)[2]);
                        assert(path@[3] == path@.subrange(0, 4)[3]);
                    }
                }
            }
            self.base_url.clone().concat(path)
        }
    }

    fn plan(&self, method: HttpMethod, path: &str, body: Option<RequestBody>) -> (req: ApiRequest)
        ensures
            req.method == method,
            req.url@ == full_url(self.base(), path@),
            req.body == body,
            req.unauthorized(),
    {
        ApiRequest { method, url: self.build_url(path), body, authorization: None, content_type: None }
    }

    /// `req` made ready to send with what the token store answered: with
    /// `Authorization: Bearer <token>` and `Content-Type: application/json`
    /// when a token is stored; else the error of `token_from_store`.
    pub fn authorize(req: ApiRequest, loaded: Result<Option<(String, u64)>, TokenStoreError>) -> (result: Result<
        ApiRequest,
        FeishuError,
    >)
        ensures
            loaded matches Ok(Some((token, _))) ==> (result matches Ok(r) && r.method == req.method && r.url
                == req.url && r.body == req.body && opt_string(r.authorization) == Some("Bearer "@ + token@)
                && opt_string(r.content_type) == Some("application/json"@)),
            loaded matches Ok(None) ==> (result matches Err(e) && e is TokenExpired),
            loaded matches Err(e) ==> (result matches Err(FeishuError::InternalError(m)) && m@
                == "Failed to load token: "@ + e.to_string_spec()),
    {
        let token = match FeishuClient::token_from_store(loaded) {
            Ok(t) => t,
            Err(e) => return Err(e),
        };
        let authorization = "Bearer ".to_owned().concat(token.as_str());
        Ok(ApiRequest {
            method: req.method,
            url: req.url,
            body: req.body,
            authorization: Some(authorization),
            content_type: Some("application/json".to_owned()),
        })
    }

    /// The URL of the health endpoint (requested without a token).
    pub fn health_check_url(&self) -> (url: String)
        ensures
            url@ == self.base() + "/health"@,
    {
        self.base_url.clone().concat("/health")
    }

    /// Searches documents: `POST /doc/v2/search` with the query and the
    /// optional result count.
    pub fn search_documents_request(&self, query: &str, limit: Option<i32>) -> (req: ApiRequest)
        ensures
            req.method == HttpMethod::Post,
            req.unauthorized(),
            req.url@ == full_url(self.base(), "/doc/v2/search"@),
            req.body matches Some(RequestBody::SearchDocuments(b)) && b.search_key@ == query@ && b.count == limit,
    {
        let body = SearchDocumentsBody { search_key: query.to_owned(), count: limit };
        self.plan(HttpMethod::Post, "/doc/v2/search", Some(RequestBody::SearchDocuments(body)))
    }

    /// Reads a document: `GET /doc/v2/{doc_id}`.
    pub fn get_document_request(&self, doc_id: &str) -> (req: ApiRequest)
        ensures
            req.method == HttpMethod::Get,
            req.unauthorized(),
            req.url@ == full_url(self.base(), "/doc/v2/"@ + doc_id@),
            req.body is None,
    {
        let path = "/doc/v2/".to_owned().concat(doc_id);
        self.plan(HttpMethod::Get, path.as_str(), None)
    }

    /// Creates a document: `POST /doc/v2` with its title, content and
    /// parent folder.
    pub fn create_document_request(&self, title: &str, content: Option<&str>, parent_token: Option<&str>) -> (req: ApiRequest)
        ensures
            req.method == HttpMethod::Post,
            req.unauthorized(),
            req.url@ == full_url(self.base(), "/doc/v2"@),
            req.body matches Some(RequestBody::CreateDocument(b)) && b.title@ == title@ && opt_string(b.content)
                == opt_str(content) && opt_string(b.parent_token) == opt_str(parent_token),
    {
        let body = CreateDocumentRequest {
            title: title.to_owned(),
            content: to_owned_opt(content),
            parent_token: to_owned_opt(parent_token),
        };
        self.plan(HttpMethod::Post, "/doc/v2", Some(RequestBody::CreateDocument(body)))
    }

    /// Replaces a document's content: `PUT /doc/v2/{doc_id}`.
    pub fn update_document_request(&self, doc_id: &str, content: &str) -> (req: ApiRequest)
        ensures
            req.method == HttpMethod::Put,
            req.unauthorized(),
            req.url@ == full_url(self.base(), "/doc/v2/"@ + doc_id@),
            req.body matches Some(RequestBody::UpdateDocument(b)) && b.content@ == content@,
    {
        let path = "/doc/v2/".to_owned().concat(doc_id);
        let body = UpdateDocumentRequest { content: content.to_owned() };
        self.plan(HttpMethod::Put, path.as_str(), Some(RequestBody::UpdateDocument(body)))
    }

    /// Lists documents: `GET /drive/v1/files`, in a folder and with a page
    /// size when given.
    pub fn list_documents_request(&self, folder_token: Option<&str>, page_size: Option<i32>) -> (req: ApiRequest)
        ensures
            req.method == HttpMethod::Get,
            req.unauthorized(),
            req.url@ == full_url(self.base(), list_documents_path(opt_str(folder_token), page_size)),
            req.body is None,
    {
        let mut path = "/drive/v1/files".to_owned();
        if let Some(token) = folder_token {
            path.append("/folders/");
            path.append(token);
        }
        if let Some(size) = page_size {
            path.append("?page_size=");
            push_decimal_signed(&mut path, size as i64);
        }
        assert(path@ =~= list_documents_path(opt_str(folder_token), page_size));
        self.plan(HttpMethod::Get, path.as_str(), None)
    }

    /// Lists tasks: `GET /task/v2/tasks`, filtered by goal when given.
    pub fn list_tasks_request(&self, goal_id: Option<&str>) -> (req: ApiRequest)
        ensures
            req.method == HttpMethod::Get,
            req.unauthorized(),
            req.url@ == full_url(self.base(), list_tasks_path(opt_str(goal_id))),
            req.body is None,
    {
        let mut path = "/task/v2/tasks".to_owned();
        if let Some(id) = goal_id {
            path.append("?goal_id=");
            path.append(id);
        }
        assert(path@ =~= list_tasks_path(opt_str(goal_id)));
        self.plan(HttpMethod::Get, path.as_str(), None)
    }

    /// Reads a task: `GET /task/v2/tasks/{task_id}`.
    pub fn get_task_request(&self, task_id: &str) -> (req: ApiRequest)
        ensures
            req.method == HttpMethod::Get,
            req.unauthorized(),
            req.url@ == full_url(self.base(), "/task/v2/tasks/"@ + task_id@),
            req.body is None,
    {
        let path = "/task/v2/tasks/".to_owned().concat(task_id);
        self.plan(HttpMethod::Get, path.as_str(), None)
    }

    /// Creates a task: `POST /task/v2/tasks`.
    pub fn create_task_request(
        &self,
        title: &str,
        description: Option<&str>,
        assignee_id: Option<&str>,
        due_date: Option<&str>,
        goal_id: Option<&str>,
    ) -> (req: ApiRequest)
        ensures
            req.method == HttpMethod::Post,
            req.unauthorized(),
            req.url@ == full_url(self.base(), "/task/v2/tasks"@),
            req.body matches Some(RequestBody::CreateTask(b)) && b.title@ == title@ && opt_string(b.description)
                == opt_str(description) && opt_string(b.assignee_id) == opt_str(assignee_id) && opt_string(
                b.due_date,
            ) == opt_str(due_date) && opt_string(b.goal_id) == opt_str(goal_id),
    {
        let body = CreateTaskRequest {
            title: title.to_owned(),
            description: to_owned_opt(description),
            assignee_id: to_owned_opt(assignee_id),
            due_date: to_owned_opt(due_date),
            goal_id: to_owned_opt(goal_id),
        };
        self.plan(HttpMethod::Post, "/task/v2/tasks", Some(RequestBody::CreateTask(body)))
    }

    /// Changes a task's status: `PATCH /task/v2/tasks/{task_id}`.
    pub fn update_task_status_request(&self, task_id: &str, status: TaskStatus) -> (req: ApiRequest)
        ensures
            req.method == HttpMethod::Patch,
            req.unauthorized(),
            req.url@ == full_url(self.base(), "/task/v2/tasks/"@ + task_id@),
            req.body matches Some(RequestBody::UpdateTaskStatus(b)) && b.status == status,
    {
        let path = "/task/v2/tasks/".to_owned().concat(task_id);
        self.plan(HttpMethod::Patch, path.as_str(), Some(RequestBody::UpdateTaskStatus(UpdateTaskRequest { status })))
    }

    /// Completes a task: `POST /task/v2/tasks/{task_id}/complete` with a
    /// `null` body.
    pub fn complete_task_request(&self, task_id: &str) -> (req: ApiRequest)
        ensures
            req.method == HttpMethod::Post,
            req.unauthorized(),
            req.url@ == full_url(self.base(), "/task/v2/tasks/"@ + task_id@ + "/complete"@),
            req.body matches Some(RequestBody::Unit),
    {
        let path = "/task/v2/tasks/".to_owned().concat(task_id).concat("/complete");
        self.plan(HttpMethod::Post, path.as_str(), Some(RequestBody::Unit))
    }

    /// Sends a message to a chat:
    /// `POST /im/v1/messages?receive_id_type=chat_id`.
    pub fn send_message_request(&self, chat_id: &str, content: &str, msg_type: &str) -> (req: ApiRequest)
        ensures
            req.method == HttpMethod::Post,
            req.unauthorized(),
            req.url@ == full_url(self.base(), "/im/v1/messages?receive_id_type=chat_id"@),
            req.body matches Some(RequestBody::SendMessage(b)) && b.receive_id@ == chat_id@ && b.content@
                == content@ && b.msg_type@ == msg_type@,
    {
        let body = SendMessageBody {
            receive_id: chat_id.to_owned(),
            content: content.to_owned(),
            msg_type: msg_type.to_owned(),
        };
        self.plan(HttpMethod::Post, "/im/v1/messages?receive_id_type=chat_id", Some(RequestBody::SendMessage(body)))
    }

    /// Reads a chat's messages: `GET /im/v1/messages` for the chat, with a
    /// page size when given.
    pub fn get_messages_request(&self, chat_id: &str, limit: Option<i32>) -> (req: ApiRequest)
        ensures
            req.method == HttpMethod::Get,
            req.unauthorized(),
            req.url@ == full_url(self.base(), messages_path(chat_id@, limit)),
            req.body is None,
    {
        let mut path = "/im/v1/messages?container_id_type=chat&container_id=".to_owned();
        path.append(chat_id);
        if let Some(l) = limit {
            path.append("&page_size=");
            push_decimal_signed(&mut path, l as i64);
        }
        assert(path@ =~= messages_path(chat_id@, limit));
        self.plan(HttpMethod::Get, path.as_str(), None)
    }

    /// Searches messages: `POST /search/v1/messages`, within one chat when
    /// given.
    pub fn search_messages_request(&self, query: &str, chat_id: Option<&str>) -> (req: ApiRequest)
        ensures
            req.method == HttpMethod::Post,
            req.unauthorized(),
            req.url@ == full_url(self.base(), "/search/v1/messages"@),
            req.body matches Some(RequestBody::SearchMessages(b)) && b.query@ == query@ && match chat_id {
                Some(c) => b.chat_ids matches Some(ids) && ids@.len() == 1 && ids@[0]@ == c@,
                None => b.chat_ids is None,
            },
    {
        let chat_ids = match chat_id {
            Some(c) => {
                let mut ids: Vec<String> = Vec::new();
                ids.push(c.to_owned());
                Some(ids)
            },
            None => None,
        };
        let body = SearchMessagesBody { query: query.to_owned(), chat_ids };
        self.plan(HttpMethod::Post, "/search/v1/messages", Some(RequestBody::SearchMessages(body)))
    }
}

/// The items of a list answer, or none when the answer has no list.
pub fn items_or_empty<T>(items: Option<Vec<T>>) -> (v: Vec<T>)
    ensures
        match items {
            Some(i) => v@ == i@,
            None => v@.len() == 0,
        },
{
    match items {
        Some(i) => i,
        None => Vec::new(),
    }
}

/// The message of a send answer; an answer without one is an `ApiError`
/// with code -1.
pub fn sent_message(message: Option<Message>) -> (result: Result<Message, FeishuError>)
    ensures
        message is Some ==> result == Ok::<Message, FeishuError>(message->0),
        message is None ==> (result matches Err(FeishuError::ApiError { code, msg }) && code == -1 && msg@
            == "No message in response"@),
{
    match message {
        Some(m) => Ok(m),
        None => Err(FeishuError::ApiError { code: -1, msg: "No message in response".to_owned() }),
    }
}

/// What a request returns, from its answer: the HTTP `status`, the
/// `retry-after` header, what the body decodes to as an error envelope
/// (`error_body`, `None` when it does not decode), and what it decodes to as
/// an API envelope (`answer`, or the error met while reading it).  A status
/// outside 200..=299 gives the error of `FeishuError::from_response`;
/// otherwise the answer's error, or its data as `into_data` takes it.
pub fn response_result<T>(
    status: u16,
    retry_after: Option<&str>,
    error_body: Option<FeishuApiErrorResponse>,
    answer: Result<ApiResponse<T>, FeishuError>,
) -> (result: Result<T, FeishuError>)
    ensures
        !is_success_status(status) ==> (result matches Err(e) && (decided_by_status(status)
            ==> status_error_matches(status, opt_str(retry_after), e)) && (!decided_by_status(status)
            ==> body_error_matches(status, error_body, e))),
        is_success_status(status) ==> match answer {
            Err(e) => result matches Err(r) && r == e,
            Ok(a) => if a.code != 0 {
                result matches Err(FeishuError::ApiError { code, msg }) && code == a.code && msg@ == a.msg@
            } else {
                match a.data {
                    Some(d) => result matches Ok(r) && r == d,
                    None => result matches Err(FeishuError::ApiError { code, msg }) && code == -1 && msg@
                        == "No data in response"@,
                }
            },
        },
{
    if !status_is_success(status) {
        return Err(FeishuError::from_response(status, retry_after, error_body));
    }
    match answer {
        Ok(a) => a.into_data(),
        Err(e) => Err(e),
    }
}

} // verus!
