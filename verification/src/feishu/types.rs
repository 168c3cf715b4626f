//! The data that the Feishu open API exchanges.

use vstd::prelude::*;

use crate::feishu::error::FeishuError;

verus! {

/// An instant in UTC: whole seconds since the Unix epoch and the
/// nanoseconds within that second.
#[derive(Debug, Clone, Copy, PartialEq, Eq, Structural)]
pub struct UtcTime {
    pub secs: i64,
    pub nanos: u32,
}

/// A Feishu cloud document.
#[derive(Debug, Clone)]
pub struct Document {
    pub doc_id: String,
    pub title: String,
    pub content: Option<String>,
    pub created_time: Option<UtcTime>,
    pub updated_time: Option<UtcTime>,
    pub owner_id: Option<String>,
    pub parent_token: Option<String>,
}

/// The state of a task.
#[derive(Debug, Clone, Copy, PartialEq, Eq, Structural)]
pub enum TaskStatus {
    Todo,
    InProgress,
    Done,
}

impl Default for TaskStatus {
    fn default() -> (status: TaskStatus)
        ensures
            status == TaskStatus::Todo,
    {
        TaskStatus::Todo
    }
}

/// A Feishu task.
#[derive(Debug, Clone)]
pub struct Task {
    pub task_id: Option<String>,
    pub guid: Option<String>,
    pub title: String,
    pub description: Option<String>,
    pub status: Option<TaskStatus>,
    pub assignee_id: Option<String>,
    pub due_date: Option<String>,
    pub goal_id: Option<String>,
    pub created_at: Option<UtcTime>,
    pub updated_at: Option<UtcTime>,
}

/// A message in a chat.
#[derive(Debug, Clone)]
pub struct Message {
    pub message_id: String,
    pub chat_id: String,
    pub content: String,
    pub msg_type: String,
    pub sender_id: Option<String>,
    pub created_time: Option<i64>,
}

/// The envelope of every answer: a code (0 on success), a message, and the
/// data when there is any.
#[derive(Debug, Clone)]
pub struct ApiResponse<T> {
    pub code: i32,
    pub msg: String,
    pub data: Option<T>,
}

impl<T> ApiResponse<T> {
    /// Whether the answer reports success.
    pub fn is_success(&self) -> (ok: bool)
        ensures
            ok == (self.code == 0),
    {
        self.code == 0
    }

    /// The data of a successful answer.  A non-zero code is an `ApiError`
    /// with that code and message; a successful answer without data is an
    /// `ApiError` with code -1.
    pub fn into_data(self) -> (result: Result<T, FeishuError>)
        ensures
            self.code != 0 ==> (result matches Err(FeishuError::ApiError { code, msg }) && code == self.code
                && msg@ == self.msg@),
            self.code == 0 && self.data is None ==> (result matches Err(FeishuError::ApiError { code, msg })
                && code == -1 && msg@ == "No data in response"@),
            self.code == 0 && self.data is Some ==> result == Ok::<T, FeishuError>(self.data->0),
    {
        if self.code != 0 {
            return Err(FeishuError::ApiError { code: self.code, msg: self.msg });
        }
        match self.data {
            Some(data) => Ok(data),
            None => Err(FeishuError::ApiError { code: -1, msg: "No data in response".to_owned() }),
        }
    }
}

/// The body of a request that creates a document.
#[derive(Debug, Clone)]
pub struct CreateDocumentRequest {
    pub title: String,
    pub content: Option<String>,
    pub parent_token: Option<String>,
}

/// The body of a request that replaces a document's content.
#[derive(Debug, Clone)]
pub struct UpdateDocumentRequest {
    pub content: String,
}

/// The body of a request that creates a task.
#[derive(Debug, Clone)]
pub struct CreateTaskRequest {
    pub title: String,
    pub description: Option<String>,
    pub assignee_id: Option<String>,
    pub due_date: Option<String>,
    pub goal_id: Option<String>,
}

/// The body of a request that changes a task's status.
#[derive(Debug, Clone)]
pub struct UpdateTaskRequest {
    pub status: TaskStatus,
}

/// The body of a request that sends a message.
#[derive(Debug, Clone)]
pub struct SendMessageRequest {
    pub content: String,
    pub msg_type: String,
}

} // verus!
