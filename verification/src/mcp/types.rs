//! The arguments of the tools.

use vstd::prelude::*;

verus! {

// Document tools

/// Arguments of `search_documents`.
#[derive(Debug, Clone)]
pub struct SearchDocumentsInput {
    /// The search query.
    pub query: String,
    /// The most results to return.
    pub limit: Option<u32>,
}

/// Arguments of `get_document`.
#[derive(Debug, Clone)]
pub struct GetDocumentInput {
    /// The document to read.
    pub doc_id: String,
}

/// Arguments of `create_document`.
#[derive(Debug, Clone)]
pub struct CreateDocumentInput {
    /// The new document's title.
    pub title: String,
    /// Its initial content.
    pub content: Option<String>,
    /// The folder to create it in.
    pub parent_token: Option<String>,
}

/// Arguments of `update_document`.
#[derive(Debug, Clone)]
pub struct UpdateDocumentInput {
    /// The document to change.
    pub doc_id: String,
    /// Its new content.
    pub content: String,
}

/// Arguments of `list_documents`.
#[derive(Debug, Clone)]
pub struct ListDocumentsInput {
    /// The folder to list.
    pub folder_token: String,
    /// The most documents per page.
    pub page_size: Option<u32>,
}

// Task tools

/// Arguments of `list_tasks`.
#[derive(Debug, Clone)]
pub struct ListTasksInput {
    /// The goal whose tasks to list.
    pub goal_id: String,
}

/// Arguments of `get_task`.
#[derive(Debug, Clone)]
pub struct GetTaskInput {
    /// The task to read.
    pub task_id: String,
}

/// Arguments of `create_task`.
#[derive(Debug, Clone)]
pub struct CreateTaskInput {
    /// The goal the task belongs to.
    pub goal_id: String,
    /// The task's title.
    pub title: String,
    /// The user to assign it to.
    pub assignee_id: Option<String>,
    /// Its due date (ISO 8601).
    pub due_date: Option<String>,
}

/// Arguments of `update_task_status`.
#[derive(Debug, Clone)]
pub struct UpdateTaskStatusInput {
    /// The task to change.
    pub task_id: String,
    /// The new status: `todo`, `in_progress` or `done`.
    pub status: String,
}

/// Arguments of `complete_task`.
#[derive(Debug, Clone)]
pub struct CompleteTaskInput {
    /// The task to complete.
    pub task_id: String,
}

// Message tools

/// Arguments of `send_message`.
#[derive(Debug, Clone)]
pub struct SendMessageInput {
    /// The chat to send to.
    pub chat_id: String,
    /// The message.
    pub content: String,
    /// Its type (`text` when absent).
    pub msg_type: Option<String>,
}

/// Arguments of `get_messages`.
#[derive(Debug, Clone)]
pub struct GetMessagesInput {
    /// The chat to read.
    pub chat_id: String,
    /// The most messages to return.
    pub limit: Option<u32>,
}

/// Arguments of `search_messages`.
#[derive(Debug, Clone)]
pub struct SearchMessagesInput {
    /// The search query.
    pub query: String,
    /// The chat to search in.
    pub chat_id: Option<String>,
}

} // verus!
