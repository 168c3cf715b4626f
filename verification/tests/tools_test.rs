use feishu_mcp::feishu::client::{FeishuClient, HttpMethod, RequestBody};
use feishu_mcp::feishu::error::FeishuError;
use feishu_mcp::feishu::types::{Document, Message, Task, TaskStatus};
use feishu_mcp::tools::documents::{
    list_documents_request, list_documents_response, search_documents_request, search_documents_response,
};
use feishu_mcp::tools::messages::{
    get_messages_request, send_message_request, GetMessagesResponse, SearchMessagesResponse, SendMessageResponse,
};
use feishu_mcp::tools::tasks::{
    create_task_request, parse_task_status, update_task_status_request, ListTasksResponse,
};

fn client() -> FeishuClient {
    FeishuClient::new("http://mock".to_string(), "test-app-id".to_string())
}

fn task(id: &str, title: &str, status: TaskStatus, goal: Option<&str>) -> Task {
    Task {
        task_id: Some(id.to_string()),
        guid: None,
        title: title.to_string(),
        description: None,
        status: Some(status),
        assignee_id: None,
        due_date: None,
        goal_id: goal.map(|g| g.to_string()),
        created_at: None,
        updated_at: None,
    }
}

#[test]
fn test_task_status_parsing() {
    let status_todo = TaskStatus::Todo;
    let status_in_progress = TaskStatus::InProgress;
    let status_done = TaskStatus::Done;

    assert!(matches!(status_todo, TaskStatus::Todo));
    assert!(matches!(status_in_progress, TaskStatus::InProgress));
    assert!(matches!(status_done, TaskStatus::Done));
}

#[test]
fn test_list_tasks_response_from_vec() {
    let tasks = vec![
        task("task1", "Task 1", TaskStatus::Todo, Some("goal1")),
        task("task2", "Task 2", TaskStatus::Done, Some("goal1")),
    ];

    let response = ListTasksResponse::from(tasks);
    assert_eq!(response.tasks.len(), 2);
    assert_eq!(response.tasks[0].title, "Task 1");
    assert_eq!(response.tasks[1].title, "Task 2");
    assert!(response.total.is_none());
}

#[test]
fn test_list_tasks_response_empty() {
    let tasks: Vec<Task> = vec![];
    let response = ListTasksResponse::from(tasks);
    assert!(response.tasks.is_empty());
}

#[test]
fn status_names() {
    assert_eq!(parse_task_status("todo").unwrap(), TaskStatus::Todo);
    assert_eq!(parse_task_status("in_progress").unwrap(), TaskStatus::InProgress);
    assert_eq!(parse_task_status("done").unwrap(), TaskStatus::Done);
    match parse_task_status("invalid_status") {
        Err(e @ FeishuError::ApiError { .. }) => assert_eq!(
            e.to_string(),
            "API error: 400 - Invalid status: invalid_status. Expected 'todo', 'in_progress', or 'done'"
        ),
        other => panic!("unexpected {:?}", other),
    }
    assert_eq!(TaskStatus::default(), TaskStatus::Todo);
}

#[test]
fn task_tool_requests() {
    let c = client();
    assert!(update_task_status_request(&c, "t", "paused").is_err());
    let r = update_task_status_request(&c, "t", "in_progress").unwrap();
    assert_eq!(r.method, HttpMethod::Patch);
    assert!(matches!(r.body, Some(RequestBody::UpdateTaskStatus(b)) if b.status == TaskStatus::InProgress));
    match create_task_request(&c, "goal_xyz", "Test Task", Some("user_abc"), None).body {
        Some(RequestBody::CreateTask(b)) => {
            assert_eq!(b.title, "Test Task");
            assert_eq!(b.description, None);
            assert_eq!(b.assignee_id.as_deref(), Some("user_abc"));
            assert_eq!(b.due_date, None);
            assert_eq!(b.goal_id.as_deref(), Some("goal_xyz"));
        }
        other => panic!("unexpected {:?}", other),
    }
}

#[test]
fn document_tool_requests() {
    let c = client();
    assert_eq!(list_documents_request(&c, "folder123", None).url, "http://mock/drive/v1/files/folders/folder123");
    assert_eq!(
        list_documents_request(&c, "folder123", Some(5)).url,
        "http://mock/drive/v1/files/folders/folder123?page_size=5"
    );
    match search_documents_request(&c, "q", Some(3_000_000_000)).body {
        Some(RequestBody::SearchDocuments(b)) => assert_eq!(b.count, Some(3_000_000_000u32 as i32)),
        other => panic!("unexpected {:?}", other),
    }
    let doc = Document {
        doc_id: "doc123".into(),
        title: "Test Document".into(),
        content: None,
        created_time: None,
        updated_time: None,
        owner_id: None,
        parent_token: None,
    };
    assert_eq!(search_documents_response(vec![doc.clone()]).items.unwrap()[0].doc_id, "doc123");
    assert!(list_documents_response(vec![]).files.unwrap().is_empty());
}

#[test]
fn message_tool_requests_and_answers() {
    let c = client();
    match send_message_request(&c, "test_chat_id", "Hello World", None).body {
        Some(RequestBody::SendMessage(b)) => assert_eq!(b.msg_type, "text"),
        other => panic!("unexpected {:?}", other),
    }
    match send_message_request(&c, "test_chat_id", "Hello World", Some("post")).body {
        Some(RequestBody::SendMessage(b)) => assert_eq!(b.msg_type, "post"),
        other => panic!("unexpected {:?}", other),
    }
    assert_eq!(
        get_messages_request(&c, "test_chat_id", Some(10)).url,
        "http://mock/im/v1/messages?container_id_type=chat&container_id=test_chat_id&page_size=10"
    );
    let message = Message {
        message_id: "msg_123".to_string(),
        chat_id: "chat_456".to_string(),
        content: "test content".to_string(),
        msg_type: "text".to_string(),
        sender_id: Some("user_789".to_string()),
        created_time: Some(1704067200),
    };
    let send: SendMessageResponse = message.clone().into();
    assert_eq!(send.message_id, "msg_123");
    assert_eq!(send.chat_id, "chat_456");
    let got: GetMessagesResponse = vec![message.clone()].into();
    assert_eq!(got.total, 1);
    let found: SearchMessagesResponse = vec![message.clone(), message].into();
    assert_eq!(found.matched, 2);
}
