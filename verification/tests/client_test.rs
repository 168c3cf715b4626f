use feishu_mcp::auth::token_store::TokenStoreError;
use feishu_mcp::feishu::client::{
    items_or_empty, response_result, sent_message, FeishuClient, HttpMethod, RequestBody,
};
use feishu_mcp::feishu::error::{FeishuApiErrorResponse, FeishuError};
use feishu_mcp::feishu::types::{ApiResponse, Message, TaskStatus};

fn client() -> FeishuClient {
    FeishuClient::new("https://example.com/api".to_string(), "my-app".to_string())
}

#[test]
fn test_client_construction_and_accessors() {
    let client = client();
    assert_eq!(client.base_url(), "https://example.com/api");
    assert_eq!(client.app_id(), "my-app");
}

#[test]
fn build_url_keeps_full_urls() {
    let c = client();
    assert_eq!(c.build_url("/doc/v2"), "https://example.com/api/doc/v2");
    assert_eq!(c.build_url("http://other/x"), "http://other/x");
    assert_eq!(c.build_url("htt"), "https://example.com/apihtt");
    assert_eq!(c.health_check_url(), "https://example.com/api/health");
}

#[test]
fn document_requests() {
    let c = client();
    let r = c.search_documents_request("test query", Some(10));
    assert_eq!(r.method, HttpMethod::Post);
    assert_eq!(r.url, "https://example.com/api/doc/v2/search");
    match r.body {
        Some(RequestBody::SearchDocuments(b)) => {
            assert_eq!(b.search_key, "test query");
            assert_eq!(b.count, Some(10));
        }
        other => panic!("unexpected {:?}", other),
    }
    let r = c.get_document_request("doc789");
    assert_eq!(r.method, HttpMethod::Get);
    assert_eq!(r.url, "https://example.com/api/doc/v2/doc789");
    assert!(r.body.is_none());
    let r = c.update_document_request("d1", "New content here");
    assert_eq!(r.method, HttpMethod::Put);
    assert_eq!(r.url, "https://example.com/api/doc/v2/d1");
    let r = c.create_document_request("Minimal", None, Some("folder"));
    match r.body {
        Some(RequestBody::CreateDocument(b)) => {
            assert_eq!(b.title, "Minimal");
            assert_eq!(b.content, None);
            assert_eq!(b.parent_token.as_deref(), Some("folder"));
        }
        other => panic!("unexpected {:?}", other),
    }
}

#[test]
fn list_paths() {
    let c = client();
    assert_eq!(c.list_documents_request(None, None).url, "https://example.com/api/drive/v1/files");
    assert_eq!(
        c.list_documents_request(Some("folder123"), Some(5)).url,
        "https://example.com/api/drive/v1/files/folders/folder123?page_size=5"
    );
    assert_eq!(
        c.list_documents_request(None, Some(-3)).url,
        "https://example.com/api/drive/v1/files?page_size=-3"
    );
    assert_eq!(c.list_tasks_request(None).url, "https://example.com/api/task/v2/tasks");
    assert_eq!(c.list_tasks_request(Some("g1")).url, "https://example.com/api/task/v2/tasks?goal_id=g1");
    assert_eq!(
        c.get_messages_request("test_chat_id", Some(10)).url,
        "https://example.com/api/im/v1/messages?container_id_type=chat&container_id=test_chat_id&page_size=10"
    );
    assert_eq!(
        c.get_messages_request("c", None).url,
        "https://example.com/api/im/v1/messages?container_id_type=chat&container_id=c"
    );
}

#[test]
fn task_and_message_requests() {
    let c = client();
    let r = c.update_task_status_request("t1", TaskStatus::Done);
    assert_eq!(r.method, HttpMethod::Patch);
    assert_eq!(r.url, "https://example.com/api/task/v2/tasks/t1");
    assert!(matches!(r.body, Some(RequestBody::UpdateTaskStatus(b)) if b.status == TaskStatus::Done));
    let r = c.complete_task_request("t1");
    assert_eq!(r.url, "https://example.com/api/task/v2/tasks/t1/complete");
    assert!(matches!(r.body, Some(RequestBody::Unit)));
    let r = c.send_message_request("chat", "Hello World", "text");
    assert_eq!(r.url, "https://example.com/api/im/v1/messages?receive_id_type=chat_id");
    match r.body {
        Some(RequestBody::SendMessage(b)) => {
            assert_eq!(b.receive_id, "chat");
            assert_eq!(b.content, "Hello World");
            assert_eq!(b.msg_type, "text");
        }
        other => panic!("unexpected {:?}", other),
    }
    match c.search_messages_request("hello", Some("test_chat_id")).body {
        Some(RequestBody::SearchMessages(b)) => {
            assert_eq!(b.query, "hello");
            assert_eq!(b.chat_ids, Some(vec!["test_chat_id".to_string()]));
        }
        other => panic!("unexpected {:?}", other),
    }
    match c.search_messages_request("hello", None).body {
        Some(RequestBody::SearchMessages(b)) => assert_eq!(b.chat_ids, None),
        other => panic!("unexpected {:?}", other),
    }
}

#[test]
fn answers_are_unwrapped() {
    let ok = ApiResponse { code: 0, msg: "success".to_string(), data: Some(5) };
    assert!(ok.is_success());
    assert_eq!(ok.into_data().unwrap(), 5);
    let empty: ApiResponse<i32> = ApiResponse { code: 0, msg: "success".to_string(), data: None };
    match empty.into_data() {
        Err(FeishuError::ApiError { code, msg }) => {
            assert_eq!(code, -1);
            assert_eq!(msg, "No data in response");
        }
        other => panic!("unexpected {:?}", other),
    }
    let failed: ApiResponse<i32> = ApiResponse { code: 1001001, msg: "permission denied".to_string(), data: Some(1) };
    assert!(!failed.is_success());
    match failed.into_data() {
        Err(FeishuError::ApiError { code, msg }) => {
            assert_eq!(code, 1001001);
            assert_eq!(msg, "permission denied");
        }
        other => panic!("unexpected {:?}", other),
    }
    assert!(items_or_empty::<i32>(None).is_empty());
    assert_eq!(items_or_empty(Some(vec![1, 2])), vec![1, 2]);
}

#[test]
fn sent_message_needs_a_message() {
    let m = Message {
        message_id: "msg_123456".into(),
        chat_id: "c".into(),
        content: "Hello".into(),
        msg_type: "text".into(),
        sender_id: None,
        created_time: Some(1704067200),
    };
    assert_eq!(sent_message(Some(m)).unwrap().message_id, "msg_123456");
    match sent_message(None) {
        Err(FeishuError::ApiError { code, msg }) => {
            assert_eq!(code, -1);
            assert_eq!(msg, "No message in response");
        }
        other => panic!("unexpected {:?}", other),
    }
}

#[test]
fn token_from_store_answers() {
    assert_eq!(
        FeishuClient::token_from_store(Ok(Some(("test-token".to_string(), 9)))).unwrap(),
        "test-token"
    );
    assert!(matches!(FeishuClient::token_from_store(Ok(None)), Err(FeishuError::TokenExpired)));
    match FeishuClient::token_from_store(Err(TokenStoreError::TooShort)) {
        Err(FeishuError::InternalError(m)) => {
            assert_eq!(m, "Failed to load token: Invalid stored token: too short")
        }
        other => panic!("unexpected {:?}", other),
    }
}

#[test]
fn authorize_attaches_bearer_token() {
    let c = client();
    let plan = c.get_document_request("doc789");
    assert!(plan.authorization.is_none());
    assert!(plan.content_type.is_none());
    let r = FeishuClient::authorize(plan, Ok(Some(("test-token".to_string(), 9)))).unwrap();
    assert_eq!(r.method, HttpMethod::Get);
    assert_eq!(r.url, "https://example.com/api/doc/v2/doc789");
    assert_eq!(r.authorization.as_deref(), Some("Bearer test-token"));
    assert_eq!(r.content_type.as_deref(), Some("application/json"));
    let plan = c.send_message_request("oc_chat", "{\"text\":\"hi\"}", "text");
    let r = FeishuClient::authorize(plan, Ok(Some(("tok-2".to_string(), 9)))).unwrap();
    assert_eq!(r.method, HttpMethod::Post);
    assert_eq!(r.authorization.as_deref(), Some("Bearer tok-2"));
    assert!(matches!(r.body, Some(RequestBody::SendMessage(b)) if b.receive_id == "oc_chat"));
    let plan = c.get_document_request("doc789");
    assert!(matches!(FeishuClient::authorize(plan, Ok(None)), Err(FeishuError::TokenExpired)));
    let plan = c.get_document_request("doc789");
    match FeishuClient::authorize(plan, Err(TokenStoreError::TooShort)) {
        Err(FeishuError::InternalError(m)) => {
            assert_eq!(m, "Failed to load token: Invalid stored token: too short")
        }
        other => panic!("unexpected {:?}", other),
    }
}

#[test]
fn response_result_follows_status() {
    let ok = |code: i32, data: Option<u32>| -> Result<ApiResponse<u32>, FeishuError> {
        Ok(ApiResponse { code, msg: "m".to_string(), data })
    };
    assert_eq!(response_result(200, None, None, ok(0, Some(7))).unwrap(), 7);
    match response_result(200, None, None, ok(0, None)) {
        Err(FeishuError::ApiError { code, msg }) => {
            assert_eq!(code, -1);
            assert_eq!(msg, "No data in response");
        }
        other => panic!("unexpected {:?}", other),
    }
    match response_result(204, None, None, ok(1254002, Some(7))) {
        Err(FeishuError::ApiError { code, msg }) => {
            assert_eq!(code, 1254002);
            assert_eq!(msg, "m");
        }
        other => panic!("unexpected {:?}", other),
    }
    match response_result::<u32>(200, None, None, Err(FeishuError::NetworkError("bad json".to_string()))) {
        Err(FeishuError::NetworkError(m)) => assert_eq!(m, "bad json"),
        other => panic!("unexpected {:?}", other),
    }
    // a failed status takes the error path whatever the body decodes to
    assert!(matches!(response_result(401, None, None, ok(0, Some(7))), Err(FeishuError::TokenExpired)));
    assert!(matches!(
        response_result(429, Some("12"), None, ok(0, Some(7))),
        Err(FeishuError::RateLimited { retry_after_secs: 12 })
    ));
    let body = FeishuApiErrorResponse { code: 1001001, msg: "permission denied".to_string() };
    match response_result(403, None, Some(body), ok(0, Some(7))) {
        Err(FeishuError::ApiError { code, msg }) => {
            assert_eq!(code, 1001001);
            assert_eq!(msg, "permission denied");
        }
        other => panic!("unexpected {:?}", other),
    }
    match response_result(500, None, None, ok(0, Some(7))) {
        Err(FeishuError::ApiError { code, msg }) => {
            assert_eq!(code, 500);
            assert_eq!(msg, "HTTP 500 Internal Server Error");
        }
        other => panic!("unexpected {:?}", other),
    }
}
