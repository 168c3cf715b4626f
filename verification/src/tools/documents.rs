//! The document tools.

use vstd::prelude::*;

use crate::feishu::client::{full_url, list_documents_path, opt_str, ApiRequest, FeishuClient, HttpMethod, RequestBody};
use crate::feishu::types::Document;

verus! {

/// The answer of `search_documents`.
#[derive(Debug, Clone)]
pub struct SearchDocumentsResponse {
    pub items: Option<Vec<Document>>,
}

/// The answer of `list_documents`.
#[derive(Debug, Clone)]
pub struct ListDocumentsResponse {
    pub files: Option<Vec<Document>>,
}

/// A count as the API takes it: the tool's unsigned count, cast to `i32`.
pub open spec fn api_count(n: Option<u32>) -> Option<i32> {
    match n {
        Some(l) => Some(l as i32),
        None => None,
    }
}

pub fn to_api_count(n: Option<u32>) -> (c: Option<i32>)
    ensures
        c == api_count(n),
{
    match n {
        Some(l) => Some(l as i32),
        None => None,
    }
}

/// `search_documents`: searches for `query`, returning at most `limit`
/// documents.
pub fn search_documents_request(client: &FeishuClient, query: &str, limit: Option<u32>) -> (req: ApiRequest)
    ensures
        req.method == HttpMethod::Post,
        req.url@ == full_url(client.base(), "/doc/v2/search"@),
        req.body matches Some(RequestBody::SearchDocuments(b)) && b.search_key@ == query@ && b.count == api_count(
            limit,
        ),
{
    client.search_documents_request(query, to_api_count(limit))
}

/// What `search_documents` answers for the documents found.
pub fn search_documents_response(documents: Vec<Document>) -> (r: SearchDocumentsResponse)
    ensures
        r.items == Some(documents),
{
    SearchDocumentsResponse { items: Some(documents) }
}

/// `get_document`: reads one document.
pub fn get_document_request(client: &FeishuClient, doc_id: &str) -> (req: ApiRequest)
    ensures
        req.method == HttpMethod::Get,
        req.url@ == full_url(client.base(), "/doc/v2/"@ + doc_id@),
        req.body is None,
{
    client.get_document_request(doc_id)
}

/// `create_document`: creates a document with a title, and optionally an
/// initial content and a parent folder.
pub fn create_document_request(
    client: &FeishuClient,
    title: &str,
    content: Option<&str>,
    parent_token: Option<&str>,
) -> (req: ApiRequest)
    ensures
        req.method == HttpMethod::Post,
        req.url@ == full_url(client.base(), "/doc/v2"@),
        req.body matches Some(RequestBody::CreateDocument(b)) && b.title@ == title@
            && crate::feishu::client::opt_string(b.content) == opt_str(content)
            && crate::feishu::client::opt_string(b.parent_token) == opt_str(parent_token),
{
    client.create_document_request(title, content, parent_token)
}

/// `update_document`: replaces a document's content.
pub fn update_document_request(client: &FeishuClient, doc_id: &str, content: &str) -> (req: ApiRequest)
    ensures
        req.method == HttpMethod::Put,
        req.url@ == full_url(client.base(), "/doc/v2/"@ + doc_id@),
        req.body matches Some(RequestBody::UpdateDocument(b)) && b.content@ == content@,
{
    client.update_document_request(doc_id, content)
}

/// `list_documents`: lists the documents of a folder.
pub fn list_documents_request(client: &FeishuClient, folder_token: &str, page_size: Option<u32>) -> (req: ApiRequest)
    ensures
        req.method == HttpMethod::Get,
        req.url@ == full_url(client.base(), list_documents_path(Some(folder_token@), api_count(page_size))),
        req.body is None,
{
    client.list_documents_request(Some(folder_token), to_api_count(page_size))
}

/// What `list_documents` answers for the documents listed.
pub fn list_documents_response(documents: Vec<Document>) -> (r: ListDocumentsResponse)
    ensures
        r.files == Some(documents),
{
    ListDocumentsResponse { files: Some(documents) }
}

} // verus!
