//! The message tools.

use vstd::prelude::*;

use crate::feishu::client::{full_url, messages_path, ApiRequest, FeishuClient, HttpMethod, RequestBody};
use crate::feishu::types::Message;
use crate::tools::documents::{api_count, to_api_count};

verus! {

/// The answer of `send_message`.
#[derive(Debug, Clone)]
pub struct SendMessageResponse {
    pub message_id: String,
    pub chat_id: String,
    pub content: String,
    pub msg_type: String,
}

impl From<Message> for SendMessageResponse {
    fn from(msg: Message) -> (r: SendMessageResponse)
        ensures
            r.message_id@ == msg.message_id@,
            r.chat_id@ == msg.chat_id@,
            r.content@ == msg.content@,
            r.msg_type@ == msg.msg_type@,
    {
        SendMessageResponse {
            message_id: msg.message_id,
            chat_id: msg.chat_id,
            content: msg.content,
            msg_type: msg.msg_type,
        }
    }
}

impl vstd::std_specs::convert::FromSpecImpl<Message> for SendMessageResponse {
    open spec fn obeys_from_spec() -> bool {
        true
    }

    open spec fn from_spec(msg: Message) -> SendMessageResponse {
        SendMessageResponse {
            message_id: msg.message_id,
            chat_id: msg.chat_id,
            content: msg.content,
            msg_type: msg.msg_type,
        }
    }
}

/// The answer of `get_messages`: the messages and how many there are.
#[derive(Debug, Clone)]
pub struct GetMessagesResponse {
    pub messages: Vec<Message>,
    pub total: usize,
}

impl From<Vec<Message>> for GetMessagesResponse {
    fn from(messages: Vec<Message>) -> (r: GetMessagesResponse)
        ensures
            r.messages@ == messages@,
            r.total == messages@.len(),
    {
        let total = messages.len();
        GetMessagesResponse { messages, total }
    }
}

impl vstd::std_specs::convert::FromSpecImpl<Vec<Message>> for GetMessagesResponse {
    open spec fn obeys_from_spec() -> bool {
        true
    }

    open spec fn from_spec(messages: Vec<Message>) -> GetMessagesResponse {
        GetMessagesResponse { messages, total: messages@.len() as usize }
    }
}

/// The answer of `search_messages`: the messages and how many matched.
#[derive(Debug, Clone)]
pub struct SearchMessagesResponse {
    pub messages: Vec<Message>,
    pub matched: usize,
}

impl From<Vec<Message>> for SearchMessagesResponse {
    fn from(messages: Vec<Message>) -> (r: SearchMessagesResponse)
        ensures
            r.messages@ == messages@,
            r.matched == messages@.len(),
    {
        let matched = messages.len();
        SearchMessagesResponse { messages, matched }
    }
}

impl vstd::std_specs::convert::FromSpecImpl<Vec<Message>> for SearchMessagesResponse {
    open spec fn obeys_from_spec() -> bool {
        true
    }

    open spec fn from_spec(messages: Vec<Message>) -> SearchMessagesResponse {
        SearchMessagesResponse { messages, matched: messages@.len() as usize }
    }
}

/// The answer of `send_message` reports the sent message itself: its id,
/// its chat, its content and its type, each as the message carries it.
pub proof fn lemma_send_message_response_reports_message(msg: Message)
    ensures
        <SendMessageResponse as vstd::std_specs::convert::FromSpec<Message>>::from_spec(msg).message_id
            == msg.message_id,
        <SendMessageResponse as vstd::std_specs::convert::FromSpec<Message>>::from_spec(msg).chat_id
            == msg.chat_id,
        <SendMessageResponse as vstd::std_specs::convert::FromSpec<Message>>::from_spec(msg).content
            == msg.content,
        <SendMessageResponse as vstd::std_specs::convert::FromSpec<Message>>::from_spec(msg).msg_type
            == msg.msg_type,
{
}

/// The answers of `get_messages` and `search_messages` hand back the
/// messages unchanged, in order, with their number.
pub proof fn lemma_message_lists_report_all(messages: Vec<Message>)
    ensures
        <GetMessagesResponse as vstd::std_specs::convert::FromSpec<Vec<Message>>>::from_spec(messages).messages@
            == messages@,
        <GetMessagesResponse as vstd::std_specs::convert::FromSpec<Vec<Message>>>::from_spec(messages).total
            == messages.len(),
        <SearchMessagesResponse as vstd::std_specs::convert::FromSpec<Vec<Message>>>::from_spec(
            messages,
        ).messages@ == messages@,
        <SearchMessagesResponse as vstd::std_specs::convert::FromSpec<Vec<Message>>>::from_spec(
            messages,
        ).matched == messages.len(),
{
}

/// The message type sent when none is given.
pub open spec fn msg_type_or_text(msg_type: Option<Seq<char>>) -> Seq<char> {
    match msg_type {
        Some(t) => t,
        None => "text"@,
    }
}

/// `send_message`: sends `content` to a chat, as a `text` message unless
/// another type is given.
pub fn send_message_request(client: &FeishuClient, chat_id: &str, content: &str, msg_type: Option<&str>) -> (req: ApiRequest)
    ensures
        req.method == HttpMethod::Post,
        req.url@ == full_url(client.base(), "/im/v1/messages?receive_id_type=chat_id"@),
        req.body matches Some(RequestBody::SendMessage(b)) && b.receive_id@ == chat_id@ && b.content@ == content@
            && b.msg_type@ == msg_type_or_text(crate::feishu::client::opt_str(msg_type)),
{
    let kind = match msg_type {
        Some(t) => t,
        None => "text",
    };
    client.send_message_request(chat_id, content, kind)
}

/// `get_messages`: reads a chat's messages, at most `limit` of them.
pub fn get_messages_request(client: &FeishuClient, chat_id: &str, limit: Option<u32>) -> (req: ApiRequest)
    ensures
        req.method == HttpMethod::Get,
        req.url@ == full_url(client.base(), messages_path(chat_id@, api_count(limit))),
        req.body is None,
{
    client.get_messages_request(chat_id, to_api_count(limit))
}

/// `search_messages`: searches messages, within one chat when given.
pub fn search_messages_request(client: &FeishuClient, query: &str, chat_id: Option<&str>) -> (req: ApiRequest)
    ensures
        req.method == HttpMethod::Post,
        req.url@ == full_url(client.base(), "/search/v1/messages"@),
        req.body matches Some(RequestBody::SearchMessages(b)) && b.query@ == query@ && match chat_id {
            Some(c) => b.chat_ids matches Some(ids) && ids@.len() == 1 && ids@[0]@ == c@,
            None => b.chat_ids is None,
        },
{
    client.search_messages_request(query, chat_id)
}

} // verus!
