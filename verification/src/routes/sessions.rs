use vstd::prelude::*;

use crate::llm::types::{ContentBlock, LlmRequest, ToolDefinition};
use crate::routes::{api_error, is_error, ApiError, BAD_REQUEST};
use crate::text::{
    blank, chars_of, has_two_words, is_blank, last_index_of, push_char, rfind_char, str_eq, string_from_chars,
    take_chars, trim, trim_end, trim_end_by, is_ws, trim_with, trimmed, trim_by, two_words, Trimmed,
};
use crate::time::UtcInstant;
use crate::workers::{is_task_conversation, task_messages};

verus! {

/// A message a user sends into a chat.
#[derive(Debug, Clone)]
pub struct SendMessageRequest {
    pub text: String,
}

/// A message must say something besides white space.
pub fn validate_message_text(text: &str) -> (r: Result<(), ApiError>)
    ensures
        is_blank(text@) ==> (r matches Err(e) && is_error(e, BAD_REQUEST, "text must not be empty"@)),
        !is_blank(text@) ==> r is Ok,
{
    if blank(text) {
        Err(api_error(BAD_REQUEST, "text must not be empty"))
    } else {
        Ok(())
    }
}

/// One message of a chat as the history lists it.
#[derive(Debug, Clone)]
pub struct MessageItem {
    pub id: u128,
    /// "user" for what a person sent, "assistant" for everything else.
    pub sender: String,
    pub content: String,
    pub created_at: UtcInstant,
    /// The rating ("up" or "down") the reader gave it, if any.
    pub my_feedback: Option<String>,
}

/// A stored message: its id, the identity that sent it (none for the assistant), its content,
/// when it was created, and the reader's rating.
pub type MessageRow = (u128, Option<u128>, String, UtcInstant, Option<String>);

/// `item` lists the stored message `row`.
pub open spec fn lists(item: MessageItem, row: MessageRow) -> bool {
    &&& item.id == row.0
    &&& item.sender@ == if row.1 is Some { "user"@ } else { "assistant"@ }
    &&& item.content == row.2
    &&& item.created_at == row.3
    &&& item.my_feedback == row.4
}

/// How a stored message is listed: a message with a sender came from the user.
pub fn to_message_item(row: MessageRow) -> (item: MessageItem)
    ensures
        lists(item, row),
{
    let (id, sender, content, created_at, my_feedback) = row;
    MessageItem {
        id,
        sender: if sender.is_some() { "user".to_owned() } else { "assistant".to_owned() },
        content,
        created_at,
        my_feedback,
    }
}

/// The history page lists messages oldest first; they are fetched newest first.
pub fn messages_in_order(newest_first: Vec<MessageRow>) -> (items: Vec<MessageItem>)
    ensures
        items@.len() == newest_first@.len(),
        forall|i: int| 0 <= i < items@.len() ==> lists(#[trigger] items@[i], newest_first@[newest_first@.len() - 1 - i]),
{
    let mut rows = newest_first;
    let ghost all = rows@;
    let mut items: Vec<MessageItem> = Vec::new();
    while rows.len() > 0
        invariant
            rows@ == all.take(rows@.len() as int),
            rows@.len() <= all.len(),
            items@.len() == all.len() - rows@.len(),
            forall|i: int| 0 <= i < items@.len() ==> lists(#[trigger] items@[i], all[all.len() - 1 - i]),
        decreases rows.len(),
    {
        let row = rows.pop().unwrap();
        proof {
            assert(row == all[rows@.len() as int]);
        }
        items.push(to_message_item(row));
        proof {
            assert(rows@ =~= all.take(rows@.len() as int));
        }
    }
    items
}

/// How many messages a history page holds: 50 unless asked, and between 1 and 100.
pub fn message_limit(limit: Option<i64>) -> (r: i64)
    ensures
        r == match limit {
            Some(l) => if l < 1 { 1 } else if l > 100 { 100 } else { l },
            None => 50,
        },
{
    let l = match limit {
        Some(l) => l,
        None => 50,
    };
    if l < 1 {
        1
    } else if l > 100 {
        100
    } else {
        l
    }
}

/// The newest message of a chat, as the chat list previews it.
#[derive(Debug, Clone)]
pub struct LastMessagePreview {
    pub content: String,
    pub created_at: UtcInstant,
}

/// A chat has a preview when its newest message's content and time are both known.
pub fn last_message_preview(content: Option<String>, created_at: Option<UtcInstant>) -> (r: Option<LastMessagePreview>)
    ensures
        match (content, created_at) {
            (Some(c), Some(t)) => r matches Some(p) && p.content == c && p.created_at == t,
            _ => r is None,
        },
{
    match (content, created_at) {
        (Some(content), Some(created_at)) => Some(LastMessagePreview { content, created_at }),
        _ => None,
    }
}

/// How many characters a title made from the first message keeps at most (before its ellipsis).
pub const TITLE_FALLBACK_MAX_CHARS: usize = 60;

/// The reply budget of the one-shot completion that titles a chat.
pub const TITLE_GENERATION_MAX_TOKENS: u32 = 32;

/// A title made from a chat's first message: the trimmed message when it is short enough;
/// otherwise its first 60 characters, cut back to the last space among them (if any), trimmed
/// at the end and followed by an ellipsis.
pub open spec fn title_from_message(m: Seq<char>) -> Seq<char> {
    let t = trimmed(m);
    if t.len() <= TITLE_FALLBACK_MAX_CHARS {
        t
    } else {
        let c = t.take(TITLE_FALLBACK_MAX_CHARS as int);
        let cut = match last_index_of(c, ' ') {
            Some(i) => c.take(i),
            None => c,
        };
        trim_end_by(Trimmed::WhiteSpace, cut).push('\u{2026}')
    }
}

/// The title a chat gets from its first message when the model's own attempt is unusable.
pub fn truncate_for_title(message: &str) -> (r: String)
    ensures
        r@ == title_from_message(message@),
{
    let trimmed_text = trim(message);
    let cs = chars_of(trimmed_text.as_str());
    if cs.len() <= TITLE_FALLBACK_MAX_CHARS {
        return trimmed_text;
    }
    let head = take_chars(&cs, TITLE_FALLBACK_MAX_CHARS);
    let cut = match rfind_char(&head, ' ') {
        Some(i) => take_chars(&head, i),
        None => head,
    };
    let cut_text = string_from_chars(&cut);
    let mut r = trim_end(cut_text.as_str());
    push_char(&mut r, '\u{2026}');
    r
}

/// The text of the first text block among `bs`.
pub open spec fn first_text(bs: Seq<ContentBlock>) -> Option<Seq<char>>
    decreases bs.len(),
{
    if bs.len() == 0 {
        None
    } else {
        match bs[0] {
            ContentBlock::Text { text } => Some(text@),
            _ => first_text(bs.drop_first()),
        }
    }
}

/// The title the model proposed: its first text block, trimmed of white space and then of
/// quotation marks.
pub open spec fn proposed_title(content: Seq<ContentBlock>) -> Option<Seq<char>> {
    match first_text(content) {
        Some(t) => Some(trim_by(Trimmed::Char('"'), trimmed(t))),
        None => None,
    }
}

/// Reads the title the model proposed out of its reply.
pub fn generated_title(content: &Vec<ContentBlock>) -> (r: Option<String>)
    ensures
        r.deep_view() == proposed_title(content@),
{
    let mut i: usize = 0;
    assert(content@.skip(0) =~= content@);
    while i < content.len()
        invariant
            i <= content@.len(),
            first_text(content@) == first_text(content@.skip(i as int)),
        decreases content.len() - i,
    {
        match &content[i] {
            ContentBlock::Text { text } => {
                let t = trim(text.as_str());
                return Some(trim_with(Trimmed::Char('"'), t.as_str()));
            },
            _ => {},
        }
        assert(content@.skip(i as int).drop_first() =~= content@.skip(i + 1));
        i = i + 1;
    }
    None
}

/// The title a chat gets: the model's proposal when it has at least two words, otherwise one
/// made from the first message; nothing is stored when that comes out empty.
pub open spec fn chosen_title(proposal: Option<Seq<char>>, first_message: Seq<char>) -> Option<Seq<char>> {
    let t = match proposal {
        Some(p) => if has_two_words(p) { p } else { title_from_message(first_message) },
        None => title_from_message(first_message),
    };
    if t.len() == 0 {
        None
    } else {
        Some(t)
    }
}

pub fn session_title(proposal: Option<String>, first_message: &str) -> (r: Option<String>)
    ensures
        r.deep_view() == chosen_title(proposal.deep_view(), first_message@),
{
    let t = match proposal {
        Some(p) => if two_words(p.as_str()) {
            p
        } else {
            truncate_for_title(first_message)
        },
        None => truncate_for_title(first_message),
    };
    let cs = chars_of(t.as_str());
    if cs.len() == 0 {
        None
    } else {
        Some(t)
    }
}

/// The one-shot, tool-free request that asks the model to title a chat from its first message.
pub fn title_request(system_prompt: String, first_message: &str) -> (r: LlmRequest)
    ensures
        r.system == Some(system_prompt),
        is_task_conversation(r.messages@, first_message@),
        r.tools@.len() == 0,
        r.max_tokens == TITLE_GENERATION_MAX_TOKENS,
        !r.enable_reasoning,
{
    let messages = task_messages(first_message);
    let tools: Vec<ToolDefinition> = Vec::new();
    LlmRequest {
        system: Some(system_prompt),
        messages,
        tools,
        max_tokens: TITLE_GENERATION_MAX_TOKENS,
        enable_reasoning: false,
    }
}

/// A rating a reader gives a message.
#[derive(Debug, Clone)]
pub struct FeedbackRequest {
    pub rating: String,
}

/// A rating is "up" or "down".
pub fn validate_rating(rating: &str) -> (r: Result<(), ApiError>)
    ensures
        (rating@ == "up"@ || rating@ == "down"@) ==> r is Ok,
        !(rating@ == "up"@ || rating@ == "down"@) ==> (r matches Err(e) && is_error(
            e,
            BAD_REQUEST,
            "rating must be 'up' or 'down'"@,
        )),
{
    if str_eq(rating, "up") || str_eq(rating, "down") {
        Ok(())
    } else {
        Err(api_error(BAD_REQUEST, "rating must be 'up' or 'down'"))
    }
}

} // verus!

verus! {

/// A title made from a first message is empty exactly when the trimmed message is. A trimmed
/// message of at most 60 characters is the title itself; a longer one gives a title of at most
/// 61 characters that ends in an ellipsis, before which stands a prefix of the trimmed message
/// that does not end in white space.
pub proof fn lemma_title_from_message(message: Seq<char>)
    ensures
        title_from_message(message).len() == 0 <==> trimmed(message).len() == 0,
        title_from_message(message).len() <= TITLE_FALLBACK_MAX_CHARS + 1,
        trimmed(message).len() <= TITLE_FALLBACK_MAX_CHARS ==> title_from_message(message) == trimmed(message),
        trimmed(message).len() > TITLE_FALLBACK_MAX_CHARS ==> {
            let r = title_from_message(message);
            let body = r.drop_last();
            &&& r.len() > 0
            &&& r.last() == '\u{2026}'
            &&& body == trimmed(message).take(body.len() as int)
            &&& body.len() > 0 ==> !is_ws(body.last())
        },
{
    let t = trimmed(message);
    if t.len() > TITLE_FALLBACK_MAX_CHARS {
        let c = t.take(TITLE_FALLBACK_MAX_CHARS as int);
        let cut = match last_index_of(c, ' ') {
            Some(i) => c.take(i),
            None => c,
        };
        crate::text::lemma_last_index_in_range(c, ' ');
        crate::text::lemma_trim_end_shorter(Trimmed::WhiteSpace, cut);
        let body = trim_end_by(Trimmed::WhiteSpace, cut);
        let r = body.push('\u{2026}');
        assert(r.drop_last() =~= body);
        assert(cut =~= t.take(cut.len() as int));
        assert(body =~= t.take(body.len() as int));
    }
}

} // verus!

verus! {

/// The chat a new session opened.
#[derive(Debug, Clone, Copy, PartialEq, Eq)]
pub struct CreateSessionResponse {
    pub session_id: u128,
}

/// One chat in the history list.
#[derive(Debug, Clone)]
pub struct SessionListItem {
    pub id: u128,
    pub channel: String,
    pub chat_type: String,
    pub chat_id: String,
    pub title: Option<String>,
    pub last_message: Option<LastMessagePreview>,
    pub agent_active: bool,
    pub updated_at: UtcInstant,
    /// Set when a project is attached to the chat.
    pub project_id: Option<u128>,
}

#[derive(Debug, Clone)]
pub struct ListSessionsResponse {
    pub sessions: Vec<SessionListItem>,
}

/// A chat as loaded: id, channel, chat type, chat id, title, newest message's content and
/// time, whether an agent is active, last activity, and the attached project.
pub type SessionRow = (
    u128,
    String,
    String,
    String,
    Option<String>,
    Option<String>,
    Option<UtcInstant>,
    bool,
    UtcInstant,
    Option<u128>,
);

/// A chat as the history lists it: its fields, previewing its newest message when both that
/// message's content and time are known.
pub fn session_list_item(row: SessionRow) -> (item: SessionListItem)
    ensures
        item.id == row.0,
        item.channel == row.1,
        item.chat_type == row.2,
        item.chat_id == row.3,
        item.title == row.4,
        match (row.5, row.6) {
            (Some(c), Some(t)) => item.last_message matches Some(p) && p.content == c && p.created_at == t,
            _ => item.last_message is None,
        },
        item.agent_active == row.7,
        item.updated_at == row.8,
        item.project_id == row.9,
{
    let (id, channel, chat_type, chat_id, title, last_content, last_created_at, agent_active, updated_at, project_id) =
        row;
    SessionListItem {
        id,
        channel,
        chat_type,
        chat_id,
        title,
        last_message: last_message_preview(last_content, last_created_at),
        agent_active,
        updated_at,
        project_id,
    }
}

/// Which page of a chat's history to list: the messages before one, at most `limit` of them.
#[derive(Debug, Clone, Copy, PartialEq, Eq)]
pub struct MessagesQuery {
    pub before: Option<u128>,
    pub limit: Option<i64>,
}

#[derive(Debug, Clone)]
pub struct ListMessagesResponse {
    pub messages: Vec<MessageItem>,
}

/// The answer to a sent message: the message as stored.
#[derive(Debug, Clone)]
pub struct IngestMessageResponse {
    pub user_message: MessageItem,
}

/// How a message the user just sent is listed: theirs, with no rating yet.
pub fn sent_message_item(id: u128, text: String, created_at: UtcInstant) -> (item: MessageItem)
    ensures
        item.id == id,
        item.sender@ == "user"@,
        item.content == text,
        item.created_at == created_at,
        item.my_feedback is None,
{
    MessageItem { id, sender: "user".to_owned(), content: text, created_at, my_feedback: None }
}

/// One delegation made in a chat, as its activity panel lists it.
#[derive(Debug, Clone)]
pub struct AgentActivityItem {
    pub id: u128,
    pub target_agent_type: String,
    pub task: String,
    pub status: String,
    pub result: Option<String>,
    pub error: Option<String>,
    pub created_at: UtcInstant,
    pub completed_at: Option<UtcInstant>,
}

} // verus!
