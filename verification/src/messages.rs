//! The messages of a task's API conversation: content block summaries,
//! timestamps joined from the UI messages, and paginated message lists.

use vstd::prelude::*;
use crate::history::opt_text;
use crate::subtasks::RawUiMessage;
use crate::text::{chars_eq, chars_of};
use crate::util::{
    epoch_ms_to_iso, truncate_utf8, truncated, TEXT_TRUNCATE_LEN, TOOL_INPUT_TRUNCATE_LEN,
    TOOL_RESULT_TRUNCATE_LEN,
};

verus! {

/// A content block of an API message, with what the views read of it.
pub enum RawContentBlock {
    /// A text block.
    Text { text: String },
    /// A thinking block.
    Thinking { thinking: String },
    /// A tool call; `input_json` is its input serialized as compact JSON,
    /// `input_pretty` as pretty-printed JSON.
    ToolUse { id: String, name: String, input_json: String, input_pretty: String },
    /// A tool result.
    ToolResult { tool_use_id: String, content: ToolResultContent, is_error: Option<bool> },
    /// A block of another type.
    Unknown,
}

/// The JSON content of a tool result, as far as its text is read.
pub enum ToolResultContent {
    /// An array: for each item, its `text` field when that is a string.
    Parts(Vec<Option<String>>),
    /// A string.
    Text(String),
    /// Any other value, serialized as JSON.
    Other(String),
}

/// The texts of the parts that have one.
pub open spec fn part_texts(parts: Seq<Option<String>>) -> Seq<Seq<char>>
    decreases parts.len(),
{
    if parts.len() == 0 {
        Seq::empty()
    } else {
        let rest = part_texts(parts.drop_last());
        match parts.last() {
            Some(t) => rest.push(t@),
            None => rest,
        }
    }
}

/// The readable text of a tool result: the texts of an array joined by
/// newlines, a string as it is, anything else as its JSON.
pub open spec fn result_text_of(c: ToolResultContent) -> Seq<char> {
    match c {
        ToolResultContent::Parts(p) => crate::text::join(part_texts(p@), "\n"@),
        ToolResultContent::Text(s) => s@,
        ToolResultContent::Other(j) => j@,
    }
}

/// Extract the readable text of a tool result.
pub fn extract_tool_result_text(c: &ToolResultContent) -> (r: String)
    ensures
        r@ == result_text_of(*c),
{
    match c {
        ToolResultContent::Parts(p) => {
            let mut texts: Vec<String> = Vec::new();
            let mut i: usize = 0;
            while i < p.len()
                invariant
                    i <= p@.len(),
                    crate::text::strings_view(texts@) == part_texts(p@.take(i as int)),
                decreases p@.len() - i,
            {
                let ghost pre = p@.take(i + 1);
                assert(pre.drop_last() =~= p@.take(i as int));
                match &p[i] {
                    Some(t) => {
                        let ghost before = texts@;
                        texts.push(t.clone());
                        assert(crate::text::strings_view(texts@) =~= crate::text::strings_view(
                            before,
                        ).push(t@));
                    },
                    None => {},
                }
                i = i + 1;
            }
            assert(p@.take(i as int) =~= p@);
            crate::text::join_strings(&texts, "\n")
        },
        ToolResultContent::Text(s) => s.clone(),
        ToolResultContent::Other(j) => j.clone(),
    }
}

/// A message of `api_conversation_history.json`.
pub struct RawApiMessage {
    /// "user" or "assistant".
    pub role: String,
    /// The content blocks.
    pub content: Vec<RawContentBlock>,
}

/// A content block inside a message (truncated for list views).
pub struct ContentBlockSummary {
    /// Block type: "text", "thinking", "tool_use", "tool_result", "unknown".
    pub block_type: String,
    /// Truncated text content (text/thinking blocks, max 500 chars).
    pub text: Option<String>,
    /// Full text length in characters.
    pub full_text_length: Option<usize>,
    /// Tool use ID (tool_use and tool_result blocks).
    pub tool_use_id: Option<String>,
    /// Tool name (tool_use blocks).
    pub tool_name: Option<String>,
    /// Tool input summary (tool_use blocks, first 300 chars of the JSON).
    pub tool_input: Option<String>,
    /// Tool result summary (tool_result blocks, first 200 chars).
    pub tool_result_text: Option<String>,
}

/// A conversation message with its content block summaries.
pub struct ConversationMessage {
    /// Message index in the api_conversation_history array (0-based).
    pub index: usize,
    /// "user" or "assistant".
    pub role: String,
    /// ISO 8601 timestamp (from the ui_messages join), if any.
    pub timestamp: Option<String>,
    /// Content blocks in this message.
    pub content: Vec<ContentBlockSummary>,
}

/// Response for GET /history/tasks/:taskId/messages.
pub struct PaginatedMessagesResponse {
    /// Task ID.
    pub task_id: String,
    /// Total number of messages in the conversation.
    pub total_messages: usize,
    /// Number of messages after the role filter.
    pub filtered_count: usize,
    /// The offset of this page.
    pub offset: usize,
    /// The page size asked for.
    pub limit: usize,
    /// Whether messages follow this page.
    pub has_more: bool,
    /// The messages of this page.
    pub messages: Vec<ConversationMessage>,
}

/// Query parameters for GET /history/tasks/:taskId/messages.
pub struct TaskMessagesQuery {
    /// Offset into the message list.
    pub offset: Option<usize>,
    /// Maximum number of messages to return.
    pub limit: Option<usize>,
    /// Filter by role: "user" or "assistant".
    pub role: Option<String>,
}

/// The value of a content block summary.
pub ghost struct BlockSummarySpec {
    pub block_type: Seq<char>,
    pub text: Option<Seq<char>>,
    pub full_text_length: Option<nat>,
    pub tool_use_id: Option<Seq<char>>,
    pub tool_name: Option<Seq<char>>,
    pub tool_input: Option<Seq<char>>,
    pub tool_result_text: Option<Seq<char>>,
}

/// The text of an optional string.
pub open spec fn ostr(o: Option<String>) -> Option<Seq<char>> {
    match o {
        Some(s) => Some(s@),
        None => None,
    }
}

impl View for ContentBlockSummary {
    type V = BlockSummarySpec;

    open spec fn view(&self) -> BlockSummarySpec {
        BlockSummarySpec {
            block_type: self.block_type@,
            text: ostr(self.text),
            full_text_length: match self.full_text_length {
                Some(n) => Some(n as nat),
                None => None,
            },
            tool_use_id: ostr(self.tool_use_id),
            tool_name: ostr(self.tool_name),
            tool_input: ostr(self.tool_input),
            tool_result_text: ostr(self.tool_result_text),
        }
    }
}

/// The value of a conversation message.
pub ghost struct MessageSpec {
    pub index: nat,
    pub role: Seq<char>,
    pub timestamp: Option<Seq<char>>,
    pub content: Seq<BlockSummarySpec>,
}

/// The values of a sequence of block summaries.
pub open spec fn blocks_view(v: Seq<ContentBlockSummary>) -> Seq<BlockSummarySpec> {
    v.map_values(|b: ContentBlockSummary| b@)
}

impl View for ConversationMessage {
    type V = MessageSpec;

    open spec fn view(&self) -> MessageSpec {
        MessageSpec {
            index: self.index as nat,
            role: self.role@,
            timestamp: ostr(self.timestamp),
            content: blocks_view(self.content@),
        }
    }
}

/// The values of a sequence of messages.
pub open spec fn messages_view(v: Seq<ConversationMessage>) -> Seq<MessageSpec> {
    v.map_values(|m: ConversationMessage| m@)
}

/// The summary of a content block: text and thinking truncated to 500
/// characters, tool input to 300, tool results to 200.
pub open spec fn block_summary(b: RawContentBlock) -> BlockSummarySpec {
    match b {
        RawContentBlock::Text { text } => BlockSummarySpec {
            block_type: "text"@,
            text: Some(truncated(text@, 500)),
            full_text_length: Some(text@.len()),
            tool_use_id: None,
            tool_name: None,
            tool_input: None,
            tool_result_text: None,
        },
        RawContentBlock::Thinking { thinking } => BlockSummarySpec {
            block_type: "thinking"@,
            text: Some(truncated(thinking@, 500)),
            full_text_length: Some(thinking@.len()),
            tool_use_id: None,
            tool_name: None,
            tool_input: None,
            tool_result_text: None,
        },
        RawContentBlock::ToolUse { id, name, input_json, .. } => BlockSummarySpec {
            block_type: "tool_use"@,
            text: None,
            full_text_length: None,
            tool_use_id: Some(id@),
            tool_name: Some(name@),
            tool_input: Some(truncated(input_json@, 300)),
            tool_result_text: None,
        },
        RawContentBlock::ToolResult { tool_use_id, content, is_error } => BlockSummarySpec {
            block_type: "tool_result"@,
            text: None,
            full_text_length: None,
            tool_use_id: Some(tool_use_id@),
            tool_name: None,
            tool_input: None,
            tool_result_text: Some(truncated(result_text_of(content), 200)),
        },
        RawContentBlock::Unknown => BlockSummarySpec {
            block_type: "unknown"@,
            text: None,
            full_text_length: None,
            tool_use_id: None,
            tool_name: None,
            tool_input: None,
            tool_result_text: None,
        },
    }
}

/// The summary of message `i` with its timestamp.
pub open spec fn message_summary(m: RawApiMessage, i: nat, ts: Option<Seq<char>>) -> MessageSpec {
    MessageSpec {
        index: i,
        role: m.role@,
        timestamp: ts,
        content: m.content@.map_values(|b: RawContentBlock| block_summary(b)),
    }
}

/// The summaries of all messages, each with its timestamp.
pub open spec fn message_summaries(raw: Seq<RawApiMessage>, ts: Seq<Option<String>>) -> Seq<
    MessageSpec,
> {
    Seq::new(raw.len(), |i: int| message_summary(raw[i], i as nat, ostr(ts[i])))
}

/// The messages with the given role, in order.
pub open spec fn with_role(ms: Seq<MessageSpec>, role: Seq<char>) -> Seq<MessageSpec>
    decreases ms.len(),
{
    if ms.len() == 0 {
        Seq::<MessageSpec>::empty()
    } else {
        let rest = with_role(ms.drop_last(), role);
        if ms.last().role == role {
            rest.push(ms.last())
        } else {
            rest
        }
    }
}

/// The number of characters of a string (`str::chars().count()`).
pub fn char_count(s: &str) -> (n: usize)
    ensures
        n as nat == s@.len(),
{
    let c = chars_of(s);
    c.len()
}

/// Summarize one content block.
pub fn summarize_block(b: &RawContentBlock) -> (r: ContentBlockSummary)
    ensures
        r@ == block_summary(*b),
{
    match b {
        RawContentBlock::Text { text } => ContentBlockSummary {
            block_type: String::from_str("text"),
            text: Some(truncate_utf8(text.as_str(), TEXT_TRUNCATE_LEN)),
            full_text_length: Some(char_count(text.as_str())),
            tool_use_id: None,
            tool_name: None,
            tool_input: None,
            tool_result_text: None,
        },
        RawContentBlock::Thinking { thinking } => ContentBlockSummary {
            block_type: String::from_str("thinking"),
            text: Some(truncate_utf8(thinking.as_str(), TEXT_TRUNCATE_LEN)),
            full_text_length: Some(char_count(thinking.as_str())),
            tool_use_id: None,
            tool_name: None,
            tool_input: None,
            tool_result_text: None,
        },
        RawContentBlock::ToolUse { id, name, input_json, .. } => ContentBlockSummary {
            block_type: String::from_str("tool_use"),
            text: None,
            full_text_length: None,
            tool_use_id: Some(id.clone()),
            tool_name: Some(name.clone()),
            tool_input: Some(truncate_utf8(input_json.as_str(), TOOL_INPUT_TRUNCATE_LEN)),
            tool_result_text: None,
        },
        RawContentBlock::ToolResult { tool_use_id, content, .. } => {
            let result_text = extract_tool_result_text(content);
            ContentBlockSummary {
                block_type: String::from_str("tool_result"),
                text: None,
                full_text_length: None,
                tool_use_id: Some(tool_use_id.clone()),
                tool_name: None,
                tool_input: None,
                tool_result_text: Some(
                    truncate_utf8(result_text.as_str(), TOOL_RESULT_TRUNCATE_LEN),
                ),
            }
        },
        RawContentBlock::Unknown => ContentBlockSummary {
            block_type: String::from_str("unknown"),
            text: None,
            full_text_length: None,
            tool_use_id: None,
            tool_name: None,
            tool_input: None,
            tool_result_text: None,
        },
    }
}

/// Summarize message `index` with its timestamp.
pub fn summarize_message(m: &RawApiMessage, index: usize, timestamp: Option<String>) -> (r:
    ConversationMessage)
    ensures
        r@ == message_summary(*m, index as nat, ostr(timestamp)),
{
    let mut content: Vec<ContentBlockSummary> = Vec::new();
    let mut j: usize = 0;
    while j < m.content.len()
        invariant
            j <= m.content@.len(),
            blocks_view(content@) == m.content@.take(j as int).map_values(
                |b: RawContentBlock| block_summary(b),
            ),
        decreases m.content@.len() - j,
    {
        let s = summarize_block(&m.content[j]);
        let ghost before = content@;
        let ghost sv = s@;
        content.push(s);
        j = j + 1;
        assert(blocks_view(content@) =~= blocks_view(before).push(sv));
        assert(m.content@.take(j as int).map_values(|b: RawContentBlock| block_summary(b))
            =~= m.content@.take(j - 1).map_values(|b: RawContentBlock| block_summary(b)).push(
            sv,
        ));
    }
    assert(m.content@.take(m.content@.len() as int) =~= m.content@);
    ConversationMessage { index, role: m.role.clone(), timestamp, content }
}

/// The timestamp of the first UI message that points at each API message
/// (`conversationHistoryIndex`), in epoch milliseconds.
pub open spec fn first_ui_ts(ui: Seq<RawUiMessage>, i: int) -> Option<u64>
    decreases ui.len(),
{
    if ui.len() == 0 {
        None
    } else {
        match first_ui_ts(ui.drop_last(), i) {
            Some(t) => Some(t),
            None => if ui.last().conversation_history_index matches Some(x) && x == i {
                Some(ui.last().ts)
            } else {
                None
            },
        }
    }
}

/// For each of `count` API messages, the time of the first UI message that
/// points at it, if any.
pub fn first_ui_timestamps(ui_messages: &[RawUiMessage], count: usize) -> (r: Vec<Option<u64>>)
    ensures
        r@.len() == count,
        forall|i: int| 0 <= i < count ==> #[trigger] r@[i] == first_ui_ts(ui_messages@, i),
{
    let mut r: Vec<Option<u64>> = Vec::new();
    let mut i: usize = 0;
    while i < count
        invariant
            i <= count,
            r@.len() == i,
            forall|k: int| 0 <= k < i ==> #[trigger] r@[k] == None::<u64>,
        decreases count - i,
    {
        r.push(None);
        i = i + 1;
    }
    let mut j: usize = 0;
    assert(ui_messages@.take(0) =~= Seq::<RawUiMessage>::empty());
    while j < ui_messages.len()
        invariant
            j <= ui_messages@.len(),
            r@.len() == count,
            forall|k: int|
                0 <= k < count ==> #[trigger] r@[k] == first_ui_ts(ui_messages@.take(j as int), k),
        decreases ui_messages@.len() - j,
    {
        let ghost pre = ui_messages@.take(j + 1);
        proof {
            assert(pre.drop_last() =~= ui_messages@.take(j as int));
            assert(pre.last() == ui_messages@[j as int]);
        }
        let msg = &ui_messages[j];
        let ghost old_r = r@;
        match msg.conversation_history_index {
            Some(idx) => {
                if idx >= 0 && (idx as u64) < (count as u64) {
                    let k = idx as usize;
                    if r[k].is_none() {
                        r.set(k, Some(msg.ts));
                    }
                }
            },
            None => {},
        }
        j = j + 1;
        assert forall|k: int| 0 <= k < count implies #[trigger] r@[k] == first_ui_ts(
            ui_messages@.take(j as int),
            k,
        ) by {
            assert(old_r[k] == first_ui_ts(pre.drop_last(), k));
            assert(pre.last() == *msg);
        }
    }
    assert(ui_messages@.take(ui_messages@.len() as int) =~= ui_messages@);
    r
}

/// The ISO 8601 (local time) timestamp of each of `count` API messages,
/// from the first UI message that points at it.
pub fn build_timestamp_map(ui_messages: &[RawUiMessage], count: usize) -> (r: Vec<Option<String>>)
    ensures
        r@.len() == count,
        forall|i: int|
            0 <= i < count ==> crate::detail::renders_instant(
                first_ui_ts(ui_messages@, i),
                #[trigger] r@[i],
            ),
{
    let firsts = first_ui_timestamps(ui_messages, count);
    let mut r: Vec<Option<String>> = Vec::new();
    let mut i: usize = 0;
    while i < count
        invariant
            i <= count == firsts@.len(),
            r@.len() == i,
            forall|k: int| 0 <= k < count ==> firsts@[k] == first_ui_ts(ui_messages@, k),
            forall|k: int| 0 <= k < i ==> crate::detail::renders_instant(firsts@[k], #[trigger] r@[k]),
        decreases count - i,
    {
        match firsts[i] {
            Some(ts) => r.push(Some(epoch_ms_to_iso(ts))),
            None => r.push(None),
        }
        i = i + 1;
    }
    r
}

/// A page of the messages of a task: all messages summarized (with their
/// timestamps), those with the given role kept, then `limit` of them from
/// `offset` on.
pub fn parse_task_messages(
    task_id: &str,
    raw_messages: &[RawApiMessage],
    timestamps: &[Option<String>],
    offset: usize,
    limit: usize,
    role_filter: Option<&str>,
) -> (r: PaginatedMessagesResponse)
    requires
        timestamps@.len() == raw_messages@.len(),
    ensures
        ({
            let all = message_summaries(raw_messages@, timestamps@);
            let filtered = match opt_text(role_filter) {
                Some(role) => with_role(all, role),
                None => all,
            };
            &&& r.task_id@ == task_id@
            &&& r.total_messages == raw_messages@.len()
            &&& r.filtered_count == filtered.len()
            &&& r.offset == offset
            &&& r.limit == limit
            &&& messages_view(r.messages@) == crate::history::page_of(
                filtered,
                offset as nat,
                Some(limit as nat),
            )
            &&& r.has_more == (offset + r.messages@.len() < filtered.len())
        }),
{
    let ghost all = message_summaries(raw_messages@, timestamps@);
    let role = match role_filter {
        Some(s) => Some(chars_of(s)),
        None => None,
    };
    let ghost role_v = opt_text(role_filter);
    let mut filtered: Vec<ConversationMessage> = Vec::new();
    let mut i: usize = 0;
    while i < raw_messages.len()
        invariant
            i <= raw_messages@.len() == timestamps@.len(),
            all == message_summaries(raw_messages@, timestamps@),
            (role matches Some(c) ==> role_v == Some(c@)) && (role is None ==> role_v is None),
            messages_view(filtered@) == (match role_v {
                Some(rv) => with_role(all.take(i as int), rv),
                None => all.take(i as int),
            }),
        decreases raw_messages@.len() - i,
    {
        let m = summarize_message(&raw_messages[i], i, timestamps[i].clone());
        let ghost pre = all.take(i + 1);
        proof {
            assert(pre.drop_last() =~= all.take(i as int));
            assert(pre.last() == all[i as int]);
            assert(all[i as int] == m@);
        }
        let keep = match &role {
            Some(c) => {
                let rc = chars_of(m.role.as_str());
                chars_eq(&rc, c)
            },
            None => true,
        };
        let ghost before = filtered@;
        let ghost mv = m@;
        if keep {
            filtered.push(m);
            assert(messages_view(filtered@) =~= messages_view(before).push(mv));
        }
        i = i + 1;
    }
    assert(all.take(raw_messages@.len() as int) =~= all);
    let filtered_count = filtered.len();
    let ghost fv = messages_view(filtered@);
    let mut page: Vec<ConversationMessage> = Vec::new();
    if offset < filtered_count {
        let mut rest = filtered.split_off(offset);
        let take = if limit < rest.len() {
            limit
        } else {
            rest.len()
        };
        rest.truncate(take);
        page = rest;
        proof {
            assert(messages_view(page@) =~= crate::history::page_of(
                fv,
                offset as nat,
                Some(limit as nat),
            ));
        }
    } else {
        assert(messages_view(page@) =~= crate::history::page_of(
            fv,
            offset as nat,
            Some(limit as nat),
        ));
    }
    let has_more = offset < filtered_count && page.len() < filtered_count - offset;
    PaginatedMessagesResponse {
        task_id: String::from_str(task_id),
        total_messages: raw_messages.len(),
        filtered_count,
        offset,
        limit,
        has_more,
        messages: page,
    }
}

// ---------------------------------------------------------------------------
// Single message, untruncated
// ---------------------------------------------------------------------------

/// A content block with its full content.
pub struct FullContentBlock {
    /// Block type: "text", "thinking", "tool_use", "tool_result", "unknown".
    pub block_type: String,
    /// Full text (text and thinking blocks).
    pub text: Option<String>,
    /// Text length in characters.
    pub text_length: Option<usize>,
    /// Tool use ID (tool_use and tool_result blocks).
    pub tool_use_id: Option<String>,
    /// Tool name (tool_use blocks).
    pub tool_name: Option<String>,
    /// Full tool input as pretty-printed JSON.
    pub tool_input: Option<String>,
    /// Tool input length in characters.
    pub tool_input_length: Option<usize>,
    /// Full tool result text.
    pub tool_result_text: Option<String>,
    /// Tool result length in characters.
    pub tool_result_length: Option<usize>,
}

/// A single message with its full content.
pub struct FullMessageResponse {
    pub task_id: String,
    pub index: usize,
    pub total_messages: usize,
    pub role: String,
    pub timestamp: Option<String>,
    pub content: Vec<FullContentBlock>,
}

/// The length of an optional text.
pub open spec fn olen(o: Option<usize>) -> Option<nat> {
    match o {
        Some(n) => Some(n as nat),
        None => None,
    }
}

/// Whether `f` is the full form of the block `b`.
pub open spec fn full_block_of(f: FullContentBlock, b: RawContentBlock) -> bool {
    match b {
        RawContentBlock::Text { text } => f.block_type@ == "text"@ && ostr(f.text) == Some(text@)
            && olen(f.text_length) == Some(text@.len()) && f.tool_use_id is None && f.tool_name is None
            && f.tool_input is None && f.tool_input_length is None && f.tool_result_text is None
            && f.tool_result_length is None,
        RawContentBlock::Thinking { thinking } => f.block_type@ == "thinking"@ && ostr(f.text) == Some(
            thinking@,
        ) && olen(f.text_length) == Some(thinking@.len()) && f.tool_use_id is None
            && f.tool_name is None && f.tool_input is None && f.tool_input_length is None
            && f.tool_result_text is None && f.tool_result_length is None,
        RawContentBlock::ToolUse { id, name, input_pretty, .. } => f.block_type@ == "tool_use"@
            && f.text is None && f.text_length is None && ostr(f.tool_use_id) == Some(id@) && ostr(
            f.tool_name,
        ) == Some(name@) && ostr(f.tool_input) == Some(input_pretty@) && olen(f.tool_input_length)
            == Some(input_pretty@.len()) && f.tool_result_text is None && f.tool_result_length is None,
        RawContentBlock::ToolResult { tool_use_id, content, .. } => f.block_type@ == "tool_result"@
            && f.text is None && f.text_length is None && ostr(f.tool_use_id) == Some(tool_use_id@)
            && f.tool_name is None && f.tool_input is None && f.tool_input_length is None && ostr(
            f.tool_result_text,
        ) == Some(result_text_of(content)) && olen(f.tool_result_length) == Some(
            result_text_of(content).len(),
        ),
        RawContentBlock::Unknown => f.block_type@ == "unknown"@ && f.text is None && f.text_length is None
            && f.tool_use_id is None && f.tool_name is None && f.tool_input is None
            && f.tool_input_length is None && f.tool_result_text is None && f.tool_result_length is None,
    }
}

/// The full form of a content block.
pub fn full_block(b: &RawContentBlock) -> (r: FullContentBlock)
    ensures
        full_block_of(r, *b),
{
    match b {
        RawContentBlock::Text { text } => FullContentBlock {
            block_type: String::from_str("text"),
            text: Some(text.clone()),
            text_length: Some(char_count(text.as_str())),
            tool_use_id: None,
            tool_name: None,
            tool_input: None,
            tool_input_length: None,
            tool_result_text: None,
            tool_result_length: None,
        },
        RawContentBlock::Thinking { thinking } => FullContentBlock {
            block_type: String::from_str("thinking"),
            text: Some(thinking.clone()),
            text_length: Some(char_count(thinking.as_str())),
            tool_use_id: None,
            tool_name: None,
            tool_input: None,
            tool_input_length: None,
            tool_result_text: None,
            tool_result_length: None,
        },
        RawContentBlock::ToolUse { id, name, input_pretty, .. } => FullContentBlock {
            block_type: String::from_str("tool_use"),
            text: None,
            text_length: None,
            tool_use_id: Some(id.clone()),
            tool_name: Some(name.clone()),
            tool_input: Some(input_pretty.clone()),
            tool_input_length: Some(char_count(input_pretty.as_str())),
            tool_result_text: None,
            tool_result_length: None,
        },
        RawContentBlock::ToolResult { tool_use_id, content, .. } => {
            let text = extract_tool_result_text(content);
            let len = char_count(text.as_str());
            FullContentBlock {
                block_type: String::from_str("tool_result"),
                text: None,
                text_length: None,
                tool_use_id: Some(tool_use_id.clone()),
                tool_name: None,
                tool_input: None,
                tool_input_length: None,
                tool_result_text: Some(text),
                tool_result_length: Some(len),
            }
        },
        RawContentBlock::Unknown => FullContentBlock {
            block_type: String::from_str("unknown"),
            text: None,
            text_length: None,
            tool_use_id: None,
            tool_name: None,
            tool_input: None,
            tool_input_length: None,
            tool_result_text: None,
            tool_result_length: None,
        },
    }
}

/// Message `index` of a conversation with its full content and its
/// timestamp; none when the index is out of bounds.
pub fn parse_single_message(
    task_id: &str,
    raw_messages: &[RawApiMessage],
    timestamps: &[Option<String>],
    index: usize,
) -> (r: Option<FullMessageResponse>)
    requires
        timestamps@.len() == raw_messages@.len(),
    ensures
        index >= raw_messages@.len() ==> r is None,
        index < raw_messages@.len() ==> (r matches Some(m) && m.task_id@ == task_id@ && m.index
            == index && m.total_messages == raw_messages@.len() && m.role
            == raw_messages@[index as int].role && m.timestamp == timestamps@[index as int]
            && m.content@.len() == raw_messages@[index as int].content@.len() && forall|j: int|
            0 <= j < m.content@.len() ==> full_block_of(
                #[trigger] m.content@[j],
                raw_messages@[index as int].content@[j],
            )),
{
    if index >= raw_messages.len() {
        return None;
    }
    let msg = &raw_messages[index];
    let mut content: Vec<FullContentBlock> = Vec::new();
    let mut j: usize = 0;
    while j < msg.content.len()
        invariant
            j <= msg.content@.len(),
            content@.len() == j,
            forall|k: int| 0 <= k < j ==> full_block_of(#[trigger] content@[k], msg.content@[k]),
        decreases msg.content@.len() - j,
    {
        content.push(full_block(&msg.content[j]));
        j = j + 1;
    }
    Some(
        FullMessageResponse {
            task_id: String::from_str(task_id),
            index,
            total_messages: raw_messages.len(),
            role: msg.role.clone(),
            timestamp: crate::text::clone_opt_string(&timestamps[index]),
            content,
        },
    )
}

} // verus!
