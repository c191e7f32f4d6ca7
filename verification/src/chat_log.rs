//! The text of the chat log: the blocks written for each event of a stream,
//! and the name of the directory a chat's log goes into.
use crate::projects::{join, texts_of};
use crate::text::{append_str, chars_of, int_decimal, nat_decimal, push_char, push_i64, push_u64};
use vstd::prelude::*;

verus! {

/// `s` with a newline appended unless it already ends with one.
pub open spec fn with_newline(s: Seq<char>) -> Seq<char> {
    if s.len() > 0 && s.last() == '\n' {
        s
    } else {
        s.push('\n')
    }
}

fn push_with_newline(out: &mut String, s: &str)
    ensures
        final(out)@ == old(out)@ + with_newline(s@),
{
    let v = chars_of(s);
    append_str(out, s);
    if v.len() == 0 || v[v.len() - 1] != '\n' {
        push_char(out, '\n');
    }
}

pub(crate) fn push_joined(out: &mut String, list: &[String], sep: &str)
    ensures
        final(out)@ == old(out)@ + join(texts_of(list@), sep@),
{
    let ghost t = texts_of(list@);
    let mut i: usize = 0;
    while i < list.len()
        invariant
            i <= list@.len(),
            t == texts_of(list@),
            out@ == old(out)@ + join(t.take(i as int), sep@),
        decreases list@.len() - i,
    {
        let ghost before = out@;
        if i > 0 {
            append_str(out, sep);
        }
        append_str(out, list[i].as_str());
        proof {
            let p = t.take(i + 1);
            assert(p.drop_last() =~= t.take(i as int));
            assert(p.last() == list@[i as int]@);
            if i == 0 {
                assert(p.len() == 1);
                assert(join(p, sep@) == p[0]);
            }
            assert(out@ =~= old(out)@ + join(p, sep@));
        }
        i += 1;
    }
    assert(t.take(list@.len() as int) =~= t);
}

/// The block that opens a stream's log.
pub open spec fn stream_start_text(chat_id: int, title: Seq<char>, model: Seq<char>, tools: Seq<Seq<char>>, messages: Seq<char>) -> Seq<char> {
    let tools_line = if tools.len() > 0 {
        "available tools: "@ + join(tools, ", "@) + "\n"@
    } else {
        Seq::empty()
    };
    let body = "model: "@ + model + "\n"@ + tools_line + "\n----- messages sent to API -----\n"@ + with_newline(messages);
    "===== Chat \""@ + title + "\" (id="@ + int_decimal(chat_id) + "): stream started =====\n"@ + body + "\n"@
}

/// The block that opens a stream's log.
pub fn stream_start_block(chat_id: i64, title: &str, model: &str, tools: &[String], messages: &str) -> (r: String)
    ensures
        r@ == stream_start_text(chat_id as int, title@, model@, texts_of(tools@), messages@),
{
    let mut r = String::new();
    append_str(&mut r, "===== Chat \"");
    append_str(&mut r, title);
    append_str(&mut r, "\" (id=");
    push_i64(&mut r, chat_id);
    append_str(&mut r, "): stream started =====\n");
    append_str(&mut r, "model: ");
    append_str(&mut r, model);
    append_str(&mut r, "\n");
    if tools.len() > 0 {
        append_str(&mut r, "available tools: ");
        push_joined(&mut r, tools, ", ");
        append_str(&mut r, "\n");
    }
    append_str(&mut r, "\n----- messages sent to API -----\n");
    push_with_newline(&mut r, messages);
    append_str(&mut r, "\n");
    assert(r@ =~= stream_start_text(chat_id as int, title@, model@, texts_of(tools@), messages@));
    r
}

/// Token counts of an AI response.
#[derive(Debug, Clone, Copy)]
pub struct TokenUsage {
    pub prompt_tokens: u64,
    pub completion_tokens: u64,
    pub total_tokens: u64,
}

/// The block that records an assistant response.
pub open spec fn assistant_response_text(reasoning: Option<Seq<char>>, content: Seq<char>, finish_reason: Seq<char>, tokens: Option<TokenUsage>) -> Seq<char> {
    let reasoning_part = match reasoning {
        Some(r) => if r.len() > 0 {
            "----- reasoning -----\n"@ + with_newline(r) + "\n"@
        } else {
            Seq::empty()
        },
        None => Seq::empty(),
    };
    let tokens_part = match tokens {
        Some(u) => "tokens: prompt="@ + nat_decimal(u.prompt_tokens as nat) + ", completion="@ + nat_decimal(
            u.completion_tokens as nat,
        ) + ", total="@ + nat_decimal(u.total_tokens as nat) + "\n"@,
        None => Seq::empty(),
    };
    let body = reasoning_part + "----- message -----\n"@ + with_newline(content) + "\nfinish_reason: "@
        + finish_reason + "\n"@ + tokens_part;
    "===== Assistant response =====\n"@ + body + "\n"@
}

/// The block that records an assistant response.
pub fn assistant_response_block(reasoning: Option<&str>, content: &str, finish_reason: &str, tokens: Option<&TokenUsage>) -> (r: String)
    ensures
        r@ == assistant_response_text(
            crate::todo::text_of(reasoning),
            content@,
            finish_reason@,
            match tokens {
                Some(t) => Some(*t),
                None => None,
            },
        ),
{
    let mut r = String::new();
    append_str(&mut r, "===== Assistant response =====\n");
    if let Some(text) = reasoning {
        if !text.is_empty() {
            append_str(&mut r, "----- reasoning -----\n");
            push_with_newline(&mut r, text);
            append_str(&mut r, "\n");
        }
    }
    append_str(&mut r, "----- message -----\n");
    push_with_newline(&mut r, content);
    append_str(&mut r, "\nfinish_reason: ");
    append_str(&mut r, finish_reason);
    append_str(&mut r, "\n");
    if let Some(usage) = tokens {
        append_str(&mut r, "tokens: prompt=");
        push_u64(&mut r, usage.prompt_tokens);
        append_str(&mut r, ", completion=");
        push_u64(&mut r, usage.completion_tokens);
        append_str(&mut r, ", total=");
        push_u64(&mut r, usage.total_tokens);
        append_str(&mut r, "\n");
    }
    append_str(&mut r, "\n");
    assert(r@ =~= assistant_response_text(
        crate::todo::text_of(reasoning),
        content@,
        finish_reason@,
        match tokens {
            Some(t) => Some(*t),
            None => None,
        },
    ));
    r
}

/// A block with a header naming a tool and a call id, then a body.
pub open spec fn tool_block_text(kind: Seq<char>, name: Seq<char>, call_id: Seq<char>, body: Seq<char>) -> Seq<char> {
    "===== "@ + kind + ": "@ + name + " (id="@ + call_id + ") =====\n"@ + body + "\n"@
}

fn tool_block(kind: &str, name: &str, call_id: &str, body: &str) -> (r: String)
    ensures
        r@ == tool_block_text(kind@, name@, call_id@, body@),
{
    let mut r = String::new();
    append_str(&mut r, "===== ");
    append_str(&mut r, kind);
    append_str(&mut r, ": ");
    append_str(&mut r, name);
    append_str(&mut r, " (id=");
    append_str(&mut r, call_id);
    append_str(&mut r, ") =====\n");
    append_str(&mut r, body);
    append_str(&mut r, "\n");
    assert(r@ =~= tool_block_text(kind@, name@, call_id@, body@));
    r
}

/// The block that records a tool call.
pub fn tool_call_block(name: &str, call_id: &str, arguments: &str) -> (r: String)
    ensures
        r@ == tool_block_text("Tool call"@, name@, call_id@, arguments@),
{
    tool_block("Tool call", name, call_id, arguments)
}

/// The block that records a tool result.
pub fn tool_result_block(name: &str, call_id: &str, result: &str) -> (r: String)
    ensures
        r@ == tool_block_text("Tool result"@, name@, call_id@, result@),
{
    tool_block("Tool result", name, call_id, result)
}

/// The block that records the raw JSON of a tool result.
pub fn tool_result_raw_block(name: &str, call_id: &str, raw_json: &str) -> (r: String)
    ensures
        r@ == tool_block_text("TOOL RESULT RAW"@, name@, call_id@, raw_json@),
{
    tool_block("TOOL RESULT RAW", name, call_id, raw_json)
}

/// The block that closes a finished stream.
pub fn stream_finished_block(finish_reason: &str, duration_ms: u64) -> (r: String)
    ensures
        r@ == "===== Stream finished =====\nfinish_reason: "@ + finish_reason@ + "\ntotal duration: "@
            + nat_decimal(duration_ms as nat) + "ms\n"@,
{
    let mut r = String::new();
    append_str(&mut r, "===== Stream finished =====\nfinish_reason: ");
    append_str(&mut r, finish_reason);
    append_str(&mut r, "\ntotal duration: ");
    push_u64(&mut r, duration_ms);
    append_str(&mut r, "ms\n");
    r
}

/// The block that records a stream error.
pub fn stream_error_block(error: &str) -> (r: String)
    ensures
        r@ == "===== Stream error =====\nerror: "@ + error@ + "\n"@,
{
    let mut r = String::new();
    append_str(&mut r, "===== Stream error =====\nerror: ");
    append_str(&mut r, error);
    append_str(&mut r, "\n");
    r
}

/// A raw-log block: a header line, then the body.
pub fn raw_block(header: &str, body: &str) -> (r: String)
    ensures
        r@ == "===== "@ + header@ + " =====\n"@ + body@ + "\n"@,
{
    let mut r = String::new();
    append_str(&mut r, "===== ");
    append_str(&mut r, header);
    append_str(&mut r, " =====\n");
    append_str(&mut r, body);
    append_str(&mut r, "\n");
    r
}

/// The raw-log block of one streamed chunk.
pub fn stream_chunk_block(index: usize, chunk_json: &str) -> (r: String)
    ensures
        r@ == "===== STREAM CHUNK "@ + nat_decimal(index as nat) + " =====\n"@ + chunk_json@ + "\n"@,
{
    let mut r = String::new();
    append_str(&mut r, "===== STREAM CHUNK ");
    push_u64(&mut r, index as u64);
    append_str(&mut r, " =====\n");
    append_str(&mut r, chunk_json);
    append_str(&mut r, "\n");
    r
}

/// The raw-log block of an HTTP error; `N/A` stands for a missing status.
pub fn error_block(status: Option<u16>, body: &str) -> (r: String)
    ensures
        r@ == "===== ERROR =====\nstatus: "@ + match status {
            Some(s) => nat_decimal(s as nat),
            None => "N/A"@,
        } + "\n"@ + body@ + "\n"@,
{
    let mut r = String::new();
    append_str(&mut r, "===== ERROR =====\nstatus: ");
    match status {
        Some(s) => push_u64(&mut r, s as u64),
        None => append_str(&mut r, "N/A"),
    }
    append_str(&mut r, "\n");
    append_str(&mut r, body);
    append_str(&mut r, "\n");
    r
}

/// Whether `char::is_alphanumeric` holds of a character (Unicode `Alphabetic`
/// or `Numeric`); the tables are not written out here.
pub uninterp spec fn alphanumeric(c: char) -> bool;

/// `char::is_alphanumeric`: named `alphanumeric`, a function of the character.
#[verifier::external_body]
fn is_alphanumeric(c: char) -> (b: bool)
    ensures
        b == alphanumeric(c),
{
    c.is_alphanumeric()
}

/// A character of a chat title as it appears in a log directory's name.
pub open spec fn title_char(c: char) -> char {
    if alphanumeric(c) || c == '-' || c == '_' {
        c
    } else {
        '_'
    }
}

/// A chat title made safe for a directory name: every character that is not
/// alphanumeric, `-` or `_` becomes `_`.
pub fn sanitize_title(title: &str) -> (r: String)
    ensures
        r@ == title@.map_values(|c: char| title_char(c)),
{
    let v = chars_of(title);
    let mut r = String::new();
    let mut i: usize = 0;
    while i < v.len()
        invariant
            i <= v@.len(),
            v@ == title@,
            r@ == v@.take(i as int).map_values(|c: char| title_char(c)),
        decreases v@.len() - i,
    {
        let c = v[i];
        let keep = is_alphanumeric(c) || c == '-' || c == '_';
        push_char(&mut r, if keep { c } else { '_' });
        assert(v@.take(i + 1).map_values(|c: char| title_char(c)) =~= v@.take(i as int).map_values(
            |c: char| title_char(c),
        ).push(title_char(c)));
        i += 1;
    }
    assert(v@.take(v@.len() as int) =~= v@);
    r
}

/// The name of a chat's log directory: the sanitized title and the time stamp,
/// then `-counter` when that name is taken (`counter` from 2 on).
pub fn log_dir_name(sanitized_title: &str, timestamp: &str, counter: Option<u64>) -> (r: String)
    ensures
        r@ == sanitized_title@ + "-"@ + timestamp@ + match counter {
            Some(n) => "-"@ + nat_decimal(n as nat),
            None => Seq::empty(),
        },
{
    let mut r = String::new();
    append_str(&mut r, sanitized_title);
    append_str(&mut r, "-");
    append_str(&mut r, timestamp);
    if let Some(n) = counter {
        append_str(&mut r, "-");
        push_u64(&mut r, n);
    }
    assert(r@ =~= sanitized_title@ + "-"@ + timestamp@ + match counter {
        Some(n) => "-"@ + nat_decimal(n as nat),
        None => Seq::empty(),
    });
    r
}

/// A stored message, as the log lists it.
#[derive(Debug, Clone)]
pub struct LoggedMessage {
    pub id: i64,
    pub role: String,
    pub content: String,
}

/// The line of one message in the log.
pub open spec fn message_line(m: LoggedMessage) -> Seq<char> {
    if m.role@ == "tool"@ {
        "[tool "@ + int_decimal(m.id as int) + "] "@ + m.content@ + "\n"@
    } else {
        "["@ + m.role@ + "] "@ + m.content@ + "\n"@
    }
}

/// The lines of all messages.
pub open spec fn message_lines(ms: Seq<LoggedMessage>) -> Seq<char>
    decreases ms.len(),
{
    if ms.len() == 0 {
        Seq::empty()
    } else {
        message_lines(ms.drop_last()) + message_line(ms.last())
    }
}

/// The messages sent to the API, one line each, as the log shows them.
pub fn format_messages_for_log(messages: &[LoggedMessage]) -> (r: String)
    ensures
        r@ == message_lines(messages@),
{
    let mut out = String::new();
    let mut i: usize = 0;
    while i < messages.len()
        invariant
            i <= messages@.len(),
            out@ == message_lines(messages@.take(i as int)),
        decreases messages@.len() - i,
    {
        let ghost before = out@;
        let m = &messages[i];
        if crate::text::str_eq(m.role.as_str(), "tool") {
            append_str(&mut out, "[tool ");
            push_i64(&mut out, m.id);
            append_str(&mut out, "] ");
        } else {
            append_str(&mut out, "[");
            append_str(&mut out, m.role.as_str());
            append_str(&mut out, "] ");
        }
        append_str(&mut out, m.content.as_str());
        append_str(&mut out, "\n");
        assert(messages@.take(i + 1).drop_last() =~= messages@.take(i as int));
        assert(out@ =~= before + message_line(messages@[i as int]));
        i += 1;
    }
    assert(messages@.take(messages@.len() as int) =~= messages@);
    out
}

} // verus!
