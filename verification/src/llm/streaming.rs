//! Streaming responses: the chunks of a streamed chat completion, the
//! Server-Sent Events lines that carry them, and the splitting of received
//! text into lines.

use vstd::prelude::*;
use crate::llm::types::{FinishReason, MessageRole};
use crate::http::prefixed;
use crate::text::{chars_of, starts_with_text, string_of, string_of_range, trim_chars, trim_text};

verus! {

/// A delta update in a streaming response.
#[derive(Debug, Clone)]
pub struct StreamDelta {
    /// Role of the message (only present in first chunk)
    pub role: Option<MessageRole>,
    /// Content fragment
    pub content: Option<String>,
}

/// A streaming choice (partial response).
#[derive(Debug, Clone)]
pub struct StreamChoice {
    /// Index of this choice
    pub index: usize,
    /// Incremental content update
    pub delta: StreamDelta,
    /// Reason for finishing (only in final chunk)
    pub finish_reason: Option<FinishReason>,
}

/// A chunk from a streaming response.
#[derive(Debug, Clone)]
pub struct StreamChunk {
    /// Unique identifier for this completion
    pub id: String,
    /// Object type (always "chat.completion.chunk")
    pub object: String,
    /// Unix timestamp of when the chunk was created
    pub created: u64,
    /// Model used for the completion
    pub model: String,
    /// List of streaming choices
    pub choices: Vec<StreamChoice>,
}

impl StreamChunk {
    /// The finish reason of the first choice, if there is a choice and it has one.
    pub open spec fn first_finish(&self) -> Option<FinishReason> {
        if self.choices@.len() == 0 {
            None
        } else {
            self.choices@[0].finish_reason
        }
    }

    /// Get the content from this chunk: the first choice's content fragment, if any.
    pub fn content(&self) -> (r: Option<&str>)
        ensures
            match r {
                Some(c) => self.choices@.len() > 0 && (self.choices@[0].delta.content matches Some(t) && t@ == c@),
                None => self.choices@.len() == 0 || self.choices@[0].delta.content.is_none(),
            },
    {
        if self.choices.len() == 0 {
            return None;
        }
        match &self.choices[0].delta.content {
            Some(c) => Some(c.as_str()),
            None => None,
        }
    }

    /// Check if this is the final chunk: the first choice has a finish reason.
    pub fn is_done(&self) -> (r: bool)
        ensures
            r == self.first_finish().is_some(),
    {
        if self.choices.len() == 0 {
            return false;
        }
        self.choices[0].finish_reason.is_some()
    }

    /// Get the finish reason (if this is the final chunk).
    pub fn finish_reason(&self) -> (r: Option<&FinishReason>)
        ensures
            match r {
                Some(f) => self.first_finish() == Some(*f),
                None => self.first_finish().is_none(),
            },
    {
        if self.choices.len() == 0 {
            return None;
        }
        match &self.choices[0].finish_reason {
            Some(f) => Some(f),
            None => None,
        }
    }
}

/// Event from streaming response parsing.
#[derive(Debug, Clone)]
pub enum StreamEvent {
    /// A content chunk was received
    Chunk(StreamChunk),
    /// Stream completed
    Done,
    /// Error parsing chunk
    Error(String),
}

/// What a Server-Sent Events line holds.
#[derive(Debug, Clone, PartialEq, Eq)]
pub enum SseLine {
    /// An empty line, a comment, or a line that carries no data
    Ignored,
    /// The end-of-stream marker `data: [DONE]`
    Done,
    /// The data of a `data: ` line, to be parsed as a chunk
    Data(String),
}

/// What a line holds: it is read trimmed; empty lines and comments (a
/// leading `:`) are ignored, `data: [DONE]` ends the stream, and the rest
/// of a `data: ` line is its data.
pub open spec fn sse_line_kind(line: Seq<char>) -> (int, Seq<char>) {
    let t = trim_text(line);
    if t.len() == 0 || t[0] == ':' {
        (0, Seq::empty())
    } else if t == "data: [DONE]"@ {
        (1, Seq::empty())
    } else if starts_with_text(t, "data: "@) {
        (2, t.skip(6))
    } else {
        (0, Seq::empty())
    }
}

/// The kind and data of a classified line.
pub open spec fn sse_parts(l: SseLine) -> (int, Seq<char>) {
    match l {
        SseLine::Ignored => (0, Seq::empty()),
        SseLine::Done => (1, Seq::empty()),
        SseLine::Data(d) => (2, d@),
    }
}

/// Classify a Server-Sent Events line.
pub fn classify_sse_line(line: &str) -> (r: SseLine)
    ensures
        sse_parts(r) == sse_line_kind(line@),
{
    let v = chars_of(line);
    let t = trim_chars(&v);
    if t.len() == 0 || t[0] == ':' {
        return SseLine::Ignored;
    }
    let ts = string_of(&t);
    if crate::text::str_eq(ts.as_str(), "data: [DONE]") {
        return SseLine::Done;
    }
    if crate::text::starts_with_chars(&t, "data: ") {
        proof {
            reveal_strlit("data: ");
        }
        let data = string_of_range(&t, 6, t.len());
        assert(data@ =~= t@.skip(6));
        return SseLine::Data(data);
    }
    SseLine::Ignored
}

/// The event of a parsed data line: the chunk, or an error that carries the
/// parser's message.
pub fn chunk_event(parsed: Result<StreamChunk, String>) -> (r: StreamEvent)
    ensures
        match parsed {
            Ok(c) => r == StreamEvent::Chunk(c),
            Err(e) => r matches StreamEvent::Error(m) && m@ == "Failed to parse chunk: "@ + e@,
        },
{
    match parsed {
        Ok(chunk) => StreamEvent::Chunk(chunk),
        Err(e) => StreamEvent::Error(prefixed("Failed to parse chunk: ", e.as_str())),
    }
}

/// The text that complete lines and a remainder make: each line followed by
/// a newline, then the remainder.
pub open spec fn rejoined(lines: Seq<Seq<char>>, rest: Seq<char>) -> Seq<char>
    decreases lines.len(),
{
    if lines.len() == 0 {
        rest
    } else {
        lines[0] + seq!['\n'] + rejoined(lines.drop_first(), rest)
    }
}

/// Whether a text holds no newline.
pub open spec fn no_newline(s: Seq<char>) -> bool {
    forall|i: int| 0 <= i < s.len() ==> s[i] != '\n'
}

proof fn lemma_rejoined_push(lines: Seq<Seq<char>>, line: Seq<char>, rest: Seq<char>)
    ensures
        rejoined(lines.push(line), rest) == rejoined(lines, line + seq!['\n'] + rest),
    decreases lines.len(),
{
    if lines.len() == 0 {
        assert(lines.push(line).drop_first() =~= Seq::<Seq<char>>::empty());
        assert(rejoined(Seq::<Seq<char>>::empty(), rest) == rest);
        assert(lines.push(line)[0] == line);
        assert(rejoined(lines.push(line), rest) =~= line + seq!['\n'] + rest);
    } else {
        assert(lines.push(line).drop_first() =~= lines.drop_first().push(line));
        lemma_rejoined_push(lines.drop_first(), line, rest);
        assert(rejoined(lines.push(line), rest) =~= lines[0] + seq!['\n'] + rejoined(
            lines.drop_first().push(line),
            rest,
        ));
    }
}

/// Split received text into its complete lines and the unfinished rest:
/// the text is the lines, each followed by a newline, then the rest; no
/// line and not the rest holds a newline.
pub fn split_complete_lines(buffer: &str) -> (r: (Vec<String>, String))
    ensures
        rejoined(r.0@.map_values(|l: String| l@), r.1@) == buffer@,
        forall|i: int| 0 <= i < r.0@.len() ==> no_newline(#[trigger] r.0@[i]@),
        no_newline(r.1@),
{
    let v = chars_of(buffer);
    let mut lines: Vec<String> = Vec::new();
    let mut start: usize = 0;
    let mut i: usize = 0;
    while i < v.len()
        invariant
            start <= i <= v@.len(),
            v@ == buffer@,
            rejoined(lines@.map_values(|l: String| l@), v@.skip(start as int)) == buffer@,
            forall|k: int| 0 <= k < lines@.len() ==> no_newline(#[trigger] lines@[k]@),
            forall|k: int| start <= k < i ==> v@[k] != '\n',
        decreases v@.len() - i,
    {
        if v[i] == '\n' {
            let line = string_of_range(&v, start, i);
            proof {
                let ls = lines@.map_values(|l: String| l@);
                assert(v@.skip(start as int) =~= line@ + seq!['\n'] + v@.skip(i + 1));
                lemma_rejoined_push(ls, line@, v@.skip(i + 1));
                assert(lines@.push(line).map_values(|l: String| l@) =~= ls.push(line@));
            }
            lines.push(line);
            start = i + 1;
        }
        i = i + 1;
    }
    let rest = string_of_range(&v, start, v.len());
    assert(rest@ =~= v@.skip(start as int));
    (lines, rest)
}

/// Whether what remains of a stream is worth parsing as a last line: it is
/// not blank.
pub fn has_content(rest: &str) -> (r: bool)
    ensures
        r == (trim_text(rest@).len() > 0),
{
    let v = chars_of(rest);
    trim_chars(&v).len() > 0
}

} // verus!
