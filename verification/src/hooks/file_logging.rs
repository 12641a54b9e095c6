//! The hook that logs every event of an agent's runtime: calls of the provider, calls
//! of tools, and sessions read and written.

use orra::namespace::Namespace;
use orra::store::Session;
use serde_json::Value;
use vstd::prelude::*;
use vstd::string::*;
use vstd::utf8::{
    decode_utf8, encode_utf8, is_char_boundary, length_of_first_scalar, pop_first_scalar, valid_utf8,
};

use crate::outside::{json_text, namespace_segments, print_json, session_message_count};
use crate::text::{decimal, flatten_lines, joined, on_one_line, print_decimal};

verus! {

/// How much of a tool's input or output is logged, in bytes.
pub const PREVIEW_BYTES: usize = 120;

/// The hook, with the counts of the session at hand. A moment in time is of type `I`.
pub struct FileLoggingHook<I> {
    /// When the provider was last called.
    pub call_start: Option<I>,
    /// Calls of the provider.
    pub turn: usize,
    /// Tokens sent to the provider.
    pub total_input_tokens: u64,
    /// Tokens received from the provider.
    pub total_output_tokens: u64,
}

/// What the hook counts.
pub struct Counts {
    pub turn: nat,
    pub total_input_tokens: nat,
    pub total_output_tokens: nat,
}

impl Counts {
    /// Nothing counted yet.
    pub open spec fn none() -> Self {
        Counts { turn: 0, total_input_tokens: 0, total_output_tokens: 0 }
    }
}

impl<I> FileLoggingHook<I> {
    /// What the hook has counted.
    pub open spec fn counts(self) -> Counts {
        Counts {
            turn: self.turn as nat,
            total_input_tokens: self.total_input_tokens as nat,
            total_output_tokens: self.total_output_tokens as nat,
        }
    }
}

/// The key of a namespace.
pub open spec fn key_of(namespace: Namespace) -> Seq<char> {
    joined(namespace_segments(namespace), seq![':'])
}

/// What is logged of a session that was loaded with `count` messages.
pub open spec fn session_loaded(count: nat, key: Seq<char>) -> Seq<char> {
    if count > 0 {
        "[session] loaded "@ + decimal(count) + " messages for "@ + key
    } else {
        "[session] new session for "@ + key
    }
}

/// What is logged of a session that is saved with `count` messages.
pub open spec fn session_saved(count: nat, key: Seq<char>) -> Seq<char> {
    "[session] saving "@ + decimal(count) + " messages for "@ + key
}

/// The last place at or before `limit` where a character of the text starts.
pub open spec fn cut_at(bytes: Seq<u8>, limit: nat) -> nat
    decreases limit,
{
    if limit == 0 || is_char_boundary(bytes, limit as int) {
        limit
    } else {
        cut_at(bytes, (limit - 1) as nat)
    }
}

/// The text itself where it is short, and else as many of its characters as fit in
/// [`PREVIEW_BYTES`] bytes, and dots.
pub open spec fn preview_of(text: Seq<char>) -> Seq<char> {
    let bytes = encode_utf8(text);
    if bytes.len() > PREVIEW_BYTES {
        decode_utf8(bytes.subrange(0, cut_at(bytes, PREVIEW_BYTES as nat) as int)) + "..."@
    } else {
        text
    }
}

/// What is logged of a tool that is about to be called.
pub open spec fn tool_called(name: Seq<char>, arguments: Seq<char>) -> Seq<char> {
    "[tool] calling: "@ + name + " ("@ + on_one_line(preview_of(arguments)) + ")"@
}

/// What is logged of a tool that returned.
pub open spec fn tool_returned(name: Seq<char>, is_error: bool, content: Seq<char>) -> Seq<char> {
    "[tool] "@ + name + " → "@ + (if is_error {
        "error"@
    } else {
        "ok"@
    }) + " ("@ + on_one_line(preview_of(content)) + ")"@
}

/// Two counts added, modulo the range of a count.
pub open spec fn count_sum(a: nat, b: nat) -> nat {
    (a + b) % 0x1_0000_0000_0000_0000
}

/// An event that the hook counts.
pub enum Counted {
    /// The provider is called.
    Call,
    /// The provider has answered.
    Answer { input_tokens: u32, output_tokens: u32 },
}

/// The counts after an event.
pub open spec fn counted(counts: Counts, event: Counted) -> Counts {
    match event {
        Counted::Call => Counts { turn: counts.turn + 1, ..counts },
        Counted::Answer { input_tokens, output_tokens } => Counts {
            total_input_tokens: count_sum(counts.total_input_tokens, input_tokens as nat),
            total_output_tokens: count_sum(counts.total_output_tokens, output_tokens as nat),
            ..counts
        },
    }
}

/// Logs that a session was loaded.
pub fn session_loaded_log(count: usize, key: &str) -> (log: String)
    ensures
        log@ == session_loaded(count as nat, key@),
{
    if count > 0 {
        let mut log = "[session] loaded ".to_owned();
        log.append(print_decimal(count as u64).as_str());
        log.append(" messages for ");
        log.append(key);
        log
    } else {
        let mut log = "[session] new session for ".to_owned();
        log.append(key);
        log
    }
}

/// Logs that a session is about to be saved.
pub fn session_saved_log(count: usize, key: &str) -> (log: String)
    ensures
        log@ == session_saved(count as nat, key@),
{
    let mut log = "[session] saving ".to_owned();
    log.append(print_decimal(count as u64).as_str());
    log.append(" messages for ");
    log.append(key);
    log
}

/// The beginning of a text, for the log.
fn preview(text: &str) -> (beginning: String)
    ensures
        beginning@ == preview_of(text@),
{
    if text.as_bytes().len() > PREVIEW_BYTES {
        let mut cut: usize = PREVIEW_BYTES;
        while cut > 0 && !text.is_char_boundary(cut)
            invariant
                cut <= PREVIEW_BYTES,
                cut_at(encode_utf8(text@), cut as nat) == cut_at(
                    encode_utf8(text@),
                    PREVIEW_BYTES as nat,
                ),
            decreases cut,
        {
            cut -= 1;
        }
        proof {
            vstd::utf8::encode_utf8_valid_utf8(text@);
        }
        let (head, _) = text.split_at(cut);
        proof {
            vstd::utf8::encode_utf8_decode_utf8(head@);
        }
        let mut beginning = head.to_owned();
        beginning.append("...");
        beginning
    } else {
        text.to_owned()
    }
}

/// Logs that a tool is about to be called with these arguments, given as JSON text.
pub fn tool_call_log(name: &str, arguments: &str) -> (log: String)
    ensures
        log@ == tool_called(name@, arguments@),
{
    let shown = flatten_lines(preview(arguments).as_str());
    let mut log = "[tool] calling: ".to_owned();
    log.append(name);
    log.append(" (");
    log.append(shown.as_str());
    log.append(")");
    log
}

impl<I> FileLoggingHook<I> {
    /// The hook before any session.
    pub fn new() -> (hook: Self)
        ensures
            hook.call_start is None,
            hook.counts() == Counts::none(),
    {
        FileLoggingHook {
            call_start: None,
            turn: 0,
            total_input_tokens: 0,
            total_output_tokens: 0,
        }
    }

    /// A session was loaded, or a new one made. The counts start over.
    pub fn after_session_load(&mut self, namespace: &Namespace, session: &Session) -> (log: String)
        ensures
            log@ == session_loaded(session_message_count(*session), key_of(*namespace)),
            final(self).counts() == Counts::none(),
            final(self).call_start == old(self).call_start,
    {
        let log = session_loaded_log(session.message_count(), namespace.key().as_str());
        self.turn = 0;
        self.total_input_tokens = 0;
        self.total_output_tokens = 0;
        log
    }

    /// The provider is about to be called, at `now`.
    pub fn before_provider_call(&mut self, message_count: usize, tool_count: usize, now: I) -> (log:
        String)
        requires
            old(self).turn < usize::MAX,
        ensures
            final(self).counts() == counted(old(self).counts(), Counted::Call),
            final(self).call_start == Some(now),
            log@ == "[llm] turn "@ + decimal((old(self).turn + 1) as nat) + ": calling provider ("@
                + decimal(message_count as nat) + " messages, "@ + decimal(tool_count as nat)
                + " tools)"@,
    {
        self.turn = self.turn + 1;
        let mut log = "[llm] turn ".to_owned();
        log.append(print_decimal(self.turn as u64).as_str());
        log.append(": calling provider (");
        log.append(print_decimal(message_count as u64).as_str());
        log.append(" messages, ");
        log.append(print_decimal(tool_count as u64).as_str());
        log.append(" tools)");
        self.call_start = Some(now);
        log
    }

    /// The provider has answered. `elapsed` is how long it took, in seconds, to be shown
    /// as it is.
    pub fn after_provider_call(&mut self, elapsed: &str, input_tokens: u32, output_tokens: u32) -> (
    log: String)
        ensures
            final(self).counts() == counted(
                old(self).counts(),
                Counted::Answer { input_tokens, output_tokens },
            ),
            final(self).call_start == old(self).call_start,
            log@ == "[llm] turn "@ + decimal(old(self).turn as nat) + ": response in "@ + elapsed@
                + "s — "@ + decimal(input_tokens as nat) + " in / "@ + decimal(
                output_tokens as nat,
            ) + " out tokens (total: "@ + decimal(final(self).total_input_tokens as nat)
                + " in / "@ + decimal(final(self).total_output_tokens as nat) + " out)"@,
    {
        self.total_input_tokens = self.total_input_tokens.wrapping_add(input_tokens as u64);
        self.total_output_tokens = self.total_output_tokens.wrapping_add(output_tokens as u64);
        let mut log = "[llm] turn ".to_owned();
        log.append(print_decimal(self.turn as u64).as_str());
        log.append(": response in ");
        log.append(elapsed);
        log.append("s — ");
        log.append(print_decimal(input_tokens as u64).as_str());
        log.append(" in / ");
        log.append(print_decimal(output_tokens as u64).as_str());
        log.append(" out tokens (total: ");
        log.append(print_decimal(self.total_input_tokens).as_str());
        log.append(" in / ");
        log.append(print_decimal(self.total_output_tokens).as_str());
        log.append(" out)");
        log
    }

    /// A tool is about to be called. It is never held back.
    pub fn before_tool_call(&self, name: &str, arguments: &Value) -> (log: String)
        ensures
            log@ == tool_called(name@, json_text(*arguments)),
    {
        tool_call_log(name, print_json(arguments).as_str())
    }

    /// A tool has returned.
    pub fn after_tool_call(&self, name: &str, is_error: bool, content: &str) -> (log: String)
        ensures
            log@ == tool_returned(name@, is_error, content@),
    {
        let shown = flatten_lines(preview(content).as_str());
        let mut log = "[tool] ".to_owned();
        log.append(name);
        log.append(" → ");
        log.append(if is_error { "error" } else { "ok" });
        log.append(" (");
        log.append(shown.as_str());
        log.append(")");
        log
    }

    /// A session is about to be saved.
    pub fn before_session_save(&self, namespace: &Namespace, session: &Session) -> (log: String)
        ensures
            log@ == session_saved(session_message_count(*session), key_of(*namespace)),
    {
        session_saved_log(session.message_count(), namespace.key().as_str())
    }
}

/// The counts after the events since a session was loaded.
pub open spec fn since_load(events: Seq<Counted>) -> Counts
    decreases events.len(),
{
    if events.len() == 0 {
        Counts::none()
    } else {
        counted(since_load(events.drop_last()), events.last())
    }
}

/// How often the provider was called.
pub open spec fn calls(events: Seq<Counted>) -> nat
    decreases events.len(),
{
    if events.len() == 0 {
        0
    } else {
        calls(events.drop_last()) + match events.last() {
            Counted::Call => 1nat,
            Counted::Answer { .. } => 0,
        }
    }
}

/// The tokens that the provider was sent.
pub open spec fn input_tokens(events: Seq<Counted>) -> nat
    decreases events.len(),
{
    if events.len() == 0 {
        0
    } else {
        input_tokens(events.drop_last()) + match events.last() {
            Counted::Call => 0nat,
            Counted::Answer { input_tokens, .. } => input_tokens as nat,
        }
    }
}

/// The tokens that the provider sent.
pub open spec fn output_tokens(events: Seq<Counted>) -> nat
    decreases events.len(),
{
    if events.len() == 0 {
        0
    } else {
        output_tokens(events.drop_last()) + match events.last() {
            Counted::Call => 0nat,
            Counted::Answer { output_tokens, .. } => output_tokens as nat,
        }
    }
}

/// The hook counts the calls of the provider and the tokens of its answers since the
/// session was loaded. Token counts start over at two to the power of 64.
pub proof fn counts_add_up(events: Seq<Counted>)
    ensures
        since_load(events).turn == calls(events),
        since_load(events).total_input_tokens == count_sum(0, input_tokens(events)),
        since_load(events).total_output_tokens == count_sum(0, output_tokens(events)),
    decreases events.len(),
{
    if events.len() > 0 {
        counts_add_up(events.drop_last());
    }
}

/// A tool's input or output takes one line of the log.
pub proof fn preview_is_one_line(text: Seq<char>)
    ensures
        !on_one_line(preview_of(text)).contains('\n'),
{
    let shown = on_one_line(preview_of(text));
    assert forall|i: int| 0 <= i < shown.len() implies shown[i] != '\n' by {}
}

proof fn character_starts_near(bytes: Seq<u8>, limit: int) -> (at: int)
    requires
        valid_utf8(bytes),
        0 <= limit <= bytes.len(),
    ensures
        0 <= at <= limit < at + 4,
        is_char_boundary(bytes, at),
    decreases bytes.len(),
{
    if limit == 0 || limit < length_of_first_scalar(bytes) {
        0
    } else {
        let first = length_of_first_scalar(bytes);
        character_starts_near(pop_first_scalar(bytes), limit - first) + first
    }
}

proof fn cut_is_the_last_start(bytes: Seq<u8>, limit: nat)
    requires
        valid_utf8(bytes),
    ensures
        cut_at(bytes, limit) <= limit,
        is_char_boundary(bytes, cut_at(bytes, limit) as int),
        forall|at: int|
            cut_at(bytes, limit) < at <= limit ==> !#[trigger] is_char_boundary(bytes, at),
    decreases limit,
{
    if limit > 0 && !is_char_boundary(bytes, limit as int) {
        cut_is_the_last_start(bytes, (limit - 1) as nat);
    }
}

/// A preview shows the beginning of the text: all of it where it is short, and else a part
/// of it with dots behind. That part has [`PREVIEW_BYTES`] bytes where a character ends
/// there, and is never more than three bytes shorter.
pub proof fn preview_shows_the_beginning(text: Seq<char>)
    ensures
        encode_utf8(text).len() <= PREVIEW_BYTES ==> preview_of(text) == text,
        encode_utf8(text).len() > PREVIEW_BYTES ==> exists|head: Seq<char>|
            {
                &&& #[trigger] head.is_prefix_of(text)
                &&& PREVIEW_BYTES - 3 <= encode_utf8(head).len() <= PREVIEW_BYTES
                &&& is_char_boundary(encode_utf8(text), PREVIEW_BYTES as int) ==> encode_utf8(
                    head,
                ).len() == PREVIEW_BYTES
                &&& preview_of(text) == head + "..."@
            },
{
    let bytes = encode_utf8(text);
    if bytes.len() > PREVIEW_BYTES {
        let cut = cut_at(bytes, PREVIEW_BYTES as nat) as int;
        let head = decode_utf8(bytes.subrange(0, cut));
        vstd::utf8::encode_utf8_valid_utf8(text);
        vstd::utf8::encode_utf8_decode_utf8(text);
        cut_is_the_last_start(bytes, PREVIEW_BYTES as nat);
        let near = character_starts_near(bytes, PREVIEW_BYTES as int);
        assert(near <= cut);
        vstd::utf8::valid_utf8_split(bytes, cut);
        vstd::utf8::decode_utf8_split(bytes, cut);
        vstd::utf8::decode_utf8_encode_utf8(bytes.subrange(0, cut));
        assert(head.is_prefix_of(text));
    }
}

}
