//! Laws of the hook that logs what an agent's runtime does.

use orra::namespace::Namespace;
use orra::store::Session;
use serde_json::Value;
use vstd::prelude::*;
use vstd::string::*;
use vstd::utf8::{
    decode_utf8, encode_scalar, encode_utf8, is_char_boundary, length_of_first_scalar,
    pop_first_scalar,
};

use super::text::{is_number, number_is_written_in_base_ten};
use crate::hooks::file_logging::{
    cut_at, preview_of, session_loaded_log, session_saved_log, tool_call_log, FileLoggingHook,
};
use crate::outside::{json_text, session_message_count};
use crate::text::on_one_line;

verus! {

/// `line` is `text` with a space in place of each line feed: it is as long, and is `text`
/// itself at every other position.
pub open spec fn is_text_on_one_line(line: Seq<char>, text: Seq<char>) -> bool {
    &&& line.len() == text.len()
    &&& forall|i: int|
        0 <= i < text.len() ==> #[trigger] line[i] == if text[i] == '\n' {
            ' '
        } else {
            text[i]
        }
}

/// `shown` is what the log shows of `text`: all of it where it has 120 bytes at most, and
/// else as many characters from its beginning as fit in 120 bytes, and three dots. Line
/// feeds are shown as spaces.
pub open spec fn is_shown(shown: Seq<char>, text: Seq<char>) -> bool {
    if encode_utf8(text).len() <= 120 {
        is_text_on_one_line(shown, text)
    } else {
        exists|count: int|
            {
                &&& 0 <= count < text.len()
                &&& encode_utf8(text.take(count)).len() <= 120 < encode_utf8(
                    text.take(count + 1),
                ).len()
                &&& #[trigger] is_text_on_one_line(shown, text.take(count) + "..."@)
            }
    }
}

proof fn characters_start_one_after_the_other(text: Seq<char>, count: int)
    requires
        0 <= count <= text.len(),
    ensures
        is_char_boundary(encode_utf8(text), encode_utf8(text.take(count)).len() as int),
        count < text.len() ==> encode_utf8(text.take(count)).len() < encode_utf8(
            text.take(count + 1),
        ).len(),
    decreases count,
{
    let bytes = encode_utf8(text);
    vstd::utf8::encode_utf8_valid_utf8(text);
    if count == 0 {
        if text.len() > 0 {
            assert(encode_utf8(text.take(1)).len() >= encode_scalar(text[0] as u32).len());
        }
    } else {
        let rest = text.drop_first();
        characters_start_one_after_the_other(rest, count - 1);
        vstd::utf8::encode_utf8_first_scalar(text);
        assert(pop_first_scalar(bytes) =~= encode_utf8(rest));
        assert(text.take(count).drop_first() =~= rest.take(count - 1));
        if count < text.len() {
            assert(text.take(count + 1).drop_first() =~= rest.take(count));
        }
        let at = encode_utf8(text.take(count)).len() as int;
        let first = length_of_first_scalar(bytes);
        assert(at == first + encode_utf8(rest.take(count - 1)).len());
        vstd::utf8::encode_utf8_valid_utf8(rest);
        assert(encode_utf8(rest.take(count - 1)).len() <= encode_utf8(rest).len());
    }
}

proof fn cut_is_the_last_boundary(bytes: Seq<u8>, limit: nat, at: int)
    requires
        vstd::utf8::valid_utf8(bytes),
        0 <= at <= limit,
        is_char_boundary(bytes, at),
    ensures
        at <= cut_at(bytes, limit) <= limit,
        is_char_boundary(bytes, cut_at(bytes, limit) as int),
    decreases limit,
{
    if limit > 0 && !is_char_boundary(bytes, limit as int) {
        cut_is_the_last_boundary(bytes, (limit - 1) as nat, at);
    }
}

proof fn preview_is_shown(text: Seq<char>)
    ensures
        is_shown(on_one_line(preview_of(text)), text),
{
    let shown = on_one_line(preview_of(text));
    if encode_utf8(text).len() > 120 {
        let bytes = encode_utf8(text);
        let cut = cut_at(bytes, 120) as int;
        let head = decode_utf8(bytes.subrange(0, cut));
        let count = head.len() as int;
        vstd::utf8::encode_utf8_valid_utf8(text);
        vstd::utf8::encode_utf8_decode_utf8(text);
        cut_is_the_last_boundary(bytes, 120, 0);
        vstd::utf8::valid_utf8_split(bytes, cut);
        vstd::utf8::decode_utf8_split(bytes, cut);
        vstd::utf8::decode_utf8_encode_utf8(bytes.subrange(0, cut));
        assert(text.take(count) =~= head);
        if count == text.len() {
            assert(text =~= head);
        }
        characters_start_one_after_the_other(text, count);
        characters_start_one_after_the_other(text, count + 1);
        let next = encode_utf8(text.take(count + 1)).len() as int;
        if next <= 120 {
            cut_is_the_last_boundary(bytes, 120, next);
        }
        assert(is_text_on_one_line(shown, text.take(count) + "..."@));
    }
}

/// The log of a call shows the tool's name and what is shown of its arguments.
pub proof fn call_is_logged_with_its_arguments(name: &str, arguments: &str, log: String)
    requires
        call_ensures(tool_call_log, (name, arguments), log),
    ensures
        exists|shown: Seq<char>| #[trigger]
            is_shown(shown, arguments@) && log@ == "[tool] calling: "@ + name@ + " ("@ + shown
                + ")"@,
{
    preview_is_shown(arguments@);
}

/// The hook logs a call with the arguments as compact JSON.
pub proof fn call_is_logged_with_its_json<I>(
    hook: FileLoggingHook<I>,
    name: &str,
    arguments: Value,
    log: String,
)
    requires
        call_ensures(FileLoggingHook::<I>::before_tool_call, (&hook, name, &arguments), log),
    ensures
        exists|shown: Seq<char>| #[trigger]
            is_shown(shown, json_text(arguments)) && log@ == "[tool] calling: "@ + name@ + " ("@
                + shown + ")"@,
{
    preview_is_shown(json_text(arguments));
}

/// The log of a return shows the tool's name, whether it failed, and what is shown of its
/// output.
pub proof fn return_is_logged_with_its_output<I>(
    hook: FileLoggingHook<I>,
    name: &str,
    is_error: bool,
    content: &str,
    log: String,
)
    requires
        call_ensures(
            FileLoggingHook::<I>::after_tool_call,
            (&hook, name, is_error, content),
            log,
        ),
    ensures
        exists|shown: Seq<char>|
            {
                &&& #[trigger] is_shown(shown, content@)
                &&& is_error ==> log@ == "[tool] "@ + name@ + " → "@ + "error"@ + " ("@ + shown
                    + ")"@
                &&& !is_error ==> log@ == "[tool] "@ + name@ + " → "@ + "ok"@ + " ("@ + shown
                    + ")"@
            },
{
    preview_is_shown(content@);
}

/// What is shown of a text keeps every character but line feeds, and is one line. A short
/// text without line feeds is shown unchanged, and a long one ends with three dots.
pub proof fn shown_text_is_kept(text: Seq<char>, shown: Seq<char>, i: int)
    requires
        is_shown(shown, text),
    ensures
        encode_utf8(text).len() <= 120 && !text.contains('\n') ==> shown == text,
        encode_utf8(text).len() <= 120 ==> shown.len() == text.len(),
        encode_utf8(text).len() > 120 ==> 3 <= shown.len() < text.len() + 3 && shown.skip(
            shown.len() - 3,
        ) == "..."@,
        0 <= i < text.len() && (encode_utf8(text).len() <= 120 || i < shown.len() - 3)
            && text[i] != '\n' ==> shown[i] == text[i],
        !shown.contains('\n'),
{
    reveal_strlit("...");
    if encode_utf8(text).len() <= 120 {
        if !text.contains('\n') {
            assert(shown =~= text);
        }
    } else {
        let count = choose|count: int|
            {
                &&& 0 <= count < text.len()
                &&& encode_utf8(text.take(count)).len() <= 120 < encode_utf8(
                    text.take(count + 1),
                ).len()
                &&& #[trigger] is_text_on_one_line(shown, text.take(count) + "..."@)
            };
        let whole = text.take(count) + "..."@;
        assert(whole[count] == '.' && whole[count + 1] == '.' && whole[count + 2] == '.');
        assert(shown[count] == '.' && shown[count + 1] == '.' && shown[count + 2] == '.');
        assert(shown.skip(shown.len() - 3) =~= "..."@);
        if 0 <= i < shown.len() - 3 {
            assert(whole[i] == text[i]);
            assert(shown[i] == if whole[i] == '\n' { ' ' } else { whole[i] });
        }
    }
}

/// A loaded session is logged with the number of its messages and its key, and a session
/// without messages as a new one.
pub proof fn loaded_session_is_logged(count: usize, key: &str, log: String)
    requires
        call_ensures(session_loaded_log, (count, key), log),
    ensures
        count == 0 ==> log@ == "[session] new session for "@ + key@,
        count > 0 ==> exists|digits: Seq<char>| #[trigger]
            is_number(digits, count as int) && log@ == "[session] loaded "@ + digits
                + " messages for "@ + key@,
{
    number_is_written_in_base_ten(count as nat);
}

/// A saved session is logged with the number of its messages and its key.
pub proof fn saved_session_is_logged(count: usize, key: &str, log: String)
    requires
        call_ensures(session_saved_log, (count, key), log),
    ensures
        exists|digits: Seq<char>| #[trigger]
            is_number(digits, count as int) && log@ == "[session] saving "@ + digits
                + " messages for "@ + key@,
{
    number_is_written_in_base_ten(count as nat);
}

/// Loading a session logs it under the key of its namespace and starts every count over,
/// whatever was counted. When the provider was last called stays known.
pub proof fn loading_starts_the_counts_over<I>(
    before: FileLoggingHook<I>,
    after: FileLoggingHook<I>,
    namespace: Namespace,
    session: Session,
    key: String,
    log: String,
)
    requires
        call_ensures(Namespace::key, (&namespace,), key),
        exists|hook: &mut FileLoggingHook<I>|
            *hook == before && *final(hook) == after && #[trigger] call_ensures(
                FileLoggingHook::<I>::after_session_load,
                (hook, &namespace, &session),
                log,
            ),
    ensures
        after.turn == 0,
        after.total_input_tokens == 0,
        after.total_output_tokens == 0,
        after.call_start == before.call_start,
        session_message_count(session) == 0 ==> log@ == "[session] new session for "@ + key@,
        session_message_count(session) > 0 ==> exists|digits: Seq<char>| #[trigger]
            is_number(digits, session_message_count(session) as int) && log@
                == "[session] loaded "@ + digits + " messages for "@ + key@,
{
    number_is_written_in_base_ten(session_message_count(session));
}

/// Saving a session logs it under the key of its namespace.
pub proof fn saving_is_logged<I>(
    hook: FileLoggingHook<I>,
    namespace: Namespace,
    session: Session,
    key: String,
    log: String,
)
    requires
        call_ensures(Namespace::key, (&namespace,), key),
        call_ensures(
            FileLoggingHook::<I>::before_session_save,
            (&hook, &namespace, &session),
            log,
        ),
    ensures
        exists|digits: Seq<char>| #[trigger]
            is_number(digits, session_message_count(session) as int) && log@
                == "[session] saving "@ + digits + " messages for "@ + key@,
{
    number_is_written_in_base_ten(session_message_count(session));
}

/// A new hook has counted nothing.
pub proof fn new_hook_has_counted_nothing<I>(hook: FileLoggingHook<I>)
    requires
        call_ensures(FileLoggingHook::<I>::new, (), hook),
    ensures
        hook.call_start is None,
        hook.turn == 0,
        hook.total_input_tokens == 0,
        hook.total_output_tokens == 0,
{
}

/// Every call of the provider counts as one more turn and leaves the tokens. Its log tells
/// the turn, the messages and the tools.
pub proof fn call_of_the_provider_is_a_turn<I>(
    before: FileLoggingHook<I>,
    after: FileLoggingHook<I>,
    message_count: usize,
    tool_count: usize,
    now: I,
    log: String,
)
    requires
        exists|hook: &mut FileLoggingHook<I>|
            *hook == before && *final(hook) == after && #[trigger] call_ensures(
                FileLoggingHook::<I>::before_provider_call,
                (hook, message_count, tool_count, now),
                log,
            ),
    ensures
        after.turn == before.turn + 1,
        after.total_input_tokens == before.total_input_tokens,
        after.total_output_tokens == before.total_output_tokens,
        after.call_start == Some(now),
        exists|turn: Seq<char>, messages: Seq<char>, tools: Seq<char>|
            {
                &&& #[trigger] is_number(turn, before.turn + 1)
                &&& #[trigger] is_number(messages, message_count as int)
                &&& #[trigger] is_number(tools, tool_count as int)
                &&& log@ == "[llm] turn "@ + turn + ": calling provider ("@ + messages
                    + " messages, "@ + tools + " tools)"@
            },
{
    number_is_written_in_base_ten((before.turn + 1) as nat);
    number_is_written_in_base_ten(message_count as nat);
    number_is_written_in_base_ten(tool_count as nat);
}

/// Every answer of the provider adds its tokens to those counted, which start over at two
/// to the power of 64, and leaves the turn. Its log tells the turn, the time, the tokens
/// of the answer and those counted with it.
pub proof fn answer_of_the_provider_adds_its_tokens<I>(
    before: FileLoggingHook<I>,
    after: FileLoggingHook<I>,
    elapsed: &str,
    input_tokens: u32,
    output_tokens: u32,
    log: String,
)
    requires
        exists|hook: &mut FileLoggingHook<I>|
            *hook == before && *final(hook) == after && #[trigger] call_ensures(
                FileLoggingHook::<I>::after_provider_call,
                (hook, elapsed, input_tokens, output_tokens),
                log,
            ),
    ensures
        after.turn == before.turn,
        after.call_start == before.call_start,
        before.total_input_tokens + input_tokens <= u64::MAX ==> after.total_input_tokens
            == before.total_input_tokens + input_tokens,
        before.total_input_tokens + input_tokens > u64::MAX ==> after.total_input_tokens
            + u64::MAX + 1 == before.total_input_tokens + input_tokens,
        before.total_output_tokens + output_tokens <= u64::MAX ==> after.total_output_tokens
            == before.total_output_tokens + output_tokens,
        before.total_output_tokens + output_tokens > u64::MAX ==> after.total_output_tokens
            + u64::MAX + 1 == before.total_output_tokens + output_tokens,
        exists|
            turn: Seq<char>,
            sent: Seq<char>,
            got: Seq<char>,
            all_sent: Seq<char>,
            all_got: Seq<char>,
        |
            {
                &&& #[trigger] is_number(turn, before.turn as int)
                &&& #[trigger] is_number(sent, input_tokens as int)
                &&& #[trigger] is_number(got, output_tokens as int)
                &&& #[trigger] is_number(all_sent, after.total_input_tokens as int)
                &&& #[trigger] is_number(all_got, after.total_output_tokens as int)
                &&& log@ == "[llm] turn "@ + turn + ": response in "@ + elapsed@ + "s — "@ + sent
                    + " in / "@ + got + " out tokens (total: "@ + all_sent + " in / "@ + all_got
                    + " out)"@
            },
{
    number_is_written_in_base_ten(before.turn as nat);
    number_is_written_in_base_ten(input_tokens as nat);
    number_is_written_in_base_ten(output_tokens as nat);
    number_is_written_in_base_ten(after.total_input_tokens as nat);
    number_is_written_in_base_ten(after.total_output_tokens as nat);
}

}
