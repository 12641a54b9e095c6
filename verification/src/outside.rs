//! What the library takes from other crates and, where vstd is silent, from std.
//!
//! Each item below is believed, not proved. Its comment names the function it
//! stands for and says what is claimed of it.

use axum::http::header::ToStrError;
use axum::http::{HeaderMap, HeaderValue};
use mdns_sd::ServiceInfo;
use orra::message::Message;
use orra::namespace::Namespace;
use orra::store::Session;
use serde_json::Value;
use vstd::prelude::*;

use crate::text::{joined, occurs_in, parts};

verus! {

// Request headers.

/// The headers of a request, `axum::http::HeaderMap`.
#[verifier::external_type_specification]
#[verifier::external_body]
#[verifier::reject_recursive_types(T)]
pub struct ExHeaderMap<T>(HeaderMap<T>);

/// One header's value, `axum::http::HeaderValue`.
#[verifier::external_type_specification]
#[verifier::external_body]
pub struct ExHeaderValue(HeaderValue);

/// The error of `HeaderValue::to_str`.
#[verifier::external_type_specification]
#[verifier::external_body]
pub struct ExToStrError(ToStrError);

/// The headers that a map holds: under each name, in lower case, its values as
/// bytes, in the order in which they were added.
pub uninterp spec fn header_values(headers: HeaderMap<HeaderValue>) -> Map<Seq<char>, Seq<Seq<u8>>>;

/// The bytes of a header's value.
pub uninterp spec fn header_value_bytes(value: HeaderValue) -> Seq<u8>;

/// A header name as `HeaderMap` stores it: short, and made of lower case ASCII
/// letters and hyphens.
pub open spec fn is_lower_header_name(name: Seq<char>) -> bool {
    &&& 0 < name.len() <= 64
    &&& forall|i: int| 0 <= i < name.len() ==> 'a' <= #[trigger] name[i] <= 'z' || name[i] == '-'
}

/// Bytes that can be read as the text of a header: visible ASCII, spaces and tabs.
pub open spec fn is_header_text(bytes: Seq<u8>) -> bool {
    forall|i: int| 0 <= i < bytes.len() ==> 32 <= #[trigger] bytes[i] < 127 || bytes[i] == 9
}

/// Bytes below 128 read as the ASCII characters they stand for.
pub open spec fn ascii_chars(bytes: Seq<u8>) -> Seq<char> {
    bytes.map_values(|byte: u8| byte as char)
}

/// `HeaderMap::get`: the first value stored under `name`, and `None` exactly where
/// nothing is.
#[verifier::external_body]
pub(crate) fn first_header<'a>(headers: &'a HeaderMap, name: &str) -> (value: Option<
    &'a HeaderValue,
>)
    requires
        is_lower_header_name(name@),
    ensures
        match value {
            Some(found) => {
                &&& header_values(*headers).contains_key(name@)
                &&& header_values(*headers)[name@].len() > 0
                &&& header_value_bytes(*found) == header_values(*headers)[name@][0]
            },
            None => !header_values(*headers).contains_key(name@),
        },
{
    headers.get(name)
}

/// `HeaderValue::to_str`: the value as text where all of its bytes are visible ASCII,
/// spaces or tabs, an error otherwise.
pub assume_specification[ HeaderValue::to_str ](value: &HeaderValue) -> (text: Result<
    &str,
    ToStrError,
>)
    ensures
        match text {
            Ok(chars) => {
                &&& is_header_text(header_value_bytes(*value))
                &&& chars@ == ascii_chars(header_value_bytes(*value))
            },
            Err(_) => !is_header_text(header_value_bytes(*value)),
        },
;

// Sessions.

/// The address of a session, `orra::namespace::Namespace`.
#[verifier::external_type_specification]
#[verifier::external_body]
pub struct ExNamespace(Namespace);

/// One message of a session, `orra::message::Message`.
#[verifier::external_type_specification]
#[verifier::external_body]
pub struct ExMessage(Message);

/// A stored session, `orra::store::Session`.
#[verifier::external_type_specification]
#[verifier::external_body]
pub struct ExSession(Session);

/// The segments that a namespace holds, root first.
pub uninterp spec fn namespace_segments(namespace: Namespace) -> Seq<Seq<char>>;

/// The text of a message.
pub uninterp spec fn message_content(message: Message) -> Seq<char>;

/// Whether a message has the role of the user.
pub uninterp spec fn message_is_from_user(message: Message) -> bool;

/// How many tool calls a message holds.
pub uninterp spec fn message_tool_calls(message: Message) -> nat;

/// How many tool results a message holds.
pub uninterp spec fn message_tool_results(message: Message) -> nat;

/// A message in which the user says `content` and nothing else.
pub open spec fn is_user_message(message: Message, content: Seq<char>) -> bool {
    &&& message_content(message) == content
    &&& message_is_from_user(message)
    &&& message_tool_calls(message) == 0
    &&& message_tool_results(message) == 0
}

/// How many messages a session holds.
pub uninterp spec fn session_message_count(session: Session) -> nat;

/// `Namespace::parse`: the segments are the parts of `key` between colons.
pub assume_specification[ Namespace::parse ](key: &str) -> (namespace: Namespace)
    ensures
        namespace_segments(namespace) == parts(key@, ':'),
;

/// `Namespace::key`: the segments, with a colon between each two.
pub assume_specification[ Namespace::key ](namespace: &Namespace) -> (key: String)
    ensures
        key@ == joined(namespace_segments(*namespace), seq![':']),
;

/// `Message::user`: a message with the role of the user, with this text, and without
/// tool calls and tool results.
#[verifier::external_body]
pub(crate) fn user_message(content: &str) -> (message: Message)
    ensures
        message_content(message) == content@,
        message_is_from_user(message),
        message_tool_calls(message) == 0,
        message_tool_results(message) == 0,
{
    Message::user(content)
}

/// `Session::message_count`: how many messages the session holds.
pub assume_specification[ Session::message_count ](session: &Session) -> (count: usize)
    ensures
        count == session_message_count(*session),
;

// JSON.

/// A JSON value, `serde_json::Value`.
#[verifier::external_type_specification]
#[verifier::external_body]
pub struct ExValue(Value);

/// The members of a JSON object whose values are strings; nothing for any other
/// JSON value.
pub uninterp spec fn string_members(value: Value) -> Map<Seq<char>, Seq<char>>;

/// The compact JSON text of a value.
pub uninterp spec fn json_text(value: Value) -> Seq<char>;

/// `Value::get` with a string index, then `Value::as_str`: the member `name` where
/// the value is an object that has it and it is a string, `None` otherwise.
#[verifier::external_body]
pub(crate) fn string_member<'a>(value: &'a Value, name: &str) -> (member: Option<&'a str>)
    ensures
        match member {
            Some(text) => {
                &&& string_members(*value).contains_key(name@)
                &&& string_members(*value)[name@] == text@
            },
            None => !string_members(*value).contains_key(name@),
        },
{
    value.get(name).and_then(|member| member.as_str())
}

/// `Value::to_string`: the value's compact JSON text.
#[verifier::external_body]
pub(crate) fn print_json(value: &Value) -> (text: String)
    ensures
        text@ == json_text(*value),
{
    value.to_string()
}

// Service discovery.

/// What an instance announces on the local network, `mdns_sd::ServiceInfo`.
#[verifier::external_type_specification]
#[verifier::external_body]
pub struct ExServiceInfo(ServiceInfo);

/// The service type, as `ServiceInfo::get_type` gives it.
pub uninterp spec fn service_type(info: ServiceInfo) -> Seq<char>;

/// The full name, as `ServiceInfo::get_fullname` gives it.
pub uninterp spec fn service_fullname(info: ServiceInfo) -> Seq<char>;

/// The host name, as `ServiceInfo::get_hostname` gives it.
pub uninterp spec fn service_hostname(info: ServiceInfo) -> Seq<char>;

/// The port, as `ServiceInfo::get_port` gives it.
pub uninterp spec fn service_port(info: ServiceInfo) -> u16;

/// An instance name as it stands in a full name: a backslash before every dot and
/// every backslash.
pub open spec fn escaped(name: Seq<char>) -> Seq<char>
    decreases name.len(),
{
    if name.len() == 0 {
        Seq::empty()
    } else if name[0] == '.' || name[0] == '\\' {
        seq!['\\', name[0]] + escaped(name.skip(1))
    } else {
        seq![name[0]] + escaped(name.skip(1))
    }
}

/// A host name without a doubled `.local.` at its end.
pub open spec fn without_doubled_local(host: Seq<char>) -> Seq<char> {
    if ".local.local."@.is_suffix_of(host) {
        host.take(host.len() - 6)
    } else {
        host
    }
}

/// `ServiceInfo::new` without addresses and without properties: it succeeds, and the
/// announcement carries the type, the host name and the port that it was given, under
/// the full name made of the escaped instance name and the type. Its times to live and
/// its other settings are left unsaid.
#[verifier::external_body]
pub(crate) fn new_service_info(
    ty_domain: &str,
    instance_name: &str,
    host_name: &str,
    ip: &str,
    port: u16,
) -> (info: Result<ServiceInfo, String>)
    requires
        !occurs_in(ty_domain@, "._sub."@),
        ip@.len() == 0,
    ensures
        info is Ok,
        service_type(info->Ok_0) == ty_domain@,
        service_fullname(info->Ok_0) == escaped(instance_name@) + "."@ + ty_domain@,
        service_hostname(info->Ok_0) == without_doubled_local(host_name@),
        service_port(info->Ok_0) == port,
{
    ServiceInfo::new(ty_domain, instance_name, host_name, ip, port, None).map_err(|e| e.to_string())
}

// Time and chance.

/// A decimal digit.
pub open spec fn is_digit(c: char) -> bool {
    '0' <= c <= '9'
}

/// `s` has the shape of `pattern`: a decimal digit where the pattern holds a `0`, and
/// the pattern's own character elsewhere.
pub open spec fn has_digit_pattern(s: Seq<char>, pattern: Seq<char>) -> bool {
    &&& s.len() == pattern.len()
    &&& forall|i: int|
        0 <= i < s.len() ==> if pattern[i] == '0' {
            is_digit(#[trigger] s[i])
        } else {
            s[i] == pattern[i]
        }
}

/// Decimal digits and nothing else.
pub open spec fn is_digits(s: Seq<char>) -> bool {
    forall|i: int| 0 <= i < s.len() ==> is_digit(#[trigger] s[i])
}

/// A calendar year: four digits, or a sign and at least four digits.
pub open spec fn is_year(s: Seq<char>) -> bool {
    ||| s.len() == 4 && is_digits(s)
    ||| s.len() > 4 && (s[0] == '+' || s[0] == '-') && is_digits(s.skip(1))
}

/// A date and a time of day to the millisecond.
pub open spec fn is_timestamp(s: Seq<char>) -> bool {
    &&& s.len() >= 23
    &&& is_year(s.take(s.len() - 19))
    &&& has_digit_pattern(s.skip(s.len() - 19), "-00-00 00:00:00.000"@)
}

/// `chrono::Local::now` and `DateTime::format` with this format: the date and the time
/// of day that the machine's clock and time zone give. Which moment it is stays open.
#[verifier::external_body]
pub(crate) fn local_time(format: &str) -> (text: String)
    requires
        format@ == "%Y-%m-%d %H:%M:%S%.3f"@,
    ensures
        is_timestamp(text@),
{
    chrono::Local::now().format(format).to_string()
}

/// A lower case hexadecimal digit.
pub open spec fn is_hex_digit(c: char) -> bool {
    is_digit(c) || 'a' <= c <= 'f'
}

/// A random (version 4) UUID in its hyphenated form.
pub open spec fn is_random_uuid(s: Seq<char>) -> bool {
    &&& s.len() == 36
    &&& forall|i: int|
        0 <= i < 36 ==> if i == 8 || i == 13 || i == 18 || i == 23 {
            #[trigger] s[i] == '-'
        } else {
            is_hex_digit(s[i])
        }
    &&& s[14] == '4'
    &&& s[19] == '8' || s[19] == '9' || s[19] == 'a' || s[19] == 'b'
}

/// `uuid::Uuid::new_v4`, printed: some version 4 UUID. Which one is left to chance.
#[verifier::external_body]
pub(crate) fn random_uuid() -> (text: String)
    ensures
        is_random_uuid(text@),
{
    uuid::Uuid::new_v4().to_string()
}

// Letters.

/// A text in lower case, as Unicode defines it.
pub uninterp spec fn lowercase(s: Seq<char>) -> Seq<char>;

/// `str::to_lowercase`: the text in lower case, which depends on the text alone.
pub assume_specification[ str::to_lowercase ](s: &str) -> (lower: String)
    ensures
        lower@ == lowercase(s@),
;

}
