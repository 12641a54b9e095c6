//! Laws of the API for peers.

use axum::http::{HeaderMap, HeaderValue};
use orra::namespace::Namespace;
use vstd::prelude::*;
use vstd::string::*;

use super::text::parts_hold_no_separator;
use crate::federation::api::{
    bearer_token, bearer_token_of, federation_router, health, is_admission, is_verdict, list_agents,
    relay_message, validate_auth, ApiError, Endpoint, ExposedAgent, FederationState, HealthStatus,
    Method, RelayOutcome, RelayRun, RelayTicket, Route,
};
use crate::federation::RelayRequest;
use crate::outside::{
    ascii_chars, header_values, lowercase, message_content, message_is_from_user,
    message_tool_calls, message_tool_results, namespace_segments,
};
use crate::text::{joining_parts_restores, parts};

verus! {

/// A request with these headers carries `token`: its first `authorization` header is
/// visible ASCII, spaces and tabs, and consists of `Bearer`, a space and the token.
pub open spec fn carries(headers: HeaderMap<HeaderValue>, token: Seq<char>) -> bool {
    let values = header_values(headers);
    let first = values["authorization"@][0];
    &&& values.contains_key("authorization"@)
    &&& forall|i: int| 0 <= i < first.len() ==> 32 <= #[trigger] first[i] < 127 || first[i] == 9
    &&& first.len() == 7 + token.len()
    &&& first.take(7) == seq![66u8, 101, 97, 114, 101, 114, 32]
    &&& forall|i: int| 0 <= i < token.len() ==> #[trigger] token[i] as int == first[7 + i] as int
}

/// The token that the request carries may be found good.
pub open spec fn may_be_accepted<F: Fn(&str) -> bool>(
    headers: HeaderMap<HeaderValue>,
    validate_secret: F,
) -> bool {
    exists|secret: &str|
        carries(headers, secret@) && #[trigger] validate_secret.ensures((secret,), true)
}

/// The request carries no token, or one that may be found bad.
pub open spec fn may_be_refused<F: Fn(&str) -> bool>(
    headers: HeaderMap<HeaderValue>,
    validate_secret: F,
) -> bool {
    ||| forall|token: Seq<char>| !#[trigger] carries(headers, token)
    ||| exists|secret: &str|
        carries(headers, secret@) && #[trigger] validate_secret.ensures((secret,), false)
}

proof fn token_is_what_is_carried(headers: HeaderMap<HeaderValue>, token: Seq<char>)
    ensures
        bearer_token_of(headers) == Some(token) <==> carries(headers, token),
{
    reveal_strlit("Bearer ");
    let prefix = "Bearer "@;
    let first = header_values(headers)["authorization"@][0];
    let text = ascii_chars(first);
    if carries(headers, token) {
        assert forall|i: int| 0 <= i < 7 implies text[i] == prefix[i] by {
            assert(first[i] == first.take(7)[i]);
        }
        assert(prefix.is_prefix_of(text));
        assert forall|i: int| 0 <= i < token.len() implies text.skip(7)[i] == token[i] by {
            assert(token[i] as int == first[7 + i] as int);
        }
        assert(text.skip(7) =~= token);
    }
    if bearer_token_of(headers) == Some(token) {
        assert(prefix.is_prefix_of(text));
        assert(token == text.skip(7));
        assert forall|i: int| 0 <= i < 7 implies first[i] == seq![
            66u8,
            101,
            97,
            114,
            101,
            114,
            32,
        ][i] by {
            assert(text[i] == prefix[i]);
            assert(first[i] as char == prefix[i]);
        }
        assert(first.take(7) =~= seq![66u8, 101, 97, 114, 101, 114, 32]);
        assert forall|i: int| 0 <= i < token.len() implies #[trigger] token[i] as int == first[7
            + i] as int by {
            assert(token[i] == text[7 + i]);
            assert(text[7 + i] == first[7 + i] as char);
        }
    }
}

proof fn judgement_goes_by_the_token<F: Fn(&str) -> bool>(
    headers: HeaderMap<HeaderValue>,
    validate_secret: F,
    verdict: Result<(), ApiError>,
)
    requires
        is_verdict(headers, validate_secret, verdict),
    ensures
        verdict is Ok ==> may_be_accepted(headers, validate_secret),
        verdict is Err ==> may_be_refused(headers, validate_secret),
        verdict is Err ==> verdict->Err_0 == ApiError::Unauthorized,
{
    match bearer_token_of(headers) {
        None => {
            assert forall|token: Seq<char>| !#[trigger] carries(headers, token) by {
                token_is_what_is_carried(headers, token);
            }
        },
        Some(token) => {
            token_is_what_is_carried(headers, token);
        },
    }
}

/// The token of a request is what follows `Bearer` and a space in its first
/// `authorization` header, and a request without such a header is unauthorized.
pub proof fn token_follows_bearer(
    headers: HeaderMap,
    found: Result<&str, ApiError>,
    token: Seq<char>,
)
    requires
        call_ensures(bearer_token, (&headers,), found),
    ensures
        carries(headers, token) <==> found is Ok && found->Ok_0@ == token,
        found is Err ==> found->Err_0 == ApiError::Unauthorized,
{
    token_is_what_is_carried(headers, token);
}

/// A request is let in only where its token was found good. It is refused, as
/// unauthorized, only where it carries none or one that was found bad.
pub proof fn request_is_judged_by_its_token<F: Fn(&str) -> bool>(
    headers: HeaderMap,
    validate_secret: F,
    verdict: Result<(), ApiError>,
)
    requires
        call_ensures(validate_auth::<F>, (&headers, validate_secret), verdict),
    ensures
        verdict is Ok ==> may_be_accepted(headers, validate_secret),
        verdict is Err ==> may_be_refused(headers, validate_secret),
        verdict is Err ==> verdict->Err_0 == ApiError::Unauthorized,
{
    judgement_goes_by_the_token(headers, validate_secret, verdict);
}

/// A request that carries a token which is always found good can only be accepted, and one
/// without a token, or with one that is always found bad, can only be refused.
pub proof fn steady_judgement_decides<F: Fn(&str) -> bool>(
    headers: HeaderMap<HeaderValue>,
    validate_secret: F,
    token: Seq<char>,
)
    ensures
        carries(headers, token) && (forall|secret: &str, answer: bool|
            secret@ == token && #[trigger] validate_secret.ensures((secret,), answer) ==> answer)
            ==> !may_be_refused(headers, validate_secret),
        carries(headers, token) && (forall|secret: &str, answer: bool|
            secret@ == token && #[trigger] validate_secret.ensures((secret,), answer) ==> !answer)
            ==> !may_be_accepted(headers, validate_secret),
        (forall|other: Seq<char>| !#[trigger] carries(headers, other)) ==> !may_be_accepted(
            headers,
            validate_secret,
        ),
{
    assert forall|other: Seq<char>|
        carries(headers, token) && #[trigger] carries(headers, other) implies other == token by {
        token_is_what_is_carried(headers, token);
        token_is_what_is_carried(headers, other);
    }
}

/// Who is let in is told all exposed agents, in order. Who is not is answered 401.
pub proof fn every_exposed_agent_is_listed<A, F: Fn(&str) -> bool>(
    state: FederationState<A>,
    headers: HeaderMap,
    validate_secret: F,
    answer: Result<Vec<ExposedAgent<A>>, ApiError>,
)
    requires
        call_ensures(list_agents::<A, F>, (state, &headers, validate_secret), answer),
    ensures
        answer matches Ok(agents) ==> may_be_accepted(headers, validate_secret) && agents@
            == state.exposed_agents@,
        answer matches Err(error) ==> may_be_refused(headers, validate_secret) && error
            == ApiError::Unauthorized,
{
    let verdict: Result<(), ApiError> = match answer {
        Ok(_) => Ok(()),
        Err(error) => Err(error),
    };
    assert(is_verdict(headers, validate_secret, verdict));
    judgement_goes_by_the_token(headers, validate_secret, verdict);
}

/// Who is let in is told the name of the instance, that it is well, and how many agents it
/// exposes. Who is not is answered 401.
pub proof fn health_tells_the_number_of_agents<A, F: Fn(&str) -> bool>(
    state: FederationState<A>,
    headers: HeaderMap,
    validate_secret: F,
    answer: Result<HealthStatus, ApiError>,
)
    requires
        call_ensures(health::<A, F>, (&state, &headers, validate_secret), answer),
    ensures
        answer matches Ok(status) ==> {
            &&& may_be_accepted(headers, validate_secret)
            &&& status.instance@ == state.instance_name@
            &&& status.status@ == "ok"@
            &&& status.agent_count == state.exposed_agents@.len()
        },
        answer matches Err(error) ==> may_be_refused(headers, validate_secret) && error
            == ApiError::Unauthorized,
{
    let verdict: Result<(), ApiError> = match answer {
        Ok(_) => Ok(()),
        Err(error) => Err(error),
    };
    assert(is_verdict(headers, validate_secret, verdict));
    judgement_goes_by_the_token(headers, validate_secret, verdict);
}

/// A request to relay is taken in where it is let in and some exposed agent, whichever one,
/// has the name asked for but for upper and lower case. The ticket holds the request as it
/// came, the name in lower case and the name of the instance. Where no agent has that name
/// the answer is 404, and where the request is not let in it is 401.
pub proof fn relay_reaches_every_exposed_agent<A, F: Fn(&str) -> bool>(
    state: FederationState<A>,
    headers: HeaderMap,
    validate_secret: F,
    request: RelayRequest,
    admission: Result<RelayTicket, ApiError>,
)
    requires
        call_ensures(
            relay_message::<A, F>,
            (&state, &headers, validate_secret, request),
            admission,
        ),
    ensures
        admission matches Ok(ticket) ==> {
            &&& may_be_accepted(headers, validate_secret)
            &&& exists|i: int|
                0 <= i < state.exposed_agents@.len() && lowercase(
                    #[trigger] state.exposed_agents@[i].name@,
                ) == lowercase(request.agent@)
            &&& ticket.request == request
            &&& ticket.agent_key@ == lowercase(request.agent@)
            &&& ticket.instance@ == state.instance_name@
        },
        admission matches Err(error) ==> {
            ||| error == ApiError::Unauthorized && may_be_refused(headers, validate_secret)
            ||| error == ApiError::NotFound && may_be_accepted(headers, validate_secret)
                && forall|i: int|
                0 <= i < state.exposed_agents@.len() ==> lowercase(
                    #[trigger] state.exposed_agents@[i].name@,
                ) != lowercase(request.agent@)
        },
{
    let verdict = choose|verdict: Result<(), ApiError>| #[trigger]
        is_verdict(headers, validate_secret, verdict)
            && is_admission(verdict, state, request, admission);
    judgement_goes_by_the_token(headers, validate_secret, verdict);
}

/// An authorized request for the agent at any place of the list is taken in, and one for a
/// name that no agent has is answered 404.
pub proof fn authorized_relay_is_taken_in<A, F: Fn(&str) -> bool>(
    state: FederationState<A>,
    headers: HeaderMap,
    validate_secret: F,
    request: RelayRequest,
    admission: Result<RelayTicket, ApiError>,
    i: int,
)
    requires
        !may_be_refused(headers, validate_secret),
        call_ensures(
            relay_message::<A, F>,
            (&state, &headers, validate_secret, request),
            admission,
        ),
    ensures
        0 <= i < state.exposed_agents@.len() && lowercase(state.exposed_agents@[i].name@)
            == lowercase(request.agent@) ==> admission is Ok,
        (forall|j: int|
            0 <= j < state.exposed_agents@.len() ==> lowercase(
                #[trigger] state.exposed_agents@[j].name@,
            ) != lowercase(request.agent@)) ==> admission is Err && admission->Err_0
            == ApiError::NotFound,
{
    relay_reaches_every_exposed_agent(state, headers, validate_secret, request, admission);
}

/// The runtime that was found runs the whole message of the request, as the user's and
/// with nothing added, in the session that the request names. Without a runtime the answer
/// is 404.
pub proof fn relay_runs_the_message_asked_for<R>(
    ticket: RelayTicket,
    runtime: Option<R>,
    run: Result<RelayRun<R>, ApiError>,
    key: String,
)
    requires
        call_ensures(RelayTicket::dispatch::<R>, (&ticket, runtime), run),
        run matches Ok(run) ==> call_ensures(Namespace::key, (&run.namespace,), key),
    ensures
        runtime is None ==> run is Err && run->Err_0 == ApiError::NotFound,
        runtime is Some ==> run is Ok,
        run matches Ok(run) ==> {
            &&& run.runtime == runtime->0
            &&& message_content(run.message) == ticket.request.message@
            &&& message_is_from_user(run.message)
            &&& message_tool_calls(run.message) == 0
            &&& message_tool_results(run.message) == 0
            &&& key@ == ticket.request.namespace@
            &&& forall|i: int|
                0 <= i < namespace_segments(run.namespace).len()
                    ==> !(#[trigger] namespace_segments(run.namespace)[i]).contains(':')
        },
{
    let text = ticket.request.namespace@;
    joining_parts_restores(text, ':');
    assert forall|i: int| 0 <= i < parts(text, ':').len() implies !(#[trigger] parts(
        text,
        ':',
    )[i]).contains(':') by {
        parts_hold_no_separator(text, ':', i);
    }
}

/// The peer is answered with the whole message of the agent, under the name that it asked
/// for and that of the instance. A failure is answered 500 and reported with its reason.
pub proof fn relay_answers_with_the_whole_message(
    ticket: RelayTicket,
    result: Result<String, String>,
    outcome: RelayOutcome,
)
    requires
        call_ensures(RelayTicket::finish, (ticket, result), outcome),
    ensures
        result matches Ok(message) ==> {
            &&& outcome.answer is Ok
            &&& outcome.answer->Ok_0.message@ == message@
            &&& outcome.answer->Ok_0.agent@ == ticket.request.agent@
            &&& outcome.answer->Ok_0.instance@ == ticket.instance@
            &&& outcome.report is None
        },
        result matches Err(reason) ==> {
            &&& outcome.answer is Err
            &&& outcome.answer->Err_0 == ApiError::InternalServerError
            &&& outcome.report is Some
            &&& outcome.report->0@ == "[federation] relay to '"@ + ticket.request.agent@
                + "' failed: "@ + reason@
        },
{
}

/// From the request to the answer: a request that is taken in and run is answered with what
/// the run came to, in the name that the peer used for the agent and in that of this
/// instance.
pub proof fn relay_is_answered_by_the_agent<A, F: Fn(&str) -> bool>(
    state: FederationState<A>,
    headers: HeaderMap,
    validate_secret: F,
    request: RelayRequest,
    ticket: RelayTicket,
    message: String,
    outcome: RelayOutcome,
)
    requires
        call_ensures(
            relay_message::<A, F>,
            (&state, &headers, validate_secret, request),
            Ok(ticket),
        ),
        call_ensures(RelayTicket::finish, (ticket, Ok(message)), outcome),
    ensures
        outcome.answer is Ok,
        outcome.answer->Ok_0.message@ == message@,
        outcome.answer->Ok_0.agent@ == request.agent@,
        outcome.answer->Ok_0.instance@ == state.instance_name@,
{
    relay_reaches_every_exposed_agent(state, headers, validate_secret, request, Ok(ticket));
    relay_answers_with_the_whole_message(ticket, Ok(message), outcome);
}

/// Each error has its HTTP status.
pub proof fn errors_have_their_status(error: ApiError, status: u16)
    requires
        call_ensures(ApiError::status, (error,), status),
    ensures
        error == ApiError::Unauthorized <==> status == 401,
        error == ApiError::NotFound <==> status == 404,
        error == ApiError::InternalServerError <==> status == 500,
{
}

/// The API consists of the list of agents and the health check, which are got, and of the
/// relay, which is posted to.
pub proof fn api_has_three_routes(routes: Vec<Route>)
    requires
        call_ensures(federation_router, (), routes),
    ensures
        routes@.len() == 3,
        forall|i: int|
            0 <= i < 3 ==> match (#[trigger] routes@[i]).endpoint {
                Endpoint::Agents => routes@[i].method == Method::Get && routes@[i].path@
                    == "/api/federation/agents"@,
                Endpoint::Relay => routes@[i].method == Method::Post && routes@[i].path@
                    == "/api/federation/relay"@,
                Endpoint::Health => routes@[i].method == Method::Get && routes@[i].path@
                    == "/api/federation/health"@,
            },
        forall|i: int, j: int|
            0 <= i < j < 3 ==> (#[trigger] routes@[i]).endpoint != (
            #[trigger] routes@[j]).endpoint,
{
    assert forall|i: int| 0 <= i < 3 implies match (#[trigger] routes@[i]).endpoint {
        Endpoint::Agents => routes@[i].method == Method::Get && routes@[i].path@
            == "/api/federation/agents"@,
        Endpoint::Relay => routes@[i].method == Method::Post && routes@[i].path@
            == "/api/federation/relay"@,
        Endpoint::Health => routes@[i].method == Method::Get && routes@[i].path@
            == "/api/federation/health"@,
    } by {
        assert(i == 0 || i == 1 || i == 2);
    }
}

}
