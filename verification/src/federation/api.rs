//! The HTTP API that an instance offers to its peers.
//!
//! | Endpoint                 | Method | Purpose                   |
//! |--------------------------|--------|---------------------------|
//! | `/api/federation/agents` | GET    | List exposed agents       |
//! | `/api/federation/relay`  | POST   | Relay message to an agent |
//! | `/api/federation/health` | GET    | Health check              |
//!
//! Every endpoint asks for the shared secret as a bearer token, and refuses a request
//! without it before it looks at anything else.

use axum::http::{HeaderMap, HeaderValue};
use orra::message::Message;
use orra::namespace::Namespace;
use vstd::prelude::*;
use vstd::string::*;

use super::{RelayRequest, RelayResponse};
use crate::outside::{
    ascii_chars, first_header, header_values, is_header_text, is_lower_header_name,
    is_user_message, lowercase, namespace_segments, user_message,
};
use crate::text::{after_prefix, joined, joining_parts_restores, parts, rest_after};

verus! {

/// Why a request is refused or failed.
#[derive(Clone, Copy, Debug, PartialEq, Eq, Structural)]
pub enum ApiError {
    Unauthorized,
    NotFound,
    InternalServerError,
}

impl ApiError {
    /// The HTTP status of the answer.
    pub open spec fn spec_status(self) -> u16 {
        match self {
            ApiError::Unauthorized => 401,
            ApiError::NotFound => 404,
            ApiError::InternalServerError => 500,
        }
    }

    /// The HTTP status of the answer.
    pub fn status(self) -> (status: u16)
        ensures
            status == self.spec_status(),
    {
        match self {
            ApiError::Unauthorized => 401,
            ApiError::NotFound => 404,
            ApiError::InternalServerError => 500,
        }
    }
}

/// An agent that peers may see and use. What they are told of it is of type `A`.
pub struct ExposedAgent<A> {
    pub name: String,
    pub info: A,
}

/// What the handlers know of the instance at the time of a request.
pub struct FederationState<A> {
    pub instance_name: String,
    pub exposed_agents: Vec<ExposedAgent<A>>,
}

/// The text of the `authorization` header, where there is one that is text. Of several,
/// the first counts.
pub open spec fn authorization(headers: HeaderMap<HeaderValue>) -> Option<Seq<char>> {
    let values = header_values(headers);
    if values.contains_key("authorization"@) && is_header_text(values["authorization"@][0]) {
        Some(ascii_chars(values["authorization"@][0]))
    } else {
        None
    }
}

/// The token that a request carries.
pub open spec fn bearer_token_of(headers: HeaderMap<HeaderValue>) -> Option<Seq<char>> {
    match authorization(headers) {
        Some(text) => after_prefix(text, "Bearer "@),
        None => None,
    }
}

/// The token that a request carries.
pub fn bearer_token(headers: &HeaderMap) -> (token: Result<&str, ApiError>)
    ensures
        match token {
            Ok(token) => bearer_token_of(*headers) == Some(token@),
            Err(error) => bearer_token_of(*headers) is None && error == ApiError::Unauthorized,
        },
{
    proof {
        reveal_strlit("authorization");
        assert(is_lower_header_name("authorization"@));
    }
    let value = match first_header(headers, "authorization") {
        Some(value) => value,
        None => return Err(ApiError::Unauthorized),
    };
    let text = match value.to_str() {
        Ok(text) => text,
        Err(_) => return Err(ApiError::Unauthorized),
    };
    match rest_after(text, "Bearer ") {
        Some(token) => Ok(token),
        None => Err(ApiError::Unauthorized),
    }
}

/// `verdict` is what becomes of a request with these headers where `validate_secret`
/// decides on tokens: it is let in where its token is accepted, and refused where it has
/// none or an unaccepted one.
pub open spec fn is_verdict<F: Fn(&str) -> bool>(
    headers: HeaderMap<HeaderValue>,
    validate_secret: F,
    verdict: Result<(), ApiError>,
) -> bool {
    match bearer_token_of(headers) {
        None => verdict == Err::<(), ApiError>(ApiError::Unauthorized),
        Some(token) => exists|secret: &str, accepted: bool|
            {
                &&& secret@ == token
                &&& #[trigger] validate_secret.ensures((secret,), accepted)
                &&& verdict == if accepted {
                    Ok::<(), ApiError>(())
                } else {
                    Err(ApiError::Unauthorized)
                }
            },
    }
}

/// Lets a request in or refuses it.
pub fn validate_auth<F: Fn(&str) -> bool>(headers: &HeaderMap, validate_secret: F) -> (verdict:
    Result<(), ApiError>)
    requires
        forall|secret: &str| #[trigger] validate_secret.requires((secret,)),
    ensures
        is_verdict(*headers, validate_secret, verdict),
{
    let token = match bearer_token(headers) {
        Ok(token) => token,
        Err(error) => return Err(error),
    };
    if !validate_secret(token) {
        return Err(ApiError::Unauthorized);
    }
    Ok(())
}

/// The answer to a request for the list of agents, for the verdict on the request.
pub open spec fn is_agent_list<A>(
    verdict: Result<(), ApiError>,
    state: FederationState<A>,
    answer: Result<Vec<ExposedAgent<A>>, ApiError>,
) -> bool {
    match verdict {
        Ok(()) => answer == Ok::<Vec<ExposedAgent<A>>, ApiError>(state.exposed_agents),
        Err(error) => answer == Err::<Vec<ExposedAgent<A>>, ApiError>(error),
    }
}

/// Lists the agents that this instance exposes.
pub fn list_agents<A, F: Fn(&str) -> bool>(
    state: FederationState<A>,
    headers: &HeaderMap,
    validate_secret: F,
) -> (answer: Result<Vec<ExposedAgent<A>>, ApiError>)
    requires
        forall|secret: &str| #[trigger] validate_secret.requires((secret,)),
    ensures
        exists|verdict: Result<(), ApiError>| #[trigger]
            is_verdict(*headers, validate_secret, verdict) && is_agent_list(verdict, state, answer),
{
    match validate_auth(headers, validate_secret) {
        Ok(()) => Ok(state.exposed_agents),
        Err(error) => Err(error),
    }
}

/// The state of an instance, as it tells its peers.
pub struct HealthStatus {
    pub instance: String,
    pub status: String,
    pub agent_count: usize,
}

/// The answer to a health check, for the verdict on the request.
pub open spec fn is_health_report<A>(
    verdict: Result<(), ApiError>,
    state: FederationState<A>,
    answer: Result<HealthStatus, ApiError>,
) -> bool {
    match verdict {
        Ok(()) => {
            &&& answer matches Ok(status)
            &&& status.instance@ == state.instance_name@
            &&& status.status@ == "ok"@
            &&& status.agent_count == state.exposed_agents.len()
        },
        Err(error) => answer matches Err(answered) && answered == error,
    }
}

/// Reports that this instance is up.
pub fn health<A, F: Fn(&str) -> bool>(
    state: &FederationState<A>,
    headers: &HeaderMap,
    validate_secret: F,
) -> (answer: Result<HealthStatus, ApiError>)
    requires
        forall|secret: &str| #[trigger] validate_secret.requires((secret,)),
    ensures
        exists|verdict: Result<(), ApiError>| #[trigger]
            is_verdict(*headers, validate_secret, verdict) && is_health_report(
                verdict,
                *state,
                answer,
            ),
{
    match validate_auth(headers, validate_secret) {
        Ok(()) => Ok(
            HealthStatus {
                instance: state.instance_name.clone(),
                status: "ok".to_owned(),
                agent_count: state.exposed_agents.len(),
            },
        ),
        Err(error) => Err(error),
    }
}

/// Agents are told apart without regard to case.
pub open spec fn same_agent(a: Seq<char>, b: Seq<char>) -> bool {
    lowercase(a) == lowercase(b)
}

/// Peers may use the agent called `name`.
pub open spec fn is_exposed<A>(agents: Seq<ExposedAgent<A>>, name: Seq<char>) -> bool {
    exists|i: int| 0 <= i < agents.len() && same_agent(#[trigger] agents[i].name@, name)
}

/// `agents` hold one whose name in lower case is `key`.
fn exposes_key<A>(agents: &Vec<ExposedAgent<A>>, key: &String) -> (found: bool)
    ensures
        found == exists|i: int|
            0 <= i < agents.len() && lowercase(#[trigger] agents[i].name@) == key@,
{
    let mut i: usize = 0;
    while i < agents.len()
        invariant
            i <= agents.len(),
            forall|j: int| 0 <= j < i ==> lowercase(#[trigger] agents[j].name@) != key@,
        decreases agents.len() - i,
    {
        if agents[i].name.to_lowercase() == *key {
            return true;
        }
        i += 1;
    }
    false
}

/// A request to relay that was let in, and whose agent is exposed.
pub struct RelayTicket {
    pub request: RelayRequest,
    /// The key under which the agent's runtime is kept.
    pub agent_key: String,
    /// This instance.
    pub instance: String,
}

/// What the agent's runtime, of type `R`, is to run.
pub struct RelayRun<R> {
    pub runtime: R,
    pub namespace: Namespace,
    pub message: Message,
}

/// The end of a relay: the answer to the peer, and what is reported of a failure.
pub struct RelayOutcome {
    pub answer: Result<RelayResponse, ApiError>,
    pub report: Option<String>,
}

/// What becomes of a request to relay on arrival, for the verdict on it.
pub open spec fn is_admission<A>(
    verdict: Result<(), ApiError>,
    state: FederationState<A>,
    request: RelayRequest,
    admission: Result<RelayTicket, ApiError>,
) -> bool {
    match verdict {
        Err(error) => admission matches Err(answered) && answered == error,
        Ok(()) => if is_exposed(state.exposed_agents@, request.agent@) {
            &&& admission matches Ok(ticket)
            &&& ticket.request == request
            &&& ticket.agent_key@ == lowercase(request.agent@)
            &&& ticket.instance@ == state.instance_name@
        } else {
            admission matches Err(answered) && answered == ApiError::NotFound
        },
    }
}

/// Takes in a request to relay a message to an agent of this instance. The program
/// looks up the runtime under the ticket's key and goes on with
/// [`RelayTicket::dispatch`].
pub fn relay_message<A, F: Fn(&str) -> bool>(
    state: &FederationState<A>,
    headers: &HeaderMap,
    validate_secret: F,
    request: RelayRequest,
) -> (admission: Result<RelayTicket, ApiError>)
    requires
        forall|secret: &str| #[trigger] validate_secret.requires((secret,)),
    ensures
        exists|verdict: Result<(), ApiError>| #[trigger]
            is_verdict(*headers, validate_secret, verdict) && is_admission(
                verdict,
                *state,
                request,
                admission,
            ),
{
    match validate_auth(headers, validate_secret) {
        Ok(()) => {},
        Err(error) => return Err(error),
    }
    let agent_key = request.agent.to_lowercase();
    if !exposes_key(&state.exposed_agents, &agent_key) {
        return Err(ApiError::NotFound);
    }
    Ok(RelayTicket { request, agent_key, instance: state.instance_name.clone() })
}

/// What is to be run for a ticket, where a runtime was found or not.
pub open spec fn is_dispatch<R>(
    ticket: RelayTicket,
    runtime: Option<R>,
    run: Result<RelayRun<R>, ApiError>,
) -> bool {
    match runtime {
        Some(runtime) => {
            &&& run matches Ok(run)
            &&& run.runtime == runtime
            &&& namespace_segments(run.namespace) == parts(ticket.request.namespace@, ':')
            &&& is_user_message(run.message, ticket.request.message@)
        },
        None => run matches Err(error) && error == ApiError::NotFound,
    }
}

/// The end of a relay, for what its run came to.
pub open spec fn is_outcome(
    ticket: RelayTicket,
    result: Result<String, String>,
    outcome: RelayOutcome,
) -> bool {
    match result {
        Ok(message) => {
            &&& outcome.answer matches Ok(response)
            &&& response.message@ == message@
            &&& response.agent@ == ticket.request.agent@
            &&& response.instance@ == ticket.instance@
            &&& outcome.report is None
        },
        Err(reason) => {
            &&& outcome.answer matches Err(error)
            &&& error == ApiError::InternalServerError
            &&& outcome.report matches Some(report)
            &&& report@ == "[federation] relay to '"@ + ticket.request.agent@ + "' failed: "@
                + reason@
        },
    }
}

impl RelayTicket {
    /// What the runtime that was found is to run. An agent without a runtime is not
    /// there.
    pub fn dispatch<R>(&self, runtime: Option<R>) -> (run: Result<RelayRun<R>, ApiError>)
        ensures
            is_dispatch(*self, runtime, run),
    {
        match runtime {
            Some(runtime) => Ok(
                RelayRun {
                    runtime,
                    namespace: Namespace::parse(self.request.namespace.as_str()),
                    message: user_message(self.request.message.as_str()),
                },
            ),
            None => Err(ApiError::NotFound),
        }
    }

    /// The end of the relay, once the runtime has answered or failed.
    pub fn finish(self, result: Result<String, String>) -> (outcome: RelayOutcome)
        ensures
            is_outcome(self, result, outcome),
    {
        match result {
            Ok(message) => RelayOutcome {
                answer: Ok(
                    RelayResponse { message, agent: self.request.agent, instance: self.instance },
                ),
                report: None,
            },
            Err(reason) => {
                let mut report = "[federation] relay to '".to_owned();
                report.append(self.request.agent.as_str());
                report.append("' failed: ");
                report.append(reason.as_str());
                RelayOutcome { answer: Err(ApiError::InternalServerError), report: Some(report) }
            },
        }
    }
}

/// What a route answers.
#[derive(Clone, Copy, Debug, PartialEq, Eq, Structural)]
pub enum Endpoint {
    /// [`list_agents`].
    Agents,
    /// [`relay_message`].
    Relay,
    /// [`health`].
    Health,
}

/// The HTTP methods in use.
#[derive(Clone, Copy, Debug, PartialEq, Eq, Structural)]
pub enum Method {
    Get,
    Post,
}

/// A route of the API.
pub struct Route {
    pub method: Method,
    pub path: &'static str,
    pub endpoint: Endpoint,
}

/// The routes of the API.
pub fn federation_router() -> (routes: Vec<Route>)
    ensures
        routes.len() == 3,
        routes[0].method == Method::Get,
        routes[0].path@ == "/api/federation/agents"@,
        routes[0].endpoint == Endpoint::Agents,
        routes[1].method == Method::Post,
        routes[1].path@ == "/api/federation/relay"@,
        routes[1].endpoint == Endpoint::Relay,
        routes[2].method == Method::Get,
        routes[2].path@ == "/api/federation/health"@,
        routes[2].endpoint == Endpoint::Health,
        forall|i: int, j: int|
            0 <= i < j < routes.len() ==> #[trigger] routes[i].path@ != #[trigger] routes[j].path@,
{
    proof {
        reveal_strlit("/api/federation/agents");
        reveal_strlit("/api/federation/relay");
        reveal_strlit("/api/federation/health");
        assert("/api/federation/agents"@[16] != "/api/federation/health"@[16]);
    }
    vec![
        Route {
            method: Method::Get,
            path: "/api/federation/agents",
            endpoint: Endpoint::Agents,
        },
        Route { method: Method::Post, path: "/api/federation/relay", endpoint: Endpoint::Relay },
        Route { method: Method::Get, path: "/api/federation/health", endpoint: Endpoint::Health },
    ]
}

/// A request without a bearer token is refused, whatever decides on tokens.
pub proof fn request_without_token_is_refused<F: Fn(&str) -> bool>(
    headers: HeaderMap<HeaderValue>,
    validate_secret: F,
    verdict: Result<(), ApiError>,
)
    requires
        bearer_token_of(headers) is None,
        is_verdict(headers, validate_secret, verdict),
    ensures
        verdict == Err::<(), ApiError>(ApiError::Unauthorized),
{
}

/// A request whose token can only be accepted is let in, and one whose token can only
/// be turned down is refused.
pub proof fn token_decides<F: Fn(&str) -> bool>(
    headers: HeaderMap<HeaderValue>,
    validate_secret: F,
    verdict: Result<(), ApiError>,
    token: Seq<char>,
    accepted: bool,
)
    requires
        bearer_token_of(headers) == Some(token),
        forall|secret: &str, answer: bool|
            secret@ == token && #[trigger] validate_secret.ensures((secret,), answer) ==> answer
                == accepted,
        is_verdict(headers, validate_secret, verdict),
    ensures
        verdict == if accepted {
            Ok::<(), ApiError>(())
        } else {
            Err(ApiError::Unauthorized)
        },
{
}

/// Every endpoint answers a refused request with 401, whatever else the request or the
/// instance holds.
pub proof fn refused_request_is_answered_401<A, F: Fn(&str) -> bool>(
    headers: HeaderMap<HeaderValue>,
    validate_secret: F,
    verdict: Result<(), ApiError>,
    state: FederationState<A>,
    request: RelayRequest,
    agents: Result<Vec<ExposedAgent<A>>, ApiError>,
    health: Result<HealthStatus, ApiError>,
    admission: Result<RelayTicket, ApiError>,
)
    requires
        is_verdict(headers, validate_secret, verdict),
        verdict is Err,
        is_agent_list(verdict, state, agents),
        is_health_report(verdict, state, health),
        is_admission(verdict, state, request, admission),
    ensures
        agents matches Err(error) && error.spec_status() == 401,
        health matches Err(error) && error.spec_status() == 401,
        admission matches Err(error) && error.spec_status() == 401,
{
}

/// The health report counts the agents that the list holds.
pub proof fn health_counts_the_listed_agents<A>(
    state: FederationState<A>,
    agents: Result<Vec<ExposedAgent<A>>, ApiError>,
    health: Result<HealthStatus, ApiError>,
)
    requires
        is_agent_list(Ok(()), state, agents),
        is_health_report(Ok(()), state, health),
    ensures
        agents is Ok && health is Ok,
        health->Ok_0.agent_count == agents->Ok_0.len(),
{
}

/// The answer to a request to relay, from its three steps.
pub open spec fn relay_answer<R>(
    admission: Result<RelayTicket, ApiError>,
    run: Result<RelayRun<R>, ApiError>,
    outcome: RelayOutcome,
) -> Result<RelayResponse, ApiError> {
    match admission {
        Err(error) => Err(error),
        Ok(_) => match run {
            Err(error) => Err(error),
            Ok(_) => outcome.answer,
        },
    }
}

/// A request to relay is answered by the first of these that applies: 401 where it is
/// refused, 404 where its agent is not exposed or has no runtime, 500 where the run
/// failed, and else with the agent's message, in the name that the peer used for the
/// agent.
pub proof fn relay_is_answered_in_order<A, R>(
    verdict: Result<(), ApiError>,
    state: FederationState<A>,
    request: RelayRequest,
    admission: Result<RelayTicket, ApiError>,
    runtime: Option<R>,
    run: Result<RelayRun<R>, ApiError>,
    result: Result<String, String>,
    outcome: RelayOutcome,
)
    requires
        verdict is Ok || verdict == Err::<(), ApiError>(ApiError::Unauthorized),
        is_admission(verdict, state, request, admission),
        admission matches Ok(ticket) ==> is_dispatch(ticket, runtime, run) && is_outcome(
            ticket,
            result,
            outcome,
        ),
    ensures
        ({
            let answer = relay_answer(admission, run, outcome);
            if verdict is Err {
                answer matches Err(error) && error.spec_status() == 401
            } else if !is_exposed(state.exposed_agents@, request.agent@) || runtime is None {
                answer matches Err(error) && error.spec_status() == 404
            } else {
                match result {
                    Err(_) => answer matches Err(error) && error.spec_status() == 500,
                    Ok(message) => {
                        &&& answer matches Ok(response)
                        &&& response.message@ == message@
                        &&& response.agent@ == request.agent@
                        &&& response.instance@ == state.instance_name@
                    },
                }
            }
        }),
{
}

/// How an agent's name is written in upper and lower case does not matter: the same
/// requests are taken in, and the runtime is looked up under the same key.
pub proof fn case_of_agent_name_is_ignored<A>(
    state: FederationState<A>,
    request: RelayRequest,
    other: RelayRequest,
    admission: Result<RelayTicket, ApiError>,
    other_admission: Result<RelayTicket, ApiError>,
)
    requires
        same_agent(request.agent@, other.agent@),
        is_admission(Ok(()), state, request, admission),
        is_admission(Ok(()), state, other, other_admission),
    ensures
        admission is Ok == other_admission is Ok,
        admission is Ok ==> admission->Ok_0.agent_key@ == other_admission->Ok_0.agent_key@,
{
    assert(is_exposed(state.exposed_agents@, request.agent@) == is_exposed(
        state.exposed_agents@,
        other.agent@,
    ));
}

/// A relay runs in the session that the request names: the key of its namespace is the
/// text of the request.
pub proof fn relay_runs_in_the_session_asked_for<R>(
    ticket: RelayTicket,
    runtime: R,
    run: RelayRun<R>,
)
    requires
        is_dispatch(ticket, Some(runtime), Ok(run)),
    ensures
        joined(namespace_segments(run.namespace), seq![':']) == ticket.request.namespace@,
{
    joining_parts_restores(ticket.request.namespace@, ':');
}

}
