use axum::http::{HeaderMap, HeaderValue};
use herald::federation::api::{
    bearer_token, federation_router, health, list_agents, relay_message, validate_auth, ApiError,
    Endpoint, ExposedAgent, FederationState, Method,
};
use herald::federation::RelayRequest;
use orra::message::Role;

const SECRET: &str = "s3cret";

fn accepts(token: &str) -> bool {
    token == SECRET
}

fn headers(authorization: &str) -> HeaderMap {
    let mut headers = HeaderMap::new();
    headers.insert("authorization", HeaderValue::from_str(authorization).unwrap());
    headers
}

fn good() -> HeaderMap {
    headers("Bearer s3cret")
}

fn state() -> FederationState<u32> {
    FederationState {
        instance_name: "box".to_string(),
        exposed_agents: vec![
            ExposedAgent { name: "Atlas".to_string(), info: 1 },
            ExposedAgent { name: "Nova".to_string(), info: 2 },
        ],
    }
}

fn request(agent: &str) -> RelayRequest {
    RelayRequest {
        agent: agent.to_string(),
        message: "What is the weather?".to_string(),
        source_peer: "peer".to_string(),
        source_agent: Some("CodeBot".to_string()),
        namespace: "federation:CodeBot:42".to_string(),
    }
}

#[test]
fn token_follows_the_bearer_prefix() {
    assert_eq!(bearer_token(&good()), Ok("s3cret"));
    assert_eq!(bearer_token(&headers("Bearer  two  spaces")), Ok(" two  spaces"));
    assert_eq!(bearer_token(&headers("Bearer ")), Ok(""));
}

#[test]
fn token_is_missing() {
    assert_eq!(bearer_token(&HeaderMap::new()), Err(ApiError::Unauthorized));
    assert_eq!(bearer_token(&headers("bearer s3cret")), Err(ApiError::Unauthorized));
    assert_eq!(bearer_token(&headers("Basic s3cret")), Err(ApiError::Unauthorized));
    assert_eq!(bearer_token(&headers("Bearer")), Err(ApiError::Unauthorized));
    assert_eq!(bearer_token(&headers("")), Err(ApiError::Unauthorized));
    let mut other = HeaderMap::new();
    other.insert("x-authorization", HeaderValue::from_static("Bearer s3cret"));
    assert_eq!(bearer_token(&other), Err(ApiError::Unauthorized));
}

#[test]
fn token_that_is_not_text_is_refused() {
    let mut headers = HeaderMap::new();
    headers.insert("authorization", HeaderValue::from_bytes(b"Bearer \xe9").unwrap());
    assert_eq!(bearer_token(&headers), Err(ApiError::Unauthorized));
}

#[test]
fn first_of_several_tokens_counts() {
    let mut headers = HeaderMap::new();
    headers.append("Authorization", HeaderValue::from_static("Bearer one"));
    headers.append("authorization", HeaderValue::from_static("Bearer two"));
    assert_eq!(bearer_token(&headers), Ok("one"));
}

#[test]
fn secret_decides() {
    assert_eq!(validate_auth(&good(), accepts), Ok(()));
    assert_eq!(validate_auth(&headers("Bearer wrong"), accepts), Err(ApiError::Unauthorized));
    assert_eq!(validate_auth(&HeaderMap::new(), |_| true), Err(ApiError::Unauthorized));
}

#[test]
fn errors_have_statuses() {
    assert_eq!(ApiError::Unauthorized.status(), 401);
    assert_eq!(ApiError::NotFound.status(), 404);
    assert_eq!(ApiError::InternalServerError.status(), 500);
}

#[test]
fn agents_are_listed() {
    let agents = list_agents(state(), &good(), accepts).ok().unwrap();
    let names: Vec<(&str, u32)> = agents.iter().map(|a| (a.name.as_str(), a.info)).collect();
    assert_eq!(names, vec![("Atlas", 1), ("Nova", 2)]);
}

#[test]
fn health_is_reported() {
    let status = health(&state(), &good(), accepts).ok().unwrap();
    assert_eq!(status.instance, "box");
    assert_eq!(status.status, "ok");
    assert_eq!(status.agent_count, 2);
    let agents = list_agents(state(), &good(), accepts).ok().unwrap();
    assert_eq!(status.agent_count, agents.len());
}

#[test]
fn every_endpoint_refuses() {
    let bad = headers("Bearer wrong");
    assert_eq!(list_agents(state(), &bad, accepts).err(), Some(ApiError::Unauthorized));
    assert_eq!(health(&state(), &bad, accepts).err(), Some(ApiError::Unauthorized));
    // Even for an agent that is not there.
    assert_eq!(
        relay_message(&state(), &bad, accepts, request("Ghost")).err(),
        Some(ApiError::Unauthorized)
    );
}

#[test]
fn relay_ignores_the_case_of_the_agent() {
    for name in ["Atlas", "ATLAS", "atlas"] {
        let ticket = relay_message(&state(), &good(), accepts, request(name)).ok().unwrap();
        assert_eq!(ticket.agent_key, "atlas");
        assert_eq!(ticket.request.agent, name);
        assert_eq!(ticket.instance, "box");
    }
}

#[test]
fn relay_to_a_hidden_agent_is_not_found() {
    assert_eq!(
        relay_message(&state(), &good(), accepts, request("Ghost")).err(),
        Some(ApiError::NotFound)
    );
    let nobody: FederationState<u32> =
        FederationState { instance_name: "box".to_string(), exposed_agents: vec![] };
    assert_eq!(
        relay_message(&nobody, &good(), accepts, request("Atlas")).err(),
        Some(ApiError::NotFound)
    );
}

#[test]
fn relay_without_a_runtime_is_not_found() {
    let ticket = relay_message(&state(), &good(), accepts, request("Nova")).ok().unwrap();
    assert_eq!(ticket.dispatch::<u8>(None).err(), Some(ApiError::NotFound));
}

#[test]
fn relay_runs_the_message_in_its_session() {
    let ticket = relay_message(&state(), &good(), accepts, request("Nova")).ok().unwrap();
    let run = ticket.dispatch(Some("runtime")).ok().unwrap();
    assert_eq!(run.runtime, "runtime");
    assert_eq!(run.namespace.segments(), ["federation", "CodeBot", "42"]);
    assert_eq!(run.namespace.key(), "federation:CodeBot:42");
    assert_eq!(run.message.role, Role::User);
    assert_eq!(run.message.content, "What is the weather?");
    assert!(run.message.tool_calls.is_empty() && run.message.tool_results.is_empty());
}

#[test]
fn relay_answers_with_the_message() {
    let ticket = relay_message(&state(), &good(), accepts, request("NOVA")).ok().unwrap();
    let outcome = ticket.finish(Ok("Sunny".to_string()));
    let response = outcome.answer.ok().unwrap();
    assert_eq!(response.message, "Sunny");
    assert_eq!(response.agent, "NOVA");
    assert_eq!(response.instance, "box");
    assert_eq!(outcome.report, None);
}

#[test]
fn failed_relay_is_reported() {
    let ticket = relay_message(&state(), &good(), accepts, request("Nova")).ok().unwrap();
    let outcome = ticket.finish(Err("provider error: down".to_string()));
    assert_eq!(outcome.answer.err(), Some(ApiError::InternalServerError));
    assert_eq!(
        outcome.report.unwrap(),
        "[federation] relay to 'Nova' failed: provider error: down"
    );
}

#[test]
fn routes_lead_to_endpoints() {
    let routes: Vec<(Method, &str, Endpoint)> =
        federation_router().into_iter().map(|r| (r.method, r.path, r.endpoint)).collect();
    assert_eq!(
        routes,
        vec![
            (Method::Get, "/api/federation/agents", Endpoint::Agents),
            (Method::Post, "/api/federation/relay", Endpoint::Relay),
            (Method::Get, "/api/federation/health", Endpoint::Health),
        ]
    );
}
