use std::sync::Arc;

use herald::federation::manager::{Action, FederationManager, Launched, Stage};
use herald::federation::tool::{
    delegation, parse_target, DelegateToRemoteAgentTool, Delegation, RemoteAgent, ToolError,
    TOOL_DESCRIPTION,
};
use herald::federation::{FederationService, RelayResponse};
use serde_json::Value;

fn tool() -> DelegateToRemoteAgentTool<u8> {
    DelegateToRemoteAgentTool::new(Arc::new(5), "CodeBot".to_string())
}

type Manager = FederationManager<(), FederationService<u8>, u32, char>;
type Call = Delegation<u8>;

fn service(instance: &str, provider: u8) -> Arc<FederationService<u8>> {
    Arc::new(FederationService { instance_name: instance.to_string(), provider })
}

fn launched(instance: &str, provider: u8) -> Launched<FederationService<u8>, u32, char> {
    Launched {
        service: service(instance, provider),
        task_handles: vec![1],
        cancel_token: 'a',
        api_handle: 2,
    }
}

fn running(instance: &str) -> Manager {
    let mut manager = Manager::new(());
    manager.launched(launched(instance, 1)).unwrap();
    manager
}

fn stopped() -> Manager {
    Manager::new(())
}

fn perform(manager: &mut Manager, stages: Vec<Stage>, instance: &str, provider: u8) {
    for stage in stages {
        if let Action::Launch = manager.perform(stage) {
            manager.launched(launched(instance, provider)).unwrap();
        }
    }
}

fn input(members: &[(&str, &str)]) -> Value {
    let mut object = serde_json::Map::new();
    for (name, value) in members {
        object.insert(name.to_string(), Value::String(value.to_string()));
    }
    Value::Object(object)
}

fn call(target: &str) -> Call {
    let input = input(&[("target", target), ("task", "water the plants")]);
    tool().execute(&input, &running("box")).ok().unwrap()
}

fn agent(instance: &str, name: &str) -> RemoteAgent {
    RemoteAgent { instance: instance.to_string(), name: name.to_string() }
}

fn invalid(outcome: Result<Call, ToolError>) -> String {
    match outcome {
        Err(ToolError::InvalidInput(message)) => message,
        _ => panic!("accepted"),
    }
}

fn failed<T>(outcome: Result<T, ToolError>) -> String {
    match outcome {
        Err(ToolError::ExecutionFailed(message)) => message,
        _ => panic!("not failed"),
    }
}

#[test]
fn tool_belongs_to_its_agent() {
    let tool = tool();
    assert_eq!(*tool.manager, 5);
    assert_eq!(tool.self_agent, "CodeBot");
}

#[test]
fn tool_is_described() {
    let definition = tool().definition();
    assert_eq!(definition.name, "delegate_to_remote_agent");
    assert_eq!(definition.description, TOOL_DESCRIPTION);
    assert!(definition.description.starts_with("Delegate a task to an agent"));
    assert_eq!(definition.input_type, "object");
    assert!(definition.parameters.iter().all(|p| p.value_type == "string"));
    let parameters: Vec<(&str, &str, bool)> = definition
        .parameters
        .iter()
        .map(|p| (p.name.as_str(), p.description.as_str(), p.required))
        .collect();
    assert_eq!(
        parameters,
        vec![
            (
                "target",
                "Target agent. Can be 'agent_name' (search all peers) or 'peer:agent_name' (specific peer)",
                true
            ),
            ("task", "The task or question to delegate to the remote agent", true),
        ]
    );
}

#[test]
fn call_is_read() {
    let delegation = call("attic:Atlas");
    assert_eq!(delegation.target, "attic:Atlas");
    assert_eq!(delegation.peer.as_deref(), Some("attic"));
    assert_eq!(delegation.agent, "Atlas");
    assert_eq!(delegation.task, "water the plants");
    assert_eq!(delegation.service.instance_name, "box");
    assert_eq!(delegation.service.provider, 1);
}

#[test]
fn target_names_an_agent() {
    assert_eq!(parse_target("Atlas"), (None, "Atlas".to_string()));
    assert_eq!(parse_target(""), (None, String::new()));
}

#[test]
fn target_names_a_peer_and_an_agent() {
    let named = |p: &str, a: &str| (Some(p.to_string()), a.to_string());
    assert_eq!(parse_target("attic:Atlas"), named("attic", "Atlas"));
    assert_eq!(parse_target("attic:a:b"), named("attic", "a:b"));
    assert_eq!(parse_target(":Atlas"), named("", "Atlas"));
    assert_eq!(parse_target("attic:"), named("attic", ""));
    assert_eq!(parse_target("zürich:Ätna"), named("zürich", "Ätna"));
}

#[test]
fn target_must_be_a_text() {
    let tool = tool();
    let running = running("box");
    assert_eq!(invalid(tool.execute(&input(&[("task", "x")]), &running)), "missing 'target'");
    assert_eq!(invalid(tool.execute(&input(&[]), &stopped())), "missing 'target'");
    assert_eq!(invalid(tool.execute(&Value::Null, &running)), "missing 'target'");
    let mut object = serde_json::Map::new();
    object.insert("target".to_string(), Value::Bool(true));
    object.insert("task".to_string(), Value::String("x".to_string()));
    assert_eq!(invalid(tool.execute(&Value::Object(object), &running)), "missing 'target'");
}

#[test]
fn task_must_be_a_text() {
    assert_eq!(
        invalid(tool().execute(&input(&[("target", "Atlas")]), &stopped())),
        "missing 'task'"
    );
    assert_eq!(
        invalid(delegation(Some("Atlas"), None, Some(service("box", 1)))),
        "missing 'task'"
    );
}

#[test]
fn federation_must_run() {
    let input = input(&[("target", "Atlas"), ("task", "x")]);
    assert_eq!(
        failed(tool().execute(&input, &stopped())),
        "Federation is not currently running"
    );
    assert_eq!(
        failed(delegation::<u8>(Some("Atlas"), Some("x"), None)),
        "Federation is not currently running"
    );
}

#[test]
fn call_uses_the_service_that_runs() {
    let mut manager = running("box");
    let tool = tool();
    let input = input(&[("target", "Atlas"), ("task", "x")]);
    let before = tool.execute(&input, &manager).ok().unwrap();
    assert_eq!((before.service.instance_name.as_str(), before.service.provider), ("box", 1));

    let stages = manager.restart();
    perform(&mut manager, stages, "chest", 2);
    let after = tool.execute(&input, &manager).ok().unwrap();
    assert_eq!(after.service.provider, 2);
    let request = tool.relay_request(&after, &agent("attic", "Atlas"));
    assert_eq!(request.source_peer, "chest");

    let stages = manager.stop();
    perform(&mut manager, stages, "", 0);
    assert_eq!(failed(tool.execute(&input, &manager)), "Federation is not currently running");

    let stages = manager.start();
    perform(&mut manager, stages, "crate", 3);
    let again = tool.execute(&input, &manager).ok().unwrap();
    assert_eq!((again.service.instance_name.as_str(), again.service.provider), ("crate", 3));
}

#[test]
fn unknown_target_lists_what_is_known() {
    let known = vec![agent("attic", "Atlas"), agent("cellar", "Nova")];
    let error: Result<(), ToolError> = Err(call("Ghost").not_found(&known));
    assert_eq!(
        failed(error),
        "remote agent 'Ghost' not found. Available remote agents: attic:Atlas, cellar:Nova"
    );
    let error: Result<(), ToolError> = Err(call("attic:Ghost").not_found(&vec![]));
    assert_eq!(
        failed(error),
        "remote agent 'attic:Ghost' not found. Available remote agents: none"
    );
}

#[test]
fn listed_agents_can_be_named() {
    let known = vec![agent("attic", "Atlas"), agent("cellar", "Nova:2")];
    let error: Result<(), ToolError> = Err(call("Ghost").not_found(&known));
    let message = failed(error);
    let listing = message.rsplit_once("agents: ").unwrap().1;
    for (listed, known) in listing.split(", ").zip(&known) {
        assert_eq!(parse_target(listed), (Some(known.instance.clone()), known.name.clone()));
    }
}

#[test]
fn request_carries_the_delegation() {
    let request =
        tool().relay_request_with_id(&call("attic:atlas"), &agent("attic", "Atlas"), "id-1");
    assert_eq!(request.agent, "Atlas");
    assert_eq!(request.message, "water the plants");
    assert_eq!(request.source_peer, "box");
    assert_eq!(request.source_agent.as_deref(), Some("CodeBot"));
    assert_eq!(request.namespace, "federation:CodeBot:id-1");
}

#[test]
fn request_has_an_id_of_its_own() {
    let tool = tool();
    let delegation = call("Atlas");
    let first = tool.relay_request(&delegation, &agent("attic", "Atlas"));
    let second = tool.relay_request(&delegation, &agent("attic", "Atlas"));
    assert_ne!(first.namespace, second.namespace);
    let id = first.namespace.strip_prefix("federation:CodeBot:").unwrap();
    assert_eq!(id.len(), 36);
    for (i, c) in id.chars().enumerate() {
        if [8, 13, 18, 23].contains(&i) {
            assert_eq!(c, '-');
        } else {
            assert!(c.is_ascii_digit() || ('a'..='f').contains(&c));
        }
    }
    assert_eq!(&id[14..15], "4");
    assert!(["8", "9", "a", "b"].contains(&&id[19..20]));
    let segments = orra::namespace::Namespace::parse(&first.namespace);
    assert_eq!(segments.segments(), ["federation", "CodeBot", id]);
}

#[test]
fn answer_is_worded() {
    let response = RelayResponse {
        message: "Done.".to_string(),
        agent: "Atlas".to_string(),
        instance: "attic".to_string(),
    };
    let reply = call("Atlas").reply(&agent("x", "y"), Ok(response)).ok().unwrap();
    assert_eq!(reply, "[Remote agent 'Atlas' on 'attic' responded]\n\nDone.");
}

#[test]
fn failure_is_worded() {
    let reply = call("Atlas").reply(&agent("attic", "Atlas"), Err("timeout".to_string()));
    assert_eq!(
        failed(reply),
        "relay to remote agent 'Atlas' on 'attic' failed: timeout"
    );
}
