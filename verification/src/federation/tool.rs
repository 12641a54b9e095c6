//! The tool with which an agent delegates a task to an agent of another instance.
//!
//! [`DelegateToRemoteAgentTool::execute`] reads what the model asks for and takes the
//! service that runs at that time. With the [`Delegation`] it returns, the program looks
//! the agent up in that service, sends the request of
//! [`DelegateToRemoteAgentTool::relay_request`] and words the outcome with
//! [`Delegation::reply`] or [`Delegation::not_found`].

use std::sync::Arc;

use serde_json::Value;
use vstd::prelude::*;
use vstd::string::*;

use super::manager::{
    restart_is_stop_then_start, restart_stages, run, start_runs_the_new_service, start_stages,
    stop_ends_everything, stop_stages, FederationManager, Launched, ManagerView, Stage,
};
use super::{FederationService, RelayRequest, RelayResponse};
use crate::outside::{is_hex_digit, is_random_uuid, random_uuid, string_member, string_members};
use crate::text::{cut_once, join, joined, joined_holds_every_item, occurs_in, parts, sides};

verus! {

/// The name of the tool.
pub const TOOL_NAME: &'static str = "delegate_to_remote_agent";

/// What the model is told of the tool.
pub const TOOL_DESCRIPTION: &'static str = "Delegate a task to an agent on a remote federated herald instance. Use this when a remote agent is better suited for a task. The target can be specified as just the agent name (searched across all peers) or as 'peer:agent' for a specific instance.";

/// What the model is told of the target.
pub const TARGET_DESCRIPTION: &'static str = "Target agent. Can be 'agent_name' (search all peers) or 'peer:agent_name' (specific peer)";

/// What the model is told of the task.
pub const TASK_DESCRIPTION: &'static str = "The task or question to delegate to the remote agent";

/// The JSON type of the tool's input.
pub const INPUT_TYPE: &'static str = "object";

/// The JSON type of each parameter.
pub const PARAMETER_TYPE: &'static str = "string";

/// Why a tool call failed.
pub enum ToolError {
    InvalidInput(String),
    ExecutionFailed(String),
}

/// A value that the model passes to the tool.
pub struct ToolParameter {
    pub name: String,
    /// The JSON type of the value.
    pub value_type: String,
    pub description: String,
    pub required: bool,
}

/// The tool as it is offered to the model. The parameters are the members of its input.
pub struct ToolDefinition {
    pub name: String,
    pub description: String,
    /// The JSON type of the input.
    pub input_type: String,
    pub parameters: Vec<ToolParameter>,
}

/// An agent of another instance.
pub struct RemoteAgent {
    pub instance: String,
    pub name: String,
}

/// The tool, owned by one agent. It holds on to the manager, shared as an `M`, and to no
/// service: each call takes the one that the manager runs then.
pub struct DelegateToRemoteAgentTool<M> {
    pub manager: Arc<M>,
    /// The agent that owns the tool.
    pub self_agent: String,
}

/// A delegation that the model asks for.
pub struct Delegation<P> {
    /// The target as the model wrote it.
    pub target: String,
    /// The instance that the target names, if it names one.
    pub peer: Option<String>,
    /// The agent that the target names.
    pub agent: String,
    pub task: String,
    /// The service that delegates, and in which the agent is looked up.
    pub service: Arc<FederationService<P>>,
}

/// The instance and the agent that a target names: `peer:agent`, or an agent alone.
pub open spec fn target_parts(target: Seq<char>) -> (Option<Seq<char>>, Seq<char>) {
    match sides(target, ':') {
        Some((peer, agent)) => (Some(peer), agent),
        None => (None, target),
    }
}

/// The view of an optional text.
pub open spec fn optional_text(text: Option<String>) -> Option<Seq<char>> {
    match text {
        Some(text) => Some(text@),
        None => None,
    }
}

impl<P> Delegation<P> {
    /// The delegation of `task` to `target` by `service`.
    pub open spec fn is_of(
        self,
        target: Seq<char>,
        task: Seq<char>,
        service: Arc<FederationService<P>>,
    ) -> bool {
        &&& self.target@ == target
        &&& (optional_text(self.peer), self.agent@) == target_parts(target)
        &&& self.task@ == task
        &&& self.service == service
    }
}

/// Reads a target.
pub fn parse_target(target: &str) -> (named: (Option<String>, String))
    ensures
        (optional_text(named.0), named.1@) == target_parts(target@),
{
    match cut_once(target, ':') {
        Some((peer, agent)) => (Some(peer.to_owned()), agent.to_owned()),
        None => (None, target.to_owned()),
    }
}

/// `outcome` is the delegation that a call asks for, or why there is none, from the
/// target and the task that the call holds and the service that runs.
pub open spec fn is_outcome<P>(
    outcome: Result<Delegation<P>, ToolError>,
    target: Option<Seq<char>>,
    task: Option<Seq<char>>,
    service: Option<Arc<FederationService<P>>>,
) -> bool {
    match (target, task, service) {
        (None, _, _) => outcome matches Err(ToolError::InvalidInput(message)) && message@
            == "missing 'target'"@,
        (Some(_), None, _) => outcome matches Err(ToolError::InvalidInput(message)) && message@
            == "missing 'task'"@,
        (Some(_), Some(_), None) => outcome matches Err(ToolError::ExecutionFailed(message))
            && message@ == "Federation is not currently running"@,
        (Some(target), Some(task), Some(service)) => outcome matches Ok(delegation)
            && delegation.is_of(target, task, service),
    }
}

/// A delegation, from the target and the task that the call holds and the service that
/// runs.
pub fn delegation<P>(
    target: Option<&str>,
    task: Option<&str>,
    service: Option<Arc<FederationService<P>>>,
) -> (outcome: Result<Delegation<P>, ToolError>)
    ensures
        is_outcome(
            outcome,
            match target {
                Some(target) => Some(target@),
                None => None,
            },
            match task {
                Some(task) => Some(task@),
                None => None,
            },
            service,
        ),
{
    let target = match target {
        Some(target) => target,
        None => return Err(ToolError::InvalidInput("missing 'target'".to_owned())),
    };
    let task = match task {
        Some(task) => task,
        None => return Err(ToolError::InvalidInput("missing 'task'".to_owned())),
    };
    let service = match service {
        Some(service) => service,
        None => return Err(
            ToolError::ExecutionFailed("Federation is not currently running".to_owned()),
        ),
    };
    let (peer, agent) = parse_target(target);
    Ok(Delegation { target: target.to_owned(), peer, agent, task: task.to_owned(), service })
}

/// The namespace of one delegation: the delegating agent, and an id that tells this
/// delegation from others.
pub open spec fn relay_namespace(self_agent: Seq<char>, id: Seq<char>) -> Seq<char> {
    "federation:"@ + self_agent + ":"@ + id
}

/// `request` carries `delegation`, made by `self_agent`, to `agent` under `id`.
pub open spec fn is_request_for<P>(
    request: RelayRequest,
    delegation: Delegation<P>,
    self_agent: Seq<char>,
    agent: Seq<char>,
    id: Seq<char>,
) -> bool {
    &&& request.agent@ == agent
    &&& request.message@ == delegation.task@
    &&& request.source_peer@ == delegation.service.instance_name@
    &&& optional_text(request.source_agent) == Some(self_agent)
    &&& request.namespace@ == relay_namespace(self_agent, id)
}

impl<M> DelegateToRemoteAgentTool<M> {
    /// The tool of the agent `self_agent`.
    pub fn new(manager: Arc<M>, self_agent: String) -> (tool: Self)
        ensures
            tool.manager == manager,
            tool.self_agent == self_agent,
    {
        DelegateToRemoteAgentTool { manager, self_agent }
    }

    /// The tool as it is offered to the model.
    pub fn definition(&self) -> (definition: ToolDefinition)
        ensures
            definition.name@ == TOOL_NAME@,
            definition.description@ == TOOL_DESCRIPTION@,
            definition.input_type@ == INPUT_TYPE@,
            definition.parameters.len() == 2,
            definition.parameters[0].name@ == "target"@,
            definition.parameters[0].value_type@ == PARAMETER_TYPE@,
            definition.parameters[0].description@ == TARGET_DESCRIPTION@,
            definition.parameters[0].required,
            definition.parameters[1].name@ == "task"@,
            definition.parameters[1].value_type@ == PARAMETER_TYPE@,
            definition.parameters[1].description@ == TASK_DESCRIPTION@,
            definition.parameters[1].required,
    {
        let mut parameters: Vec<ToolParameter> = Vec::new();
        parameters.push(
            ToolParameter {
                name: "target".to_owned(),
                value_type: PARAMETER_TYPE.to_owned(),
                description: TARGET_DESCRIPTION.to_owned(),
                required: true,
            },
        );
        parameters.push(
            ToolParameter {
                name: "task".to_owned(),
                value_type: PARAMETER_TYPE.to_owned(),
                description: TASK_DESCRIPTION.to_owned(),
                required: true,
            },
        );
        ToolDefinition {
            name: TOOL_NAME.to_owned(),
            description: TOOL_DESCRIPTION.to_owned(),
            input_type: INPUT_TYPE.to_owned(),
            parameters,
        }
    }

    /// Reads a call of the tool, with the service that `manager` runs now.
    pub fn execute<C, P, H, T>(
        &self,
        input: &Value,
        manager: &FederationManager<C, FederationService<P>, H, T>,
    ) -> (outcome: Result<Delegation<P>, ToolError>)
        ensures
            is_outcome(
                outcome,
                string_members(*input).get("target"@),
                string_members(*input).get("task"@),
                manager@.service,
            ),
    {
        delegation(
            string_member(input, "target"),
            string_member(input, "task"),
            manager.service(),
        )
    }

    /// The request that carries a delegation to the agent that was found, under the id
    /// given.
    pub fn relay_request_with_id<P>(
        &self,
        delegation: &Delegation<P>,
        agent: &RemoteAgent,
        id: &str,
    ) -> (request: RelayRequest)
        ensures
            is_request_for(request, *delegation, self.self_agent@, agent.name@, id@),
    {
        let mut namespace = "federation:".to_owned();
        namespace.append(self.self_agent.as_str());
        namespace.append(":");
        namespace.append(id);
        RelayRequest {
            agent: agent.name.clone(),
            message: delegation.task.clone(),
            source_peer: delegation.service.instance_name.clone(),
            source_agent: Some(self.self_agent.clone()),
            namespace,
        }
    }

    /// The request that carries a delegation to the agent that was found, under a fresh
    /// id.
    pub fn relay_request<P>(&self, delegation: &Delegation<P>, agent: &RemoteAgent) -> (request:
        RelayRequest)
        ensures
            exists|id: Seq<char>| #[trigger]
                is_random_uuid(id) && is_request_for(
                    request,
                    *delegation,
                    self.self_agent@,
                    agent.name@,
                    id,
                ),
    {
        let id = random_uuid();
        self.relay_request_with_id(delegation, agent, id.as_str())
    }
}

/// An agent of another instance, written as a target.
pub open spec fn qualified_name(agent: RemoteAgent) -> Seq<char> {
    agent.instance@ + ":"@ + agent.name@
}

/// The agents that the model is told of, where there are any.
pub open spec fn listing(agents: Seq<RemoteAgent>) -> Seq<char> {
    if agents.len() == 0 {
        "none"@
    } else {
        joined(agents.map_values(|agent: RemoteAgent| qualified_name(agent)), ", "@)
    }
}

/// Lists agents for the model.
fn print_listing(agents: &Vec<RemoteAgent>) -> (text: String)
    ensures
        text@ == listing(agents@),
{
    if agents.len() == 0 {
        return "none".to_owned();
    }
    let mut names: Vec<String> = Vec::new();
    let mut i: usize = 0;
    while i < agents.len()
        invariant
            i <= agents.len(),
            names.len() == i,
            forall|j: int| 0 <= j < i ==> (#[trigger] names[j])@ == qualified_name(agents[j]),
        decreases agents.len() - i,
    {
        let mut name = agents[i].instance.clone();
        name.append(":");
        name.append(agents[i].name.as_str());
        names.push(name);
        i += 1;
    }
    assert(names@.map_values(|item: String| item@) =~= agents@.map_values(
        |agent: RemoteAgent| qualified_name(agent),
    ));
    join(&names, ", ")
}

impl<P> Delegation<P> {
    /// The failure of a delegation whose target is unknown, with the agents that are
    /// known.
    pub fn not_found(&self, available: &Vec<RemoteAgent>) -> (error: ToolError)
        ensures
            error matches ToolError::ExecutionFailed(message) && message@ == "remote agent '"@
                + self.target@ + "' not found. Available remote agents: "@ + listing(available@),
    {
        let mut message = "remote agent '".to_owned();
        message.append(self.target.as_str());
        message.append("' not found. Available remote agents: ");
        message.append(print_listing(available).as_str());
        ToolError::ExecutionFailed(message)
    }

    /// What the model is told once the agent that was found has answered or could not
    /// be reached.
    pub fn reply(&self, agent: &RemoteAgent, outcome: Result<RelayResponse, String>) -> (reply:
        Result<String, ToolError>)
        ensures
            match outcome {
                Ok(response) => reply matches Ok(text) && text@ == "[Remote agent '"@
                    + response.agent@ + "' on '"@ + response.instance@ + "' responded]\n\n"@
                    + response.message@,
                Err(reason) => reply matches Err(ToolError::ExecutionFailed(message)) && message@
                    == "relay to remote agent '"@ + agent.name@ + "' on '"@ + agent.instance@
                    + "' failed: "@ + reason@,
            },
    {
        match outcome {
            Ok(response) => {
                let mut text = "[Remote agent '".to_owned();
                text.append(response.agent.as_str());
                text.append("' on '");
                text.append(response.instance.as_str());
                text.append("' responded]\n\n");
                text.append(response.message.as_str());
                Ok(text)
            },
            Err(reason) => {
                let mut message = "relay to remote agent '".to_owned();
                message.append(agent.name.as_str());
                message.append("' on '");
                message.append(agent.instance.as_str());
                message.append("' failed: ");
                message.append(reason.as_str());
                Err(ToolError::ExecutionFailed(message))
            },
        }
    }
}

/// A call after a stop is refused, whatever ran before.
pub proof fn call_after_a_stop_is_refused<P, H, T>(
    manager: ManagerView<FederationService<P>, H, T>,
    launched: Launched<FederationService<P>, H, T>,
    target: Seq<char>,
    task: Seq<char>,
    outcome: Result<Delegation<P>, ToolError>,
)
    requires
        is_outcome(
            outcome,
            Some(target),
            Some(task),
            run(manager, stop_stages(), launched).service,
        ),
    ensures
        outcome matches Err(ToolError::ExecutionFailed(message)) && message@
            == "Federation is not currently running"@,
{
    stop_ends_everything(manager, launched);
}

/// A call after a start or a restart goes through the service that was started, whatever
/// ran before: the agent is looked up in that service, and the request is sent in the name
/// of its instance.
pub proof fn call_uses_the_service_started_last<P, H, T>(
    manager: ManagerView<FederationService<P>, H, T>,
    stages: Seq<Stage>,
    launched: Launched<FederationService<P>, H, T>,
    target: Seq<char>,
    task: Seq<char>,
    outcome: Result<Delegation<P>, ToolError>,
)
    requires
        stages == start_stages() || stages == restart_stages(),
        is_outcome(outcome, Some(target), Some(task), run(manager, stages, launched).service),
    ensures
        outcome matches Ok(delegation) && delegation.is_of(target, task, launched.service),
        forall|request: RelayRequest, self_agent: Seq<char>, agent: Seq<char>, id: Seq<char>|
            #[trigger] is_request_for(request, outcome->Ok_0, self_agent, agent, id)
                ==> request.source_peer@ == launched.service.instance_name@,
{
    start_runs_the_new_service(manager, launched);
    restart_is_stop_then_start(manager, launched);
}

/// A target without a colon names an agent of any instance.
pub proof fn bare_target_names_no_peer(target: Seq<char>)
    requires
        !target.contains(':'),
    ensures
        target_parts(target) == (None::<Seq<char>>, target),
{
    target.index_of_first_ensures(':');
}

/// `peer:agent` names that agent of that instance, whatever colons follow the first.
pub proof fn qualified_target_names_its_peer(peer: Seq<char>, agent: Seq<char>)
    requires
        !peer.contains(':'),
    ensures
        target_parts(peer + ":"@ + agent) == (Some(peer), agent),
{
    reveal_strlit(":");
    let target = peer + ":"@ + agent;
    target.index_of_first_ensures(':');
    let at = peer.len() as int;
    assert(target[at] == ':');
    assert forall|i: int| 0 <= i < at implies target[i] != ':' by {
        assert(target[i] == peer[i]);
    }
    assert(target.index_of_first(':') == Some(at));
    assert(target.take(at) =~= peer);
    assert(target.skip(at + 1) =~= agent);
}

/// An agent as it is listed to the model is a target that names this agent.
pub proof fn listed_agent_is_a_target(agent: RemoteAgent)
    requires
        !agent.instance@.contains(':'),
    ensures
        target_parts(qualified_name(agent)) == (Some(agent.instance@), agent.name@),
{
    qualified_target_names_its_peer(agent.instance@, agent.name@);
}

/// Every agent of a listing stands in it, written as a target.
pub proof fn listing_holds_every_agent(agents: Seq<RemoteAgent>, i: int)
    requires
        0 <= i < agents.len(),
    ensures
        occurs_in(listing(agents), qualified_name(agents[i])),
{
    let names = agents.map_values(|agent: RemoteAgent| qualified_name(agent));
    assert(names[i] == qualified_name(agents[i]));
    joined_holds_every_item(names, ", "@, i);
}

/// The receiving instance keeps a delegation in a session of its own: below
/// `federation`, below the delegating agent, under the id.
pub proof fn relay_namespace_has_three_segments(self_agent: Seq<char>, id: Seq<char>)
    requires
        !self_agent.contains(':'),
        is_random_uuid(id),
    ensures
        parts(relay_namespace(self_agent, id), ':') == seq!["federation"@, self_agent, id],
{
    reveal_strlit("federation:");
    reveal_strlit("federation");
    reveal_strlit(":");
    reveal_with_fuel(parts, 4);
    let whole = relay_namespace(self_agent, id);
    let tail = self_agent + ":"@ + id;
    assert(!id.contains(':')) by {
        assert forall|i: int| 0 <= i < id.len() implies id[i] != ':' by {
            assert(id[i] == '-' || is_hex_digit(id[i]));
        }
    }
    parts_at_first(whole, "federation"@, tail);
    parts_at_first(tail, self_agent, id);
    id.index_of_first_ensures(':');
    assert(parts(id, ':') =~= seq![id]);
    assert(parts(tail, ':') =~= seq![self_agent, id]);
    assert(parts(whole, ':') =~= seq!["federation"@, self_agent, id]);
}

/// Two delegations share a session only where the same agent made both under the same
/// id.
pub proof fn delegations_keep_their_sessions_apart(
    self_agent: Seq<char>,
    id: Seq<char>,
    other_agent: Seq<char>,
    other_id: Seq<char>,
)
    requires
        !self_agent.contains(':'),
        !other_agent.contains(':'),
        is_random_uuid(id),
        is_random_uuid(other_id),
        relay_namespace(self_agent, id) == relay_namespace(other_agent, other_id),
    ensures
        self_agent == other_agent,
        id == other_id,
{
    relay_namespace_has_three_segments(self_agent, id);
    relay_namespace_has_three_segments(other_agent, other_id);
    let segments = seq!["federation"@, self_agent, id];
    let other_segments = seq!["federation"@, other_agent, other_id];
    assert(segments == other_segments);
    assert(segments[1] == other_segments[1]);
    assert(segments[2] == other_segments[2]);
}

proof fn parts_at_first(whole: Seq<char>, head: Seq<char>, tail: Seq<char>)
    requires
        whole =~= head + seq![':'] + tail,
        !head.contains(':'),
    ensures
        parts(whole, ':') == seq![head] + parts(tail, ':'),
{
    whole.index_of_first_ensures(':');
    let at = head.len() as int;
    assert(whole[at] == ':');
    assert forall|i: int| 0 <= i < at implies whole[i] != ':' by {
        assert(whole[i] == head[i]);
    }
    assert(whole.index_of_first(':') == Some(at));
    assert(whole.take(at) =~= head);
    assert(whole.skip(at + 1) =~= tail);
}

}
