//! Laws of delegating a task to an agent of another instance.

use std::sync::Arc;

use serde_json::Value;
use vstd::prelude::*;
use vstd::string::*;

use super::text::{joining_appends, sides_are_cut_at_the_first_separator};
use crate::federation::manager::FederationManager;
use crate::federation::tool::{
    delegation, optional_text, parse_target, qualified_name, target_parts,
    DelegateToRemoteAgentTool, Delegation, RemoteAgent, ToolDefinition, ToolError,
};
use crate::federation::{FederationService, RelayRequest, RelayResponse};
use crate::outside::{is_random_uuid, string_members};

verus! {

/// `target` names `agent` of `peer`: it is the peer, a colon and the agent, and the colon is
/// its first. A target without a colon is an agent, of no peer in particular.
pub open spec fn names(target: Seq<char>, peer: Option<String>, agent: String) -> bool {
    match peer {
        Some(peer) => target == peer@.push(':') + agent@ && !peer@.contains(':'),
        None => target == agent@ && !target.contains(':'),
    }
}

proof fn target_parts_are_named(target: Seq<char>, peer: Option<String>, agent: String)
    requires
        (optional_text(peer), agent@)
            == target_parts(target),
    ensures
        names(target, peer, agent),
{
    let left = match peer {
        Some(peer) => peer@,
        None => Seq::empty(),
    };
    sides_are_cut_at_the_first_separator(target, ':', left, agent@);
}

/// A target is read as what it names.
pub proof fn target_is_read_as_what_it_names(target: &str, named: (Option<String>, String))
    requires
        call_ensures(parse_target, (target,), named),
    ensures
        names(target@, named.0, named.1),
{
    target_parts_are_named(target@, named.0, named.1);
}

/// The tool belongs to the agent and asks the manager that it was made with.
pub proof fn tool_keeps_its_agent_and_its_manager<M>(
    manager: Arc<M>,
    self_agent: String,
    tool: DelegateToRemoteAgentTool<M>,
)
    requires
        call_ensures(DelegateToRemoteAgentTool::<M>::new, (manager, self_agent), tool),
    ensures
        tool.manager == manager,
        tool.self_agent@ == self_agent@,
{
}

/// The model is told of two parameters, both of them texts that it must give.
pub proof fn model_is_asked_for_target_and_task<M>(
    tool: DelegateToRemoteAgentTool<M>,
    definition: ToolDefinition,
)
    requires
        call_ensures(DelegateToRemoteAgentTool::<M>::definition, (&tool,), definition),
    ensures
        definition.name@ == "delegate_to_remote_agent"@,
        definition.description@ == "Delegate a task to an agent on a remote federated herald instance. Use this when a remote agent is better suited for a task. The target can be specified as just the agent name (searched across all peers) or as 'peer:agent' for a specific instance."@,
        definition.input_type@ == "object"@,
        definition.parameters@.len() == 2,
        definition.parameters@[0].name@ == "target"@,
        definition.parameters@[0].description@
            == "Target agent. Can be 'agent_name' (search all peers) or 'peer:agent_name' (specific peer)"@,
        definition.parameters@[1].name@ == "task"@,
        definition.parameters@[1].description@
            == "The task or question to delegate to the remote agent"@,
        forall|i: int|
            0 <= i < 2 ==> (#[trigger] definition.parameters@[i]).required
                && definition.parameters@[i].value_type@ == "string"@,
{
}

/// A delegation needs a target, a task and a running service, and is refused for the first
/// of them that is missing. It holds the target and the task as they are, what the target
/// names, and the service.
pub proof fn delegation_holds_what_was_asked<P>(
    target: Option<&str>,
    task: Option<&str>,
    service: Option<Arc<FederationService<P>>>,
    outcome: Result<Delegation<P>, ToolError>,
)
    requires
        call_ensures(delegation::<P>, (target, task, service), outcome),
    ensures
        outcome is Ok <==> target is Some && task is Some && service is Some,
        target is None ==> (outcome matches Err(ToolError::InvalidInput(message)) && message@
            == "missing 'target'"@),
        target is Some && task is None ==> (outcome matches Err(ToolError::InvalidInput(message))
            && message@ == "missing 'task'"@),
        target is Some && task is Some && service is None ==> (
        outcome matches Err(ToolError::ExecutionFailed(message)) && message@
            == "Federation is not currently running"@),
        outcome matches Ok(delegation) ==> {
            &&& delegation.target@ == target->0@
            &&& names(target->0@, delegation.peer, delegation.agent)
            &&& delegation.task@ == task->0@
            &&& delegation.service == service->0
        },
{
    if let Ok(delegation) = outcome {
        target_parts_are_named(target->0@, delegation.peer, delegation.agent);
    }
}

/// A call is read from the texts that its input holds as `target` and as `task`, each of
/// them whole, and from the service that the manager runs.
pub proof fn call_holds_what_its_input_holds<M, C, P, H, T>(
    tool: DelegateToRemoteAgentTool<M>,
    input: Value,
    manager: FederationManager<C, FederationService<P>, H, T>,
    outcome: Result<Delegation<P>, ToolError>,
)
    requires
        call_ensures(
            DelegateToRemoteAgentTool::<M>::execute::<C, P, H, T>,
            (&tool, &input, &manager),
            outcome,
        ),
    ensures
        ({
            let members = string_members(input);
            let has_target = members.contains_key("target"@);
            let has_task = members.contains_key("task"@);
            &&& outcome is Ok <==> has_target && has_task && manager.service is Some
            &&& !has_target ==> (outcome matches Err(ToolError::InvalidInput(message)) && message@
                == "missing 'target'"@)
            &&& has_target && !has_task ==> (outcome matches Err(ToolError::InvalidInput(message))
                && message@ == "missing 'task'"@)
            &&& has_target && has_task && manager.service is None ==> (
            outcome matches Err(ToolError::ExecutionFailed(message)) && message@
                == "Federation is not currently running"@)
            &&& outcome matches Ok(delegation) ==> {
                &&& delegation.target@ == members["target"@]
                &&& names(members["target"@], delegation.peer, delegation.agent)
                &&& delegation.task@ == members["task"@]
                &&& Some(delegation.service) == manager.service
            }
        }),
{
    if let Ok(delegation) = outcome {
        target_parts_are_named(
            string_members(input)["target"@],
            delegation.peer,
            delegation.agent,
        );
    }
}

/// A request carries the whole task, character for character, to the agent that was found,
/// in the name of the delegating instance and agent, and in a session named after that
/// agent and the id.
pub proof fn request_carries_the_whole_task<M, P>(
    tool: DelegateToRemoteAgentTool<M>,
    delegation: Delegation<P>,
    agent: RemoteAgent,
    id: &str,
    request: RelayRequest,
)
    requires
        call_ensures(
            DelegateToRemoteAgentTool::<M>::relay_request_with_id::<P>,
            (&tool, &delegation, &agent, id),
            request,
        ),
    ensures
        request.message@ == delegation.task@,
        request.agent@ == agent.name@,
        request.source_peer@ == delegation.service.instance_name@,
        request.source_agent is Some,
        request.source_agent->0@ == tool.self_agent@,
        request.namespace@ == "federation:"@ + tool.self_agent@ + ":"@ + id@,
{
}

/// The same holds of a request under an id that is drawn for it.
pub proof fn drawn_request_carries_the_whole_task<M, P>(
    tool: DelegateToRemoteAgentTool<M>,
    delegation: Delegation<P>,
    agent: RemoteAgent,
    request: RelayRequest,
)
    requires
        call_ensures(
            DelegateToRemoteAgentTool::<M>::relay_request::<P>,
            (&tool, &delegation, &agent),
            request,
        ),
    ensures
        request.message@ == delegation.task@,
        request.agent@ == agent.name@,
        request.source_peer@ == delegation.service.instance_name@,
        request.source_agent is Some,
        request.source_agent->0@ == tool.self_agent@,
        exists|id: Seq<char>| #[trigger]
            is_random_uuid(id) && request.namespace@ == "federation:"@ + tool.self_agent@ + ":"@
                + id,
{
}

/// From the call of the tool to the request: the message that reaches the other instance is
/// the text that the input holds as `task`, whatever characters it consists of, and it comes
/// from the instance whose service runs.
pub proof fn task_arrives_as_the_model_wrote_it<M, C, P, H, T>(
    tool: DelegateToRemoteAgentTool<M>,
    input: Value,
    manager: FederationManager<C, FederationService<P>, H, T>,
    delegation: Delegation<P>,
    agent: RemoteAgent,
    id: &str,
    request: RelayRequest,
    drawn: RelayRequest,
)
    requires
        call_ensures(
            DelegateToRemoteAgentTool::<M>::execute::<C, P, H, T>,
            (&tool, &input, &manager),
            Ok(delegation),
        ),
        call_ensures(
            DelegateToRemoteAgentTool::<M>::relay_request_with_id::<P>,
            (&tool, &delegation, &agent, id),
            request,
        ),
        call_ensures(
            DelegateToRemoteAgentTool::<M>::relay_request::<P>,
            (&tool, &delegation, &agent),
            drawn,
        ),
    ensures
        string_members(input).contains_key("task"@),
        request.message@ == string_members(input)["task"@],
        drawn.message@ == string_members(input)["task"@],
        manager.service is Some,
        request.source_peer@ == manager.service->0.instance_name@,
        drawn.source_peer@ == manager.service->0.instance_name@,
{
    call_holds_what_its_input_holds(tool, input, manager, Ok(delegation));
    request_carries_the_whole_task(tool, delegation, agent, id, request);
    drawn_request_carries_the_whole_task(tool, delegation, agent, drawn);
}

/// The failure of a delegation to an unknown agent tells the whole target. It tells that no
/// agents are known, or the one that is.
pub proof fn unknown_target_is_told<P>(
    delegation: Delegation<P>,
    available: Vec<RemoteAgent>,
    error: ToolError,
)
    requires
        call_ensures(Delegation::<P>::not_found, (&delegation, &available), error),
    ensures
        error is ExecutionFailed,
        available@.len() == 0 ==> error->ExecutionFailed_0@ == "remote agent '"@
            + delegation.target@ + "' not found. Available remote agents: "@ + "none"@,
        available@.len() == 1 ==> error->ExecutionFailed_0@ == "remote agent '"@
            + delegation.target@ + "' not found. Available remote agents: "@ + (
        available@[0].instance@ + ":"@ + available@[0].name@),
{
    if available@.len() == 1 {
        assert(available@.map_values(|agent: RemoteAgent| qualified_name(agent)) =~= seq![
            qualified_name(available@[0]),
        ]);
        joining_appends(Seq::empty(), qualified_name(available@[0]), ", "@);
    }
}

/// With one agent more that is known, however many are, the failure tells that one too, as
/// its instance, a colon and its name, behind the others.
pub proof fn every_known_agent_is_told<P>(
    delegation: Delegation<P>,
    available: Vec<RemoteAgent>,
    more: Vec<RemoteAgent>,
    agent: RemoteAgent,
    error: ToolError,
    longer: ToolError,
)
    requires
        available@.len() > 0,
        more@ == available@.push(agent),
        call_ensures(Delegation::<P>::not_found, (&delegation, &available), error),
        call_ensures(Delegation::<P>::not_found, (&delegation, &more), longer),
    ensures
        error is ExecutionFailed && longer is ExecutionFailed,
        longer->ExecutionFailed_0@ == error->ExecutionFailed_0@ + ", "@ + agent.instance@ + ":"@
            + agent.name@,
{
    let names = available@.map_values(|agent: RemoteAgent| qualified_name(agent));
    assert(more@.map_values(|agent: RemoteAgent| qualified_name(agent)) =~= names.push(
        qualified_name(agent),
    ));
    joining_appends(names, qualified_name(agent), ", "@);
    assert(longer->ExecutionFailed_0@ =~= error->ExecutionFailed_0@ + ", "@ + agent.instance@
        + ":"@ + agent.name@);
}

/// The model is told the whole answer, and which agent of which instance gave it. Where the
/// relay failed it is told which agent was asked, and the whole reason.
pub proof fn model_is_told_the_whole_answer<P>(
    delegation: Delegation<P>,
    agent: RemoteAgent,
    outcome: Result<RelayResponse, String>,
    reply: Result<String, ToolError>,
)
    requires
        call_ensures(Delegation::<P>::reply, (&delegation, &agent, outcome), reply),
    ensures
        outcome matches Ok(response) ==> (reply matches Ok(text) && text@ == "[Remote agent '"@
            + response.agent@ + "' on '"@ + response.instance@ + "' responded]\n\n"@
            + response.message@),
        outcome matches Err(reason) ==> (reply matches Err(ToolError::ExecutionFailed(message))
            && message@ == "relay to remote agent '"@ + agent.name@ + "' on '"@ + agent.instance@
            + "' failed: "@ + reason@),
{
}

}
