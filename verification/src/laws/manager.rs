//! Laws of the federation service's lifecycle.

use std::sync::Arc;

use vstd::prelude::*;
use vstd::string::*;

use super::text::{is_number, number_is_written_in_base_ten, number_is_written_in_one_way};
use crate::federation::manager::{
    api_log, listen_address, server_log, started_log, tasks_log, Action, FederationManager,
    Launched, ServerEvent, Stage,
};

verus! {

/// A new manager runs nothing, and keeps what services are started with.
pub proof fn new_manager_runs_nothing<C, S, H, T>(
    shared: C,
    manager: FederationManager<C, S, H, T>,
)
    requires
        call_ensures(FederationManager::<C, S, H, T>::new, (shared,), manager),
    ensures
        manager.shared == shared,
        manager.service is None,
        manager.task_handles@.len() == 0,
        manager.cancel_token is None,
        manager.api_handle is None,
{
}

/// The service that is given out is the one that was taken in, and federation runs where
/// there is one.
pub proof fn running_service_is_given_out<C, S, H, T>(
    manager: FederationManager<C, S, H, T>,
    service: Option<Arc<S>>,
    running: bool,
)
    requires
        call_ensures(FederationManager::<C, S, H, T>::service, (&manager,), service),
        call_ensures(FederationManager::<C, S, H, T>::is_running, (&manager,), running),
    ensures
        service == manager.service,
        running <==> service is Some,
{
}

/// Each stage hands out what it is about, takes it from the manager, and leaves the rest:
/// first the token, then all the tasks, for five seconds, then the server, for three. The
/// service goes when they are gone.
pub proof fn stage_hands_out_its_own<C, S, H, T>(
    before: FederationManager<C, S, H, T>,
    after: FederationManager<C, S, H, T>,
    stage: Stage,
    action: Action<H, T>,
)
    requires
        exists|manager: &mut FederationManager<C, S, H, T>|
            *manager == before && *final(manager) == after && #[trigger] call_ensures(
                FederationManager::<C, S, H, T>::perform,
                (manager, stage),
                action,
            ),
    ensures
        after.shared == before.shared,
        stage != Stage::Clear ==> after.service == before.service,
        stage != Stage::Tasks ==> after.task_handles@ == before.task_handles@,
        stage != Stage::Signal ==> after.cancel_token == before.cancel_token,
        stage != Stage::Api ==> after.api_handle == before.api_handle,
        stage == Stage::Signal ==> {
            &&& after.cancel_token is None
            &&& before.cancel_token is None ==> action is Proceed
            &&& before.cancel_token is Some ==> (action matches Action::Cancel { token, log }
                && Some(token) == before.cancel_token && log@
                == "[federation] Cancellation signal sent"@)
        },
        stage == Stage::Tasks ==> {
            &&& after.task_handles@.len() == 0
            &&& before.task_handles@.len() == 0 ==> action is Proceed
            &&& before.task_handles@.len() > 0 ==> (action matches Action::AwaitTasks {
                handles,
                secs,
            } && handles@ == before.task_handles@ && secs == 5)
        },
        stage == Stage::Api ==> {
            &&& after.api_handle is None
            &&& before.api_handle is None ==> action is Proceed
            &&& before.api_handle is Some ==> (action matches Action::AwaitApi { handle, secs }
                && Some(handle) == before.api_handle && secs == 3)
        },
        stage == Stage::Clear ==> after.service is None && action is Proceed,
        stage == Stage::Launch ==> action is Launch,
{
}

/// Performing the stages of a stop, whatever ran before, leaves nothing running. The token,
/// every task and the server are handed out on the way, in that order, and nothing is
/// started.
pub proof fn stop_leaves_nothing_running<C, S, H, T>(
    managers: Seq<FederationManager<C, S, H, T>>,
    stages: Vec<Stage>,
    actions: Seq<Action<H, T>>,
)
    requires
        call_ensures(FederationManager::<C, S, H, T>::stop, (&managers[0],), stages),
        managers.len() == stages@.len() + 1,
        actions.len() == stages@.len(),
        forall|k: int|
            0 <= k < stages@.len() ==> exists|manager: &mut FederationManager<C, S, H, T>|
                *manager == managers[k] && *final(manager) == managers[k + 1] && (
                #[trigger] call_ensures(
                    FederationManager::<C, S, H, T>::perform,
                    (manager, stages@[k]),
                    #[trigger] actions[k],
                )),
    ensures
        stages@.len() == 4,
        managers.last().service is None,
        managers.last().task_handles@.len() == 0,
        managers.last().cancel_token is None,
        managers.last().api_handle is None,
        managers.last().shared == managers[0].shared,
        managers[0].cancel_token is Some ==> (actions[0] matches Action::Cancel { token, .. }
            && Some(token) == managers[0].cancel_token),
        managers[0].task_handles@.len() > 0 ==> (actions[1] matches Action::AwaitTasks {
            handles,
            ..
        } && handles@ == managers[0].task_handles@),
        managers[0].api_handle is Some ==> (actions[2] matches Action::AwaitApi { handle, .. }
            && Some(handle) == managers[0].api_handle),
        forall|k: int| 0 <= k < 4 ==> !(#[trigger] actions[k] is Launch),
        forall|k: int| 0 <= k < 4 ==> (#[trigger] managers[k]).service == managers[0].service,
{
    stage_hands_out_its_own(managers[0], managers[1], stages@[0], actions[0]);
    stage_hands_out_its_own(managers[1], managers[2], stages@[1], actions[1]);
    stage_hands_out_its_own(managers[2], managers[3], stages@[2], actions[2]);
    stage_hands_out_its_own(managers[3], managers[4], stages@[3], actions[3]);
}

/// A start is a stop with a launch behind it, and a restart is a stop with a start behind
/// it, whatever runs.
pub proof fn start_and_restart_begin_with_a_stop<C, S, H, T>(
    manager: FederationManager<C, S, H, T>,
    other: FederationManager<C, S, H, T>,
    stop: Vec<Stage>,
    start: Vec<Stage>,
    restart: Vec<Stage>,
)
    requires
        call_ensures(FederationManager::<C, S, H, T>::stop, (&other,), stop),
        call_ensures(FederationManager::<C, S, H, T>::start, (&manager,), start),
        call_ensures(FederationManager::<C, S, H, T>::restart, (&manager,), restart),
    ensures
        start@ == stop@.push(Stage::Launch),
        restart@ == stop@ + start@,
{
}

/// A service that was started runs from then on, with its own tasks, token and server, and
/// with nothing of what ran before.
pub proof fn started_service_runs<C, S, H, T>(
    before: FederationManager<C, S, H, T>,
    after: FederationManager<C, S, H, T>,
    launched: Launched<S, H, T>,
    outcome: Result<(), String>,
)
    requires
        exists|manager: &mut FederationManager<C, S, H, T>|
            *manager == before && *final(manager) == after && #[trigger] call_ensures(
                FederationManager::<C, S, H, T>::launched,
                (manager, launched),
                outcome,
            ),
    ensures
        outcome is Ok,
        after.service == Some(launched.service),
        after.task_handles@ == launched.task_handles@,
        after.cancel_token == Some(launched.cancel_token),
        after.api_handle == Some(launched.api_handle),
        after.shared == before.shared,
{
}

/// The server listens on every interface, on the port given.
pub proof fn server_listens_on_the_port(port: u16, address: String)
    requires
        call_ensures(listen_address, (port,), address),
    ensures
        exists|digits: Seq<char>| #[trigger]
            is_number(digits, port as int) && address@ == "0.0.0.0:"@ + digits,
{
    number_is_written_in_base_ten(port as nat);
}

/// Servers on different ports listen at different addresses.
pub proof fn ports_have_their_own_addresses(port: u16, other: u16, first: String, second: String)
    requires
        call_ensures(listen_address, (port,), first),
        call_ensures(listen_address, (other,), second),
    ensures
        first@ == second@ <==> port == other,
{
    server_listens_on_the_port(port, first);
    server_listens_on_the_port(other, second);
    let prefix = "0.0.0.0:"@;
    let a = choose|digits: Seq<char>| #[trigger]
        is_number(digits, port as int) && first@ == "0.0.0.0:"@ + digits;
    let b = choose|digits: Seq<char>| #[trigger]
        is_number(digits, other as int) && second@ == "0.0.0.0:"@ + digits;
    number_is_written_in_one_way(a, port as int, b, other as int);
    assert((prefix + a).skip(prefix.len() as int) =~= a);
    assert((prefix + b).skip(prefix.len() as int) =~= b);
}

/// Each event of the server is logged with the address, or with the whole reason.
pub proof fn server_event_is_logged(port: u16, event: ServerEvent, log: String)
    requires
        call_ensures(server_log, (port, event), log),
    ensures
        event is Listening ==> exists|digits: Seq<char>| #[trigger]
            is_number(digits, port as int) && log@
                == "[federation] API listening on http://0.0.0.0:"@ + digits,
        event matches ServerEvent::BindFailed { reason } ==> exists|digits: Seq<char>| #[trigger]
            is_number(digits, port as int) && log@ == "[federation] Failed to bind 0.0.0.0:"@
                + digits + ": "@ + reason@,
        event matches ServerEvent::Failed { reason } ==> log@
            == "[federation] API server error: "@ + reason@,
        event is Stopped ==> log@ == "[federation] API server stopped"@,
{
    number_is_written_in_base_ten(port as nat);
    reveal_strlit("0.0.0.0:");
    reveal_strlit("[federation] API listening on http://");
    reveal_strlit("[federation] API listening on http://0.0.0.0:");
    reveal_strlit("[federation] Failed to bind ");
    reveal_strlit("[federation] Failed to bind 0.0.0.0:");
    let digits = crate::text::decimal(port as nat);
    assert("[federation] API listening on http://0.0.0.0:"@
        =~= "[federation] API listening on http://"@ + "0.0.0.0:"@);
    assert("[federation] Failed to bind 0.0.0.0:"@ =~= "[federation] Failed to bind "@
        + "0.0.0.0:"@);
    assert("[federation] API listening on http://"@ + ("0.0.0.0:"@ + digits)
        =~= "[federation] API listening on http://0.0.0.0:"@ + digits);
    assert("[federation] Failed to bind "@ + ("0.0.0.0:"@ + digits)
        =~= "[federation] Failed to bind 0.0.0.0:"@ + digits);
}

/// A start is logged with the whole name of the instance and the port.
pub proof fn start_is_logged(instance_name: &str, port: u16, log: String)
    requires
        call_ensures(started_log, (instance_name, port), log),
    ensures
        exists|digits: Seq<char>| #[trigger]
            is_number(digits, port as int) && log@ == "[federation] Started (instance: '"@
                + instance_name@ + "', port: "@ + digits + ")"@,
{
    number_is_written_in_base_ten(port as nat);
}

/// The end of a wait is logged with the number of tasks, and with whether they ended in
/// time.
pub proof fn end_of_the_wait_is_logged(
    count: usize,
    timed_out: bool,
    tasks: String,
    server: String,
)
    requires
        call_ensures(tasks_log, (count, timed_out), tasks),
        call_ensures(api_log, (timed_out,), server),
    ensures
        timed_out ==> exists|digits: Seq<char>| #[trigger]
            is_number(digits, count as int) && tasks@ == "[federation] Timeout waiting for "@
                + digits + " background tasks"@,
        !timed_out ==> exists|digits: Seq<char>| #[trigger]
            is_number(digits, count as int) && tasks@ == "[federation] "@ + digits
                + " background tasks stopped"@,
        timed_out ==> server@ == "[federation] Timeout waiting for API server"@,
        !timed_out ==> server@ == "[federation] API server stopped"@,
{
    number_is_written_in_base_ten(count as nat);
}

}
