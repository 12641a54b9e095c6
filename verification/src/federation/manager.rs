//! The lifecycle of the federation service: it can be started, stopped and restarted
//! with new settings while the instance runs.
//!
//! What a start, a stop or a restart consists of is a list of [`Stage`]s. The program
//! performs them in order: each hands out what the manager held for it, and the
//! program waits for that to end before it goes on.

use std::sync::Arc;

use vstd::prelude::*;
use vstd::string::*;

use crate::text::{decimal, print_decimal};

verus! {

/// How long a stop waits for the background tasks, in seconds.
pub const TASKS_GRACE: u64 = 5;

/// How long a stop waits for the API server, in seconds.
pub const API_GRACE: u64 = 3;

/// The service that runs, if any, with what it takes to stop it: `S` is the service,
/// `H` a handle on a task and `T` the token that tells tasks to end. Every service is
/// started with the same `C`: the agents' runtimes and the session store.
pub struct FederationManager<C, S, H, T> {
    /// What every service is started with.
    pub shared: C,
    /// The running service.
    pub service: Option<Arc<S>>,
    /// The background tasks.
    pub task_handles: Vec<H>,
    /// What tells the background tasks and the API server to end.
    pub cancel_token: Option<T>,
    /// The API server.
    pub api_handle: Option<H>,
}

/// What a manager runs.
pub struct ManagerView<S, H, T> {
    pub service: Option<Arc<S>>,
    pub task_handles: Seq<H>,
    pub cancel_token: Option<T>,
    pub api_handle: Option<H>,
}

impl<C, S, H, T> View for FederationManager<C, S, H, T> {
    type V = ManagerView<S, H, T>;

    open spec fn view(&self) -> ManagerView<S, H, T> {
        ManagerView {
            service: self.service,
            task_handles: self.task_handles@,
            cancel_token: self.cancel_token,
            api_handle: self.api_handle,
        }
    }
}

/// One step of a start, a stop or a restart.
#[derive(Clone, Copy, Debug, PartialEq, Eq, Structural)]
pub enum Stage {
    /// Tell everything that runs to end.
    Signal,
    /// Wait for the background tasks.
    Tasks,
    /// Wait for the API server.
    Api,
    /// Forget the service.
    Clear,
    /// Start a new service.
    Launch,
}

/// What the program does for a stage.
pub enum Action<H, T> {
    /// Nothing: go on.
    Proceed,
    /// Cancel the token and log.
    Cancel { token: T, log: String },
    /// Wait for all the tasks, for so many seconds at most.
    AwaitTasks { handles: Vec<H>, secs: u64 },
    /// Wait for the API server, for so many seconds at most.
    AwaitApi { handle: H, secs: u64 },
    /// Start a service and take it to [`FederationManager::launched`].
    Launch,
}

/// A service that was started.
pub struct Launched<S, H, T> {
    pub service: Arc<S>,
    pub task_handles: Vec<H>,
    pub cancel_token: T,
    pub api_handle: H,
}

/// The stages of a stop.
pub open spec fn stop_stages() -> Seq<Stage> {
    seq![Stage::Signal, Stage::Tasks, Stage::Api, Stage::Clear]
}

/// The stages of a start: what runs is stopped first.
pub open spec fn start_stages() -> Seq<Stage> {
    stop_stages().push(Stage::Launch)
}

/// The stages of a restart: a stop, then a start.
pub open spec fn restart_stages() -> Seq<Stage> {
    stop_stages() + start_stages()
}

impl<S, H, T> ManagerView<S, H, T> {
    /// Nothing runs.
    pub open spec fn stopped() -> Self {
        ManagerView {
            service: None,
            task_handles: Seq::empty(),
            cancel_token: None,
            api_handle: None,
        }
    }

    /// What runs is what was started.
    pub open spec fn running(launched: Launched<S, H, T>) -> Self {
        ManagerView {
            service: Some(launched.service),
            task_handles: launched.task_handles@,
            cancel_token: Some(launched.cancel_token),
            api_handle: Some(launched.api_handle),
        }
    }

    /// The manager after a stage of a stop, or before the service of a launch is in.
    pub open spec fn after(self, stage: Stage) -> Self {
        match stage {
            Stage::Signal => ManagerView { cancel_token: None, ..self },
            Stage::Tasks => ManagerView { task_handles: Seq::empty(), ..self },
            Stage::Api => ManagerView { api_handle: None, ..self },
            Stage::Clear => ManagerView { service: None, ..self },
            Stage::Launch => self,
        }
    }

    /// `action` hands out what the manager holds for the stage.
    pub open spec fn asks(self, stage: Stage, action: Action<H, T>) -> bool {
        match stage {
            Stage::Signal => match self.cancel_token {
                Some(held) => action matches Action::Cancel { token, log } && token == held && log@
                    == "[federation] Cancellation signal sent"@,
                None => action is Proceed,
            },
            Stage::Tasks => if self.task_handles.len() > 0 {
                action matches Action::AwaitTasks { handles, secs } && handles@
                    == self.task_handles && secs == TASKS_GRACE
            } else {
                action is Proceed
            },
            Stage::Api => match self.api_handle {
                Some(held) => action matches Action::AwaitApi { handle, secs } && handle == held
                    && secs == API_GRACE,
                None => action is Proceed,
            },
            Stage::Clear => action is Proceed,
            Stage::Launch => action is Launch,
        }
    }
}

impl<C, S, H, T> FederationManager<C, S, H, T> {
    /// A manager with nothing running.
    pub fn new(shared: C) -> (manager: Self)
        ensures
            manager.shared == shared,
            manager@ == ManagerView::<S, H, T>::stopped(),
    {
        FederationManager {
            shared,
            service: None,
            task_handles: Vec::new(),
            cancel_token: None,
            api_handle: None,
        }
    }

    /// The running service.
    pub fn service(&self) -> (service: Option<Arc<S>>)
        ensures
            service == self@.service,
    {
        match &self.service {
            Some(service) => Some(service.clone()),
            None => None,
        }
    }

    /// Whether a service runs.
    pub fn is_running(&self) -> (running: bool)
        ensures
            running == self@.service is Some,
    {
        self.service.is_some()
    }

    /// What a stop consists of.
    pub fn stop(&self) -> (stages: Vec<Stage>)
        ensures
            stages@ == stop_stages(),
    {
        vec![Stage::Signal, Stage::Tasks, Stage::Api, Stage::Clear]
    }

    /// What a start consists of.
    pub fn start(&self) -> (stages: Vec<Stage>)
        ensures
            stages@ == start_stages(),
    {
        let mut stages = self.stop();
        stages.push(Stage::Launch);
        stages
    }

    /// What a restart consists of.
    pub fn restart(&self) -> (stages: Vec<Stage>)
        ensures
            stages@ == restart_stages(),
    {
        let mut stages = self.stop();
        let mut start = self.start();
        stages.append(&mut start);
        stages
    }

    /// Performs a stage on the manager, and says what the program does for it.
    pub fn perform(&mut self, stage: Stage) -> (action: Action<H, T>)
        ensures
            old(self)@.asks(stage, action),
            final(self)@ == old(self)@.after(stage),
            final(self).shared == old(self).shared,
    {
        match stage {
            Stage::Signal => match self.cancel_token.take() {
                Some(token) => Action::Cancel {
                    token,
                    log: "[federation] Cancellation signal sent".to_owned(),
                },
                None => Action::Proceed,
            },
            Stage::Tasks => {
                let mut handles: Vec<H> = Vec::new();
                std::mem::swap(&mut handles, &mut self.task_handles);
                if handles.len() > 0 {
                    Action::AwaitTasks { handles, secs: TASKS_GRACE }
                } else {
                    assert(handles@ =~= Seq::empty());
                    Action::Proceed
                }
            },
            Stage::Api => match self.api_handle.take() {
                Some(handle) => Action::AwaitApi { handle, secs: API_GRACE },
                None => Action::Proceed,
            },
            Stage::Clear => {
                self.service = None;
                Action::Proceed
            },
            Stage::Launch => Action::Launch,
        }
    }

    /// Takes in a service that was started. It cannot fail.
    pub fn launched(&mut self, launched: Launched<S, H, T>) -> (outcome: Result<(), String>)
        ensures
            outcome is Ok,
            final(self)@ == ManagerView::running(launched),
            final(self).shared == old(self).shared,
    {
        self.service = Some(launched.service);
        self.task_handles = launched.task_handles;
        self.cancel_token = Some(launched.cancel_token);
        self.api_handle = Some(launched.api_handle);
        Ok(())
    }
}

/// What is logged once the wait for `count` background tasks is over.
pub fn tasks_log(count: usize, timed_out: bool) -> (log: String)
    ensures
        log@ == if timed_out {
            "[federation] Timeout waiting for "@ + decimal(count as nat) + " background tasks"@
        } else {
            "[federation] "@ + decimal(count as nat) + " background tasks stopped"@
        },
{
    let count = print_decimal(count as u64);
    if timed_out {
        let mut log = "[federation] Timeout waiting for ".to_owned();
        log.append(count.as_str());
        log.append(" background tasks");
        log
    } else {
        let mut log = "[federation] ".to_owned();
        log.append(count.as_str());
        log.append(" background tasks stopped");
        log
    }
}

/// What is logged once the wait for the API server is over.
pub fn api_log(timed_out: bool) -> (log: String)
    ensures
        log@ == if timed_out {
            "[federation] Timeout waiting for API server"@
        } else {
            "[federation] API server stopped"@
        },
{
    if timed_out {
        "[federation] Timeout waiting for API server".to_owned()
    } else {
        "[federation] API server stopped".to_owned()
    }
}

/// What is logged once a service runs.
pub fn started_log(instance_name: &str, port: u16) -> (log: String)
    ensures
        log@ == "[federation] Started (instance: '"@ + instance_name@ + "', port: "@ + decimal(
            port as nat,
        ) + ")"@,
{
    let mut log = "[federation] Started (instance: '".to_owned();
    log.append(instance_name);
    log.append("', port: ");
    log.append(print_decimal(port as u64).as_str());
    log.append(")");
    log
}

/// Where the API server listens: on every interface.
pub open spec fn listen_address_of(port: u16) -> Seq<char> {
    "0.0.0.0:"@ + decimal(port as nat)
}

/// Where the API server listens.
pub fn listen_address(port: u16) -> (address: String)
    ensures
        address@ == listen_address_of(port),
{
    let mut address = "0.0.0.0:".to_owned();
    address.append(print_decimal(port as u64).as_str());
    address
}

/// What happens to the API server.
pub enum ServerEvent {
    /// It listens.
    Listening,
    /// It could not listen.
    BindFailed { reason: String },
    /// It gave up.
    Failed { reason: String },
    /// It has ended, after a failure or because it was told to.
    Stopped,
}

/// What is logged of the API server on `port`.
pub fn server_log(port: u16, event: ServerEvent) -> (log: String)
    ensures
        log@ == match event {
            ServerEvent::Listening => "[federation] API listening on http://"@ + listen_address_of(
                port,
            ),
            ServerEvent::BindFailed { reason } => "[federation] Failed to bind "@
                + listen_address_of(port) + ": "@ + reason@,
            ServerEvent::Failed { reason } => "[federation] API server error: "@ + reason@,
            ServerEvent::Stopped => "[federation] API server stopped"@,
        },
{
    match event {
        ServerEvent::Listening => {
            let mut log = "[federation] API listening on http://".to_owned();
            log.append(listen_address(port).as_str());
            log
        },
        ServerEvent::BindFailed { reason } => {
            let mut log = "[federation] Failed to bind ".to_owned();
            log.append(listen_address(port).as_str());
            log.append(": ");
            log.append(reason.as_str());
            log
        },
        ServerEvent::Failed { reason } => {
            let mut log = "[federation] API server error: ".to_owned();
            log.append(reason.as_str());
            log
        },
        ServerEvent::Stopped => "[federation] API server stopped".to_owned(),
    }
}

/// The manager after stages of which every launch took in `launched`.
pub open spec fn run<S, H, T>(
    manager: ManagerView<S, H, T>,
    stages: Seq<Stage>,
    launched: Launched<S, H, T>,
) -> ManagerView<S, H, T>
    decreases stages.len(),
{
    if stages.len() == 0 {
        manager
    } else if stages[0] == Stage::Launch {
        run(ManagerView::running(launched), stages.skip(1), launched)
    } else {
        run(manager.after(stages[0]), stages.skip(1), launched)
    }
}

/// Something that runs and was handed out to be ended.
pub enum Handed<H, T> {
    Token(T),
    Task(H),
    Api(H),
}

/// What a manager hands out at a stage.
pub open spec fn handed_at<S, H, T>(manager: ManagerView<S, H, T>, stage: Stage) -> Seq<
    Handed<H, T>,
> {
    match stage {
        Stage::Signal => match manager.cancel_token {
            Some(token) => seq![Handed::Token(token)],
            None => Seq::empty(),
        },
        Stage::Tasks => manager.task_handles.map_values(|handle: H| Handed::<H, T>::Task(handle)),
        Stage::Api => match manager.api_handle {
            Some(handle) => seq![Handed::Api(handle)],
            None => Seq::empty(),
        },
        _ => Seq::empty(),
    }
}

/// What a manager hands out over stages that launch nothing, in order.
pub open spec fn handed<S, H, T>(manager: ManagerView<S, H, T>, stages: Seq<Stage>) -> Seq<
    Handed<H, T>,
>
    decreases stages.len(),
{
    if stages.len() == 0 {
        Seq::empty()
    } else {
        handed_at(manager, stages[0]) + handed(manager.after(stages[0]), stages.skip(1))
    }
}

/// What an action hands out.
pub open spec fn handed_by<H, T>(action: Action<H, T>) -> Seq<Handed<H, T>> {
    match action {
        Action::Cancel { token, .. } => seq![Handed::Token(token)],
        Action::AwaitTasks { handles, .. } => handles@.map_values(
            |handle: H| Handed::<H, T>::Task(handle),
        ),
        Action::AwaitApi { handle, .. } => seq![Handed::Api(handle)],
        _ => Seq::empty(),
    }
}

/// The action of each stage hands out what the manager holds for it.
pub proof fn actions_hand_out_what_is_held<S, H, T>(
    manager: ManagerView<S, H, T>,
    stage: Stage,
    action: Action<H, T>,
)
    requires
        manager.asks(stage, action),
    ensures
        handed_by(action) == handed_at(manager, stage),
{
    assert(handed_by(action) =~= handed_at(manager, stage));
}

/// A stop leaves nothing running, and hands out everything that did, once: the token
/// first, then every task, then the API server.
pub proof fn stop_ends_everything<S, H, T>(
    manager: ManagerView<S, H, T>,
    launched: Launched<S, H, T>,
)
    ensures
        run(manager, stop_stages(), launched) == ManagerView::<S, H, T>::stopped(),
        handed(manager, stop_stages()) == handed_at(manager, Stage::Signal) + handed_at(
            manager,
            Stage::Tasks,
        ) + handed_at(manager, Stage::Api),
{
    let all = stop_stages();
    assert(all.skip(1) =~= seq![Stage::Tasks, Stage::Api, Stage::Clear]);
    assert(all.skip(1).skip(1) =~= seq![Stage::Api, Stage::Clear]);
    assert(all.skip(1).skip(1).skip(1) =~= seq![Stage::Clear]);
    assert(all.skip(1).skip(1).skip(1).skip(1) =~= Seq::<Stage>::empty());
    reveal_with_fuel(run, 6);
    reveal_with_fuel(handed, 6);
    assert(handed(manager, stop_stages()) =~= handed_at(manager, Stage::Signal) + handed_at(
        manager,
        Stage::Tasks,
    ) + handed_at(manager, Stage::Api));
}

/// While a stop waits for what runs to end, the service is still there.
pub proof fn service_stays_while_a_stop_waits<S, H, T>(manager: ManagerView<S, H, T>)
    ensures
        manager.after(Stage::Signal).service == manager.service,
        manager.after(Stage::Signal).after(Stage::Tasks).service == manager.service,
        manager.after(Stage::Signal).after(Stage::Tasks).after(Stage::Api).service
            == manager.service,
{
}

/// A second stop finds nothing to do.
pub proof fn stopped_manager_hands_out_nothing<S, H, T>()
    ensures
        handed(ManagerView::<S, H, T>::stopped(), stop_stages()) == Seq::<Handed<H, T>>::empty(),
        forall|stage: Stage| #[trigger]
            ManagerView::<S, H, T>::stopped().after(stage) == ManagerView::<S, H, T>::stopped(),
{
    let stopped = ManagerView::<S, H, T>::stopped();
    let all = stop_stages();
    assert(all.skip(1) =~= seq![Stage::Tasks, Stage::Api, Stage::Clear]);
    assert(all.skip(1).skip(1) =~= seq![Stage::Api, Stage::Clear]);
    assert(all.skip(1).skip(1).skip(1) =~= seq![Stage::Clear]);
    assert(all.skip(1).skip(1).skip(1).skip(1) =~= Seq::<Stage>::empty());
    reveal_with_fuel(handed, 6);
    assert(handed(stopped, all) =~= Seq::<Handed<H, T>>::empty());
}

proof fn run_splits<S, H, T>(
    manager: ManagerView<S, H, T>,
    first: Seq<Stage>,
    second: Seq<Stage>,
    launched: Launched<S, H, T>,
)
    ensures
        run(manager, first + second, launched) == run(run(manager, first, launched), second, launched),
    decreases first.len(),
{
    if first.len() == 0 {
        assert(first + second =~= second);
    } else {
        assert((first + second).skip(1) =~= first.skip(1) + second);
        let next = if first[0] == Stage::Launch {
            ManagerView::running(launched)
        } else {
            manager.after(first[0])
        };
        run_splits(next, first.skip(1), second, launched);
    }
}

/// After a start, whatever ran before, the service that was started runs, with its own
/// tasks, token and server.
pub proof fn start_runs_the_new_service<S, H, T>(
    manager: ManagerView<S, H, T>,
    launched: Launched<S, H, T>,
)
    ensures
        run(manager, start_stages(), launched) == ManagerView::running(launched),
{
    let launch = seq![Stage::Launch];
    assert(start_stages() =~= stop_stages() + launch);
    run_splits(manager, stop_stages(), launch, launched);
    reveal_with_fuel(run, 3);
    assert(launch.skip(1) =~= Seq::<Stage>::empty());
}

/// A restart is a stop and then a start, and leaves what the start alone would.
pub proof fn restart_is_stop_then_start<S, H, T>(
    manager: ManagerView<S, H, T>,
    launched: Launched<S, H, T>,
)
    ensures
        run(manager, restart_stages(), launched) == run(
            run(manager, stop_stages(), launched),
            start_stages(),
            launched,
        ),
        run(manager, restart_stages(), launched) == run(manager, start_stages(), launched),
{
    run_splits(manager, stop_stages(), start_stages(), launched);
    start_runs_the_new_service(manager, launched);
    start_runs_the_new_service(run(manager, stop_stages(), launched), launched);
}

}
