//! Dealing with the service control manager, one call after the other.

use vstd::prelude::*;

use crate::numbers;
use crate::numbers::decimal_text;
use crate::service;
use crate::text;
use crate::text::join2;
use crate::text::join3;
use crate::translate;

verus! {

/// What is to be done with a service.
#[derive(Debug, Clone, Copy, PartialEq, Eq, Structural)]
pub enum Task {
    Install,
    Uninstall,
    /// Set what happens when the service fails.
    ConfigureRecovery,
    /// Start the service.
    Start,
    /// Ask for the state of the service.
    Query,
}

/// A call to the service control manager.
#[derive(Debug, Clone, Copy, PartialEq, Eq, Structural)]
pub enum ScmCall {
    OpenManager,
    CreateService,
    OpenService,
    SetRecovery,
    StopService,
    DeleteService,
    StartService,
    QueryStatus,
    CloseService,
    CloseManager,
}

/// What a task has come to.
#[derive(Debug)]
pub enum TaskEnd {
    /// Nothing yet.
    Open,
    Done,
    Failed(String),
    /// The service was not started.
    NotStarted,
    /// The state of the service.
    Status(String),
}

/// What a task has come to, by its texts.
pub enum End {
    Open,
    Done,
    Failed(Seq<char>),
    NotStarted,
    Status(Seq<char>),
}

impl View for TaskEnd {
    type V = End;

    open spec fn view(&self) -> End {
        match self {
            TaskEnd::Open => End::Open,
            TaskEnd::Done => End::Done,
            TaskEnd::Failed(e) => End::Failed(e@),
            TaskEnd::NotStarted => End::NotStarted,
            TaskEnd::Status(t) => End::Status(t@),
        }
    }
}

/// A task on its way.
#[derive(Debug)]
pub struct ScmRun {
    task: Task,
    call: Option<ScmCall>,
    end: TaskEnd,
    manager_open: bool,
    service_open: bool,
}

/// A task on its way, by its texts.
pub struct Run {
    pub task: Task,
    /// The call to make next; none when the task is over.
    pub call: Option<ScmCall>,
    pub end: End,
    /// The handle of the manager is open.
    pub manager_open: bool,
    /// The handle of the service is open.
    pub service_open: bool,
}

impl View for ScmRun {
    type V = Run;

    closed spec fn view(&self) -> Run {
        Run {
            task: self.task,
            call: self.call,
            end: self.end@,
            manager_open: self.manager_open,
            service_open: self.service_open,
        }
    }
}

/// The name of a service's state.
pub open spec fn state_name(state: u32) -> Seq<char> {
    if state == service::SERVICE_RUNNING {
        "RUNNING"@
    } else if state == service::SERVICE_STOPPED {
        "STOPPED"@
    } else if state == service::SERVICE_PAUSED {
        "PAUSED"@
    } else if state == service::SERVICE_START_PENDING {
        "STARTING"@
    } else if state == service::SERVICE_STOP_PENDING {
        "STOPPING"@
    } else {
        "STATE ("@ + numbers::decimal(state as nat) + ")"@
    }
}

/// The name of a service's state.
pub fn service_state_name(state: u32) -> (r: String)
    ensures
        r@ == state_name(state),
{
    if state == service::SERVICE_RUNNING {
        "RUNNING".to_owned()
    } else if state == service::SERVICE_STOPPED {
        "STOPPED".to_owned()
    } else if state == service::SERVICE_PAUSED {
        "PAUSED".to_owned()
    } else if state == service::SERVICE_START_PENDING {
        "STARTING".to_owned()
    } else if state == service::SERVICE_STOP_PENDING {
        "STOPPING".to_owned()
    } else {
        join3("STATE (", decimal_text(state as u64).as_str(), ")")
    }
}

/// The text of a failure with its error code.
pub open spec fn with_code(head: Seq<char>, code: u32) -> Seq<char> {
    head + numbers::decimal(code as nat)
}

fn coded(head: &str, code: u32) -> (r: String)
    ensures
        r@ == with_code(head@, code),
{
    join2(head, decimal_text(code as u64).as_str())
}

// ---------------------------------------------------------------------------
// The course of a task
// ---------------------------------------------------------------------------

/// A task before its first call.
pub open spec fn begun(task: Task) -> Run {
    Run {
        task,
        call: Some(ScmCall::OpenManager),
        end: End::Open,
        manager_open: false,
        service_open: false,
    }
}

/// What a task comes to where the manager cannot be opened.
pub open spec fn no_manager(task: Task, code: u32) -> End {
    match task {
        Task::Start => End::NotStarted,
        Task::Query => End::Status("UNKNOWN (SCM Error)"@),
        _ => End::Failed(with_code("Failed to open SC Manager: "@, code)),
    }
}

/// What a task comes to where the service cannot be created or opened.
pub open spec fn no_service(task: Task, code: u32) -> End {
    match task {
        Task::Install => if code == service::ERROR_SERVICE_EXISTS {
            End::Failed("Service already exists."@)
        } else {
            End::Failed(with_code("Failed to create service: "@, code))
        },
        Task::Uninstall => End::Failed("Service is not installed."@),
        Task::ConfigureRecovery => End::Failed(with_code("Failed to open service: "@, code)),
        Task::Start => End::NotStarted,
        Task::Query => End::Status("NOT INSTALLED"@),
    }
}

/// The first call on the open service.
pub open spec fn first_call(task: Task) -> ScmCall {
    match task {
        Task::Install => ScmCall::SetRecovery,
        Task::Uninstall => ScmCall::StopService,
        Task::ConfigureRecovery => ScmCall::SetRecovery,
        Task::Start => ScmCall::StartService,
        Task::Query => ScmCall::QueryStatus,
    }
}

/// A task after the answer to its call: a number or an error code.
pub open spec fn advanced(run: Run, answer: Result<u32, u32>) -> Run {
    match run.call {
        None => run,
        Some(ScmCall::OpenManager) => match answer {
            Ok(_) => Run {
                call: Some(
                    if run.task == Task::Install {
                        ScmCall::CreateService
                    } else {
                        ScmCall::OpenService
                    },
                ),
                manager_open: true,
                ..run
            },
            Err(code) => Run { call: None, end: no_manager(run.task, code), ..run },
        },
        Some(ScmCall::CreateService) | Some(ScmCall::OpenService) => match answer {
            Ok(_) => Run { call: Some(first_call(run.task)), service_open: true, ..run },
            Err(code) => Run {
                call: Some(ScmCall::CloseManager),
                end: no_service(run.task, code),
                ..run
            },
        },
        Some(ScmCall::SetRecovery) => match answer {
            Err(code) if run.task == Task::ConfigureRecovery => Run {
                call: None,
                end: End::Failed(with_code("Failed to set failure actions: "@, code)),
                ..run
            },
            _ => Run { call: Some(ScmCall::CloseService), end: End::Done, ..run },
        },
        Some(ScmCall::StopService) => Run { call: Some(ScmCall::DeleteService), ..run },
        Some(ScmCall::DeleteService) => Run {
            call: Some(ScmCall::CloseService),
            end: match answer {
                Ok(_) => End::Done,
                Err(code) => End::Failed(with_code("Failed to delete service: "@, code)),
            },
            ..run
        },
        Some(ScmCall::StartService) => Run {
            call: Some(ScmCall::CloseService),
            end: match answer {
                Ok(_) => End::Done,
                Err(_) => End::NotStarted,
            },
            ..run
        },
        Some(ScmCall::QueryStatus) => Run {
            call: Some(ScmCall::CloseService),
            end: End::Status(
                match answer {
                    Ok(state) => state_name(state),
                    Err(_) => "UNKNOWN"@,
                },
            ),
            ..run
        },
        Some(ScmCall::CloseService) => Run {
            call: Some(ScmCall::CloseManager),
            service_open: false,
            ..run
        },
        Some(ScmCall::CloseManager) => Run { call: None, manager_open: false, ..run },
    }
}

/// What is told the user at the answer to a call.
pub open spec fn told(run: Run, answer: Result<u32, u32>) -> Option<Seq<char>> {
    match (run.task, run.call, answer) {
        (Task::Install, Some(ScmCall::CreateService), Ok(_)) => Some(
            "Service installed successfully."@,
        ),
        (Task::Install, Some(ScmCall::SetRecovery), Ok(_)) => Some(
            "Service recovery options configured successfully (Auto-Restart on failure)."@,
        ),
        (Task::Install, Some(ScmCall::SetRecovery), Err(code)) => Some(
            "Warning: failed to configure service recovery options: "@ + with_code(
                "Failed to set failure actions: "@,
                code,
            ),
        ),
        (Task::ConfigureRecovery, Some(ScmCall::SetRecovery), Ok(_)) => Some(
            "Service recovery options configured successfully."@,
        ),
        (Task::Start, Some(ScmCall::StartService), Ok(_)) => Some(
            "CoreService successfully restarted via Service Control Manager."@,
        ),
        (Task::Uninstall, Some(ScmCall::CloseManager), _) => if run.end is Done {
            Some("Service deleted successfully."@)
        } else {
            None
        },
        _ => None,
    }
}

impl ScmRun {
    /// A task before its first call.
    pub fn begin(task: Task) -> (r: ScmRun)
        ensures
            r@ == begun(task),
    {
        ScmRun {
            task,
            call: Some(ScmCall::OpenManager),
            end: TaskEnd::Open,
            manager_open: false,
            service_open: false,
        }
    }

    /// The call to make next; none when the task is over.
    pub fn next_call(&self) -> (r: Option<ScmCall>)
        ensures
            r == self@.call,
    {
        self.call
    }

    /// What the task has come to.
    pub fn outcome(&self) -> (r: &TaskEnd)
        ensures
            r@ == self@.end,
    {
        &self.end
    }

    fn service_refused(&mut self, code: u32)
        ensures
            final(self)@ == (Run {
                call: Some(ScmCall::CloseManager),
                end: no_service(old(self)@.task, code),
                ..old(self)@
            }),
    {
        self.call = Some(ScmCall::CloseManager);
        self.end = match self.task {
            Task::Install => if code == service::ERROR_SERVICE_EXISTS {
                TaskEnd::Failed("Service already exists.".to_owned())
            } else {
                TaskEnd::Failed(coded("Failed to create service: ", code))
            },
            Task::Uninstall => TaskEnd::Failed("Service is not installed.".to_owned()),
            Task::ConfigureRecovery => TaskEnd::Failed(coded("Failed to open service: ", code)),
            Task::Start => TaskEnd::NotStarted,
            Task::Query => TaskEnd::Status("NOT INSTALLED".to_owned()),
        };
    }

    fn on_recovery(&mut self, answer: Result<u32, u32>) -> (r: Option<String>)
        requires
            old(self)@.call == Some(ScmCall::SetRecovery),
        ensures
            final(self)@ == advanced(old(self)@, answer),
            text::text_of(r) == told(old(self)@, answer),
    {
        let installs = self.task == Task::Install;
        let configures = self.task == Task::ConfigureRecovery;
        match answer {
            Ok(_) => {
                self.call = Some(ScmCall::CloseService);
                self.end = TaskEnd::Done;
                if installs {
                    Some(
                        "Service recovery options configured successfully (Auto-Restart on failure).".to_owned(),
                    )
                } else if configures {
                    Some("Service recovery options configured successfully.".to_owned())
                } else {
                    None
                }
            },
            Err(code) => {
                let reason = coded("Failed to set failure actions: ", code);
                if configures {
                    self.call = None;
                    self.end = TaskEnd::Failed(reason);
                    None
                } else {
                    self.call = Some(ScmCall::CloseService);
                    self.end = TaskEnd::Done;
                    if installs {
                        Some(
                            join2(
                                "Warning: failed to configure service recovery options: ",
                                reason.as_str(),
                            ),
                        )
                    } else {
                        None
                    }
                }
            },
        }
    }

    /// Takes the answer to the call, a number or an error code; what is to be
    /// told the user.
    pub fn advance(&mut self, answer: Result<u32, u32>) -> (r: Option<String>)
        ensures
            final(self)@ == advanced(old(self)@, answer),
            text::text_of(r) == told(old(self)@, answer),
    {
        let call = match self.call {
            Some(call) => call,
            None => {
                return None;
            },
        };
        match call {
            ScmCall::OpenManager => {
                match answer {
                    Ok(_) => {
                        self.manager_open = true;
                        self.call = if self.task == Task::Install {
                            Some(ScmCall::CreateService)
                        } else {
                            Some(ScmCall::OpenService)
                        };
                    },
                    Err(code) => {
                        self.call = None;
                        self.end = match self.task {
                            Task::Start => TaskEnd::NotStarted,
                            Task::Query => TaskEnd::Status("UNKNOWN (SCM Error)".to_owned()),
                            _ => TaskEnd::Failed(coded("Failed to open SC Manager: ", code)),
                        };
                    },
                }
                None
            },
            ScmCall::CreateService | ScmCall::OpenService => {
                match answer {
                    Ok(_) => {
                        self.service_open = true;
                        self.call = match self.task {
                            Task::Install => Some(ScmCall::SetRecovery),
                            Task::Uninstall => Some(ScmCall::StopService),
                            Task::ConfigureRecovery => Some(ScmCall::SetRecovery),
                            Task::Start => Some(ScmCall::StartService),
                            Task::Query => Some(ScmCall::QueryStatus),
                        };
                        if call == ScmCall::CreateService && self.task == Task::Install {
                            Some("Service installed successfully.".to_owned())
                        } else {
                            None
                        }
                    },
                    Err(code) => {
                        self.service_refused(code);
                        None
                    },
                }
            },
            ScmCall::SetRecovery => self.on_recovery(answer),
            ScmCall::StopService => {
                self.call = Some(ScmCall::DeleteService);
                None
            },
            ScmCall::DeleteService => {
                self.call = Some(ScmCall::CloseService);
                self.end = match answer {
                    Ok(_) => TaskEnd::Done,
                    Err(code) => TaskEnd::Failed(coded("Failed to delete service: ", code)),
                };
                None
            },
            ScmCall::StartService => {
                self.call = Some(ScmCall::CloseService);
                match answer {
                    Ok(_) => {
                        self.end = TaskEnd::Done;
                        if self.task == Task::Start {
                            Some(
                                "CoreService successfully restarted via Service Control Manager.".to_owned(),
                            )
                        } else {
                            None
                        }
                    },
                    Err(_) => {
                        self.end = TaskEnd::NotStarted;
                        None
                    },
                }
            },
            ScmCall::QueryStatus => {
                self.call = Some(ScmCall::CloseService);
                self.end = TaskEnd::Status(
                    match answer {
                        Ok(state) => service_state_name(state),
                        Err(_) => "UNKNOWN".to_owned(),
                    },
                );
                None
            },
            ScmCall::CloseService => {
                self.call = Some(ScmCall::CloseManager);
                self.service_open = false;
                None
            },
            ScmCall::CloseManager => {
                self.call = None;
                self.manager_open = false;
                if self.task == Task::Uninstall && matches!(self.end, TaskEnd::Done) {
                    Some("Service deleted successfully.".to_owned())
                } else {
                    None
                }
            },
        }
    }
}

// ---------------------------------------------------------------------------
// Laws
// ---------------------------------------------------------------------------

/// Every call is made on handles that are open, and fits the task.
pub open spec fn in_order(run: Run) -> bool {
    match run.call {
        Some(ScmCall::OpenManager) => !run.manager_open && !run.service_open && run.end is Open,
        Some(ScmCall::CreateService) => run.manager_open && !run.service_open && run.task
            == Task::Install && run.end is Open,
        Some(ScmCall::OpenService) => run.manager_open && !run.service_open && run.task
            != Task::Install && run.end is Open,
        Some(ScmCall::DeleteService) => run.manager_open && run.service_open && run.task
            == Task::Uninstall && run.end is Open,
        Some(ScmCall::CloseService) => run.manager_open && run.service_open && !(run.end is Open),
        Some(ScmCall::CloseManager) => run.manager_open && !run.service_open && !(run.end is Open),
        Some(call) => run.manager_open && run.service_open && call == first_call(run.task)
            && run.end is Open,
        None => !(run.end is Open) && (left_open(run) || !run.manager_open && !run.service_open),
    }
}

/// The one end that leaves handles open: the recovery options could not be
/// set.
pub open spec fn left_open(run: Run) -> bool {
    run.call is None && run.task == Task::ConfigureRecovery && run.end is Failed
        && run.manager_open && run.service_open
}

/// How many calls a task has left at most.
pub open spec fn calls_left(run: Run) -> nat {
    match run.call {
        Some(ScmCall::OpenManager) => 6,
        Some(ScmCall::CreateService) => 5,
        Some(ScmCall::OpenService) => 5,
        Some(ScmCall::StopService) => 4,
        Some(ScmCall::CloseService) => 2,
        Some(ScmCall::CloseManager) => 1,
        Some(_) => 3,
        None => 0,
    }
}

/// A task begins in order.
pub proof fn law_begins_in_order(task: Task)
    ensures
        in_order(begun(task)),
{
}

/// Whatever is answered, calls are made only on open handles, each handle is
/// closed when the task is over, except where the recovery options of an
/// installed service could not be set, and a task is over after six calls at
/// most.
pub proof fn law_stays_in_order(run: Run, answer: Result<u32, u32>)
    requires
        in_order(run),
    ensures
        in_order(advanced(run, answer)),
        advanced(run, answer).task == run.task,
        run.call is Some ==> calls_left(advanced(run, answer)) < calls_left(run),
{
}

/// A task that is over has come to something and has closed its handles,
/// except where the recovery options of an installed service could not be set.
pub proof fn law_handles_are_closed(run: Run)
    requires
        in_order(run),
        run.call is None,
        !(run.task == Task::ConfigureRecovery && run.end is Failed),
    ensures
        !run.manager_open && !run.service_open,
        !(run.end is Open),
{
}

/// The monitor has a Russian name for every state of a service that it knows.
pub proof fn law_known_states_have_names(state: u32)
    requires
        state == service::SERVICE_RUNNING || state == service::SERVICE_STOPPED || state
            == service::SERVICE_PAUSED || state == service::SERVICE_START_PENDING || state
            == service::SERVICE_STOP_PENDING,
    ensures
        translate::status_ru(state_name(state)) != state_name(state),
{
    translate::lemma_states_differ();
    reveal_strlit("RUNNING");
    reveal_strlit("STOPPED");
    reveal_strlit("PAUSED");
    reveal_strlit("STARTING");
    reveal_strlit("STOPPING");
    reveal_strlit("ЗАПУЩЕНО");
    reveal_strlit("ОСТАНОВЛЕНО");
    reveal_strlit("ПАУЗА");
    reveal_strlit("ЗАПУСКАЕТСЯ");
    reveal_strlit("ОСТАНАВЛИВАЕТСЯ");
    assert("ЗАПУЩЕНО"@[0] == 'З' && "RUNNING"@[0] == 'R');
    assert("ОСТАНОВЛЕНО"@[0] == 'О' && "STOPPED"@[0] == 'S');
    assert("ПАУЗА"@[0] == 'П' && "PAUSED"@[0] == 'P');
    assert("ЗАПУСКАЕТСЯ"@[0] == 'З' && "STARTING"@[0] == 'S');
    assert("ОСТАНАВЛИВАЕТСЯ"@[0] == 'О' && "STOPPING"@[0] == 'S');
}

/// The names of the states are told apart.
proof fn lemma_state_names(n: u32)
    ensures
        n == 4 <==> state_name(n) == "RUNNING"@,
        n == 1 <==> state_name(n) == "STOPPED"@,
        n == 7 <==> state_name(n) == "PAUSED"@,
        n == 2 <==> state_name(n) == "STARTING"@,
        n == 3 <==> state_name(n) == "STOPPING"@,
        n == 0 || 5 <= n <= 6 || n > 7 ==> state_name(n) == "STATE ("@ + numbers::decimal(n as nat)
            + ")"@,
{
    reveal_strlit("RUNNING");
    reveal_strlit("STOPPED");
    reveal_strlit("PAUSED");
    reveal_strlit("STARTING");
    reveal_strlit("STOPPING");
    reveal_strlit("STATE (");
    assert("RUNNING"@[0] == 'R' && "PAUSED"@[0] == 'P');
    assert("STOPPED"@[2] == 'O' && "STOPPED"@.len() == 7 && "STOPPED"@[0] == 'S');
    assert("STARTING"@[2] == 'A' && "STARTING"@.len() == 8 && "STARTING"@[0] == 'S'
        && "STARTING"@[3] == 'R');
    assert("STOPPING"@[2] == 'O' && "STOPPING"@.len() == 8 && "STOPPING"@[0] == 'S');
    let other = "STATE ("@ + numbers::decimal(n as nat) + ")"@;
    assert(other[0] == 'S' && other[2] == 'A' && other[3] == 'T');
}

/// A question for the state, from its first call to its last: where the service
/// answers with a number, the task ends with the name of that state and of no
/// other; a service that does not answer, is not installed, or cannot be asked
/// for is told so.
pub proof fn law_query_tells_the_state(
    manager: u32,
    service: u32,
    state: Result<u32, u32>,
    closed: (Result<u32, u32>, Result<u32, u32>),
    refused: u32,
)
    ensures
        ({
            let run = advanced(
                advanced(
                    advanced(
                        advanced(advanced(begun(Task::Query), Ok(manager)), Ok(service)),
                        state,
                    ),
                    closed.0,
                ),
                closed.1,
            );
            &&& run.call is None
            &&& run.end matches End::Status(name) && match state {
                Ok(n) => {
                    &&& n == 4 <==> name == "RUNNING"@
                    &&& n == 1 <==> name == "STOPPED"@
                    &&& n == 7 <==> name == "PAUSED"@
                    &&& n == 2 <==> name == "STARTING"@
                    &&& n == 3 <==> name == "STOPPING"@
                    &&& n == 0 || 5 <= n <= 6 || n > 7 ==> name == "STATE ("@ + numbers::decimal(
                        n as nat,
                    ) + ")"@
                },
                Err(_) => name == "UNKNOWN"@,
            }
        }),
        ({
            let run = advanced(
                advanced(advanced(begun(Task::Query), Ok(manager)), Err(refused)),
                closed.0,
            );
            run.call is None && run.end == End::Status("NOT INSTALLED"@)
        }),
        ({
            let run = advanced(begun(Task::Query), Err(refused));
            run.call is None && run.end == End::Status("UNKNOWN (SCM Error)"@)
        }),
{
    if let Ok(n) = state {
        lemma_state_names(n);
    }
}

/// A start, from its first call to its last: it is done exactly if the manager
/// and the service could be opened and the service was started; only then the
/// user is told so.
pub proof fn law_start_is_done_where_all_went_well(
    manager: Result<u32, u32>,
    service: Result<u32, u32>,
    started: Result<u32, u32>,
    closed: (Result<u32, u32>, Result<u32, u32>),
)
    ensures
        ({
            let opened = advanced(begun(Task::Start), manager);
            let found = advanced(opened, service);
            let run = advanced(found, started);
            let over = advanced(advanced(run, closed.0), closed.1);
            &&& manager is Err ==> opened.call is None && opened.end is NotStarted
            &&& manager is Ok ==> opened.call == Some(ScmCall::OpenService)
            &&& manager is Ok && service is Err ==> found.end is NotStarted && advanced(
                found,
                closed.0,
            ).call is None
            &&& manager is Ok && service is Ok ==> {
                &&& found.call == Some(ScmCall::StartService)
                &&& over.call is None
                &&& over.end is Done <==> started is Ok
                &&& over.end is NotStarted <==> started is Err
                &&& told(found, started) == (if started is Ok {
                    Some("CoreService successfully restarted via Service Control Manager."@)
                } else {
                    None
                })
            }
        }),
{
}

/// An installation, from its first call to its last: it fails exactly where the
/// manager cannot be opened or the service cannot be created; that its recovery
/// cannot be set is a warning only.
pub proof fn law_installation(
    manager: Result<u32, u32>,
    created: Result<u32, u32>,
    recovery: Result<u32, u32>,
    closed: (Result<u32, u32>, Result<u32, u32>),
)
    ensures
        ({
            let opened = advanced(begun(Task::Install), manager);
            let found = advanced(opened, created);
            let run = advanced(found, recovery);
            let over = advanced(advanced(run, closed.0), closed.1);
            &&& manager matches Err(code) ==> opened.call is None && opened.end == End::Failed(
                "Failed to open SC Manager: "@ + numbers::decimal(code as nat),
            )
            &&& manager is Ok ==> opened.call == Some(ScmCall::CreateService)
            &&& manager is Ok ==> (created matches Err(code) ==> advanced(found, closed.0).call
                is None && found.end == End::Failed(
                if code == 1073 {
                    "Service already exists."@
                } else {
                    "Failed to create service: "@ + numbers::decimal(code as nat)
                },
            ))
            &&& manager is Ok && created is Ok ==> {
                &&& told(opened, created) == Some("Service installed successfully."@)
                &&& found.call == Some(ScmCall::SetRecovery)
                &&& over.call is None && over.end is Done
                &&& told(found, recovery) == Some(
                    match recovery {
                        Ok(_) =>
                            "Service recovery options configured successfully (Auto-Restart on failure)."@,
                        Err(code) => "Warning: failed to configure service recovery options: "@ + (
                        "Failed to set failure actions: "@ + numbers::decimal(code as nat)),
                    },
                )
            }
            &&& manager is Ok && created is Err ==> told(opened, created) is None
        }),
{
}

/// A removal, from its first call to its last: the service is stopped, however
/// that goes, and deleted; the task is done exactly if the service could be
/// deleted, and the user is told so at the end.
pub proof fn law_removal(
    manager: Result<u32, u32>,
    service: Result<u32, u32>,
    stopped: Result<u32, u32>,
    deleted: Result<u32, u32>,
    closed: (Result<u32, u32>, Result<u32, u32>),
)
    ensures
        ({
            let opened = advanced(begun(Task::Uninstall), manager);
            let found = advanced(opened, service);
            let halted = advanced(found, stopped);
            let run = advanced(halted, deleted);
            let last = advanced(run, closed.0);
            let over = advanced(last, closed.1);
            &&& manager matches Err(code) ==> opened.call is None && opened.end == End::Failed(
                "Failed to open SC Manager: "@ + numbers::decimal(code as nat),
            )
            &&& manager is Ok ==> opened.call == Some(ScmCall::OpenService)
            &&& manager is Ok && service is Err ==> advanced(found, closed.0).call is None
                && found.end == End::Failed("Service is not installed."@)
            &&& manager is Ok && service is Ok ==> {
                &&& found.call == Some(ScmCall::StopService)
                &&& halted.call == Some(ScmCall::DeleteService)
                &&& over.call is None
                &&& over.end == (match deleted {
                    Ok(_) => End::Done,
                    Err(code) => End::Failed(
                        "Failed to delete service: "@ + numbers::decimal(code as nat),
                    ),
                })
                &&& told(found, stopped) is None && told(halted, deleted) is None && told(
                    run,
                    closed.0,
                ) is None
                &&& told(last, closed.1) == (if deleted is Ok {
                    Some("Service deleted successfully."@)
                } else {
                    None
                })
            }
        }),
{
}

/// A setting of the recovery options, from its first call to its last: it is
/// done exactly if the manager and the service could be opened and the options
/// set.
pub proof fn law_recovery(
    manager: Result<u32, u32>,
    service: Result<u32, u32>,
    recovery: Result<u32, u32>,
    closed: (Result<u32, u32>, Result<u32, u32>),
)
    ensures
        ({
            let opened = advanced(begun(Task::ConfigureRecovery), manager);
            let found = advanced(opened, service);
            let run = advanced(found, recovery);
            let over = advanced(advanced(run, closed.0), closed.1);
            &&& manager matches Err(code) ==> opened.call is None && opened.end == End::Failed(
                "Failed to open SC Manager: "@ + numbers::decimal(code as nat),
            )
            &&& manager is Ok ==> opened.call == Some(ScmCall::OpenService)
            &&& manager is Ok ==> (service matches Err(code) ==> advanced(found, closed.0).call
                is None && found.end == End::Failed(
                "Failed to open service: "@ + numbers::decimal(code as nat),
            ))
            &&& manager is Ok && service is Ok ==> {
                &&& found.call == Some(ScmCall::SetRecovery)
                &&& over.call is None
                &&& over.end == (match recovery {
                    Ok(_) => End::Done,
                    Err(code) => End::Failed(
                        "Failed to set failure actions: "@ + numbers::decimal(code as nat),
                    ),
                })
                &&& told(found, recovery) == (if recovery is Ok {
                    Some("Service recovery options configured successfully."@)
                } else {
                    None
                })
            }
        }),
{
}

/// The user is told nothing when the manager is opened, when a service that is
/// there already is opened, or when a handle is closed, but that a service was
/// deleted.
pub proof fn law_told_only_what_was_done(task: Task, run: Run, answer: Result<u32, u32>)
    requires
        run.task == task,
        run.call is None || run.call == Some(ScmCall::OpenManager) || run.call == Some(
            ScmCall::OpenService,
        ) || run.call == Some(ScmCall::QueryStatus) || run.call == Some(ScmCall::CloseService)
            || run.call == Some(ScmCall::CloseManager) && task != Task::Uninstall,
    ensures
        told(run, answer) is None,
{
}

/// What is known of an end by its texts is what stands in it.
pub proof fn law_ends_are_seen_whole(end: TaskEnd)
    ensures
        end is Open <==> end@ is Open,
        end is Done <==> end@ is Done,
        end is NotStarted <==> end@ is NotStarted,
        end matches TaskEnd::Failed(t) ==> end@ == End::Failed(t@),
        end matches TaskEnd::Status(t) ==> end@ == End::Status(t@),
{
}

} // verus!
