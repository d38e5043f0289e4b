//! The programs as Windows services: what they report, how they answer the
//! service control manager, and how they are installed and removed.

use vstd::prelude::*;

use crate::audit;
use crate::audit::AuditEntry;
use crate::audit::AuditEvent;
use crate::audit::Level;
use crate::numbers;
use crate::numbers::decimal_text;
use crate::text::join2;
use crate::text::join3;
use crate::text::same;
use crate::translate;

verus! {

// ---------------------------------------------------------------------------
// Numbers of the service control manager
// ---------------------------------------------------------------------------

pub const SERVICE_STOPPED: u32 = 1;

pub const SERVICE_START_PENDING: u32 = 2;

pub const SERVICE_STOP_PENDING: u32 = 3;

pub const SERVICE_RUNNING: u32 = 4;

pub const SERVICE_PAUSED: u32 = 7;

pub const SERVICE_ACCEPT_STOP: u32 = 1;

pub const SERVICE_ACCEPT_SHUTDOWN: u32 = 4;

/// Both of the above.
pub const ACCEPT_STOP_AND_SHUTDOWN: u32 = 5;

pub const SERVICE_CONTROL_STOP: u32 = 1;

pub const SERVICE_CONTROL_INTERROGATE: u32 = 4;

pub const SERVICE_CONTROL_SHUTDOWN: u32 = 5;

pub const NO_ERROR: u32 = 0;

pub const ERROR_CALL_NOT_IMPLEMENTED: u32 = 120;

pub const ERROR_FAILED_SERVICE_CONTROLLER_CONNECT: u32 = 1063;

pub const ERROR_PROCESS_ABORTED: u32 = 1067;

pub const ERROR_SERVICE_EXISTS: u32 = 1073;

// ---------------------------------------------------------------------------
// Reporting
// ---------------------------------------------------------------------------

/// What a service tells of itself.
#[derive(Debug, Clone, Copy, PartialEq, Eq, Structural)]
pub struct ServiceReport {
    pub state: u32,
    pub exit_code: u32,
    pub specific_exit_code: u32,
    pub check_point: u32,
    pub wait_hint: u32,
    /// The controls that the service takes.
    pub accepted: u32,
}

/// The report of a service in the given state; only a running service takes
/// controls.
pub open spec fn report_of(
    state: u32,
    exit_code: u32,
    specific_exit_code: u32,
    check_point: u32,
    wait_hint: u32,
) -> ServiceReport {
    ServiceReport {
        state,
        exit_code,
        specific_exit_code,
        check_point,
        wait_hint,
        accepted: if state == SERVICE_RUNNING {
            ACCEPT_STOP_AND_SHUTDOWN
        } else {
            0
        },
    }
}

/// What a service has last told of itself.
pub struct ServiceStatusBoard {
    registered: bool,
    report: ServiceReport,
}

impl ServiceStatusBoard {
    /// Whether the service control manager knows the service.
    pub closed spec fn is_registered(&self) -> bool {
        self.registered
    }

    /// The last report.
    pub closed spec fn last(&self) -> ServiceReport {
        self.report
    }

    /// Before the service is registered.
    pub fn new() -> (r: ServiceStatusBoard)
        ensures
            !r.is_registered(),
            r.last() == report_of(SERVICE_START_PENDING, 0, 0, 0, 0),
    {
        ServiceStatusBoard {
            registered: false,
            report: ServiceReport {
                state: SERVICE_START_PENDING,
                exit_code: 0,
                specific_exit_code: 0,
                check_point: 0,
                wait_hint: 0,
                accepted: 0,
            },
        }
    }

    /// Notes that the service control manager knows the service.
    pub fn register(&mut self)
        ensures
            final(self).is_registered(),
            final(self).last() == old(self).last(),
    {
        self.registered = true;
    }

    /// Notes a new state; the report to send, where someone waits for it.
    pub fn update_service_status(
        &mut self,
        state: u32,
        exit_code: u32,
        specific_exit_code: u32,
        check_point: u32,
        wait_hint: u32,
    ) -> (r: Option<ServiceReport>)
        ensures
            final(self).is_registered() == old(self).is_registered(),
            !old(self).is_registered() ==> r is None && final(self).last() == old(self).last(),
            old(self).is_registered() ==> final(self).last() == report_of(
                state,
                exit_code,
                specific_exit_code,
                check_point,
                wait_hint,
            ) && r == Some(final(self).last()),
    {
        if !self.registered {
            return None;
        }
        let accepted: u32 = if state == SERVICE_RUNNING {
            ACCEPT_STOP_AND_SHUTDOWN
        } else {
            0
        };
        let report = ServiceReport {
            state,
            exit_code,
            specific_exit_code,
            check_point,
            wait_hint,
            accepted,
        };
        self.report = report;
        Some(report)
    }

    /// The service starts.
    pub fn starting(&mut self) -> (r: Option<ServiceReport>)
        ensures
            final(self).is_registered() == old(self).is_registered(),
            r == (if old(self).is_registered() {
                Some(report_of(SERVICE_START_PENDING, NO_ERROR, 0, 1, 3000))
            } else {
                None
            }),
            final(self).last() == (match r {
                Some(report) => report,
                None => old(self).last(),
            }),
    {
        self.update_service_status(SERVICE_START_PENDING, NO_ERROR, 0, 1, 3000)
    }

    /// The service runs.
    pub fn running(&mut self) -> (r: Option<ServiceReport>)
        ensures
            final(self).is_registered() == old(self).is_registered(),
            r == (if old(self).is_registered() {
                Some(report_of(SERVICE_RUNNING, NO_ERROR, 0, 0, 0))
            } else {
                None
            }),
            final(self).last() == (match r {
                Some(report) => report,
                None => old(self).last(),
            }),
    {
        self.update_service_status(SERVICE_RUNNING, NO_ERROR, 0, 0, 0)
    }

    /// The service has ended, by itself or by a failure.
    pub fn ended(&mut self, failed: bool) -> (r: Option<ServiceReport>)
        ensures
            final(self).is_registered() == old(self).is_registered(),
            r == (if old(self).is_registered() {
                Some(
                    report_of(
                        SERVICE_STOPPED,
                        if failed {
                            ERROR_PROCESS_ABORTED
                        } else {
                            NO_ERROR
                        },
                        0,
                        0,
                        0,
                    ),
                )
            } else {
                None
            }),
            final(self).last() == (match r {
                Some(report) => report,
                None => old(self).last(),
            }),
    {
        let exit_code: u32 = if failed {
            ERROR_PROCESS_ABORTED
        } else {
            NO_ERROR
        };
        self.update_service_status(SERVICE_STOPPED, exit_code, 0, 0, 0)
    }

    /// What the service does about a control of the service control manager.
    pub fn on_control(&mut self, control: u32) -> (r: ControlReply)
        ensures
            final(self).is_registered() == old(self).is_registered(),
            r.shut_down == stops(control),
            r.code == (if stops(control) || control == SERVICE_CONTROL_INTERROGATE {
                NO_ERROR
            } else {
                ERROR_CALL_NOT_IMPLEMENTED
            }),
            r.report == (if stops(control) && old(self).is_registered() {
                Some(report_of(SERVICE_STOP_PENDING, NO_ERROR, 0, 1, 3000))
            } else {
                None
            }),
            final(self).last() == (match r.report {
                Some(report) => report,
                None => old(self).last(),
            }),
    {
        if control == SERVICE_CONTROL_STOP || control == SERVICE_CONTROL_SHUTDOWN {
            let report = self.update_service_status(SERVICE_STOP_PENDING, NO_ERROR, 0, 1, 3000);
            ControlReply { report, shut_down: true, code: NO_ERROR }
        } else if control == SERVICE_CONTROL_INTERROGATE {
            ControlReply { report: None, shut_down: false, code: NO_ERROR }
        } else {
            ControlReply { report: None, shut_down: false, code: ERROR_CALL_NOT_IMPLEMENTED }
        }
    }
}

/// The control asks the service to stop.
pub open spec fn stops(control: u32) -> bool {
    control == SERVICE_CONTROL_STOP || control == SERVICE_CONTROL_SHUTDOWN
}

/// What a service does about a control.
#[derive(Debug, Clone, Copy, PartialEq, Eq, Structural)]
pub struct ControlReply {
    /// The report to send, where there is one.
    pub report: Option<ServiceReport>,
    /// Whether the service is to shut down.
    pub shut_down: bool,
    /// What to return.
    pub code: u32,
}

/// What a program does where it could not hand itself to the service control
/// manager: run by itself if no manager started it, else fail with the text.
pub fn on_dispatcher_failure(code: u32) -> (r: Option<String>)
    ensures
        match r {
            None => code == ERROR_FAILED_SERVICE_CONTROLLER_CONNECT,
            Some(e) => code != ERROR_FAILED_SERVICE_CONTROLLER_CONNECT && e@
                == "Failed to start service: "@ + numbers::decimal(code as nat),
        },
{
    if code == ERROR_FAILED_SERVICE_CONTROLLER_CONNECT {
        None
    } else {
        Some(join2("Failed to start service: ", decimal_text(code as u64).as_str()))
    }
}

// ---------------------------------------------------------------------------
// The core service's own course
// ---------------------------------------------------------------------------

/// A turn in the course of the core service.
#[derive(Debug)]
pub enum Course {
    Started,
    ShutDown,
    DatabaseFailed(String),
    Failed(String),
}

/// What is logged at a turn.
pub open spec fn course_entry(turn: Course) -> AuditEntry {
    match turn {
        Course::Started => AuditEntry {
            level: Level::Info,
            category: "process_lifecycle"@,
            message: "CoreService started successfully."@,
        },
        Course::ShutDown => AuditEntry {
            level: Level::Info,
            category: "process_lifecycle"@,
            message: "CoreService shutdown signal received."@,
        },
        Course::DatabaseFailed(reason) => AuditEntry {
            level: Level::Error,
            category: "database_error"@,
            message: "Failed to initialize database: "@ + reason@,
        },
        Course::Failed(reason) => AuditEntry {
            level: Level::Error,
            category: "service_error"@,
            message: "Service failed: "@ + reason@,
        },
    }
}

/// What is logged at a turn.
pub fn course_event(turn: &Course) -> (r: AuditEvent)
    ensures
        r@ == course_entry(*turn),
{
    match turn {
        Course::Started => AuditEvent::new(
            Level::Info,
            "process_lifecycle",
            "CoreService started successfully.",
        ),
        Course::ShutDown => AuditEvent::new(
            Level::Info,
            "process_lifecycle",
            "CoreService shutdown signal received.",
        ),
        Course::DatabaseFailed(reason) => AuditEvent::new(
            Level::Error,
            "database_error",
            join2("Failed to initialize database: ", reason.as_str()).as_str(),
        ),
        Course::Failed(reason) => AuditEvent::new(
            Level::Error,
            "service_error",
            join2("Service failed: ", reason.as_str()).as_str(),
        ),
    }
}

/// What happens while the core service starts and runs.
#[derive(Debug)]
pub enum StartEvent {
    /// The event log cannot be written.
    LoggerFailed,
    LoggerReady,
    /// The database cannot be set up.
    DatabaseFailed(String),
    DatabaseReady,
    /// The service control manager asks the service to stop.
    ShutDown,
}

/// What the core service does next.
#[derive(Debug, Clone, Copy, PartialEq, Eq, Structural)]
pub enum StartCall {
    /// Fail with the error that came up.
    Fail,
    OpenDatabase,
    /// Serve the pipes, block processes and report that the service runs.
    ServeAndReport,
    /// End without an error.
    End,
}

/// What the core service does about an event, and what it logs then.
pub open spec fn start_step(event: StartEvent) -> (StartCall, Option<AuditEntry>) {
    match event {
        StartEvent::LoggerFailed => (StartCall::Fail, None),
        StartEvent::LoggerReady => (StartCall::OpenDatabase, None),
        StartEvent::DatabaseFailed(reason) => (
            StartCall::End,
            Some(course_entry(Course::DatabaseFailed(reason))),
        ),
        StartEvent::DatabaseReady => (
            StartCall::ServeAndReport,
            Some(course_entry(Course::Started)),
        ),
        StartEvent::ShutDown => (StartCall::End, Some(course_entry(Course::ShutDown))),
    }
}

/// What the core service does about an event, and what it logs then.
pub fn on_start(event: &StartEvent) -> (r: (StartCall, Option<AuditEvent>))
    ensures
        (r.0, audit::entry_of(r.1)) == start_step(*event),
{
    match event {
        StartEvent::LoggerFailed => (StartCall::Fail, None),
        StartEvent::LoggerReady => (StartCall::OpenDatabase, None),
        StartEvent::DatabaseFailed(reason) => (
            StartCall::End,
            Some(course_event(&Course::DatabaseFailed(reason.clone()))),
        ),
        StartEvent::DatabaseReady => (
            StartCall::ServeAndReport,
            Some(course_event(&Course::Started)),
        ),
        StartEvent::ShutDown => (StartCall::End, Some(course_event(&Course::ShutDown))),
    }
}

// ---------------------------------------------------------------------------
// Command lines
// ---------------------------------------------------------------------------

/// What the core service's program is asked to do.
#[derive(Debug)]
pub enum CoreCommand {
    Run,
    Install,
    Uninstall,
    ConfigureRecovery,
    SetPassword(String),
    /// The command line is wrong; the text says how it should be.
    Usage(&'static str),
}

/// What the core service's program is asked to do, by its texts.
pub enum CoreOrder {
    Run,
    Install,
    Uninstall,
    ConfigureRecovery,
    SetPassword(Seq<char>),
    Usage(Seq<char>),
}

impl View for CoreCommand {
    type V = CoreOrder;

    open spec fn view(&self) -> CoreOrder {
        match self {
            CoreCommand::Run => CoreOrder::Run,
            CoreCommand::Install => CoreOrder::Install,
            CoreCommand::Uninstall => CoreOrder::Uninstall,
            CoreCommand::ConfigureRecovery => CoreOrder::ConfigureRecovery,
            CoreCommand::SetPassword(p) => CoreOrder::SetPassword(p@),
            CoreCommand::Usage(t) => CoreOrder::Usage(t@),
        }
    }
}

/// The order that a command line gives, the program's own name first.
pub open spec fn core_order(args: Seq<String>) -> CoreOrder {
    if args.len() <= 1 {
        CoreOrder::Run
    } else if args[1]@ == "--install"@ {
        CoreOrder::Install
    } else if args[1]@ == "--uninstall"@ {
        CoreOrder::Uninstall
    } else if args[1]@ == "--configure-recovery"@ {
        CoreOrder::ConfigureRecovery
    } else if args[1]@ == "--set-password"@ {
        if args.len() < 3 {
            CoreOrder::Usage("Usage: core-service.exe --set-password <password>"@)
        } else {
            CoreOrder::SetPassword(args[2]@)
        }
    } else {
        CoreOrder::Usage(
            "Usage: core-service.exe [--install | --uninstall | --configure-recovery | --set-password <password>]"@,
        )
    }
}

/// What the core service's program is asked to do.
pub fn core_command(args: &Vec<String>) -> (r: CoreCommand)
    ensures
        r@ == core_order(args@),
{
    if args.len() <= 1 {
        return CoreCommand::Run;
    }
    let word = args[1].as_str();
    if same(word, "--install") {
        CoreCommand::Install
    } else if same(word, "--uninstall") {
        CoreCommand::Uninstall
    } else if same(word, "--configure-recovery") {
        CoreCommand::ConfigureRecovery
    } else if same(word, "--set-password") {
        if args.len() < 3 {
            CoreCommand::Usage("Usage: core-service.exe --set-password <password>")
        } else {
            CoreCommand::SetPassword(args[2].clone())
        }
    } else {
        CoreCommand::Usage(
            "Usage: core-service.exe [--install | --uninstall | --configure-recovery | --set-password <password>]",
        )
    }
}

/// What the watchdog's program is asked to do.
#[derive(Debug, Clone, Copy, PartialEq, Eq, Structural)]
pub enum WatchdogCommand {
    Run,
    Install,
    Uninstall,
    /// The command line is wrong.
    Usage,
}

/// How the watchdog's command line should be.
pub const WATCHDOG_USAGE: &'static str = "Usage: watchdog-utility.exe [--install | --uninstall]";

/// What the watchdog's program is asked to do.
pub fn watchdog_command(args: &Vec<String>) -> (r: WatchdogCommand)
    ensures
        r == (if args@.len() <= 1 {
            WatchdogCommand::Run
        } else if args@[1]@ == "--install"@ {
            WatchdogCommand::Install
        } else if args@[1]@ == "--uninstall"@ {
            WatchdogCommand::Uninstall
        } else {
            WatchdogCommand::Usage
        }),
{
    if args.len() <= 1 {
        WatchdogCommand::Run
    } else if same(args[1].as_str(), "--install") {
        WatchdogCommand::Install
    } else if same(args[1].as_str(), "--uninstall") {
        WatchdogCommand::Uninstall
    } else {
        WatchdogCommand::Usage
    }
}

// ---------------------------------------------------------------------------
// Files and access
// ---------------------------------------------------------------------------

/// The directory of the system's files.
pub const DATA_DIR: &'static str = "C:\\ProgramData\\MonitoringControl";

/// Full access for the system and the administrators, for pipes.
pub const PIPE_SDDL: &'static str = "D:(A;;GA;;;SY)(A;;GA;;;BA)";

/// Full access for the system and the administrators, inherited by what is in
/// the directory.
pub const DIRECTORY_SDDL: &'static str = "D:(A;OICI;GA;;;SY)(A;OICI;GA;;;BA)";

/// The path of one of the system's files.
pub fn data_path(file: &str) -> (r: String)
    ensures
        r@ == DATA_DIR@ + "\\"@ + file@,
{
    join3(DATA_DIR, "\\", file)
}

/// The path of an executable as the service control manager wants it.
pub fn quoted_path(path: &str) -> (r: String)
    ensures
        r@ == "\""@ + path@ + "\""@,
{
    join3("\"", path, "\"")
}

/// What went wrong in setting up access.
#[derive(Debug, Clone, Copy, PartialEq, Eq, Structural)]
pub enum AccessFailure {
    /// The description of the access could not be converted.
    Descriptor,
    /// The directory did not take it.
    Directory,
}

/// The text of a failure with its error code.
pub open spec fn access_failure_text(failure: AccessFailure, code: u32) -> Seq<char> {
    let head = match failure {
        AccessFailure::Descriptor => "Failed to convert SDDL to security descriptor: "@,
        AccessFailure::Directory => "Failed to set directory security descriptor: "@,
    };
    head + numbers::decimal(code as nat)
}

/// The text of a failure with its error code.
pub fn describe_access_failure(failure: AccessFailure, code: u32) -> (r: String)
    ensures
        r@ == access_failure_text(failure, code),
{
    let head = match failure {
        AccessFailure::Descriptor => "Failed to convert SDDL to security descriptor: ",
        AccessFailure::Directory => "Failed to set directory security descriptor: ",
    };
    join2(head, decimal_text(code as u64).as_str())
}

/// How the service control manager restarts a service that failed.
#[derive(Debug)]
pub struct RecoveryPlan {
    /// After this many seconds without a failure the count starts anew.
    pub reset_period_secs: u32,
    /// The delays before the first, the second and every further restart.
    pub restart_delays_ms: Vec<u32>,
}

/// How the service control manager restarts a service that failed.
pub fn recovery_plan() -> (r: RecoveryPlan)
    ensures
        r.reset_period_secs == 86400,
        r.restart_delays_ms@ == seq![5000u32, 10000u32, 20000u32],
{
    let mut delays: Vec<u32> = Vec::new();
    delays.push(5000);
    delays.push(10000);
    delays.push(20000);
    assert(delays@ == seq![5000u32, 10000u32, 20000u32]);
    RecoveryPlan { reset_period_secs: 86400, restart_delays_ms: delays }
}

// ---------------------------------------------------------------------------
// Laws
// ---------------------------------------------------------------------------

/// A service takes controls exactly while it runs.
pub proof fn law_only_running_takes_controls(
    state: u32,
    exit_code: u32,
    specific: u32,
    check_point: u32,
    wait_hint: u32,
)
    ensures
        report_of(state, exit_code, specific, check_point, wait_hint).accepted != 0 <==> state
            == SERVICE_RUNNING,
{
}

/// The monitor shows the start of the core service as such.
pub proof fn law_start_is_shown()
    ensures
        translate::message_ru(
            course_entry(Course::Started).category,
            course_entry(Course::Started).message,
        ) == "Служба Ядра успешно запущена и контролирует систему"@,
{
    reveal_strlit("process_lifecycle");
    reveal_strlit("process_blocked");
    reveal_strlit("watchdog_event");
    reveal_strlit("system_override");
    reveal_strlit("system_status");
    assert("process_lifecycle"@.len() == 17);
    assert("process_blocked"@.len() == 15);
    assert("watchdog_event"@.len() == 14);
    assert("system_override"@.len() == 15);
    assert("system_status"@.len() == 13);
    reveal_strlit("CoreService started successfully.");
    reveal_strlit("started");
    let m = "CoreService started successfully."@;
    assert(m.subrange(12, 19) == "started"@);
    assert(crate::text::occurs_at(m, "started"@, 12));
}

/// What is reported is what was noted; a running service takes stops and
/// shutdowns, and any other takes nothing.
pub proof fn law_report_tells_what_was_noted(
    state: u32,
    exit_code: u32,
    specific: u32,
    check_point: u32,
    wait_hint: u32,
)
    ensures
        ({
            let report = report_of(state, exit_code, specific, check_point, wait_hint);
            &&& report.state == state
            &&& report.exit_code == exit_code
            &&& report.specific_exit_code == specific
            &&& report.check_point == check_point
            &&& report.wait_hint == wait_hint
            &&& report.accepted == (if state == 4 {
                5u32
            } else {
                0
            })
        }),
{
}

/// A service is asked to stop by the control for a stop and by that for a
/// shutdown, and by no other.
pub proof fn law_what_stops_a_service(control: u32)
    ensures
        stops(control) <==> control == 1 || control == 5,
{
}

/// How the core service starts: without its log it fails; without its database
/// it ends, and logs why; with both it serves, and logs that it started; asked
/// to stop it ends, and logs that.
pub proof fn law_course_of_the_core_service(event: StartEvent)
    ensures
        start_step(event).0 == StartCall::ServeAndReport <==> event is DatabaseReady,
        start_step(event).0 == StartCall::OpenDatabase <==> event is LoggerReady,
        start_step(event).0 == StartCall::Fail <==> event is LoggerFailed,
        start_step(event).1 is None <==> event is LoggerReady || event is LoggerFailed,
        event is DatabaseReady ==> (start_step(event).1 matches Some(e) && e.level == Level::Info
            && e.category == "process_lifecycle"@ && e.message
            == "CoreService started successfully."@),
        event is ShutDown ==> (start_step(event).1 matches Some(e) && e.level == Level::Info
            && e.category == "process_lifecycle"@ && e.message
            == "CoreService shutdown signal received."@),
        event matches StartEvent::DatabaseFailed(reason) ==> (start_step(event).1 matches Some(e)
            && e.level == Level::Error && e.category == "database_error"@ && e.message
            == "Failed to initialize database: "@ + reason@),
{
}

/// What is logged where the service fails.
pub proof fn law_failed_service_is_told(reason: String)
    ensures
        course_entry(Course::Failed(reason)).level == Level::Error,
        course_entry(Course::Failed(reason)).category == "service_error"@,
        course_entry(Course::Failed(reason)).message == "Service failed: "@ + reason@,
{
}

/// What a command line asks for: nothing but the program's name runs it, the
/// word behind it says what else is asked for, and only a password that is
/// given is set, as it is given.
pub proof fn law_command_lines(args: Seq<String>)
    ensures
        core_order(args) is Run <==> args.len() <= 1,
        core_order(args) is Install <==> args.len() > 1 && args[1]@ == "--install"@,
        core_order(args) is Uninstall <==> args.len() > 1 && args[1]@ == "--uninstall"@,
        core_order(args) is ConfigureRecovery <==> args.len() > 1 && args[1]@
            == "--configure-recovery"@,
        core_order(args) is SetPassword <==> args.len() > 2 && args[1]@ == "--set-password"@,
        core_order(args) matches CoreOrder::SetPassword(p) ==> p == args[2]@,
        core_order(args) matches CoreOrder::Usage(t) ==> t == (if args[1]@ == "--set-password"@ {
            "Usage: core-service.exe --set-password <password>"@
        } else {
            "Usage: core-service.exe [--install | --uninstall | --configure-recovery | --set-password <password>]"@
        }),
{
    reveal_strlit("--install");
    reveal_strlit("--uninstall");
    reveal_strlit("--configure-recovery");
    reveal_strlit("--set-password");
    assert("--install"@.len() == 9 && "--uninstall"@.len() == 11
        && "--configure-recovery"@.len() == 20 && "--set-password"@.len() == 14);
}

/// What went wrong in setting up access is told with its error code.
pub proof fn law_access_failures_are_told(code: u32)
    ensures
        access_failure_text(AccessFailure::Descriptor, code)
            == "Failed to convert SDDL to security descriptor: "@ + numbers::decimal(code as nat),
        access_failure_text(AccessFailure::Directory, code)
            == "Failed to set directory security descriptor: "@ + numbers::decimal(code as nat),
{
}

/// What is known of a command by its texts is what stands in it.
pub proof fn law_core_commands_are_seen_whole(command: CoreCommand)
    ensures
        command is Run <==> command@ is Run,
        command is Install <==> command@ is Install,
        command is Uninstall <==> command@ is Uninstall,
        command is ConfigureRecovery <==> command@ is ConfigureRecovery,
        command matches CoreCommand::SetPassword(p) ==> command@ == CoreOrder::SetPassword(p@),
        command matches CoreCommand::Usage(t) ==> command@ == CoreOrder::Usage(t@),
{
}

/// The numbers of the service control manager are those of Windows.
pub proof fn law_numbers_of_windows()
    ensures
        SERVICE_STOPPED == 1 && SERVICE_START_PENDING == 2 && SERVICE_STOP_PENDING == 3
            && SERVICE_RUNNING == 4 && SERVICE_PAUSED == 7,
        ACCEPT_STOP_AND_SHUTDOWN == SERVICE_ACCEPT_STOP + SERVICE_ACCEPT_SHUTDOWN,
        SERVICE_ACCEPT_STOP == 1 && SERVICE_ACCEPT_SHUTDOWN == 4,
        SERVICE_CONTROL_STOP == 1 && SERVICE_CONTROL_INTERROGATE == 4 && SERVICE_CONTROL_SHUTDOWN
            == 5,
        NO_ERROR == 0 && ERROR_CALL_NOT_IMPLEMENTED == 120
            && ERROR_FAILED_SERVICE_CONTROLLER_CONNECT == 1063 && ERROR_PROCESS_ABORTED == 1067
            && ERROR_SERVICE_EXISTS == 1073,
{
}

/// The system's files stand in one directory, and that and the pipes are open
/// to the system and the administrators only.
pub proof fn law_files_and_access()
    ensures
        DATA_DIR@ == "C:\\ProgramData\\MonitoringControl"@,
        PIPE_SDDL@ == "D:(A;;GA;;;SY)(A;;GA;;;BA)"@,
        DIRECTORY_SDDL@ == "D:(A;OICI;GA;;;SY)(A;OICI;GA;;;BA)"@,
        WATCHDOG_USAGE@ == "Usage: watchdog-utility.exe [--install | --uninstall]"@,
{
}

} // verus!
