//! The bootstrap orchestration as a state machine.
//!
//! Every decision of the provisioning sequence lives here: which catalog
//! statement to issue next, what an existence check means, when the
//! temporary membership grant is taken and given back, and when the run is
//! complete or failed. The machine never touches the network itself: each
//! [`step`](Bootstrap::step) consumes the observed outcome of the previous
//! action and hands back the next [`Action`] for the caller to perform, so
//! statements are issued in strict program order.

use vstd::prelude::*;
use crate::config::BootstrapConfig;
use crate::error::BootstrapError;

verus! {

/// Where a bootstrap run currently stands. The names follow the order of
/// the sequence: connect as root, ensure the role, ensure the database
/// (grant, create, revoke), connect as the application.
#[derive(Clone, Copy, Debug, PartialEq, Eq, Structural)]
pub enum Phase {
    Start,
    ConnectingRoot,
    CheckingRole,
    CreatingRole,
    CheckingDatabase,
    GrantingMembership,
    CreatingDatabase,
    RevokingMembership,
    ConnectingApp,
    Complete,
    Failed,
}

/// The observed outcome of the most recent action, reported back to the
/// machine by whoever performs the actions.
#[derive(Clone, Debug, PartialEq, Eq)]
pub enum Event {
    /// Starts the run; the only event the fresh machine accepts.
    Begin,
    /// A requested connection was established.
    Connected,
    /// A requested connection could not be established.
    ConnectionRefused { message: String },
    /// A catalog lookup found the role or database.
    Found,
    /// A catalog lookup found no such role or database.
    Absent,
    /// A catalog statement executed without error.
    Executed,
    /// A catalog lookup or statement was rejected by the server.
    ExecutionFailed { message: String },
}

/// What the caller is asked to do next. Every catalog-facing step of the
/// sequence is one of these; the identifiers are carried as plain values
/// and the caller renders them into its dialect.
#[derive(Clone, Debug, PartialEq, Eq)]
pub enum Action {
    /// Open the privileged connection to the root database.
    ConnectRoot { host: String, port: u16, username: String, password: String, database: String },
    /// Look the role up in the server's role catalog.
    QueryRoleExists { role: String },
    /// Create the role with the given password.
    CreateRole { role: String, password: String },
    /// Look the database up in the server's database catalog.
    QueryDatabaseExists { database: String },
    /// Grant the member role's membership in the target role.
    GrantMembership { member: String, target: String },
    /// Create the database, owned by the given role.
    CreateDatabase { database: String, owner: String },
    /// Revoke the member role's membership in the target role.
    RevokeMembership { member: String, target: String },
    /// Open the application pool: connect to the application database as
    /// the application role, discard the privileged connection, and hand
    /// the pool to the caller.
    ConnectApp { host: String, port: u16, username: String, password: String, database: String },
    /// The run is complete; the pool opened for [`Action::ConnectApp`] is
    /// the result.
    Succeed,
    /// The run failed with the carried error; no usable handle results.
    Fail { error: BootstrapError },
}

/// An informational notice: a provisioning step found its work already
/// done and was skipped. Never an error.
#[derive(Clone, Debug, PartialEq, Eq)]
pub enum Notice {
    RoleAlreadyExists { role: String },
    DatabaseAlreadyExists { database: String },
}

/// What one step of the machine yields: the next action, and possibly a
/// notice for the caller's observability hook.
#[derive(Clone, Debug, PartialEq, Eq)]
pub struct StepOutcome {
    pub action: Action,
    pub notice: Option<Notice>,
}

/// The action that opens the privileged connection.
pub open spec fn connect_root_action(c: BootstrapConfig) -> Action {
    Action::ConnectRoot {
        host: c.conn.host,
        port: c.conn.port,
        username: c.root.username,
        password: c.root.password,
        database: c.root.database,
    }
}

/// The action that opens the application pool.
pub open spec fn connect_app_action(c: BootstrapConfig) -> Action {
    Action::ConnectApp {
        host: c.conn.host,
        port: c.conn.port,
        username: c.app.username,
        password: c.app.password,
        database: c.app.database,
    }
}

/// The whole transition relation of the machine: from a phase and an
/// observed event to the next phase, the action to perform, and an
/// optional notice. `None` means the event cannot occur in that phase —
/// the machine demands the outcome of exactly the action it last asked
/// for, which keeps the statement order strict.
pub open spec fn transition(c: BootstrapConfig, phase: Phase, event: Event) -> Option<
    (Phase, Action, Option<Notice>),
> {
    match (phase, event) {
        (Phase::Start, Event::Begin) => Some(
            (Phase::ConnectingRoot, connect_root_action(c), None),
        ),
        (Phase::ConnectingRoot, Event::Connected) => Some(
            (Phase::CheckingRole, Action::QueryRoleExists { role: c.app.username }, None),
        ),
        (Phase::ConnectingRoot, Event::ConnectionRefused { message }) => Some(
            (
                Phase::Failed,
                Action::Fail { error: BootstrapError::ConnectionFailed { message } },
                None,
            ),
        ),
        (Phase::CheckingRole, Event::Found) => Some(
            (
                Phase::CheckingDatabase,
                Action::QueryDatabaseExists { database: c.app.database },
                Some(Notice::RoleAlreadyExists { role: c.app.username }),
            ),
        ),
        (Phase::CheckingRole, Event::Absent) => Some(
            (
                Phase::CreatingRole,
                Action::CreateRole { role: c.app.username, password: c.app.password },
                None,
            ),
        ),
        (Phase::CheckingRole, Event::ExecutionFailed { message }) => Some(
            (
                Phase::Failed,
                Action::Fail { error: BootstrapError::StatementFailed { message } },
                None,
            ),
        ),
        (Phase::CreatingRole, Event::Executed) => Some(
            (
                Phase::CheckingDatabase,
                Action::QueryDatabaseExists { database: c.app.database },
                None,
            ),
        ),
        (Phase::CreatingRole, Event::ExecutionFailed { message }) => Some(
            (
                Phase::Failed,
                Action::Fail { error: BootstrapError::StatementFailed { message } },
                None,
            ),
        ),
        (Phase::CheckingDatabase, Event::Found) => Some(
            (
                Phase::ConnectingApp,
                connect_app_action(c),
                Some(Notice::DatabaseAlreadyExists { database: c.app.database }),
            ),
        ),
        (Phase::CheckingDatabase, Event::Absent) => Some(
            (
                Phase::GrantingMembership,
                Action::GrantMembership { member: c.app.username, target: c.root.username },
                None,
            ),
        ),
        (Phase::CheckingDatabase, Event::ExecutionFailed { message }) => Some(
            (
                Phase::Failed,
                Action::Fail { error: BootstrapError::StatementFailed { message } },
                None,
            ),
        ),
        (Phase::GrantingMembership, Event::Executed) => Some(
            (
                Phase::CreatingDatabase,
                Action::CreateDatabase { database: c.app.database, owner: c.app.username },
                None,
            ),
        ),
        (Phase::GrantingMembership, Event::ExecutionFailed { message }) => Some(
            (
                Phase::Failed,
                Action::Fail { error: BootstrapError::StatementFailed { message } },
                None,
            ),
        ),
        (Phase::CreatingDatabase, Event::Executed) => Some(
            (
                Phase::RevokingMembership,
                Action::RevokeMembership { member: c.app.username, target: c.root.username },
                None,
            ),
        ),
        (Phase::CreatingDatabase, Event::ExecutionFailed { message }) => Some(
            (
                Phase::Failed,
                Action::Fail { error: BootstrapError::StatementFailed { message } },
                None,
            ),
        ),
        (Phase::RevokingMembership, Event::Executed) => Some(
            (Phase::ConnectingApp, connect_app_action(c), None),
        ),
        (Phase::RevokingMembership, Event::ExecutionFailed { message }) => Some(
            (
                Phase::Failed,
                Action::Fail { error: BootstrapError::StatementFailed { message } },
                None,
            ),
        ),
        (Phase::ConnectingApp, Event::Connected) => Some((Phase::Complete, Action::Succeed, None)),
        (Phase::ConnectingApp, Event::ConnectionRefused { message }) => Some(
            (
                Phase::Failed,
                Action::Fail { error: BootstrapError::ConnectionFailed { message } },
                None,
            ),
        ),
        _ => None,
    }
}

/// Runs the machine over a whole sequence of events: the final phase and
/// the actions requested along the way, or `None` if some event cannot
/// occur in the phase it meets.
pub open spec fn run_trace(c: BootstrapConfig, phase: Phase, events: Seq<Event>) -> Option<
    (Phase, Seq<Action>),
>
    decreases events.len(),
{
    if events.len() == 0 {
        Some((phase, Seq::<Action>::empty()))
    } else {
        match transition(c, phase, events[0]) {
            Some(step) => match run_trace(c, step.0, events.drop_first()) {
                Some(rest) => Some((rest.0, seq![step.1] + rest.1)),
                None => None,
            },
            None => None,
        }
    }
}

/// One bootstrap run: the configuration, fixed for the whole run, and the
/// phase reached so far. Drive it by performing each returned action and
/// reporting the outcome to [`step`](Bootstrap::step).
#[derive(Clone, Debug)]
pub struct Bootstrap {
    pub config: BootstrapConfig,
    pub phase: Phase,
}

impl Bootstrap {
    /// A fresh run; the first accepted event is [`Event::Begin`].
    pub fn new(config: BootstrapConfig) -> (r: Self)
        ensures
            r.config == config,
            r.phase == Phase::Start,
    {
        Self { config, phase: Phase::Start }
    }

    /// Whether `event` can occur now: it must be an outcome the action
    /// last requested can have, and the run must not be over.
    pub open spec fn accepts(self, event: Event) -> bool {
        transition(self.config, self.phase, event) is Some
    }

    /// Executable twin of [`Bootstrap::accepts`], for callers that need to
    /// validate an event before stepping.
    pub fn accepts_event(&self, event: &Event) -> (r: bool)
        ensures
            r == self.accepts(*event),
    {
        match (self.phase, event) {
            (Phase::Start, Event::Begin) => true,
            (Phase::ConnectingRoot, Event::Connected) => true,
            (Phase::ConnectingRoot, Event::ConnectionRefused { .. }) => true,
            (Phase::CheckingRole, Event::Found) => true,
            (Phase::CheckingRole, Event::Absent) => true,
            (Phase::CheckingRole, Event::ExecutionFailed { .. }) => true,
            (Phase::CreatingRole, Event::Executed) => true,
            (Phase::CreatingRole, Event::ExecutionFailed { .. }) => true,
            (Phase::CheckingDatabase, Event::Found) => true,
            (Phase::CheckingDatabase, Event::Absent) => true,
            (Phase::CheckingDatabase, Event::ExecutionFailed { .. }) => true,
            (Phase::GrantingMembership, Event::Executed) => true,
            (Phase::GrantingMembership, Event::ExecutionFailed { .. }) => true,
            (Phase::CreatingDatabase, Event::Executed) => true,
            (Phase::CreatingDatabase, Event::ExecutionFailed { .. }) => true,
            (Phase::RevokingMembership, Event::Executed) => true,
            (Phase::RevokingMembership, Event::ExecutionFailed { .. }) => true,
            (Phase::ConnectingApp, Event::Connected) => true,
            (Phase::ConnectingApp, Event::ConnectionRefused { .. }) => true,
            _ => false,
        }
    }

    /// Consumes the outcome of the previous action and returns the next
    /// one, advancing the phase exactly as [`transition`] says.
    pub fn step(&mut self, event: Event) -> (r: StepOutcome)
        requires
            old(self).accepts(event),
        ensures
            final(self).config == old(self).config,
            Some((final(self).phase, r.action, r.notice)) == transition(
                old(self).config,
                old(self).phase,
                event,
            ),
    {
        match (self.phase, event) {
            (Phase::Start, Event::Begin) => {
                self.phase = Phase::ConnectingRoot;
                StepOutcome {
                    action: Action::ConnectRoot {
                        host: self.config.conn.host.clone(),
                        port: self.config.conn.port,
                        username: self.config.root.username.clone(),
                        password: self.config.root.password.clone(),
                        database: self.config.root.database.clone(),
                    },
                    notice: None,
                }
            },
            (Phase::ConnectingRoot, Event::Connected) => {
                self.phase = Phase::CheckingRole;
                StepOutcome {
                    action: Action::QueryRoleExists { role: self.config.app.username.clone() },
                    notice: None,
                }
            },
            (Phase::ConnectingRoot, Event::ConnectionRefused { message }) => {
                self.phase = Phase::Failed;
                StepOutcome {
                    action: Action::Fail { error: BootstrapError::ConnectionFailed { message } },
                    notice: None,
                }
            },
            (Phase::CheckingRole, Event::Found) => {
                self.phase = Phase::CheckingDatabase;
                StepOutcome {
                    action: Action::QueryDatabaseExists {
                        database: self.config.app.database.clone(),
                    },
                    notice: Some(
                        Notice::RoleAlreadyExists { role: self.config.app.username.clone() },
                    ),
                }
            },
            (Phase::CheckingRole, Event::Absent) => {
                self.phase = Phase::CreatingRole;
                StepOutcome {
                    action: Action::CreateRole {
                        role: self.config.app.username.clone(),
                        password: self.config.app.password.clone(),
                    },
                    notice: None,
                }
            },
            (Phase::CheckingRole, Event::ExecutionFailed { message }) => {
                self.phase = Phase::Failed;
                StepOutcome {
                    action: Action::Fail { error: BootstrapError::StatementFailed { message } },
                    notice: None,
                }
            },
            (Phase::CreatingRole, Event::Executed) => {
                self.phase = Phase::CheckingDatabase;
                StepOutcome {
                    action: Action::QueryDatabaseExists {
                        database: self.config.app.database.clone(),
                    },
                    notice: None,
                }
            },
            (Phase::CreatingRole, Event::ExecutionFailed { message }) => {
                self.phase = Phase::Failed;
                StepOutcome {
                    action: Action::Fail { error: BootstrapError::StatementFailed { message } },
                    notice: None,
                }
            },
            (Phase::CheckingDatabase, Event::Found) => {
                self.phase = Phase::ConnectingApp;
                StepOutcome {
                    action: Action::ConnectApp {
                        host: self.config.conn.host.clone(),
                        port: self.config.conn.port,
                        username: self.config.app.username.clone(),
                        password: self.config.app.password.clone(),
                        database: self.config.app.database.clone(),
                    },
                    notice: Some(
                        Notice::DatabaseAlreadyExists {
                            database: self.config.app.database.clone(),
                        },
                    ),
                }
            },
            (Phase::CheckingDatabase, Event::Absent) => {
                self.phase = Phase::GrantingMembership;
                StepOutcome {
                    action: Action::GrantMembership {
                        member: self.config.app.username.clone(),
                        target: self.config.root.username.clone(),
                    },
                    notice: None,
                }
            },
            (Phase::CheckingDatabase, Event::ExecutionFailed { message }) => {
                self.phase = Phase::Failed;
                StepOutcome {
                    action: Action::Fail { error: BootstrapError::StatementFailed { message } },
                    notice: None,
                }
            },
            (Phase::GrantingMembership, Event::Executed) => {
                self.phase = Phase::CreatingDatabase;
                StepOutcome {
                    action: Action::CreateDatabase {
                        database: self.config.app.database.clone(),
                        owner: self.config.app.username.clone(),
                    },
                    notice: None,
                }
            },
            (Phase::GrantingMembership, Event::ExecutionFailed { message }) => {
                self.phase = Phase::Failed;
                StepOutcome {
                    action: Action::Fail { error: BootstrapError::StatementFailed { message } },
                    notice: None,
                }
            },
            (Phase::CreatingDatabase, Event::Executed) => {
                self.phase = Phase::RevokingMembership;
                StepOutcome {
                    action: Action::RevokeMembership {
                        member: self.config.app.username.clone(),
                        target: self.config.root.username.clone(),
                    },
                    notice: None,
                }
            },
            (Phase::CreatingDatabase, Event::ExecutionFailed { message }) => {
                self.phase = Phase::Failed;
                StepOutcome {
                    action: Action::Fail { error: BootstrapError::StatementFailed { message } },
                    notice: None,
                }
            },
            (Phase::RevokingMembership, Event::Executed) => {
                self.phase = Phase::ConnectingApp;
                StepOutcome {
                    action: Action::ConnectApp {
                        host: self.config.conn.host.clone(),
                        port: self.config.conn.port,
                        username: self.config.app.username.clone(),
                        password: self.config.app.password.clone(),
                        database: self.config.app.database.clone(),
                    },
                    notice: None,
                }
            },
            (Phase::RevokingMembership, Event::ExecutionFailed { message }) => {
                self.phase = Phase::Failed;
                StepOutcome {
                    action: Action::Fail { error: BootstrapError::StatementFailed { message } },
                    notice: None,
                }
            },
            (Phase::ConnectingApp, Event::Connected) => {
                self.phase = Phase::Complete;
                StepOutcome { action: Action::Succeed, notice: None }
            },
            (Phase::ConnectingApp, Event::ConnectionRefused { message }) => {
                self.phase = Phase::Failed;
                StepOutcome {
                    action: Action::Fail { error: BootstrapError::ConnectionFailed { message } },
                    notice: None,
                }
            },
            _ => {
                proof {
                    assert(false);
                }
                StepOutcome { action: Action::Succeed, notice: None }
            },
        }
    }
}

} // verus!
