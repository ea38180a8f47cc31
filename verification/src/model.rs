//! A mathematical model of the server's catalog, and what one bootstrap
//! run does to it.
//!
//! The model names roles and databases by their text, carries each role's
//! stored password and each database's owner, and records role
//! memberships as pairs. [`apply_statement`] gives each catalog-mutating
//! [`Action`] its meaning; everything else an action can be — a lookup, a
//! connection, success or failure — leaves the catalog untouched.

use vstd::prelude::*;
use crate::config::BootstrapConfig;
use crate::machine::{
    connect_app_action, connect_root_action, run_trace, Action, Event, Phase,
};

verus! {

/// The server's catalog: stored passwords by role name, owners by
/// database name, and the set of (member, target) role memberships.
#[verifier::ext_equal]
pub struct ServerState {
    pub roles: Map<Seq<char>, Seq<char>>,
    pub databases: Map<Seq<char>, Seq<char>>,
    pub memberships: Set<(Seq<char>, Seq<char>)>,
}

/// Whether the application role of `c` exists on the server.
pub open spec fn role_defined(s: ServerState, c: BootstrapConfig) -> bool {
    s.roles.contains_key(c.app.username@)
}

/// Whether the application database of `c` exists on the server.
pub open spec fn database_defined(s: ServerState, c: BootstrapConfig) -> bool {
    s.databases.contains_key(c.app.database@)
}

/// The actions that change the catalog; everything else only reads it.
pub open spec fn is_mutating(a: Action) -> bool {
    ||| a is CreateRole
    ||| a is GrantMembership
    ||| a is CreateDatabase
    ||| a is RevokeMembership
}

/// What one action does to the catalog.
pub open spec fn apply_statement(s: ServerState, a: Action) -> ServerState {
    match a {
        Action::CreateRole { role, password } => ServerState {
            roles: s.roles.insert(role@, password@),
            ..s
        },
        Action::GrantMembership { member, target } => ServerState {
            memberships: s.memberships.insert((member@, target@)),
            ..s
        },
        Action::CreateDatabase { database, owner } => ServerState {
            databases: s.databases.insert(database@, owner@),
            ..s
        },
        Action::RevokeMembership { member, target } => ServerState {
            memberships: s.memberships.remove((member@, target@)),
            ..s
        },
        _ => s,
    }
}

/// What a whole sequence of actions does to the catalog, in order.
pub open spec fn apply_statements(s: ServerState, t: Seq<Action>) -> ServerState
    decreases t.len(),
{
    if t.len() == 0 {
        s
    } else {
        apply_statements(apply_statement(s, t[0]), t.drop_first())
    }
}

/// The events a run observes when every connection and statement succeeds
/// and the two catalog lookups answer as given.
pub open spec fn success_events(role_exists: bool, db_exists: bool) -> Seq<Event> {
    seq![Event::Begin, Event::Connected] + (if role_exists {
        seq![Event::Found]
    } else {
        seq![Event::Absent, Event::Executed]
    }) + (if db_exists {
        seq![Event::Found]
    } else {
        seq![Event::Absent, Event::Executed, Event::Executed, Event::Executed]
    }) + seq![Event::Connected]
}

/// The actions such a run performs, written out: connect and look the
/// role up; create it only when absent; look the database up; when absent,
/// grant membership, create the database, revoke the membership; connect
/// as the application and succeed.
pub open spec fn planned_actions(
    c: BootstrapConfig,
    role_exists: bool,
    db_exists: bool,
) -> Seq<Action> {
    seq![connect_root_action(c), Action::QueryRoleExists { role: c.app.username }] + (
    if role_exists {
        seq![Action::QueryDatabaseExists { database: c.app.database }]
    } else {
        seq![
            Action::CreateRole { role: c.app.username, password: c.app.password },
            Action::QueryDatabaseExists { database: c.app.database },
        ]
    }) + (if db_exists {
        seq![connect_app_action(c)]
    } else {
        seq![
            Action::GrantMembership { member: c.app.username, target: c.root.username },
            Action::CreateDatabase { database: c.app.database, owner: c.app.username },
            Action::RevokeMembership { member: c.app.username, target: c.root.username },
            connect_app_action(c),
        ]
    }) + seq![Action::Succeed]
}

/// The catalog after one run whose lookups answered as given: the role is
/// stored with the configured password only when it was absent; the
/// database is stored with the application role as owner only when it was
/// absent, and the temporary membership is then granted and revoked again.
pub open spec fn end_state(
    s: ServerState,
    c: BootstrapConfig,
    role_exists: bool,
    db_exists: bool,
) -> ServerState {
    ServerState {
        roles: if role_exists {
            s.roles
        } else {
            s.roles.insert(c.app.username@, c.app.password@)
        },
        databases: if db_exists {
            s.databases
        } else {
            s.databases.insert(c.app.database@, c.app.username@)
        },
        memberships: if db_exists {
            s.memberships
        } else {
            s.memberships.remove((c.app.username@, c.root.username@))
        },
    }
}

/// The catalog after one full bootstrap run against server `s`, every
/// connection and statement succeeding.
pub open spec fn bootstrap_run(s: ServerState, c: BootstrapConfig) -> ServerState {
    apply_statements(s, planned_actions(c, role_defined(s, c), database_defined(s, c)))
}

/// The machine, fed the events of a run whose lookups answer as given and
/// whose connections and statements all succeed, reaches `Complete` and
/// performs exactly [`planned_actions`].
pub proof fn lemma_successful_trace(c: BootstrapConfig, role_exists: bool, db_exists: bool)
    ensures
        run_trace(c, Phase::Start, success_events(role_exists, db_exists)) == Some(
            (Phase::Complete, planned_actions(c, role_exists, db_exists)),
        ),
{
    reveal_with_fuel(run_trace, 11);
    let events = success_events(role_exists, db_exists);
    if role_exists {
        if db_exists {
            assert(events =~= seq![
                Event::Begin,
                Event::Connected,
                Event::Found,
                Event::Found,
                Event::Connected,
            ]);
            assert(run_trace(c, Phase::Start, events) matches Some(r) && r.1
                =~= planned_actions(c, role_exists, db_exists));
        } else {
            assert(events =~= seq![
                Event::Begin,
                Event::Connected,
                Event::Found,
                Event::Absent,
                Event::Executed,
                Event::Executed,
                Event::Executed,
                Event::Connected,
            ]);
            assert(run_trace(c, Phase::Start, events) matches Some(r) && r.1
                =~= planned_actions(c, role_exists, db_exists));
        }
    } else {
        if db_exists {
            assert(events =~= seq![
                Event::Begin,
                Event::Connected,
                Event::Absent,
                Event::Executed,
                Event::Found,
                Event::Connected,
            ]);
            assert(run_trace(c, Phase::Start, events) matches Some(r) && r.1
                =~= planned_actions(c, role_exists, db_exists));
        } else {
            assert(events =~= seq![
                Event::Begin,
                Event::Connected,
                Event::Absent,
                Event::Executed,
                Event::Absent,
                Event::Executed,
                Event::Executed,
                Event::Executed,
                Event::Connected,
            ]);
            assert(run_trace(c, Phase::Start, events) matches Some(r) && r.1
                =~= planned_actions(c, role_exists, db_exists));
        }
    }
}

/// Applying a planned run to the catalog yields exactly [`end_state`].
pub proof fn lemma_run_end_state(
    s: ServerState,
    c: BootstrapConfig,
    role_exists: bool,
    db_exists: bool,
)
    ensures
        apply_statements(s, planned_actions(c, role_exists, db_exists)) == end_state(
            s,
            c,
            role_exists,
            db_exists,
        ),
{
    reveal_with_fuel(apply_statements, 11);
    let t = planned_actions(c, role_exists, db_exists);
    if role_exists {
        if db_exists {
            assert(t =~= seq![
                connect_root_action(c),
                Action::QueryRoleExists { role: c.app.username },
                Action::QueryDatabaseExists { database: c.app.database },
                connect_app_action(c),
                Action::Succeed,
            ]);
        } else {
            assert(t =~= seq![
                connect_root_action(c),
                Action::QueryRoleExists { role: c.app.username },
                Action::QueryDatabaseExists { database: c.app.database },
                Action::GrantMembership { member: c.app.username, target: c.root.username },
                Action::CreateDatabase { database: c.app.database, owner: c.app.username },
                Action::RevokeMembership { member: c.app.username, target: c.root.username },
                connect_app_action(c),
                Action::Succeed,
            ]);
        }
    } else {
        if db_exists {
            assert(t =~= seq![
                connect_root_action(c),
                Action::QueryRoleExists { role: c.app.username },
                Action::CreateRole { role: c.app.username, password: c.app.password },
                Action::QueryDatabaseExists { database: c.app.database },
                connect_app_action(c),
                Action::Succeed,
            ]);
        } else {
            assert(t =~= seq![
                connect_root_action(c),
                Action::QueryRoleExists { role: c.app.username },
                Action::CreateRole { role: c.app.username, password: c.app.password },
                Action::QueryDatabaseExists { database: c.app.database },
                Action::GrantMembership { member: c.app.username, target: c.root.username },
                Action::CreateDatabase { database: c.app.database, owner: c.app.username },
                Action::RevokeMembership { member: c.app.username, target: c.root.username },
                connect_app_action(c),
                Action::Succeed,
            ]);
        }
    }
    assert(apply_statements(s, t) =~= end_state(s, c, role_exists, db_exists));
}

} // verus!
