//! What repeated or partial bootstrap runs are proved to do.
//!
//! Each law is stated over the catalog model of [`crate::model`] and the
//! action traces of [`crate::machine`], for every configuration and every
//! prior server state.

use vstd::prelude::*;
use crate::config::BootstrapConfig;
use crate::machine::{run_trace, transition, Action, Event, Phase};
use crate::model::{
    apply_statements, bootstrap_run, database_defined, is_mutating, lemma_run_end_state,
    lemma_successful_trace, planned_actions, role_defined, success_events, ServerState,
};

verus! {

/// Idempotence: a second bootstrap run against the server state the first
/// run left behind changes nothing — and since both the role and the
/// database then exist, the second run's plan holds no catalog-mutating
/// statement at all, only lookups and connections. Both runs complete:
/// the machine, fed each run's events, ends in `Complete`.
pub proof fn lemma_bootstrap_idempotent(s: ServerState, c: BootstrapConfig)
    ensures
        bootstrap_run(bootstrap_run(s, c), c) == bootstrap_run(s, c),
        role_defined(bootstrap_run(s, c), c),
        database_defined(bootstrap_run(s, c), c),
        forall|i: int|
            0 <= i < planned_actions(c, true, true).len() ==> !is_mutating(
                #[trigger] planned_actions(c, true, true)[i],
            ),
        run_trace(
            c,
            Phase::Start,
            success_events(role_defined(s, c), database_defined(s, c)),
        ) == Some(
            (Phase::Complete, planned_actions(c, role_defined(s, c), database_defined(s, c))),
        ),
        run_trace(c, Phase::Start, success_events(true, true)) == Some(
            (Phase::Complete, planned_actions(c, true, true)),
        ),
{
    lemma_successful_trace(c, role_defined(s, c), database_defined(s, c));
    lemma_successful_trace(c, true, true);
    lemma_run_end_state(s, c, role_defined(s, c), database_defined(s, c));
    let after = bootstrap_run(s, c);
    lemma_run_end_state(after, c, true, true);
    assert(bootstrap_run(after, c) =~= after);
    let t = planned_actions(c, true, true);
    assert forall|i: int| 0 <= i < t.len() implies !is_mutating(#[trigger] t[i]) by {
        assert(t.len() == 5);
    }
}

/// Ordering: in every successful plan, role creation precedes database
/// creation, the membership grant precedes database creation, and the
/// membership revoke follows database creation and precedes the
/// connection that completes the run.
pub proof fn lemma_statement_order(c: BootstrapConfig, role_exists: bool, db_exists: bool)
    ensures
        ({
            let t = planned_actions(c, role_exists, db_exists);
            &&& forall|i: int, j: int|
                0 <= i < t.len() && 0 <= j < t.len() && #[trigger] t[i] is CreateRole
                    && #[trigger] t[j] is CreateDatabase ==> i < j
            &&& forall|i: int, j: int|
                0 <= i < t.len() && 0 <= j < t.len() && #[trigger] t[i] is GrantMembership
                    && #[trigger] t[j] is CreateDatabase ==> i < j
            &&& forall|i: int, j: int|
                0 <= i < t.len() && 0 <= j < t.len() && #[trigger] t[i] is CreateDatabase
                    && #[trigger] t[j] is RevokeMembership ==> i < j
            &&& forall|i: int, j: int|
                0 <= i < t.len() && 0 <= j < t.len() && #[trigger] t[i] is RevokeMembership
                    && #[trigger] t[j] is ConnectApp ==> i < j
        }),
{
    let t = planned_actions(c, role_exists, db_exists);
    assert(t.len() <= 9);
}

/// No privilege leakage: after a successful bootstrap, the application
/// role's membership in the root role is present only if the database
/// already existed and the membership was already there before the run.
/// Whenever the run had to provision the database, the membership it
/// granted on the way is revoked again: it is absent at the end.
pub proof fn lemma_no_privilege_leakage(s: ServerState, c: BootstrapConfig)
    ensures
        !database_defined(s, c) ==> !bootstrap_run(s, c).memberships.contains(
            (c.app.username@, c.root.username@),
        ),
        bootstrap_run(s, c).memberships.contains((c.app.username@, c.root.username@)) <==> (
        database_defined(s, c) && s.memberships.contains((c.app.username@, c.root.username@))),
{
    lemma_run_end_state(s, c, role_defined(s, c), database_defined(s, c));
}

/// Scoped escalation on partial state: with the role already present and
/// the database absent, a run creates only the database (its plan holds
/// no role-creation statement, and the stored roles are untouched); with
/// the database present and the role absent, it creates only the role.
pub proof fn lemma_scoped_partial_state(s: ServerState, c: BootstrapConfig)
    ensures
        role_defined(s, c) && !database_defined(s, c) ==> {
            &&& bootstrap_run(s, c).roles == s.roles
            &&& bootstrap_run(s, c).databases == s.databases.insert(
                c.app.database@,
                c.app.username@,
            )
            &&& forall|i: int|
                0 <= i < planned_actions(c, true, false).len() ==> !(
                #[trigger] planned_actions(c, true, false)[i] is CreateRole)
        },
        !role_defined(s, c) && database_defined(s, c) ==> {
            &&& bootstrap_run(s, c).roles == s.roles.insert(c.app.username@, c.app.password@)
            &&& bootstrap_run(s, c).databases == s.databases
            &&& forall|i: int|
                0 <= i < planned_actions(c, false, true).len() ==> !(
                #[trigger] planned_actions(c, false, true)[i] is CreateDatabase) && !(
                planned_actions(c, false, true)[i] is GrantMembership) && !(
                planned_actions(c, false, true)[i] is RevokeMembership)
        },
{
    lemma_run_end_state(s, c, role_defined(s, c), database_defined(s, c));
}

/// Every failure surfaces, and nothing else does: an accepted connection
/// or statement failure always drives the machine to `Failed` with a
/// `Fail` action, and no other event ever fails the run or produces one.
pub proof fn lemma_failures_surface(c: BootstrapConfig, phase: Phase, event: Event)
    ensures
        transition(c, phase, event) matches Some(t) ==> ((event is ConnectionRefused || event
            is ExecutionFailed) <==> (t.0 is Failed && t.1 is Fail)),
        transition(c, phase, event) matches Some(t) ==> ((event is ConnectionRefused || event
            is ExecutionFailed) <==> t.0 is Failed),
{
}

/// The acknowledged limitation of the sequence: when the revoke statement
/// itself is rejected after the database was created, the run fails — but
/// the database exists and the temporary membership grant remains on the
/// server, for the caller to detect and remediate. The statements that
/// took effect are exactly the three before the rejected revoke.
pub proof fn lemma_failed_revoke_keeps_grant(s: ServerState, c: BootstrapConfig, message: String)
    ensures
        ({
            let events = seq![
                Event::Begin,
                Event::Connected,
                Event::Found,
                Event::Absent,
                Event::Executed,
                Event::Executed,
                Event::ExecutionFailed { message },
            ];
            &&& run_trace(c, Phase::Start, events) matches Some(r) && r.0 is Failed
            &&& run_trace(c, Phase::Start, events) matches Some(r) && ({
                let settled = apply_statements(s, r.1.take(5));
                &&& settled.memberships.contains((c.app.username@, c.root.username@))
                &&& settled.databases.contains_key(c.app.database@)
                &&& settled.databases[c.app.database@] == c.app.username@
            })
        }),
{
    reveal_with_fuel(run_trace, 9);
    let events = seq![
        Event::Begin,
        Event::Connected,
        Event::Found,
        Event::Absent,
        Event::Executed,
        Event::Executed,
        Event::ExecutionFailed { message },
    ];
    assert(run_trace(c, Phase::Start, events) matches Some(r) && r.0 is Failed && r.1.take(5)
        =~= seq![
        Action::ConnectRoot {
            host: c.conn.host,
            port: c.conn.port,
            username: c.root.username,
            password: c.root.password,
            database: c.root.database,
        },
        Action::QueryRoleExists { role: c.app.username },
        Action::QueryDatabaseExists { database: c.app.database },
        Action::GrantMembership { member: c.app.username, target: c.root.username },
        Action::CreateDatabase { database: c.app.database, owner: c.app.username },
    ]);
    reveal_with_fuel(apply_statements, 7);
    let r = run_trace(c, Phase::Start, events)->Some_0;
    let settled = apply_statements(s, r.1.take(5));
    assert(settled.memberships.contains((c.app.username@, c.root.username@)));
}

/// Credential stability: when the role already exists, a run leaves every
/// stored password exactly as it was — in particular, re-running with a
/// different configured password does not change the credential the
/// server holds for the application role.
pub proof fn lemma_credential_stability(s: ServerState, c: BootstrapConfig)
    requires
        role_defined(s, c),
    ensures
        bootstrap_run(s, c).roles == s.roles,
        bootstrap_run(s, c).roles[c.app.username@] == s.roles[c.app.username@],
{
    lemma_run_end_state(s, c, role_defined(s, c), database_defined(s, c));
}

} // verus!
