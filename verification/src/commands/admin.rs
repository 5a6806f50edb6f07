//! Administration commands of the current settings layout: restarting the TC
//! servers, and the check that lets only admins run them.
use vstd::prelude::*;
use crate::commands::plan::ProcessPlan;
use crate::commands::plan::is_plan;
use crate::commands::plan::plan;
use crate::commands::plan::two_texts;
use crate::ids::contains_id;

verus! {

/// `restart_tc` (alias `rtc`): replies, then restarts the `tc` service.
pub fn restart_tc() -> (p: ProcessPlan)
    ensures
        is_plan(
            p,
            "Restarting TC"@,
            "/bin/systemctl"@,
            seq!["restart"@, "tc"@],
            "Failed on restating TC"@,
        ),
{
    plan("Restarting TC", "/bin/systemctl", two_texts("restart", "tc"), "Failed on restating TC")
}

/// `restart_tc2` (alias `rtc2`): replies, then restarts the `tc2` service.
pub fn restart_tc2() -> (p: ProcessPlan)
    ensures
        is_plan(
            p,
            "Updating & Restarting TC2"@,
            "/bin/systemctl"@,
            seq!["restart"@, "tc2"@],
            "Failed on systemctl cmd"@,
        ),
{
    plan(
        "Updating & Restarting TC2",
        "/bin/systemctl",
        two_texts("restart", "tc2"),
        "Failed on systemctl cmd",
    )
}

// ---------------------------------------------------------------------------
// The ADMIN check
// ---------------------------------------------------------------------------

/// Where the check stands.
pub enum AdminCheckState {
    /// Not invoked yet.
    Start,
    /// The author's membership of `roles[next]` is being asked.
    CheckingRoles { roles: Vec<String>, next: usize, owners: Option<Vec<u64>>, author: u64 },
    /// The check has answered.
    Decided,
}

/// What the program observed.
pub enum AdminCheckEvent {
    /// The check was invoked for a message of this author, with the configured
    /// admin roles and owners.
    Invoked { admin_roles: Option<Vec<String>>, owners: Option<Vec<u64>>, author: u64 },
    /// Whether the author has the role asked about.
    RoleChecked(bool),
}

/// What the program is to do next.
pub enum AdminCheckAction {
    /// Ask whether the author has this role in the message's guild.
    CheckRole(String),
    /// Let the command run.
    Allow,
    /// Refuse the command.
    Deny,
    /// Nothing.
    Nothing,
}

/// The answer when no role let the author in: owners are let in.
pub open spec fn owner_answer(owners: Option<Vec<u64>>, author: u64) -> AdminCheckAction {
    match owners {
        Some(list) => if list@.contains(author) {
            AdminCheckAction::Allow
        } else {
            AdminCheckAction::Deny
        },
        None => AdminCheckAction::Deny,
    }
}

/// Asks about the role at `next`, or, past the last role, answers by owners.
pub open spec fn ask_from(
    roles: Vec<String>,
    next: int,
    owners: Option<Vec<u64>>,
    author: u64,
) -> (AdminCheckState, AdminCheckAction) {
    if 0 <= next < roles@.len() {
        (
            AdminCheckState::CheckingRoles { roles, next: next as usize, owners, author },
            AdminCheckAction::CheckRole(roles@[next]),
        )
    } else {
        (AdminCheckState::Decided, owner_answer(owners, author))
    }
}

/// One step of the check: each admin role is asked about in turn, and one
/// that the author has lets them in; then the owners are let in; everyone
/// else is refused.
pub open spec fn admin_step(state: AdminCheckState, event: AdminCheckEvent) -> (
    AdminCheckState,
    AdminCheckAction,
) {
    match (state, event) {
        (AdminCheckState::Start, AdminCheckEvent::Invoked { admin_roles, owners, author }) => {
            match admin_roles {
                Some(roles) => ask_from(roles, 0, owners, author),
                None => (AdminCheckState::Decided, owner_answer(owners, author)),
            }
        },
        (
            AdminCheckState::CheckingRoles { roles, next, owners, author },
            AdminCheckEvent::RoleChecked(held),
        ) => if held {
            (AdminCheckState::Decided, AdminCheckAction::Allow)
        } else {
            ask_from(roles, next + 1, owners, author)
        },
        _ => (AdminCheckState::Decided, AdminCheckAction::Nothing),
    }
}

fn owner_decision(owners: Option<Vec<u64>>, author: u64) -> (r: (
    AdminCheckState,
    AdminCheckAction,
))
    ensures
        r == (AdminCheckState::Decided, owner_answer(owners, author)),
{
    match owners {
        Some(list) => if contains_id(&list, author) {
            (AdminCheckState::Decided, AdminCheckAction::Allow)
        } else {
            (AdminCheckState::Decided, AdminCheckAction::Deny)
        },
        None => (AdminCheckState::Decided, AdminCheckAction::Deny),
    }
}

fn ask(roles: Vec<String>, next: usize, owners: Option<Vec<u64>>, author: u64) -> (r: (
    AdminCheckState,
    AdminCheckAction,
))
    ensures
        r == ask_from(roles, next as int, owners, author),
{
    if next < roles.len() {
        let role = roles[next].clone();
        (AdminCheckState::CheckingRoles { roles, next, owners, author }, AdminCheckAction::CheckRole(role))
    } else {
        owner_decision(owners, author)
    }
}

/// One step of the ADMIN check.
pub fn admin_check(state: AdminCheckState, event: AdminCheckEvent) -> (r: (
    AdminCheckState,
    AdminCheckAction,
))
    ensures
        r == admin_step(state, event),
{
    match (state, event) {
        (AdminCheckState::Start, AdminCheckEvent::Invoked { admin_roles, owners, author }) => {
            match admin_roles {
                Some(roles) => ask(roles, 0, owners, author),
                None => owner_decision(owners, author),
            }
        },
        (
            AdminCheckState::CheckingRoles { roles, next, owners, author },
            AdminCheckEvent::RoleChecked(held),
        ) => {
            if held {
                (AdminCheckState::Decided, AdminCheckAction::Allow)
            } else if next < roles.len() {
                ask(roles, next + 1, owners, author)
            } else {
                owner_decision(owners, author)
            }
        },
        _ => (AdminCheckState::Decided, AdminCheckAction::Nothing),
    }
}

/// Feeds the answers to the check, one for each role asked about, until it
/// decides or the answers run out; the last action.
pub open spec fn run_check(
    state: AdminCheckState,
    action: AdminCheckAction,
    answers: Seq<bool>,
) -> AdminCheckAction
    decreases answers.len(),
{
    if action is CheckRole && answers.len() > 0 {
        let next = admin_step(state, AdminCheckEvent::RoleChecked(answers[0]));
        run_check(next.0, next.1, answers.drop_first())
    } else {
        action
    }
}

/// The answer of the whole check, invoked with these settings and author,
/// when `answers[i]` says whether the author has the `i`-th admin role.
pub open spec fn check_outcome(
    admin_roles: Option<Vec<String>>,
    owners: Option<Vec<u64>>,
    author: u64,
    answers: Seq<bool>,
) -> AdminCheckAction {
    let first = admin_step(
        AdminCheckState::Start,
        AdminCheckEvent::Invoked { admin_roles, owners, author },
    );
    run_check(first.0, first.1, answers)
}

/// The number of admin roles configured.
pub open spec fn role_count(admin_roles: Option<Vec<String>>) -> nat {
    match admin_roles {
        Some(r) => r@.len(),
        None => 0,
    }
}

/// The author is one of the owners.
pub open spec fn is_owner(owners: Option<Vec<u64>>, author: u64) -> bool {
    owners matches Some(list) && list@.contains(author)
}

proof fn lemma_run_from(
    roles: Vec<String>,
    k: int,
    owners: Option<Vec<u64>>,
    author: u64,
    answers: Seq<bool>,
)
    requires
        0 <= k <= roles@.len(),
        roles@.len() <= usize::MAX,
        answers.len() == roles@.len() - k,
    ensures
        run_check(ask_from(roles, k, owners, author).0, ask_from(roles, k, owners, author).1, answers)
            == if exists|i: int| 0 <= i < answers.len() && answers[i] {
            AdminCheckAction::Allow
        } else {
            owner_answer(owners, author)
        },
    decreases answers.len(),
{
    if k < roles@.len() {
        let rest = answers.drop_first();
        lemma_run_from(roles, k + 1, owners, author, rest);
        let start = ask_from(roles, k, owners, author);
        assert(start.1 is CheckRole);
        assert((k as usize) as int == k);
        let next = admin_step(start.0, AdminCheckEvent::RoleChecked(answers[0]));
        assert(run_check(start.0, start.1, answers) == run_check(next.0, next.1, rest));
        if answers[0] {
            assert(next.1 is Allow);
            assert(run_check(next.0, next.1, rest) == AdminCheckAction::Allow);
        } else {
            assert(next == ask_from(roles, k + 1, owners, author));
        }
        if answers[0] {
        } else {
            if exists|i: int| 0 <= i < answers.len() && answers[i] {
                let i = choose|i: int| 0 <= i < answers.len() && answers[i];
                assert(rest[i - 1]);
            }
            if exists|i: int| 0 <= i < rest.len() && rest[i] {
                let i = choose|i: int| 0 <= i < rest.len() && rest[i];
                assert(answers[i + 1]);
            }
        }
    }
}

/// The ADMIN check lets the author in exactly when they have one of the admin
/// roles or are one of the owners, and refuses everyone else.
pub proof fn law_admins_are_role_holders_or_owners(
    admin_roles: Option<Vec<String>>,
    owners: Option<Vec<u64>>,
    author: u64,
    answers: Seq<bool>,
)
    requires
        answers.len() == role_count(admin_roles),
        role_count(admin_roles) <= usize::MAX,
    ensures
        check_outcome(admin_roles, owners, author, answers) == if (exists|i: int|
            0 <= i < answers.len() && answers[i]) || is_owner(owners, author) {
            AdminCheckAction::Allow
        } else {
            AdminCheckAction::Deny
        },
{
    match admin_roles {
        Some(roles) => {
            lemma_run_from(roles, 0, owners, author, answers);
        },
        None => {},
    }
}

} // verus!
