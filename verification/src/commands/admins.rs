//! Administration commands of the earlier settings layout: shutting the host
//! down, restarting game services, updating the Vintage Story server, and the
//! check that guards them.
use vstd::prelude::*;
use crate::args::args_is_empty;
use crate::args::args_single_string;
use crate::args::arguments;
use crate::args::position;
use crate::commands::plan::ProcessPlan;
use crate::commands::plan::is_plan;
use crate::commands::plan::one_text;
use crate::commands::plan::plan;
use crate::commands::plan::texts_are;
use crate::commands::plan::two_texts;
use crate::text::contains;
use crate::text::contains_text;
use crate::text::join;
use crate::text::starts_with;
use crate::text::starts_with_text;
use serenity::framework::standard::Args;

verus! {

/// `emergency` (alias `emergency_do_not_use`): says goodbye, then shuts the host down.
pub fn emergency() -> (p: ProcessPlan)
    ensures
        is_plan(
            p,
            "Well, you did the command you probably shouldn't have done. Goodbye"@,
            "shutdown"@,
            seq!["now"@],
            "Luckily died on shutdown"@,
        ),
{
    plan(
        "Well, you did the command you probably shouldn't have done. Goodbye",
        "shutdown",
        one_text("now"),
        "Luckily died on shutdown",
    )
}

/// `restart_tc` (aliases `r_tc`, `rtc`): replies, then restarts the `tc` service.
pub fn restart_tc() -> (p: ProcessPlan)
    ensures
        is_plan(
            p,
            "Restarting TC"@,
            "/bin/systemctl"@,
            seq!["restart"@, "tc"@],
            "Failed on restating TC"@,
        ),
{
    plan("Restarting TC", "/bin/systemctl", two_texts("restart", "tc"), "Failed on restating TC")
}

/// `restart_ww` (aliases `r_ww`, `rww`): replies, then restarts the `ww` service.
pub fn restart_ww() -> (p: ProcessPlan)
    ensures
        is_plan(
            p,
            "Restarting WW"@,
            "/bin/systemctl"@,
            seq!["restart"@, "ww"@],
            "Failed on restating WW"@,
        ),
{
    plan("Restarting WW", "/bin/systemctl", two_texts("restart", "ww"), "Failed on restating WW")
}

/// `restart_mbu` (aliases `r_mbu`, `rmbu`): replies, then restarts the `mbu` service.
pub fn restart_mbu() -> (p: ProcessPlan)
    ensures
        is_plan(
            p,
            "Restarting MBU"@,
            "/bin/systemctl"@,
            seq!["restart"@, "mbu"@],
            "Failed on restating MBU"@,
        ),
{
    plan("Restarting MBU", "/bin/systemctl", two_texts("restart", "mbu"), "Failed on restating MBU")
}

// ---------------------------------------------------------------------------
// Updating the Vintage Story server
// ---------------------------------------------------------------------------

/// The Vintage Story server's settings: the script that starts it.
pub struct VintageServer {
    pub bash_filename: String,
}

/// What `update_vintage` is to do.
pub enum VintagePlan {
    /// Nothing: no argument, or no Vintage Story server configured.
    Skip,
    /// Reply with this text and do nothing else.
    Refuse(String),
    /// Start the program with these arguments, write each input line to it in
    /// order, stop it, then reply.
    Run { program: String, program_args: Vec<String>, input: Vec<String>, reply: String },
}

/// The argument names a whole URL or a path outside the game files.
pub open spec fn url_refused(arg: Seq<char>) -> bool {
    contains_text(arg, "http"@) || contains_text(arg, "::"@)
}

/// The file path taken from the argument: a leading `|` is dropped.
pub open spec fn vintage_path(arg: Seq<char>) -> Seq<char> {
    if starts_with_text(arg, "|"@) {
        arg.drop_first()
    } else {
        arg
    }
}

/// The lines written to the shell that updates the server.
pub open spec fn vintage_input(path: Seq<char>, bash_filename: Seq<char>) -> Seq<Seq<char>> {
    seq![
        "tmux attach"@,
        "AUTOMATED SHUTDOWN, UPDATING!"@,
        "/stop"@,
        "wget https://cdn.vintagestory.at/gamefiles/"@ + path,
        "tar xzf vs_server_*.*.*.tar.gz"@,
        "rm vs_server_*.*.*.tar.gz"@,
        "bash "@ + bash_filename,
    ]
}

/// The plan runs the update of the game files at `path`.
pub open spec fn runs_update(p: VintagePlan, path: Seq<char>, bash_filename: Seq<char>) -> bool {
    match p {
        VintagePlan::Run { program, program_args, input, reply } => {
            &&& program@ == "/bin/su"@
            &&& texts_are(program_args, seq!["-"@, "jenny"@])
            &&& texts_are(input, vintage_input(path, bash_filename))
            &&& reply@ == "Auto update complete"@
        },
        _ => false,
    }
}

fn update_input(path: &str, bash_filename: &str) -> (v: Vec<String>)
    ensures
        texts_are(v, vintage_input(path@, bash_filename@)),
{
    let mut v: Vec<String> = Vec::new();
    v.push(String::from_str("tmux attach"));
    v.push(String::from_str("AUTOMATED SHUTDOWN, UPDATING!"));
    v.push(String::from_str("/stop"));
    v.push(join("wget https://cdn.vintagestory.at/gamefiles/", path));
    v.push(String::from_str("tar xzf vs_server_*.*.*.tar.gz"));
    v.push(String::from_str("rm vs_server_*.*.*.tar.gz"));
    v.push(join("bash ", bash_filename));
    proof {
        let t = vintage_input(path@, bash_filename@);
        assert(v@[0]@ == t[0]);
        assert(v@[1]@ == t[1]);
        assert(v@[2]@ == t[2]);
        assert(v@[3]@ == t[3]);
        assert(v@[4]@ == t[4]);
        assert(v@[5]@ == t[5]);
        assert(v@[6]@ == t[6]);
    }
    v
}

/// `update_vintage` (aliases `u_vs`, `uvs`): updates the Vintage Story server
/// to the game files named by the command's first argument.
pub fn update_vintage(args: &mut Args, vintage_server: &Option<VintageServer>) -> (p: VintagePlan)
    ensures
        arguments(*final(args)) == arguments(*old(args)),
        ({
            let items = arguments(*old(args));
            let at = position(*old(args));
            if at >= items.len() || vintage_server is None {
                &&& p is Skip
                &&& position(*final(args)) == at
            } else {
                let arg = items[at as int];
                &&& position(*final(args)) == at + 1
                &&& if url_refused(arg) {
                    p matches VintagePlan::Refuse(t) && t@ == "Please do not send any custom urls!"@
                } else {
                    runs_update(p, vintage_path(arg), vintage_server->0.bash_filename@)
                }
            }
        }),
{
    if args_is_empty(args) {
        return VintagePlan::Skip;
    }
    let server = match vintage_server {
        Some(s) => s,
        None => {
            return VintagePlan::Skip;
        },
    };
    let url_path = match args_single_string(args) {
        Ok(s) => s,
        Err(_) => {
            return VintagePlan::Skip;
        },
    };
    if contains(url_path.as_str(), "http") || contains(url_path.as_str(), "::") {
        return VintagePlan::Refuse(String::from_str("Please do not send any custom urls!"));
    }
    let n = url_path.unicode_len();
    let path: String = if starts_with(url_path.as_str(), "|") {
        proof {
            reveal_strlit("|");
        }
        String::from_str(url_path.substring_char(1, n))
    } else {
        url_path
    };
    proof {
        assert(path@ == vintage_path(url_path@)) by {
            if starts_with_text(url_path@, "|"@) {
                reveal_strlit("|");
                assert(url_path@.subrange(1, n as int) =~= url_path@.drop_first());
            }
        }
    }
    let input = update_input(path.as_str(), server.bash_filename.as_str());
    VintagePlan::Run {
        program: String::from_str("/bin/su"),
        program_args: two_texts("-", "jenny"),
        input,
        reply: String::from_str("Auto update complete"),
    }
}

// ---------------------------------------------------------------------------
// The ADMIN check of this layout
// ---------------------------------------------------------------------------

/// Where the check stands.
pub enum AdminRolesState {
    /// Not invoked yet.
    Start,
    /// The author's membership of `roles[next]` is being asked.
    Asking { roles: Vec<u64>, next: usize },
    /// The check has answered.
    Decided,
}

/// What the program observed.
pub enum AdminRolesEvent {
    /// The check was invoked, with the configured admin roles.
    Invoked { admin_roles: Vec<u64> },
    /// The answer of Discord to the question about the role: whether the author
    /// has it, or the error.
    RoleAnswered(Result<bool, String>),
}

/// What the program is to do next.
pub enum AdminRolesAction {
    /// Ask whether the author has this role in the message's guild.
    AskRole(u64),
    /// Let the command run.
    Allow,
    /// Refuse the command.
    Deny,
    /// Nothing.
    Nothing,
}

/// Asks about the role at `next`, or, past the last role, refuses.
pub open spec fn ask_role_from(roles: Vec<u64>, next: int) -> (AdminRolesState, AdminRolesAction) {
    if 0 <= next < roles@.len() {
        (AdminRolesState::Asking { roles, next: next as usize }, AdminRolesAction::AskRole(roles@[next]))
    } else {
        (AdminRolesState::Decided, AdminRolesAction::Deny)
    }
}

/// One step of the check: the roles are asked about in turn, and the first
/// question that Discord answers without error lets the author in, whatever the
/// answer; when every question failed, or there are no roles, the author is
/// refused.
pub open spec fn roles_step(state: AdminRolesState, event: AdminRolesEvent) -> (
    AdminRolesState,
    AdminRolesAction,
) {
    match (state, event) {
        (AdminRolesState::Start, AdminRolesEvent::Invoked { admin_roles }) => ask_role_from(
            admin_roles,
            0,
        ),
        (AdminRolesState::Asking { roles, next }, AdminRolesEvent::RoleAnswered(answer)) => {
            match answer {
                Ok(_) => (AdminRolesState::Decided, AdminRolesAction::Allow),
                Err(_) => ask_role_from(roles, next + 1),
            }
        },
        _ => (AdminRolesState::Decided, AdminRolesAction::Nothing),
    }
}

fn ask_role(roles: Vec<u64>, next: usize) -> (r: (AdminRolesState, AdminRolesAction))
    ensures
        r == ask_role_from(roles, next as int),
{
    if next < roles.len() {
        let role = roles[next];
        (AdminRolesState::Asking { roles, next }, AdminRolesAction::AskRole(role))
    } else {
        (AdminRolesState::Decided, AdminRolesAction::Deny)
    }
}

/// One step of the ADMIN check.
pub fn admin_check(state: AdminRolesState, event: AdminRolesEvent) -> (r: (
    AdminRolesState,
    AdminRolesAction,
))
    ensures
        r == roles_step(state, event),
{
    match (state, event) {
        (AdminRolesState::Start, AdminRolesEvent::Invoked { admin_roles }) => ask_role(admin_roles, 0),
        (AdminRolesState::Asking { roles, next }, AdminRolesEvent::RoleAnswered(answer)) => {
            match answer {
                Ok(_) => (AdminRolesState::Decided, AdminRolesAction::Allow),
                Err(_) => if next < roles.len() {
                    ask_role(roles, next + 1)
                } else {
                    (AdminRolesState::Decided, AdminRolesAction::Deny)
                },
            }
        },
        _ => (AdminRolesState::Decided, AdminRolesAction::Nothing),
    }
}

/// Feeds Discord's answers to the check, one for each role asked about, until
/// it decides or the answers run out; the last action.
pub open spec fn run_roles(
    state: AdminRolesState,
    action: AdminRolesAction,
    answers: Seq<Result<bool, String>>,
) -> AdminRolesAction
    decreases answers.len(),
{
    if action is AskRole && answers.len() > 0 {
        let next = roles_step(state, AdminRolesEvent::RoleAnswered(answers[0]));
        run_roles(next.0, next.1, answers.drop_first())
    } else {
        action
    }
}

proof fn lemma_roles_from(roles: Vec<u64>, k: int, answers: Seq<Result<bool, String>>)
    requires
        0 <= k <= roles@.len(),
        roles@.len() <= usize::MAX,
        answers.len() == roles@.len() - k,
    ensures
        run_roles(ask_role_from(roles, k).0, ask_role_from(roles, k).1, answers) == if exists|i: int|
            0 <= i < answers.len() && answers[i] is Ok {
            AdminRolesAction::Allow
        } else {
            AdminRolesAction::Deny
        },
    decreases answers.len(),
{
    if k < roles@.len() {
        let rest = answers.drop_first();
        lemma_roles_from(roles, k + 1, rest);
        let start = ask_role_from(roles, k);
        assert((k as usize) as int == k);
        let next = roles_step(start.0, AdminRolesEvent::RoleAnswered(answers[0]));
        assert(run_roles(start.0, start.1, answers) == run_roles(next.0, next.1, rest));
        if answers[0] is Ok {
            assert(run_roles(next.0, next.1, rest) == AdminRolesAction::Allow);
        } else {
            assert(next == ask_role_from(roles, k + 1));
            if exists|i: int| 0 <= i < answers.len() && answers[i] is Ok {
                let i = choose|i: int| 0 <= i < answers.len() && answers[i] is Ok;
                assert(rest[i - 1] is Ok);
            }
            if exists|i: int| 0 <= i < rest.len() && rest[i] is Ok {
                let i = choose|i: int| 0 <= i < rest.len() && rest[i] is Ok;
                assert(answers[i + 1] is Ok);
            }
        }
    }
}

/// This ADMIN check lets the author in exactly when Discord answered one of the
/// questions about the admin roles without error, whatever the answer said.
pub proof fn law_admitted_iff_some_role_answered(
    admin_roles: Vec<u64>,
    answers: Seq<Result<bool, String>>,
)
    requires
        answers.len() == admin_roles@.len(),
        admin_roles@.len() <= usize::MAX,
    ensures
        ({
            let first = roles_step(AdminRolesState::Start, AdminRolesEvent::Invoked { admin_roles });
            run_roles(first.0, first.1, answers) == if exists|i: int|
                0 <= i < answers.len() && answers[i] is Ok {
                AdminRolesAction::Allow
            } else {
                AdminRolesAction::Deny
            }
        }),
{
    lemma_roles_from(admin_roles, 0, answers);
}

} // verus!
