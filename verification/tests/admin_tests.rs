use razi::commands::admin::admin_check;
use razi::commands::admin::restart_tc;
use razi::commands::admin::restart_tc2;
use razi::commands::admin::AdminCheckAction;
use razi::commands::admin::AdminCheckEvent;
use razi::commands::admin::AdminCheckState;
use razi::commands::admins::emergency;
use razi::commands::admins::restart_mbu;
use razi::commands::admins::restart_ww;
use razi::commands::admins::update_vintage;
use razi::commands::admins::AdminRolesAction;
use razi::commands::admins::AdminRolesEvent;
use razi::commands::admins::AdminRolesState;
use razi::commands::admins::VintagePlan;
use razi::commands::admins::VintageServer;
use razi::commands::plan::ProcessPlan;
use serenity::framework::standard::Args;
use serenity::framework::standard::Delimiter;

/// Runs the check, answering each role question from `held`.
fn run_check(roles: Option<Vec<&str>>, owners: Option<Vec<u64>>, author: u64, held: &[bool]) -> (AdminCheckAction, Vec<String>) {
    let mut asked = Vec::new();
    let (mut s, mut a) = admin_check(
        AdminCheckState::Start,
        AdminCheckEvent::Invoked {
            admin_roles: roles.map(|r| r.iter().map(|x| x.to_string()).collect()),
            owners,
            author,
        },
    );
    let mut i = 0;
    while let AdminCheckAction::CheckRole(role) = a {
        asked.push(role);
        let r = admin_check(s, AdminCheckEvent::RoleChecked(held[i]));
        s = r.0;
        a = r.1;
        i += 1;
    }
    (a, asked)
}

#[test]
fn role_holder_is_let_in_and_asking_stops() {
    let (a, asked) = run_check(Some(vec!["mod", "admin", "dev"]), None, 1, &[false, true, false]);
    assert!(matches!(a, AdminCheckAction::Allow));
    assert_eq!(asked, vec!["mod".to_string(), "admin".to_string()]);
}

#[test]
fn owner_without_role_is_let_in() {
    let (a, asked) = run_check(Some(vec!["mod"]), Some(vec![5, 9]), 9, &[false]);
    assert!(matches!(a, AdminCheckAction::Allow));
    assert_eq!(asked.len(), 1);
    let (a, _) = run_check(None, Some(vec![9]), 9, &[]);
    assert!(matches!(a, AdminCheckAction::Allow));
}

#[test]
fn others_are_refused() {
    let (a, _) = run_check(Some(vec!["mod"]), Some(vec![5]), 9, &[false]);
    assert!(matches!(a, AdminCheckAction::Deny));
    let (a, _) = run_check(None, None, 9, &[]);
    assert!(matches!(a, AdminCheckAction::Deny));
    let (a, _) = run_check(Some(vec![]), Some(vec![]), 9, &[]);
    assert!(matches!(a, AdminCheckAction::Deny));
}

fn run_roles(roles: Vec<u64>, answers: Vec<Result<bool, String>>) -> (AdminRolesAction, Vec<u64>) {
    let mut asked = Vec::new();
    let (mut s, mut a) = razi::commands::admins::admin_check(
        AdminRolesState::Start,
        AdminRolesEvent::Invoked { admin_roles: roles },
    );
    let mut i = 0;
    while let AdminRolesAction::AskRole(role) = a {
        asked.push(role);
        let r = razi::commands::admins::admin_check(s, AdminRolesEvent::RoleAnswered(answers[i].clone()));
        s = r.0;
        a = r.1;
        i += 1;
    }
    (a, asked)
}

#[test]
fn any_answered_role_question_lets_in() {
    let (a, asked) = run_roles(vec![10, 20], vec![Err("no".to_string()), Ok(false)]);
    assert!(matches!(a, AdminRolesAction::Allow));
    assert_eq!(asked, vec![10, 20]);
    let (a, _) = run_roles(vec![10, 20], vec![Err("a".to_string()), Err("b".to_string())]);
    assert!(matches!(a, AdminRolesAction::Deny));
    let (a, asked) = run_roles(vec![], vec![]);
    assert!(matches!(a, AdminRolesAction::Deny));
    assert!(asked.is_empty());
}

fn check_plan(p: ProcessPlan, reply: &str, program: &str, args: &[&str], failure: &str) {
    assert_eq!(p.reply, reply);
    assert_eq!(p.program, program);
    assert_eq!(p.program_args, args.iter().map(|s| s.to_string()).collect::<Vec<_>>());
    assert_eq!(p.failure, failure);
}

#[test]
fn service_commands() {
    check_plan(restart_tc(), "Restarting TC", "/bin/systemctl", &["restart", "tc"], "Failed on restating TC");
    check_plan(
        restart_tc2(),
        "Updating & Restarting TC2",
        "/bin/systemctl",
        &["restart", "tc2"],
        "Failed on systemctl cmd",
    );
    check_plan(
        razi::commands::admins::restart_tc(),
        "Restarting TC",
        "/bin/systemctl",
        &["restart", "tc"],
        "Failed on restating TC",
    );
    check_plan(restart_ww(), "Restarting WW", "/bin/systemctl", &["restart", "ww"], "Failed on restating WW");
    check_plan(restart_mbu(), "Restarting MBU", "/bin/systemctl", &["restart", "mbu"], "Failed on restating MBU");
    check_plan(
        emergency(),
        "Well, you did the command you probably shouldn't have done. Goodbye",
        "shutdown",
        &["now"],
        "Luckily died on shutdown",
    );
}

fn vintage() -> Option<VintageServer> {
    Some(VintageServer { bash_filename: "start.sh".to_string() })
}

#[test]
fn vintage_update_runs_the_script() {
    let mut args = Args::new("|1.14/vs_server_1.14.tar.gz", &[Delimiter::Single(' ')]);
    match update_vintage(&mut args, &vintage()) {
        VintagePlan::Run { program, program_args, input, reply } => {
            assert_eq!(program, "/bin/su");
            assert_eq!(program_args, vec!["-".to_string(), "jenny".to_string()]);
            assert_eq!(
                input,
                vec![
                    "tmux attach",
                    "AUTOMATED SHUTDOWN, UPDATING!",
                    "/stop",
                    "wget https://cdn.vintagestory.at/gamefiles/1.14/vs_server_1.14.tar.gz",
                    "tar xzf vs_server_*.*.*.tar.gz",
                    "rm vs_server_*.*.*.tar.gz",
                    "bash start.sh",
                ]
                .iter()
                .map(|s| s.to_string())
                .collect::<Vec<_>>()
            );
            assert_eq!(reply, "Auto update complete");
        },
        _ => panic!("expected a run"),
    }
    assert!(args.is_empty());
}

#[test]
fn vintage_update_keeps_paths_without_bar() {
    let mut args = Args::new("stable/a.tar.gz", &[Delimiter::Single(' ')]);
    match update_vintage(&mut args, &vintage()) {
        VintagePlan::Run { input, .. } => {
            assert_eq!(input[3], "wget https://cdn.vintagestory.at/gamefiles/stable/a.tar.gz")
        },
        _ => panic!("expected a run"),
    }
}

#[test]
fn vintage_update_refuses_urls() {
    for arg in ["http://evil/x", "a::b", "xhttps"] {
        let mut args = Args::new(arg, &[Delimiter::Single(' ')]);
        match update_vintage(&mut args, &vintage()) {
            VintagePlan::Refuse(t) => assert_eq!(t, "Please do not send any custom urls!"),
            _ => panic!("expected a refusal"),
        }
    }
}

#[test]
fn vintage_update_skips() {
    let mut args = Args::new("", &[Delimiter::Single(' ')]);
    assert!(matches!(update_vintage(&mut args, &vintage()), VintagePlan::Skip));
    let mut args = Args::new("file.tar.gz", &[Delimiter::Single(' ')]);
    assert!(matches!(update_vintage(&mut args, &None), VintagePlan::Skip));
    assert_eq!(args.current(), Some("file.tar.gz"));
}
