use razi::commands::server::answer_request;
use razi::commands::server::player_lines_text;
use razi::commands::server::requested_server;
use razi::commands::server::select_server;
use razi::commands::server::status_url_text;
use razi::commands::server::step;
use razi::commands::server::KagApiReply;
use razi::commands::server::KagServerStatus;
use razi::commands::server::KagStatusAction;
use razi::commands::server::KagStatusEvent;
use razi::commands::server::KagStatusState;
use razi::embed::Embed;
use razi::razi_toml::KagServer;

fn server(name: &str, aliases: Option<Vec<&str>>, address: &str, minimap: bool) -> KagServer {
    KagServer {
        name: name.to_string(),
        aliases: aliases.map(|a| a.iter().map(|s| s.to_string()).collect()),
        minimap,
        address: address.to_string(),
    }
}

fn servers() -> Vec<KagServer> {
    vec![
        server("mc", Some(vec!["main", "capture"]), "85.10.195.233:50303", true),
        server("3d", None, "1.2.3.4:50301", false),
        server("tdm", Some(vec!["mc"]), "5.6.7.8:50302", false),
        server("ctf", Some(vec!["flags"]), "9.9.9.9:50309", false),
        server("ctf2", Some(vec!["flags"]), "9.9.9.8:50309", false),
    ]
}

fn status(players: Vec<&str>, count: i32) -> KagServerStatus {
    KagServerStatus {
        dn_cycle: false,
        ipv4_address: "85.10.195.233".to_string(),
        connectable: true,
        current_players: count,
        last_update: "2020-07-10".to_string(),
        name: "Official Capture The Flag".to_string(),
        player_list: players.iter().map(|s| s.to_string()).collect(),
        port: 50303,
    }
}

fn reply_of(a: &KagStatusAction) -> String {
    match a {
        KagStatusAction::Reply(t) => t.clone(),
        _ => panic!("not a reply"),
    }
}

fn embed_of(a: KagStatusAction) -> Embed {
    match a {
        KagStatusAction::SendEmbed(e) => e,
        _ => panic!("not an embed"),
    }
}

#[test]
fn lookup_prefers_names_over_aliases() {
    let list = servers();
    assert_eq!(select_server(&list, &"mc".to_string()), Some(0));
    assert_eq!(select_server(&list, &"3d".to_string()), Some(1));
    assert_eq!(select_server(&list, &"capture".to_string()), Some(0));
    assert_eq!(select_server(&list, &"none".to_string()), None);
}

#[test]
fn lookup_keeps_the_last_alias_match() {
    assert_eq!(select_server(&servers(), &"flags".to_string()), Some(4));
}

#[test]
fn requested_server_is_second_argument_lowercased() {
    assert_eq!(requested_server(".server MC"), Some("mc".to_string()));
    assert_eq!(requested_server(".s  Capture extra"), Some("capture".to_string()));
    assert_eq!(requested_server(".s"), None);
    assert_eq!(requested_server(""), None);
    assert_eq!(requested_server(".s \"MC\""), Some("\"mc\"".to_string()));
}

#[test]
fn no_servers_configured() {
    let (s, a) = step(
        KagStatusState::Start,
        KagStatusEvent::Invoked { servers: vec![], content: ".s mc".to_string() },
    );
    assert!(matches!(s, KagStatusState::Finished));
    assert_eq!(reply_of(&a), "No server's in config file.");
}

#[test]
fn not_enough_arguments() {
    let (s, a) = step(
        KagStatusState::Start,
        KagStatusEvent::Invoked { servers: servers(), content: ".s".to_string() },
    );
    assert!(matches!(s, KagStatusState::Finished));
    assert_eq!(reply_of(&a), "Command does not have enough arguments");
}

#[test]
fn unknown_server() {
    let (_, a) = step(
        KagStatusState::Start,
        KagStatusEvent::Invoked { servers: servers(), content: ".s nowhere".to_string() },
    );
    assert_eq!(reply_of(&a), "Could not find the server you requested.");
}

#[test]
fn status_url() {
    assert_eq!(
        status_url_text("85.10.195.233:50303"),
        "https://api.kag2d.com/v1/game/thd/kag/server/85.10.195.233:50303/status"
    );
}

#[test]
fn player_lines_are_escaped() {
    let names = vec!["Ge_org".to_string(), "*star*".to_string()];
    assert_eq!(player_lines_text(&names), "Ge\\_org\n\\*star\\*\n");
    assert_eq!(player_lines_text(&vec![]), "");
}

fn run_to_json(content: &str) -> KagStatusState {
    let (s, a) = step(
        KagStatusState::Start,
        KagStatusEvent::Invoked { servers: servers(), content: content.to_string() },
    );
    match a {
        KagStatusAction::PostFeedback(t) => assert_eq!(t, "Requesting from kag api now..."),
        _ => panic!("expected feedback"),
    }
    let (s, a) = step(s, KagStatusEvent::FeedbackPosted);
    match a {
        KagStatusAction::FetchStatus(u) => assert_eq!(
            u,
            "https://api.kag2d.com/v1/game/thd/kag/server/85.10.195.233:50303/status"
        ),
        _ => panic!("expected fetch"),
    }
    let (s, a) = step(s, KagStatusEvent::StatusFetched(Ok("{json}".to_string())));
    match a {
        KagStatusAction::DecodeJson(t) => assert_eq!(t, "{json}"),
        _ => panic!("expected decode"),
    }
    s
}

#[test]
fn full_run_with_players() {
    let s = run_to_json(".s MC");
    let reply = KagApiReply {
        server_status: Some(status(vec!["a_b", "c"], 2)),
        status_code: None,
        status_message: None,
        status_sub_code: None,
        status_sub_type: None,
    };
    let (s, a) = step(s, KagStatusEvent::JsonDecoded { reply: Ok(reply), now_secs: 1594400000 });
    let names = match a {
        KagStatusAction::SanitizeNames(n) => n,
        _ => panic!("expected names"),
    };
    assert_eq!(names, vec!["a_b".to_string(), "c".to_string()]);
    let (s, a) = step(s, KagStatusEvent::NamesSanitized { names, now_secs: 1594400000 });
    let e = embed_of(a);
    assert_eq!(e.colour, (52, 235, 95));
    assert_eq!(e.title, "Official Capture The Flag");
    assert_eq!(e.fields.len(), 2);
    assert_eq!(e.fields[0].name, "Player count");
    assert_eq!(e.fields[0].value, "2");
    assert!(!e.fields[0].inline);
    assert_eq!(e.fields[1].name, "Players");
    assert_eq!(e.fields[1].value, "a\\_b\nc\n");
    assert_eq!(
        e.image,
        Some(
            "https://api.kag2d.com/v1/game/thd/kag/server/85.10.195.233:50303/minimap?1594400000"
                .to_string()
        )
    );
    let (s, a) = step(s, KagStatusEvent::EmbedSent(Ok(())));
    assert!(matches!(a, KagStatusAction::DeleteFeedback));
    assert!(matches!(s, KagStatusState::Finished));
}

#[test]
fn frozen_server() {
    let s = run_to_json(".s mc");
    let reply = KagApiReply {
        server_status: Some(status(vec![], 5)),
        status_code: None,
        status_message: None,
        status_sub_code: None,
        status_sub_type: None,
    };
    let (s, a) = step(s, KagStatusEvent::JsonDecoded { reply: Ok(reply), now_secs: 1 });
    let names = match a {
        KagStatusAction::SanitizeNames(n) => n,
        _ => panic!("expected names"),
    };
    let (_, a) = step(s, KagStatusEvent::NamesSanitized { names, now_secs: 1 });
    let e = embed_of(a);
    assert_eq!(e.fields[0].value, "0");
    assert_eq!(e.fields[1].value, "Seems like the server is frozen \u{1F9CA}");
}

#[test]
fn empty_server() {
    let s = run_to_json(".s mc");
    let reply = KagApiReply {
        server_status: Some(status(vec!["ghost"], 0)),
        status_code: None,
        status_message: None,
        status_sub_code: None,
        status_sub_type: None,
    };
    let (s, a) = step(s, KagStatusEvent::JsonDecoded { reply: Ok(reply), now_secs: -3 });
    let e = embed_of(a);
    assert_eq!(e.fields[0].value, "0");
    assert_eq!(e.fields[1].value, "No players currently in game");
    assert!(e.image.unwrap().ends_with("/minimap?-3"));
    assert!(matches!(s, KagStatusState::AwaitingEmbed { .. }));
}

#[test]
fn api_reports_an_error() {
    let s = run_to_json(".s mc");
    let reply = KagApiReply {
        server_status: None,
        status_code: Some(404),
        status_message: Some("Not found".to_string()),
        status_sub_code: None,
        status_sub_type: None,
    };
    let (s, a) = step(s, KagStatusEvent::JsonDecoded { reply: Ok(reply), now_secs: 0 });
    match a {
        KagStatusAction::EditFeedback { text, log } => {
            assert_eq!(text, "api.kag2d.com has returned: \nError code: 404\nMessage: Not found");
            assert!(log.is_none());
        },
        _ => panic!("expected edit"),
    }
    assert!(matches!(s, KagStatusState::Finished));
}

#[test]
fn api_error_without_details() {
    let s = run_to_json(".s mc");
    let reply = KagApiReply {
        server_status: None,
        status_code: None,
        status_message: None,
        status_sub_code: None,
        status_sub_type: None,
    };
    let (_, a) = step(s, KagStatusEvent::JsonDecoded { reply: Ok(reply), now_secs: 0 });
    match a {
        KagStatusAction::EditFeedback { text, .. } => {
            assert_eq!(text, "api.kag2d.com has returned: \nError code: 0\nMessage: ")
        },
        _ => panic!("expected edit"),
    }
}

#[test]
fn web_api_failure_is_logged() {
    let (s, _) = step(
        KagStatusState::Start,
        KagStatusEvent::Invoked { servers: servers(), content: ".s 3d".to_string() },
    );
    let (s, _) = step(s, KagStatusEvent::FeedbackPosted);
    let (s, a) = step(s, KagStatusEvent::StatusFetched(Err("timeout".to_string())));
    match a {
        KagStatusAction::EditFeedback { text, log } => {
            assert_eq!(
                text,
                "Error getting response from api.kag2d.com. This has been logged internally."
            );
            assert_eq!(log.unwrap(), "User args: .s 3d\nError: timeout");
        },
        _ => panic!("expected edit"),
    }
    assert!(matches!(s, KagStatusState::Finished));
}

#[test]
fn json_failure_is_logged() {
    let s = run_to_json(".s mc");
    let (_, a) = step(
        s,
        KagStatusEvent::JsonDecoded { reply: Err("expected value".to_string()), now_secs: 0 },
    );
    match a {
        KagStatusAction::EditFeedback { text, log } => {
            assert_eq!(text, "Error converting json to object. This has been logged internally.");
            assert_eq!(log.unwrap(), "User args: .s mc\nError: expected value");
        },
        _ => panic!("expected edit"),
    }
}

#[test]
fn embed_failure_is_logged() {
    let (s, a) = step(
        KagStatusState::AwaitingEmbed { json_text: "{j}".to_string() },
        KagStatusEvent::EmbedSent(Err("too long".to_string())),
    );
    match a {
        KagStatusAction::EditFeedback { text, log } => {
            assert_eq!(text, "Sending embed failed. This has been logged internally.");
            assert_eq!(log.unwrap(), "Embed error: too long, Json: {j}");
        },
        _ => panic!("expected edit"),
    }
    assert!(matches!(s, KagStatusState::Finished));
}

#[test]
fn minimap_hidden_when_not_configured() {
    let (s, _) = step(
        KagStatusState::Start,
        KagStatusEvent::Invoked { servers: servers(), content: ".s 3d".to_string() },
    );
    let (s, _) = step(s, KagStatusEvent::FeedbackPosted);
    let (s, _) = step(s, KagStatusEvent::StatusFetched(Ok("{}".to_string())));
    let reply = KagApiReply {
        server_status: Some(status(vec![], 0)),
        status_code: None,
        status_message: None,
        status_sub_code: None,
        status_sub_type: None,
    };
    let (_, a) = step(s, KagStatusEvent::JsonDecoded { reply: Ok(reply), now_secs: 0 });
    assert!(embed_of(a).image.is_none());
}

#[test]
fn out_of_order_event_finishes() {
    let (s, a) = step(KagStatusState::Start, KagStatusEvent::FeedbackPosted);
    assert!(matches!(s, KagStatusState::Finished));
    assert!(matches!(a, KagStatusAction::Nothing));
}

#[test]
fn answering_a_known_request() {
    let (s, a) = answer_request(servers(), ".s main".to_string(), Some("main".to_string()));
    match s {
        KagStatusState::AwaitingFeedback { content, address, minimap } => {
            assert_eq!(content, ".s main");
            assert_eq!(address, "85.10.195.233:50303");
            assert!(minimap);
        },
        _ => panic!("expected feedback state"),
    }
    assert!(matches!(a, KagStatusAction::PostFeedback(_)));
    let (_, a) = answer_request(servers(), ".s".to_string(), None);
    assert_eq!(reply_of(&a), "Command does not have enough arguments");
    let (_, a) = answer_request(vec![], ".s mc".to_string(), Some("mc".to_string()));
    assert_eq!(reply_of(&a), "No server's in config file.");
}
