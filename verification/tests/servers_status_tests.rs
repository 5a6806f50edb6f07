use razi::commands::servers::requested_server;
use razi::commands::servers::answer_request;
use razi::commands::server::KagServerStatus;
use razi::commands::servers::find_server;
use razi::commands::servers::first_argument_text;
use razi::commands::servers::step;
use razi::commands::servers::KagServerReport;
use razi::commands::servers::ServerStatusAction;
use razi::commands::servers::ServerStatusEvent;
use razi::commands::servers::ServerStatusState;
use razi::settings::toml::KagServer;

fn server(names: Vec<&str>, ip: &str, port: &str, minimap: bool) -> KagServer {
    KagServer {
        names: names.iter().map(|s| s.to_string()).collect(),
        ip: ip.to_string(),
        port: port.to_string(),
        minimap,
    }
}

fn servers() -> Vec<KagServer> {
    vec![
        server(vec!["mc", "3d", "goldenguy"], "85.10.195.233", "50303", true),
        server(vec!["TDM"], "1.2.3.4", "50301", false),
        server(vec!["empty"], "", "1", false),
    ]
}

fn report(players: Vec<&str>, count: i32) -> KagServerReport {
    KagServerReport {
        server_status: KagServerStatus {
            dn_cycle: true,
            ipv4_address: "85.10.195.233".to_string(),
            connectable: true,
            current_players: count,
            last_update: "now".to_string(),
            name: "Golden Guy's server".to_string(),
            player_list: players.iter().map(|s| s.to_string()).collect(),
            port: 50303,
        },
    }
}

fn invoke(content: &str, author: u64) -> (ServerStatusState, ServerStatusAction) {
    step(
        ServerStatusState::Start,
        ServerStatusEvent::Invoked {
            content: content.to_string(),
            servers: Some(servers()),
            owners: vec![233738372814864395],
            author,
        },
    )
}

#[test]
fn first_argument() {
    assert_eq!(first_argument_text(".s GoldenGuy").ok().unwrap(), "GoldenGuy");
    assert_eq!(first_argument_text(".s").err().unwrap(), "ArgError(\"end of string\")");
}

#[test]
fn names_are_compared_lowercased() {
    let list = servers();
    assert_eq!(find_server(&list, &"goldenguy".to_string()), Some(0));
    assert_eq!(find_server(&list, &"tdm".to_string()), Some(1));
    assert_eq!(find_server(&list, &"TDM".to_string()), None);
}

#[test]
fn missing_argument() {
    let (s, a) = invoke(".s", 1);
    match a {
        ServerStatusAction::Report { printed, reply } => {
            assert_eq!(printed, "Passed arg error ArgError(\"end of string\")");
            assert_eq!(
                reply.unwrap(),
                "Please pass a server name (check pins for current list of servers)"
            );
        },
        _ => panic!("expected report"),
    }
    assert!(matches!(s, ServerStatusState::Finished));
}

#[test]
fn no_server_list_does_nothing() {
    let (s, a) = step(
        ServerStatusState::Start,
        ServerStatusEvent::Invoked {
            content: ".s mc".to_string(),
            servers: None,
            owners: vec![],
            author: 1,
        },
    );
    assert!(matches!(a, ServerStatusAction::Nothing));
    assert!(matches!(s, ServerStatusState::Finished));
}

#[test]
fn server_without_address_is_not_found() {
    for content in [".s nothing", ".s empty"] {
        let (_, a) = invoke(content, 1);
        match a {
            ServerStatusAction::Reply(t) => {
                assert_eq!(t, "Server name not found, please check pins for current active list.")
            },
            _ => panic!("expected reply"),
        }
    }
}

#[test]
fn full_run() {
    let (s, a) = invoke(".s 3D", 7);
    match a {
        ServerStatusAction::FetchStatus(u) => assert_eq!(
            u,
            "https://api.kag2d.com/v1/game/thd/kag/server/85.10.195.233/50303/status"
        ),
        _ => panic!("expected fetch"),
    }
    let (s, _) = step(s, ServerStatusEvent::StatusFetched(Ok("{}".to_string())));
    let (s, a) = step(
        s,
        ServerStatusEvent::JsonDecoded { report: Ok(report(vec!["x_y", "z"], 2)), now_secs: 99 },
    );
    let names = match a {
        ServerStatusAction::SanitizeNames(n) => n,
        _ => panic!("expected names"),
    };
    let (s, a) = step(s, ServerStatusEvent::NamesSanitized { names, now_secs: 99 });
    let e = match a {
        ServerStatusAction::SendEmbed(e) => e,
        _ => panic!("expected embed"),
    };
    assert_eq!(e.title, "Golden Guy's server");
    assert_eq!(e.fields[0].value, "2");
    assert_eq!(e.fields[1].value, "x_y\nz\n");
    assert_eq!(
        e.image.unwrap(),
        "https://api.kag2d.com/v1/game/thd/kag/server/85.10.195.233/50303/minimap?99"
    );
    let (s, a) = step(s, ServerStatusEvent::EmbedSent(Err("rate limited".to_string())));
    match a {
        ServerStatusAction::Report { printed, reply } => {
            assert_eq!(printed, "rate limited\n");
            assert!(reply.is_none());
        },
        _ => panic!("expected report"),
    }
    assert!(matches!(s, ServerStatusState::Finished));
}

#[test]
fn errors_are_shown_to_owners_only() {
    let (s, _) = invoke(".s mc", 233738372814864395);
    let (_, a) = step(s, ServerStatusEvent::StatusFetched(Err("dns".to_string())));
    match a {
        ServerStatusAction::Report { printed, reply } => {
            assert_eq!(printed, "dns\n");
            assert_eq!(reply.unwrap(), "API get request error: dns");
        },
        _ => panic!("expected report"),
    }
    let (s, _) = invoke(".s mc", 5);
    let (s, _) = step(s, ServerStatusEvent::StatusFetched(Ok("{".to_string())));
    let (_, a) = step(s, ServerStatusEvent::JsonDecoded { report: Err("eof".to_string()), now_secs: 0 });
    match a {
        ServerStatusAction::Report { printed, reply } => {
            assert_eq!(printed, "eof\n");
            assert!(reply.is_none());
        },
        _ => panic!("expected report"),
    }
}

#[test]
fn no_players() {
    let (s, _) = invoke(".s tdm", 1);
    let (s, _) = step(s, ServerStatusEvent::StatusFetched(Ok("{}".to_string())));
    let (s, a) = step(s, ServerStatusEvent::JsonDecoded { report: Ok(report(vec![], 0)), now_secs: 5 });
    let e = match a {
        ServerStatusAction::SendEmbed(e) => e,
        _ => panic!("expected embed"),
    };
    assert_eq!(e.fields[0].value, "0");
    assert_eq!(e.fields[1].value, "No players currently in game");
    assert!(e.image.is_none());
    let (s, a) = step(s, ServerStatusEvent::EmbedSent(Ok(())));
    assert!(matches!(a, ServerStatusAction::Nothing));
    assert!(matches!(s, ServerStatusState::Finished));
}

#[test]
fn answering_requests() {
    assert_eq!(requested_server(".s GOLDENguy").ok().unwrap(), "goldenguy");
    let (s, _) = answer_request(Some(servers()), vec![4], 4, Ok("tdm".to_string()));
    match s {
        ServerStatusState::AwaitingStatus { ip, port, minimap, is_owner } => {
            assert_eq!(ip, "1.2.3.4");
            assert_eq!(port, "50301");
            assert!(!minimap);
            assert!(is_owner);
        },
        _ => panic!("expected fetch state"),
    }
    let (_, a) = answer_request(Some(servers()), vec![], 4, Err("bad".to_string()));
    match a {
        ServerStatusAction::Report { printed, .. } => assert_eq!(printed, "Passed arg error bad"),
        _ => panic!("expected report"),
    }
}
