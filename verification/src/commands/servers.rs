//! The `server_status` command (aliases `s`, `server`) of the earlier settings
//! layout: finds a server by one of its names, fetches its status by address
//! and port, and answers with an embed. Errors are printed, and shown to the
//! bot's owners only.
//!
//! As the command waits on the web API and Discord in turn, its decisions are a
//! state machine: `step` takes the state and what the program observed, and
//! gives the next state and what the program is to do.
use vstd::prelude::*;
use crate::args::args_advance;
use crate::args::args_single_string;
use crate::args::new_args;
use crate::args::split_arguments;
use crate::commands::server::KagServerStatus;
use crate::commands::server::is_status_embed;
use crate::embed::Embed;
use crate::embed::EmbedField;
use crate::embed::field;
use crate::embed::opt_text;
use crate::ids::contains_id;
use crate::settings::toml::KagServer;
use crate::text::int_text;
use crate::text::join;
use crate::text::lowercase;
use crate::text::signed_decimal;
use crate::text::to_lowercase;

verus! {

/// api.kag2d.com's reply as this command reads it.
pub struct KagServerReport {
    pub server_status: KagServerStatus,
}

// ---------------------------------------------------------------------------
// The requested server
// ---------------------------------------------------------------------------

/// The first argument after the command itself, when the message has one.
pub open spec fn first_argument(content: Seq<char>) -> Option<Seq<char>> {
    let args = split_arguments(content, ' ');
    if args.len() >= 2 {
        Some(args[1])
    } else {
        None
    }
}

/// The first argument after the command itself, or the argument error's text.
pub fn first_argument_text(content: &str) -> (r: Result<String, String>)
    ensures
        r is Ok == first_argument(content@) is Some,
        r is Ok ==> Some(r->Ok_0@) == first_argument(content@),
        r is Err ==> r->Err_0@ == "ArgError(\"end of string\")"@,
{
    let mut args = new_args(content, ' ');
    args_advance(&mut args);
    args_single_string(&mut args)
}

/// One of the server's names, lowercased, is the text.
pub open spec fn names_match(server: KagServer, arg: Seq<char>) -> bool {
    exists|j: int| 0 <= j < server.names@.len() && lowercase(#[trigger] server.names@[j]@) == arg
}

/// The server at `i` is the first whose names match.
pub open spec fn is_first_match(servers: Seq<KagServer>, arg: Seq<char>, i: int) -> bool {
    &&& 0 <= i < servers.len()
    &&& names_match(servers[i], arg)
    &&& forall|j: int| 0 <= j < i ==> !names_match(#[trigger] servers[j], arg)
}

/// The first server whose names match has an address.
pub open spec fn has_addressed_match(servers: Seq<KagServer>, arg: Seq<char>) -> bool {
    exists|i: int| #[trigger] is_first_match(servers, arg, i) && servers[i].ip@.len() > 0
}

/// At most one server is the first whose names match.
pub proof fn law_first_match_is_unique(servers: Seq<KagServer>, arg: Seq<char>, i: int, k: int)
    requires
        is_first_match(servers, arg, i),
        is_first_match(servers, arg, k),
    ensures
        i == k,
{
    if i < k {
        assert(!names_match(servers[i], arg));
    }
    if k < i {
        assert(!names_match(servers[k], arg));
    }
}

fn server_named(server: &KagServer, arg: &String) -> (r: bool)
    ensures
        r == names_match(*server, arg@),
{
    let mut j: usize = 0;
    while j < server.names.len()
        invariant
            j <= server.names@.len(),
            forall|k: int| 0 <= k < j ==> lowercase(#[trigger] server.names@[k]@) != arg@,
        decreases server.names.len() - j,
    {
        let lowered = to_lowercase(server.names[j].as_str());
        if lowered == *arg {
            return true;
        }
        j = j + 1;
    }
    false
}

/// The first server one of whose names, lowercased, is the text.
pub fn find_server(servers: &Vec<KagServer>, arg: &String) -> (r: Option<usize>)
    ensures
        r matches Some(i) ==> is_first_match(servers@, arg@, i as int),
        r is None ==> forall|j: int| 0 <= j < servers@.len() ==> !names_match(#[trigger] servers@[j], arg@),
{
    let mut i: usize = 0;
    while i < servers.len()
        invariant
            i <= servers@.len(),
            forall|j: int| 0 <= j < i ==> !names_match(#[trigger] servers@[j], arg@),
        decreases servers.len() - i,
    {
        if server_named(&servers[i], arg) {
            return Some(i);
        }
        i = i + 1;
    }
    None
}

// ---------------------------------------------------------------------------
// Texts
// ---------------------------------------------------------------------------

/// The address of a server's status on api.kag2d.com, by address and port.
pub open spec fn status_url(ip: Seq<char>, port: Seq<char>) -> Seq<char> {
    "https://api.kag2d.com/v1/game/thd/kag/server/"@ + ip + "/"@ + port + "/status"@
}

/// The address of a server's minimap, with the time (in seconds) as query.
pub open spec fn minimap_url(ip: Seq<char>, port: Seq<char>, now_secs: int) -> Seq<char> {
    "https://api.kag2d.com/v1/game/thd/kag/server/"@ + ip + "/"@ + port + "/minimap?"@
        + signed_decimal(now_secs)
}

/// The image of the embed: the minimap when the server shows it.
pub open spec fn embed_image(ip: Seq<char>, port: Seq<char>, minimap: bool, now_secs: int) -> Option<
    Seq<char>,
> {
    if minimap {
        Some(minimap_url(ip, port, now_secs))
    } else {
        None
    }
}

/// The players' names, one per line, each line ended by a newline.
pub open spec fn plain_lines(names: Seq<String>) -> Seq<char>
    decreases names.len(),
{
    if names.len() == 0 {
        Seq::empty()
    } else {
        plain_lines(names.drop_last()) + names.last()@ + seq!['\n']
    }
}

/// The lines of two lists one after the other are the lines of the first
/// followed by those of the second: no name is dropped or moved.
pub proof fn law_plain_lines_concat(a: Seq<String>, b: Seq<String>)
    ensures
        plain_lines(a + b) == plain_lines(a) + plain_lines(b),
    decreases b.len(),
{
    if b.len() == 0 {
        assert(a + b =~= a);
        assert(plain_lines(a) + plain_lines(b) =~= plain_lines(a));
    } else {
        assert((a + b).drop_last() =~= a + b.drop_last());
        assert((a + b).last() == b.last());
        law_plain_lines_concat(a, b.drop_last());
        assert(plain_lines(a + b) =~= plain_lines(a) + plain_lines(b));
    }
}

/// One name makes one line: the name and a newline.
pub proof fn law_one_name_one_line(name: String)
    ensures
        plain_lines(seq![name]) == name@ + seq!['\n'],
{
    let one = seq![name];
    assert(one.drop_last() =~= Seq::<String>::empty());
    assert(plain_lines(one.drop_last()) == Seq::<char>::empty());
    assert(one.last() == name);
    assert(plain_lines(one) =~= name@ + seq!['\n']);
}

/// Every name of the list has its own line, in the list's order, however long
/// the list: the text is the lines of the names before it, the name and a
/// newline, then the lines of the names after it.
pub proof fn law_each_name_has_its_line(names: Seq<String>, k: int)
    requires
        0 <= k < names.len(),
    ensures
        plain_lines(names) == plain_lines(names.take(k)) + names[k]@ + seq!['\n'] + plain_lines(
            names.skip(k + 1),
        ),
{
    let before = names.take(k);
    let after = names.skip(k + 1);
    assert(names =~= before + seq![names[k]] + after);
    law_plain_lines_concat(before + seq![names[k]], after);
    law_plain_lines_concat(before, seq![names[k]]);
    law_one_name_one_line(names[k]);
}

fn server_url(ip: &str, port: &str, tail: &str) -> (r: String)
    ensures
        r@ == "https://api.kag2d.com/v1/game/thd/kag/server/"@ + ip@ + "/"@ + port@ + tail@,
{
    join("https://api.kag2d.com/v1/game/thd/kag/server/", ip).concat("/").concat(port).concat(tail)
}

fn plain_lines_text(names: &Vec<String>) -> (r: String)
    ensures
        r@ == plain_lines(names@),
{
    let mut out = String::new();
    let mut i: usize = 0;
    proof {
        assert(names@.subrange(0, 0) =~= Seq::<String>::empty());
    }
    while i < names.len()
        invariant
            i <= names@.len(),
            out@ == plain_lines(names@.subrange(0, i as int)),
        decreases names.len() - i,
    {
        out.append(names[i].as_str());
        out.append("\n");
        proof {
            reveal_strlit("\n");
            let next = names@.subrange(0, i + 1);
            assert(next.drop_last() =~= names@.subrange(0, i as int));
            assert(next.last() == names@[i as int]);
        }
        i = i + 1;
    }
    proof {
        assert(names@.subrange(0, names@.len() as int) =~= names@);
    }
    out
}

fn status_embed(
    title: String,
    count: i32,
    players: String,
    ip: &str,
    port: &str,
    minimap: bool,
    now_secs: i64,
) -> (e: Embed)
    ensures
        is_status_embed(e, title@, count as int, players@, embed_image(ip@, port@, minimap, now_secs as int)),
{
    let mut fields: Vec<EmbedField> = Vec::new();
    fields.push(field("Player count", int_text(count as i64)));
    fields.push(field("Players", players));
    let image = if minimap {
        let base = server_url(ip, port, "/minimap?");
        Some(base.concat(int_text(now_secs).as_str()))
    } else {
        None
    };
    Embed { colour: (52, 235, 95), title, description: None, thumbnail: None, image, fields }
}

// ---------------------------------------------------------------------------
// The command as a state machine
// ---------------------------------------------------------------------------

/// Where the command stands.
pub enum ServerStatusState {
    /// Not invoked yet.
    Start,
    /// The status is being fetched.
    AwaitingStatus { ip: String, port: String, minimap: bool, is_owner: bool },
    /// The fetched text is being decoded as JSON.
    AwaitingJson { ip: String, port: String, minimap: bool, is_owner: bool },
    /// The players' names are being made safe for Discord.
    AwaitingNames { ip: String, port: String, minimap: bool, title: String, player_count: i32 },
    /// The embed is being sent.
    AwaitingEmbed,
    /// Nothing is left to do.
    Finished,
}

/// What the program observed.
pub enum ServerStatusEvent {
    /// The command was invoked with this message by this author, with the
    /// configured servers and owners.
    Invoked { content: String, servers: Option<Vec<KagServer>>, owners: Vec<u64>, author: u64 },
    /// The web API answered with this text, or failed with this error.
    StatusFetched(Result<String, String>),
    /// The text was decoded, or failed to; the time (in seconds) is taken then.
    JsonDecoded { report: Result<KagServerReport, String>, now_secs: i64 },
    /// The players' names, made safe for Discord; the time (in seconds) is taken then.
    NamesSanitized { names: Vec<String>, now_secs: i64 },
    /// The embed was sent, or failed with this error.
    EmbedSent(Result<(), String>),
}

/// What the program is to do next.
pub enum ServerStatusAction {
    /// Reply to the command's message with this text.
    Reply(String),
    /// Print this text as it stands, then reply with the text if there is one.
    Report { printed: String, reply: Option<String> },
    /// Fetch this URL.
    FetchStatus(String),
    /// Decode this text as api.kag2d.com's JSON reply.
    DecodeJson(String),
    /// Make these names safe for Discord.
    SanitizeNames(Vec<String>),
    /// Send this embed to the channel of the command.
    SendEmbed(Embed),
    /// Nothing.
    Nothing,
}

/// The action prints this text and replies with this one, if any.
pub open spec fn reports(a: ServerStatusAction, printed: Seq<char>, reply: Option<Seq<char>>) -> bool {
    a matches ServerStatusAction::Report { printed: p, reply: r } && p@ == printed && opt_text(r)
        == reply
}

/// The action sends the status embed with these contents.
pub open spec fn sends_status(
    a: ServerStatusAction,
    title: Seq<char>,
    count: int,
    players: Seq<char>,
    image: Option<Seq<char>>,
) -> bool {
    a matches ServerStatusAction::SendEmbed(e) && is_status_embed(e, title, count, players, image)
}

/// The command fetches the status of this server.
pub open spec fn fetches(
    r: (ServerStatusState, ServerStatusAction),
    server: KagServer,
    is_owner: bool,
) -> bool {
    &&& r.0 matches ServerStatusState::AwaitingStatus { ip, port, minimap, is_owner: o } && ip@
        == server.ip@ && port@ == server.port@ && minimap == server.minimap && o == is_owner
    &&& r.1 matches ServerStatusAction::FetchStatus(u) && u@ == status_url(server.ip@, server.port@)
}

/// The server name that the message asks for (its first argument after the
/// command itself, lowercased), or the text of the argument error.
pub open spec fn requested_name(content: Seq<char>) -> Result<Seq<char>, Seq<char>> {
    match first_argument(content) {
        Some(raw) => Ok(lowercase(raw)),
        None => Err("ArgError(\"end of string\")"@),
    }
}

/// The result of an invocation, once the requested server name is known.
pub open spec fn on_request(
    servers: Option<Vec<KagServer>>,
    owners: Seq<u64>,
    author: u64,
    requested: Result<Seq<char>, Seq<char>>,
    r: (ServerStatusState, ServerStatusAction),
) -> bool {
    match requested {
        Err(e) => r.0 is Finished && reports(
            r.1,
            "Passed arg error "@ + e,
            Some("Please pass a server name (check pins for current list of servers)"@),
        ),
        Ok(arg) => {
            match servers {
                None => r.0 is Finished && r.1 is Nothing,
                Some(list) => {
                    if has_addressed_match(list@, arg) {
                        forall|i: int|
                            #[trigger] is_first_match(list@, arg, i) ==> fetches(
                                r,
                                list@[i],
                                owners.contains(author),
                            )
                    } else {
                        &&& r.0 is Finished
                        &&& r.1 matches ServerStatusAction::Reply(t) && t@
                            == "Server name not found, please check pins for current active list."@
                    }
                },
            }
        },
    }
}

/// The result of an invocation.
pub open spec fn on_invoked(
    content: Seq<char>,
    servers: Option<Vec<KagServer>>,
    owners: Seq<u64>,
    author: u64,
    r: (ServerStatusState, ServerStatusAction),
) -> bool {
    on_request(servers, owners, author, requested_name(content), r)
}

/// The result of the web API's answer: on failure the error is printed, and
/// shown to an owner.
pub open spec fn on_status_fetched(
    ip: String,
    port: String,
    minimap: bool,
    is_owner: bool,
    fetched: Result<String, String>,
    r: (ServerStatusState, ServerStatusAction),
) -> bool {
    match fetched {
        Err(e) => r.0 is Finished && reports(
            r.1,
            e@ + seq!['\n'],
            if is_owner {
                Some("API get request error: "@ + e@)
            } else {
                None
            },
        ),
        Ok(t) => {
            &&& r.0 matches ServerStatusState::AwaitingJson { ip: i, port: p, minimap: m, is_owner: o }
                && i@ == ip@ && p@ == port@ && m == minimap && o == is_owner
            &&& r.1 matches ServerStatusAction::DecodeJson(d) && d@ == t@
        },
    }
}

/// The result of the decoding.
pub open spec fn on_json_decoded(
    ip: String,
    port: String,
    minimap: bool,
    is_owner: bool,
    report: Result<KagServerReport, String>,
    now_secs: i64,
    r: (ServerStatusState, ServerStatusAction),
) -> bool {
    match report {
        Err(e) => r.0 is Finished && reports(
            r.1,
            e@ + seq!['\n'],
            if is_owner {
                Some("Json error: "@ + e@)
            } else {
                None
            },
        ),
        Ok(rep) => {
            let st = rep.server_status;
            if st.current_players == 0 {
                &&& r.0 is AwaitingEmbed
                &&& sends_status(
                    r.1,
                    st.name@,
                    0,
                    "No players currently in game"@,
                    embed_image(ip@, port@, minimap, now_secs as int),
                )
            } else {
                &&& r.0 matches ServerStatusState::AwaitingNames {
                    ip: i,
                    port: p,
                    minimap: m,
                    title: t,
                    player_count: n,
                } && i@ == ip@ && p@ == port@ && m == minimap && t@ == st.name@ && n
                    == st.current_players
                &&& r.1 matches ServerStatusAction::SanitizeNames(names) && names@ == st.player_list@
            }
        },
    }
}

/// The result of the names being made safe: the embed is sent.
pub open spec fn on_names_sanitized(
    ip: String,
    port: String,
    minimap: bool,
    title: String,
    player_count: i32,
    names: Seq<String>,
    now_secs: i64,
    r: (ServerStatusState, ServerStatusAction),
) -> bool {
    &&& r.0 is AwaitingEmbed
    &&& sends_status(
        r.1,
        title@,
        player_count as int,
        plain_lines(names),
        embed_image(ip@, port@, minimap, now_secs as int),
    )
}

/// The result of sending the embed: a failure is printed.
pub open spec fn on_embed_sent(sent: Result<(), String>, r: (ServerStatusState, ServerStatusAction)) -> bool {
    &&& r.0 is Finished
    &&& match sent {
        Ok(_) => r.1 is Nothing,
        Err(e) => reports(r.1, e@ + seq!['\n'], None),
    }
}

fn invoked(content: String, servers: Option<Vec<KagServer>>, owners: Vec<u64>, author: u64) -> (r: (
    ServerStatusState,
    ServerStatusAction,
))
    ensures
        on_invoked(content@, servers, owners@, author, r),
{
    let requested = requested_server(content.as_str());
    answer_request(servers, owners, author, requested)
}

/// The server name that the message asks for, lowercased, or the text of the
/// argument error.
pub fn requested_server(content: &str) -> (r: Result<String, String>)
    ensures
        match (r, requested_name(content@)) {
            (Ok(t), Ok(n)) => t@ == n,
            (Err(t), Err(n)) => t@ == n,
            _ => false,
        },
{
    match first_argument_text(content) {
        Ok(raw) => Ok(to_lowercase(raw.as_str())),
        Err(e) => Err(e),
    }
}

/// The text of a `Result` of strings.
pub open spec fn result_text(r: Result<String, String>) -> Result<Seq<char>, Seq<char>> {
    match r {
        Ok(t) => Ok(t@),
        Err(e) => Err(e@),
    }
}

/// Answers an invocation by this author, given the server name asked for (as
/// `requested_server` gives it): a missing name is reported; no server list
/// means nothing to do; a name that no server with an address answers to gets
/// a reply; otherwise the status of the first server that answers to it is to
/// be fetched, noting whether the author is an owner.
pub fn answer_request(
    servers: Option<Vec<KagServer>>,
    owners: Vec<u64>,
    author: u64,
    requested: Result<String, String>,
) -> (r: (ServerStatusState, ServerStatusAction))
    ensures
        on_request(servers, owners@, author, result_text(requested), r),
{
    let ghost asked = requested;
    let arg = match requested {
        Ok(a) => a,
        Err(e) => {
            let printed = String::from_str("Passed arg error ").concat(e.as_str());
            return (
                ServerStatusState::Finished,
                ServerStatusAction::Report {
                    printed,
                    reply: Some(
                        String::from_str(
                            "Please pass a server name (check pins for current list of servers)",
                        ),
                    ),
                },
            );
        },
    };
    let list = match servers {
        None => {
            return (ServerStatusState::Finished, ServerStatusAction::Nothing);
        },
        Some(l) => l,
    };
    let not_found = (
        ServerStatusState::Finished,
        ServerStatusAction::Reply(
            String::from_str("Server name not found, please check pins for current active list."),
        ),
    );
    proof {
        assert(result_text(asked) == Ok::<Seq<char>, Seq<char>>(arg@));
    }
    match find_server(&list, &arg) {
        None => {
            proof {
                assert forall|k: int| !#[trigger] is_first_match(list@, arg@, k) by {
                    if 0 <= k < list@.len() {
                        assert(!names_match(list@[k], arg@));
                    }
                }
            }
            not_found
        },
        Some(i) => {
            if list[i].ip.unicode_len() == 0 {
                proof {
                    assert forall|k: int|
                        #[trigger] is_first_match(list@, arg@, k) implies list@[k].ip@.len()
                        == 0 by {
                        if k < i {
                            assert(!names_match(list@[k], arg@));
                        }
                        if k > i {
                            assert(!names_match(list@[i as int], arg@));
                        }
                    }
                }
                not_found
            } else {
                let is_owner = contains_id(&owners, author);
                let url = server_url(list[i].ip.as_str(), list[i].port.as_str(), "/status");
                let r = (
                    ServerStatusState::AwaitingStatus {
                        ip: list[i].ip.clone(),
                        port: list[i].port.clone(),
                        minimap: list[i].minimap,
                        is_owner,
                    },
                    ServerStatusAction::FetchStatus(url),
                );
                proof {
                    assert(is_first_match(list@, arg@, i as int));
                    assert forall|k: int| #[trigger] is_first_match(list@, arg@, k) implies fetches(
                        r,
                        list@[k],
                        owners@.contains(author),
                    ) by {
                        law_first_match_is_unique(list@, arg@, i as int, k);
                    }
                }
                r
            }
        },
    }
}

fn report_error(error: String, reply_prefix: &str, is_owner: bool) -> (r: ServerStatusAction)
    ensures
        reports(
            r,
            error@ + seq!['\n'],
            if is_owner {
                Some(reply_prefix@ + error@)
            } else {
                None
            },
        ),
{
    let printed = error.clone().concat("\n");
    proof {
        reveal_strlit("\n");
        assert(printed@ =~= error@ + seq!['\n']);
    }
    let reply = if is_owner {
        Some(join(reply_prefix, error.as_str()))
    } else {
        None
    };
    ServerStatusAction::Report { printed, reply }
}

/// One step of the command: from where it stands and what was observed, where
/// it stands next and what the program is to do. An event that does not fit
/// the state finishes the command with nothing to do.
pub fn step(state: ServerStatusState, event: ServerStatusEvent) -> (r: (
    ServerStatusState,
    ServerStatusAction,
))
    ensures
        match (state, event) {
            (
                ServerStatusState::Start,
                ServerStatusEvent::Invoked { content, servers, owners, author },
            ) => on_invoked(content@, servers, owners@, author, r),
            (
                ServerStatusState::AwaitingStatus { ip, port, minimap, is_owner },
                ServerStatusEvent::StatusFetched(fetched),
            ) => on_status_fetched(ip, port, minimap, is_owner, fetched, r),
            (
                ServerStatusState::AwaitingJson { ip, port, minimap, is_owner },
                ServerStatusEvent::JsonDecoded { report, now_secs },
            ) => on_json_decoded(ip, port, minimap, is_owner, report, now_secs, r),
            (
                ServerStatusState::AwaitingNames { ip, port, minimap, title, player_count },
                ServerStatusEvent::NamesSanitized { names, now_secs },
            ) => on_names_sanitized(ip, port, minimap, title, player_count, names@, now_secs, r),
            (ServerStatusState::AwaitingEmbed, ServerStatusEvent::EmbedSent(sent)) => on_embed_sent(
                sent,
                r,
            ),
            _ => r.0 is Finished && r.1 is Nothing,
        },
{
    match (state, event) {
        (ServerStatusState::Start, ServerStatusEvent::Invoked { content, servers, owners, author }) => {
            invoked(content, servers, owners, author)
        },
        (
            ServerStatusState::AwaitingStatus { ip, port, minimap, is_owner },
            ServerStatusEvent::StatusFetched(fetched),
        ) => match fetched {
            Err(e) => (
                ServerStatusState::Finished,
                report_error(e, "API get request error: ", is_owner),
            ),
            Ok(t) => (
                ServerStatusState::AwaitingJson { ip, port, minimap, is_owner },
                ServerStatusAction::DecodeJson(t),
            ),
        },
        (
            ServerStatusState::AwaitingJson { ip, port, minimap, is_owner },
            ServerStatusEvent::JsonDecoded { report, now_secs },
        ) => match report {
            Err(e) => (ServerStatusState::Finished, report_error(e, "Json error: ", is_owner)),
            Ok(rep) => {
                let st = rep.server_status;
                if st.current_players == 0 {
                    let embed = status_embed(
                        st.name,
                        0,
                        String::from_str("No players currently in game"),
                        ip.as_str(),
                        port.as_str(),
                        minimap,
                        now_secs,
                    );
                    (ServerStatusState::AwaitingEmbed, ServerStatusAction::SendEmbed(embed))
                } else {
                    (
                        ServerStatusState::AwaitingNames {
                            ip,
                            port,
                            minimap,
                            title: st.name,
                            player_count: st.current_players,
                        },
                        ServerStatusAction::SanitizeNames(st.player_list),
                    )
                }
            },
        },
        (
            ServerStatusState::AwaitingNames { ip, port, minimap, title, player_count },
            ServerStatusEvent::NamesSanitized { names, now_secs },
        ) => {
            let players = plain_lines_text(&names);
            let embed = status_embed(
                title,
                player_count,
                players,
                ip.as_str(),
                port.as_str(),
                minimap,
                now_secs,
            );
            (ServerStatusState::AwaitingEmbed, ServerStatusAction::SendEmbed(embed))
        },
        (ServerStatusState::AwaitingEmbed, ServerStatusEvent::EmbedSent(sent)) => match sent {
            Ok(_) => (ServerStatusState::Finished, ServerStatusAction::Nothing),
            Err(e) => {
                let ghost text = e@;
                let printed = e.concat("\n");
                proof {
                    reveal_strlit("\n");
                    assert(printed@ =~= text + seq!['\n']);
                }
                (
                    ServerStatusState::Finished,
                    ServerStatusAction::Report { printed, reply: None },
                )
            },
        },
        _ => (ServerStatusState::Finished, ServerStatusAction::Nothing),
    }
}

/// Errors of the web API are shown to the bot's owners only: after an
/// invocation that fetches a status, a failed fetch gets a reply exactly when
/// the author is one of the owners.
pub proof fn law_errors_shown_to_owners_only(
    content: Seq<char>,
    servers: Option<Vec<KagServer>>,
    owners: Seq<u64>,
    author: u64,
    error: String,
    first: (ServerStatusState, ServerStatusAction),
    second: (ServerStatusState, ServerStatusAction),
)
    requires
        on_invoked(content, servers, owners, author, first),
        first.0 matches ServerStatusState::AwaitingStatus { ip, port, minimap, is_owner }
            && on_status_fetched(ip, port, minimap, is_owner, Err(error), second),
    ensures
        second.1 matches ServerStatusAction::Report { reply, .. } && (reply is Some
            <==> owners.contains(author)),
{
}

/// The embed of a server with players shows the API's player count and one
/// line for every name of the player list.
pub proof fn law_every_player_listed(
    ip: String,
    port: String,
    minimap: bool,
    title: String,
    player_count: i32,
    names: Seq<String>,
    now_secs: i64,
    r: (ServerStatusState, ServerStatusAction),
    k: int,
)
    requires
        on_names_sanitized(ip, port, minimap, title, player_count, names, now_secs, r),
        0 <= k < names.len(),
    ensures
        r.1 is SendEmbed,
        r.1->SendEmbed_0.fields@.len() == 2,
        r.1->SendEmbed_0.fields@[0].value@ == signed_decimal(player_count as int),
        r.1->SendEmbed_0.fields@[1].value@ == plain_lines(names),
        r.1->SendEmbed_0.fields@[1].value@ == plain_lines(names.take(k)) + names[k]@ + seq!['\n']
            + plain_lines(names.skip(k + 1)),
{
    law_each_name_has_its_line(names, k);
}

/// The status embed carries the server's minimap exactly when the server is
/// configured to show it, whether or not it has players: after the reply is
/// decoded, and, for a server with players, after the names are made safe.
pub proof fn law_minimap_iff_configured(
    ip: String,
    port: String,
    minimap: bool,
    is_owner: bool,
    report: KagServerReport,
    now_secs: i64,
    names: Seq<String>,
    later_secs: i64,
    first: (ServerStatusState, ServerStatusAction),
    second: (ServerStatusState, ServerStatusAction),
)
    requires
        on_json_decoded(ip, port, minimap, is_owner, Ok(report), now_secs, first),
        first.0 matches ServerStatusState::AwaitingNames {
            ip: i,
            port: p,
            minimap: m,
            title: t,
            player_count: n,
        } ==> on_names_sanitized(i, p, m, t, n, names, later_secs, second),
    ensures
        report.server_status.current_players == 0 ==> first.1 is SendEmbed && (
        first.1->SendEmbed_0.image is Some <==> minimap) && (minimap ==> opt_text(
            first.1->SendEmbed_0.image,
        ) == Some(minimap_url(ip@, port@, now_secs as int))),
        report.server_status.current_players != 0 ==> second.1 is SendEmbed && (
        second.1->SendEmbed_0.image is Some <==> minimap) && (minimap ==> opt_text(
            second.1->SendEmbed_0.image,
        ) == Some(minimap_url(ip@, port@, later_secs as int))),
{
}

} // verus!
