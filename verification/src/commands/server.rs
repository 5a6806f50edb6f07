//! The `kag_server_status` command (aliases `s`, `server`): finds a configured
//! King Arthur's Gold server by name or alias, asks api.kag2d.com for its
//! status and answers with an embed of its players.
//!
//! The command awaits Discord and the web API in turn, so its decisions are a
//! state machine: `step` takes the state and what the program observed, and
//! gives the next state and what the program is to do.
use vstd::prelude::*;
use crate::args::new_args;
use crate::args::args_len;
use crate::args::args_advance;
use crate::args::args_current;
use crate::args::split_arguments;
use crate::embed::Embed;
use crate::embed::EmbedField;
use crate::embed::field;
use crate::embed::field_is;
use crate::embed::opt_text;
use crate::razi_toml::KagServer;
use crate::text::escape_markdown;
use crate::text::escape_markdown_text;
use crate::text::decimal;
use crate::text::signed_decimal;
use crate::text::lowercase;
use crate::text::to_lowercase;
use crate::text::int_text;
use crate::text::nat_text;
use crate::text::join;

verus! {

/// The `serverStatus` object of api.kag2d.com's reply.
pub struct KagServerStatus {
    pub dn_cycle: bool,
    pub ipv4_address: String,
    pub connectable: bool,
    pub current_players: i32,
    pub last_update: String,
    pub name: String,
    pub player_list: Vec<String>,
    pub port: i32,
}

/// api.kag2d.com's reply: the status when the server is known, else an error
/// code and message.
pub struct KagApiReply {
    pub server_status: Option<KagServerStatus>,
    pub status_code: Option<u16>,
    pub status_message: Option<String>,
    pub status_sub_code: Option<u16>,
    pub status_sub_type: Option<String>,
}

// ---------------------------------------------------------------------------
// Finding the requested server
// ---------------------------------------------------------------------------

/// The server's name is the text.
pub open spec fn name_matches(s: KagServer, arg: Seq<char>) -> bool {
    s.name@ == arg
}

/// One of the server's aliases is the text.
pub open spec fn alias_matches(s: KagServer, arg: Seq<char>) -> bool {
    match s.aliases {
        Some(a) => exists|j: int| 0 <= j < a@.len() && #[trigger] a@[j]@ == arg,
        None => false,
    }
}

/// No server is named by the text.
pub open spec fn no_name_match(servers: Seq<KagServer>, arg: Seq<char>) -> bool {
    forall|j: int| 0 <= j < servers.len() ==> !name_matches(#[trigger] servers[j], arg)
}

/// The server at `i` is the one the command answers for: the first whose name
/// is the text, or, when no name is, the last that has the text as an alias.
pub open spec fn is_selected(servers: Seq<KagServer>, arg: Seq<char>, i: int) -> bool {
    &&& 0 <= i < servers.len()
    &&& {
        ||| (name_matches(servers[i], arg) && forall|j: int|
            0 <= j < i ==> !name_matches(#[trigger] servers[j], arg))
        ||| (no_name_match(servers, arg) && alias_matches(servers[i], arg) && forall|j: int|
            i < j < servers.len() ==> !alias_matches(#[trigger] servers[j], arg))
    }
}

/// No server has the text as its name or among its aliases.
pub open spec fn none_selected(servers: Seq<KagServer>, arg: Seq<char>) -> bool {
    forall|j: int|
        0 <= j < servers.len() ==> !name_matches(#[trigger] servers[j], arg) && !alias_matches(
            servers[j],
            arg,
        )
}

fn has_alias(aliases: &Vec<String>, arg: &String) -> (r: bool)
    ensures
        r == exists|j: int| 0 <= j < aliases@.len() && #[trigger] aliases@[j]@ == arg@,
{
    let mut j: usize = 0;
    while j < aliases.len()
        invariant
            j <= aliases@.len(),
            forall|k: int| 0 <= k < j ==> #[trigger] aliases@[k]@ != arg@,
        decreases aliases.len() - j,
    {
        if aliases[j] == *arg {
            return true;
        }
        j = j + 1;
    }
    false
}

fn server_has_alias(server: &KagServer, arg: &String) -> (r: bool)
    ensures
        r == alias_matches(*server, arg@),
{
    match &server.aliases {
        Some(a) => has_alias(a, arg),
        None => false,
    }
}

/// Finds the server that the command answers for, scanning the servers in
/// order: a server whose name is the text ends the scan; one that has the text
/// as an alias is kept, and a later match takes its place.
pub fn select_server(servers: &Vec<KagServer>, arg: &String) -> (r: Option<usize>)
    ensures
        r matches Some(i) ==> is_selected(servers@, arg@, i as int),
        r is None ==> none_selected(servers@, arg@),
{
    let mut found: Option<usize> = None;
    let mut i: usize = 0;
    while i < servers.len()
        invariant
            i <= servers@.len(),
            forall|j: int| 0 <= j < i ==> !name_matches(#[trigger] servers@[j], arg@),
            found matches Some(k) ==> {
                &&& k < i
                &&& alias_matches(servers@[k as int], arg@)
                &&& forall|j: int| k < j < i ==> !alias_matches(#[trigger] servers@[j], arg@)
            },
            found is None ==> forall|j: int|
                0 <= j < i ==> !alias_matches(#[trigger] servers@[j], arg@),
        decreases servers.len() - i,
    {
        if servers[i].name == *arg {
            return Some(i);
        }
        if server_has_alias(&servers[i], arg) {
            found = Some(i);
        }
        i = i + 1;
    }
    found
}

/// The server name that a message asks for: its second argument when the
/// message is split at spaces, lowercased; none when it has fewer than two.
pub open spec fn requested_name(content: Seq<char>) -> Option<Seq<char>> {
    let args = split_arguments(content, ' ');
    if args.len() < 2 {
        None
    } else {
        Some(lowercase(args[1]))
    }
}

/// The server name that the message asks for (the first argument after the
/// command itself), lowercased.
pub fn requested_server(content: &str) -> (r: Option<String>)
    ensures
        opt_text(r) == requested_name(content@),
{
    let mut args = new_args(content, ' ');
    if args_len(&args) < 2 {
        return None;
    }
    args_advance(&mut args);
    match args_current(&args) {
        Some(arg) => Some(to_lowercase(arg.as_str())),
        None => None,
    }
}

/// At most one server is answered for: the selection is unique.
pub proof fn law_selection_is_unique(servers: Seq<KagServer>, arg: Seq<char>, i: int, k: int)
    requires
        is_selected(servers, arg, i),
        is_selected(servers, arg, k),
    ensures
        i == k,
{
    if name_matches(servers[i], arg) {
        if name_matches(servers[k], arg) {
            if i < k {
                assert(!name_matches(servers[i], arg));
            }
            if k < i {
                assert(!name_matches(servers[k], arg));
            }
        } else {
            assert(!name_matches(servers[i], arg));
        }
    } else {
        if name_matches(servers[k], arg) {
            assert(!name_matches(servers[k], arg));
        } else {
            if i < k {
                assert(!alias_matches(servers[k], arg));
            }
            if k < i {
                assert(!alias_matches(servers[i], arg));
            }
        }
    }
}

/// A server is answered for exactly when some server has the text as its name
/// or among its aliases.
pub proof fn law_found_iff_named(servers: Seq<KagServer>, arg: Seq<char>)
    ensures
        (exists|i: int| #[trigger] is_selected(servers, arg, i)) <==> !none_selected(servers, arg),
{
    if !none_selected(servers, arg) {
        let j = choose|j: int|
            0 <= j < servers.len() && !(!name_matches(#[trigger] servers[j], arg) && !alias_matches(
                servers[j],
                arg,
            ));
        if exists|k: int| 0 <= k < servers.len() && #[trigger] name_matches(servers[k], arg) {
            let k0 = choose|k: int| 0 <= k < servers.len() && #[trigger] name_matches(servers[k], arg);
            let first = first_name_match(servers, arg, k0);
            assert(is_selected(servers, arg, first));
        } else {
            let last = last_alias_match(servers, arg, j);
            assert(is_selected(servers, arg, last));
        }
    }
}

/// The first server named by the text, at or before `k`.
proof fn first_name_match(servers: Seq<KagServer>, arg: Seq<char>, k: int) -> (f: int)
    requires
        0 <= k < servers.len(),
        name_matches(servers[k], arg),
    ensures
        0 <= f <= k,
        name_matches(servers[f], arg),
        forall|j: int| 0 <= j < f ==> !name_matches(#[trigger] servers[j], arg),
    decreases k,
{
    if exists|j: int| 0 <= j < k && #[trigger] name_matches(servers[j], arg) {
        let j = choose|j: int| 0 <= j < k && #[trigger] name_matches(servers[j], arg);
        first_name_match(servers, arg, j)
    } else {
        k
    }
}

/// The last server with the text as an alias, at or after `k`.
proof fn last_alias_match(servers: Seq<KagServer>, arg: Seq<char>, k: int) -> (l: int)
    requires
        0 <= k < servers.len(),
        alias_matches(servers[k], arg),
    ensures
        k <= l < servers.len(),
        alias_matches(servers[l], arg),
        forall|j: int| l < j < servers.len() ==> !alias_matches(#[trigger] servers[j], arg),
    decreases servers.len() - k,
{
    if exists|j: int| k < j < servers.len() && #[trigger] alias_matches(servers[j], arg) {
        let j = choose|j: int| k < j < servers.len() && #[trigger] alias_matches(servers[j], arg);
        last_alias_match(servers, arg, j)
    } else {
        k
    }
}

/// A name beats every alias: when some server is named by the text, the first
/// such server is the one answered for.
pub proof fn law_name_beats_alias(servers: Seq<KagServer>, arg: Seq<char>, k: int)
    requires
        0 <= k < servers.len(),
        name_matches(servers[k], arg),
        forall|j: int| 0 <= j < k ==> !name_matches(#[trigger] servers[j], arg),
    ensures
        is_selected(servers, arg, k),
{
}

// ---------------------------------------------------------------------------
// Texts and the embed
// ---------------------------------------------------------------------------

/// The address of a server's status on api.kag2d.com.
pub open spec fn status_url(address: Seq<char>) -> Seq<char> {
    "https://api.kag2d.com/v1/game/thd/kag/server/"@ + address + "/status"@
}

/// The address of a server's minimap on api.kag2d.com, with the time (in
/// seconds) as query so that Discord fetches it anew.
pub open spec fn minimap_url(address: Seq<char>, now_secs: int) -> Seq<char> {
    "https://api.kag2d.com/v1/game/thd/kag/server/"@ + address + "/minimap?"@ + signed_decimal(
        now_secs,
    )
}

/// The image of the embed: the minimap when the server is configured to show it.
pub open spec fn embed_image(address: Seq<char>, minimap: bool, now_secs: int) -> Option<
    Seq<char>,
> {
    if minimap {
        Some(minimap_url(address, now_secs))
    } else {
        None
    }
}

/// The players' names, markdown escaped, one per line, each line ended by a
/// newline.
pub open spec fn player_lines(names: Seq<String>) -> Seq<char>
    decreases names.len(),
{
    if names.len() == 0 {
        Seq::empty()
    } else {
        player_lines(names.drop_last()) + escape_markdown(names.last()@) + seq!['\n']
    }
}

/// The players' lines make no text exactly when there are no players' names,
/// so a server is reported frozen exactly when its player list is empty.
pub proof fn law_frozen_iff_no_names(names: Seq<String>)
    ensures
        (player_lines(names).len() == 0) <==> (names.len() == 0),
{
    if names.len() > 0 {
        assert(player_lines(names) == player_lines(names.drop_last()) + escape_markdown(
            names.last()@,
        ) + seq!['\n']);
    }
}

/// The players' lines of two lists one after the other are the lines of the
/// first followed by those of the second: no name is dropped or moved.
pub proof fn law_player_lines_concat(a: Seq<String>, b: Seq<String>)
    ensures
        player_lines(a + b) == player_lines(a) + player_lines(b),
    decreases b.len(),
{
    if b.len() == 0 {
        assert(a + b =~= a);
        assert(player_lines(a) + player_lines(b) =~= player_lines(a));
    } else {
        assert((a + b).drop_last() =~= a + b.drop_last());
        assert((a + b).last() == b.last());
        law_player_lines_concat(a, b.drop_last());
        assert(player_lines(a + b) =~= player_lines(a) + player_lines(b));
    }
}

/// One player makes one line: the escaped name and a newline.
pub proof fn law_one_player_one_line(name: String)
    ensures
        player_lines(seq![name]) == escape_markdown(name@) + seq!['\n'],
{
    let one = seq![name];
    assert(one.drop_last() =~= Seq::<String>::empty());
    assert(player_lines(one.drop_last()) == Seq::<char>::empty());
    assert(one.last() == name);
    assert(player_lines(one) =~= escape_markdown(name@) + seq!['\n']);
}

/// Every player of the list has its own line, in the list's order: the text
/// is the lines of the players before it, its escaped name and a newline,
/// then the lines of the players after it.
pub proof fn law_each_player_has_its_line(names: Seq<String>, k: int)
    requires
        0 <= k < names.len(),
    ensures
        player_lines(names) == player_lines(names.take(k)) + escape_markdown(names[k]@)
            + seq!['\n'] + player_lines(names.skip(k + 1)),
{
    let before = names.take(k);
    let after = names.skip(k + 1);
    assert(names =~= before + seq![names[k]] + after);
    law_player_lines_concat(before + seq![names[k]], after);
    law_player_lines_concat(before, seq![names[k]]);
    law_one_player_one_line(names[k]);
}

/// The line that the log gets when the web API or the JSON decoding fails.
pub open spec fn user_args_log(content: Seq<char>, error: Seq<char>) -> Seq<char> {
    "User args: "@ + content + "\nError: "@ + error
}

/// The line that the log gets when the embed could not be sent.
pub open spec fn embed_error_log(error: Seq<char>, json_text: Seq<char>) -> Seq<char> {
    "Embed error: "@ + error + ", Json: "@ + json_text
}

/// What the feedback message shows when api.kag2d.com reports an error: its
/// code (0 when absent) and message (empty when absent).
pub open spec fn api_error_text(code: Option<u16>, message: Option<String>) -> Seq<char> {
    "api.kag2d.com has returned: \nError code: "@ + decimal(
        match code {
            Some(c) => c as nat,
            None => 0nat,
        },
    ) + "\nMessage: "@ + match message {
        Some(m) => m@,
        None => Seq::empty(),
    }
}

/// The status embed: green, titled with the server's name, with the player
/// count and the players as fields, and the image when there is one.
pub open spec fn is_status_embed(
    e: Embed,
    title: Seq<char>,
    count: int,
    players: Seq<char>,
    image: Option<Seq<char>>,
) -> bool {
    &&& e.colour == (52u8, 235u8, 95u8)
    &&& e.title@ == title
    &&& e.description is None
    &&& e.thumbnail is None
    &&& opt_text(e.image) == image
    &&& e.fields@.len() == 2
    &&& field_is(e.fields@[0], "Player count"@, signed_decimal(count))
    &&& field_is(e.fields@[1], "Players"@, players)
}

/// The status URL of a server.
pub fn status_url_text(address: &str) -> (r: String)
    ensures
        r@ == status_url(address@),
{
    let a = join("https://api.kag2d.com/v1/game/thd/kag/server/", address);
    a.concat("/status")
}

fn minimap_url_text(address: &str, now_secs: i64) -> (r: String)
    ensures
        r@ == minimap_url(address@, now_secs as int),
{
    let a = join("https://api.kag2d.com/v1/game/thd/kag/server/", address);
    let b = a.concat("/minimap?");
    let t = int_text(now_secs);
    b.concat(t.as_str())
}

/// The players' lines of the embed.
pub fn player_lines_text(names: &Vec<String>) -> (r: String)
    ensures
        r@ == player_lines(names@),
{
    let mut out = String::new();
    let mut i: usize = 0;
    proof {
        assert(names@.subrange(0, 0) =~= Seq::<String>::empty());
    }
    while i < names.len()
        invariant
            i <= names@.len(),
            out@ == player_lines(names@.subrange(0, i as int)),
        decreases names.len() - i,
    {
        let escaped = escape_markdown_text(names[i].as_str());
        out.append(escaped.as_str());
        out.append("\n");
        proof {
            reveal_strlit("\n");
            let next = names@.subrange(0, i + 1);
            assert(next.drop_last() =~= names@.subrange(0, i as int));
            assert(next.last() == names@[i as int]);
        }
        i = i + 1;
    }
    proof {
        assert(names@.subrange(0, names@.len() as int) =~= names@);
    }
    out
}

fn status_embed(
    title: String,
    count: i32,
    players: String,
    address: &str,
    minimap: bool,
    now_secs: i64,
) -> (e: Embed)
    ensures
        is_status_embed(e, title@, count as int, players@, embed_image(address@, minimap, now_secs as int)),
{
    let mut fields: Vec<EmbedField> = Vec::new();
    fields.push(field("Player count", int_text(count as i64)));
    fields.push(field("Players", players));
    let image = if minimap {
        Some(minimap_url_text(address, now_secs))
    } else {
        None
    };
    Embed { colour: (52, 235, 95), title, description: None, thumbnail: None, image, fields }
}

fn user_args_log_text(content: &str, error: &str) -> (r: String)
    ensures
        r@ == user_args_log(content@, error@),
{
    join("User args: ", content).concat("\nError: ").concat(error)
}

fn api_error_message(code: Option<u16>, message: Option<String>) -> (r: String)
    ensures
        r@ == api_error_text(code, message),
{
    let code_value: u16 = match code {
        Some(c) => c,
        None => 0,
    };
    let text = String::from_str("api.kag2d.com has returned: \nError code: ");
    let with_code = text.concat(nat_text(code_value as u64).as_str());
    let with_label = with_code.concat("\nMessage: ");
    match message {
        Some(m) => with_label.concat(m.as_str()),
        None => with_label,
    }
}

// ---------------------------------------------------------------------------
// The command as a state machine
// ---------------------------------------------------------------------------

/// Where the command stands.
pub enum KagStatusState {
    /// Not invoked yet.
    Start,
    /// The "Requesting" message is being posted.
    AwaitingFeedback { content: String, address: String, minimap: bool },
    /// The status is being fetched from the web API.
    AwaitingStatus { content: String, address: String, minimap: bool },
    /// The fetched text is being decoded as JSON.
    AwaitingJson { content: String, address: String, minimap: bool, json_text: String },
    /// The players' names are being made safe for Discord.
    AwaitingNames {
        address: String,
        minimap: bool,
        title: String,
        player_count: i32,
        json_text: String,
    },
    /// The embed is being sent.
    AwaitingEmbed { json_text: String },
    /// Nothing is left to do.
    Finished,
}

/// What the program observed.
pub enum KagStatusEvent {
    /// The command was invoked with this message, the servers configured then.
    Invoked { servers: Vec<KagServer>, content: String },
    /// The "Requesting" message was posted.
    FeedbackPosted,
    /// The web API answered with this text, or failed with this error.
    StatusFetched(Result<String, String>),
    /// The text was decoded, or failed to decode with this error; the time (in
    /// seconds) is taken then.
    JsonDecoded { reply: Result<KagApiReply, String>, now_secs: i64 },
    /// The players' names, made safe for Discord; the time (in seconds) is taken then.
    NamesSanitized { names: Vec<String>, now_secs: i64 },
    /// The embed was sent, or failed with this error.
    EmbedSent(Result<(), String>),
}

/// What the program is to do next.
pub enum KagStatusAction {
    /// Reply to the command's message with this text; the command then ends.
    Reply(String),
    /// Reply with this text and keep the message posted as feedback.
    PostFeedback(String),
    /// Fetch this URL.
    FetchStatus(String),
    /// Decode this text as api.kag2d.com's JSON reply.
    DecodeJson(String),
    /// Replace the feedback message's text, and print the log line if there is one.
    EditFeedback { text: String, log: Option<String> },
    /// Make these names safe for Discord (mentions and the like).
    SanitizeNames(Vec<String>),
    /// Send this embed to the channel of the command.
    SendEmbed(Embed),
    /// Delete the feedback message.
    DeleteFeedback,
    /// Nothing.
    Nothing,
}

/// The action is a final reply with this text.
pub open spec fn replies(a: KagStatusAction, text: Seq<char>) -> bool {
    a matches KagStatusAction::Reply(t) && t@ == text
}

/// The action edits the feedback message to this text, with this log line.
pub open spec fn edits(a: KagStatusAction, text: Seq<char>, log: Option<Seq<char>>) -> bool {
    a matches KagStatusAction::EditFeedback { text: t, log: l } && t@ == text && opt_text(l) == log
}

/// The command posts its feedback message, to fetch the status of this server.
pub open spec fn awaits_feedback(
    r: (KagStatusState, KagStatusAction),
    content: Seq<char>,
    server: KagServer,
) -> bool {
    &&& r.0 matches KagStatusState::AwaitingFeedback { content: c, address: a, minimap: m }
        && c@ == content && a@ == server.address@ && m == server.minimap
    &&& r.1 matches KagStatusAction::PostFeedback(t) && t@ == "Requesting from kag api now..."@
}

/// The result of an invocation, once the requested server name is known.
pub open spec fn on_request(
    servers: Seq<KagServer>,
    content: Seq<char>,
    requested: Option<Seq<char>>,
    r: (KagStatusState, KagStatusAction),
) -> bool {
    if servers.len() == 0 {
        r.0 is Finished && replies(r.1, "No server's in config file."@)
    } else {
        match requested {
            None => r.0 is Finished && replies(r.1, "Command does not have enough arguments"@),
            Some(arg) => if none_selected(servers, arg) {
                r.0 is Finished && replies(r.1, "Could not find the server you requested."@)
            } else {
                exists|i: int|
                    #[trigger] is_selected(servers, arg, i) && awaits_feedback(r, content, servers[i])
            },
        }
    }
}

/// The result of an invocation.
pub open spec fn on_invoked(
    servers: Seq<KagServer>,
    content: Seq<char>,
    r: (KagStatusState, KagStatusAction),
) -> bool {
    on_request(servers, content, requested_name(content), r)
}

/// The result of the feedback message being posted: the status is fetched.
pub open spec fn on_feedback_posted(
    content: String,
    address: String,
    minimap: bool,
    r: (KagStatusState, KagStatusAction),
) -> bool {
    &&& r.0 matches KagStatusState::AwaitingStatus { content: c, address: a, minimap: m }
        && c@ == content@ && a@ == address@ && m == minimap
    &&& r.1 matches KagStatusAction::FetchStatus(u) && u@ == status_url(address@)
}

/// The result of the web API's answer.
pub open spec fn on_status_fetched(
    content: String,
    address: String,
    minimap: bool,
    fetched: Result<String, String>,
    r: (KagStatusState, KagStatusAction),
) -> bool {
    match fetched {
        Err(e) => r.0 is Finished && edits(
            r.1,
            "Error getting response from api.kag2d.com. This has been logged internally."@,
            Some(user_args_log(content@, e@)),
        ),
        Ok(t) => {
            &&& r.0 matches KagStatusState::AwaitingJson {
                content: c,
                address: a,
                minimap: m,
                json_text: j,
            } && c@ == content@ && a@ == address@ && m == minimap && j@ == t@
            &&& r.1 matches KagStatusAction::DecodeJson(d) && d@ == t@
        },
    }
}

/// The action sends the status embed with these contents.
pub open spec fn sends_status(
    a: KagStatusAction,
    title: Seq<char>,
    count: int,
    players: Seq<char>,
    image: Option<Seq<char>>,
) -> bool {
    a matches KagStatusAction::SendEmbed(e) && is_status_embed(e, title, count, players, image)
}

/// The result of the decoding.
pub open spec fn on_json_decoded(
    content: String,
    address: String,
    minimap: bool,
    json_text: String,
    reply: Result<KagApiReply, String>,
    now_secs: i64,
    r: (KagStatusState, KagStatusAction),
) -> bool {
    match reply {
        Err(e) => r.0 is Finished && edits(
            r.1,
            "Error converting json to object. This has been logged internally."@,
            Some(user_args_log(content@, e@)),
        ),
        Ok(rep) => match rep.server_status {
            Some(st) => if st.current_players == 0 {
                &&& r.0 matches KagStatusState::AwaitingEmbed { json_text: j } && j@ == json_text@
                &&& sends_status(
                    r.1,
                    st.name@,
                    0,
                    "No players currently in game"@,
                    embed_image(address@, minimap, now_secs as int),
                )
            } else {
                &&& r.0 matches KagStatusState::AwaitingNames {
                    address: a,
                    minimap: m,
                    title: t,
                    player_count: n,
                    json_text: j,
                } && a@ == address@ && m == minimap && t@ == st.name@ && n
                    == st.current_players && j@ == json_text@
                &&& r.1 matches KagStatusAction::SanitizeNames(names) && names@ == st.player_list@
            },
            None => r.0 is Finished && edits(
                r.1,
                api_error_text(rep.status_code, rep.status_message),
                None,
            ),
        },
    }
}

/// The result of the names being made safe: the embed is sent, with the
/// players' lines, or, when they make no text at all, the frozen server notice
/// and a count of 0.
pub open spec fn on_names_sanitized(
    address: String,
    minimap: bool,
    title: String,
    player_count: i32,
    json_text: String,
    names: Seq<String>,
    now_secs: i64,
    r: (KagStatusState, KagStatusAction),
) -> bool {
    let players = player_lines(names);
    let frozen = players.len() == 0;
    &&& r.0 matches KagStatusState::AwaitingEmbed { json_text: j } && j@ == json_text@
    &&& sends_status(
        r.1,
        title@,
        if frozen { 0 } else { player_count as int },
        if frozen { "Seems like the server is frozen \u{1F9CA}"@ } else { players },
        embed_image(address@, minimap, now_secs as int),
    )
}

/// The result of sending the embed: the feedback message is deleted, or, on
/// failure, replaced by a notice.
pub open spec fn on_embed_sent(
    json_text: String,
    sent: Result<(), String>,
    r: (KagStatusState, KagStatusAction),
) -> bool {
    &&& r.0 is Finished
    &&& match sent {
        Ok(_) => r.1 is DeleteFeedback,
        Err(e) => edits(
            r.1,
            "Sending embed failed. This has been logged internally."@,
            Some(embed_error_log(e@, json_text@)),
        ),
    }
}

fn invoked(servers: Vec<KagServer>, content: String) -> (r: (KagStatusState, KagStatusAction))
    ensures
        on_invoked(servers@, content@, r),
{
    let requested = requested_server(content.as_str());
    answer_request(servers, content, requested)
}

/// Answers an invocation with this message, given the server name it asks
/// for (as `requested_server` gives it): no servers configured, no name given,
/// or no server known by that name end the command with a reply; otherwise the
/// feedback message is posted and the server's status is to be fetched.
pub fn answer_request(servers: Vec<KagServer>, content: String, requested: Option<String>) -> (r: (
    KagStatusState,
    KagStatusAction,
))
    ensures
        on_request(servers@, content@, opt_text(requested), r),
{
    if servers.len() == 0 {
        return (
            KagStatusState::Finished,
            KagStatusAction::Reply(String::from_str("No server's in config file.")),
        );
    }
    let arg = match requested {
        Some(a) => a,
        None => {
            return (
                KagStatusState::Finished,
                KagStatusAction::Reply(String::from_str("Command does not have enough arguments")),
            );
        },
    };
    match select_server(&servers, &arg) {
        None => (
            KagStatusState::Finished,
            KagStatusAction::Reply(String::from_str("Could not find the server you requested.")),
        ),
        Some(i) => {
            let address = servers[i].address.clone();
            let minimap = servers[i].minimap;
            let r = (
                KagStatusState::AwaitingFeedback { content, address, minimap },
                KagStatusAction::PostFeedback(String::from_str("Requesting from kag api now...")),
            );
            proof {
                assert(is_selected(servers@, arg@, i as int));
                assert(!none_selected(servers@, arg@)) by {
                    if name_matches(servers@[i as int], arg@) {
                    } else {
                        assert(alias_matches(servers@[i as int], arg@));
                    }
                }
            }
            r
        },
    }
}

fn json_decoded(
    content: String,
    address: String,
    minimap: bool,
    json_text: String,
    reply: Result<KagApiReply, String>,
    now_secs: i64,
) -> (r: (KagStatusState, KagStatusAction))
    ensures
        on_json_decoded(content, address, minimap, json_text, reply, now_secs, r),
{
    match reply {
        Err(e) => {
            let log = user_args_log_text(content.as_str(), e.as_str());
            (
                KagStatusState::Finished,
                KagStatusAction::EditFeedback {
                    text: String::from_str(
                        "Error converting json to object. This has been logged internally.",
                    ),
                    log: Some(log),
                },
            )
        },
        Ok(rep) => match rep.server_status {
            Some(st) => {
                if st.current_players == 0 {
                    let embed = status_embed(
                        st.name,
                        0,
                        String::from_str("No players currently in game"),
                        address.as_str(),
                        minimap,
                        now_secs,
                    );
                    (KagStatusState::AwaitingEmbed { json_text }, KagStatusAction::SendEmbed(embed))
                } else {
                    (
                        KagStatusState::AwaitingNames {
                            address,
                            minimap,
                            title: st.name,
                            player_count: st.current_players,
                            json_text,
                        },
                        KagStatusAction::SanitizeNames(st.player_list),
                    )
                }
            },
            None => {
                let text = api_error_message(rep.status_code, rep.status_message);
                (KagStatusState::Finished, KagStatusAction::EditFeedback { text, log: None })
            },
        },
    }
}

fn names_sanitized(
    address: String,
    minimap: bool,
    title: String,
    player_count: i32,
    json_text: String,
    names: Vec<String>,
    now_secs: i64,
) -> (r: (KagStatusState, KagStatusAction))
    ensures
        on_names_sanitized(address, minimap, title, player_count, json_text, names@, now_secs, r),
{
    let players = player_lines_text(&names);
    let embed = if players.unicode_len() == 0 {
        status_embed(
            title,
            0,
            String::from_str("Seems like the server is frozen \u{1F9CA}"),
            address.as_str(),
            minimap,
            now_secs,
        )
    } else {
        status_embed(title, player_count, players, address.as_str(), minimap, now_secs)
    };
    (KagStatusState::AwaitingEmbed { json_text }, KagStatusAction::SendEmbed(embed))
}

/// One step of the command: from where it stands and what was observed, where
/// it stands next and what the program is to do. An event that does not fit
/// the state finishes the command with nothing to do.
pub fn step(state: KagStatusState, event: KagStatusEvent) -> (r: (KagStatusState, KagStatusAction))
    ensures
        match (state, event) {
            (KagStatusState::Start, KagStatusEvent::Invoked { servers, content }) => on_invoked(
                servers@,
                content@,
                r,
            ),
            (
                KagStatusState::AwaitingFeedback { content, address, minimap },
                KagStatusEvent::FeedbackPosted,
            ) => on_feedback_posted(content, address, minimap, r),
            (
                KagStatusState::AwaitingStatus { content, address, minimap },
                KagStatusEvent::StatusFetched(fetched),
            ) => on_status_fetched(content, address, minimap, fetched, r),
            (
                KagStatusState::AwaitingJson { content, address, minimap, json_text },
                KagStatusEvent::JsonDecoded { reply, now_secs },
            ) => on_json_decoded(content, address, minimap, json_text, reply, now_secs, r),
            (
                KagStatusState::AwaitingNames { address, minimap, title, player_count, json_text },
                KagStatusEvent::NamesSanitized { names, now_secs },
            ) => on_names_sanitized(
                address,
                minimap,
                title,
                player_count,
                json_text,
                names@,
                now_secs,
                r,
            ),
            (KagStatusState::AwaitingEmbed { json_text }, KagStatusEvent::EmbedSent(sent)) => on_embed_sent(
                json_text,
                sent,
                r,
            ),
            _ => r.0 is Finished && r.1 is Nothing,
        },
{
    match (state, event) {
        (KagStatusState::Start, KagStatusEvent::Invoked { servers, content }) => invoked(
            servers,
            content,
        ),
        (
            KagStatusState::AwaitingFeedback { content, address, minimap },
            KagStatusEvent::FeedbackPosted,
        ) => {
            let url = status_url_text(address.as_str());
            (
                KagStatusState::AwaitingStatus { content, address, minimap },
                KagStatusAction::FetchStatus(url),
            )
        },
        (
            KagStatusState::AwaitingStatus { content, address, minimap },
            KagStatusEvent::StatusFetched(fetched),
        ) => match fetched {
            Err(e) => {
                let log = user_args_log_text(content.as_str(), e.as_str());
                (
                    KagStatusState::Finished,
                    KagStatusAction::EditFeedback {
                        text: String::from_str(
                            "Error getting response from api.kag2d.com. This has been logged internally.",
                        ),
                        log: Some(log),
                    },
                )
            },
            Ok(t) => {
                let json_text = t.clone();
                (
                    KagStatusState::AwaitingJson { content, address, minimap, json_text },
                    KagStatusAction::DecodeJson(t),
                )
            },
        },
        (
            KagStatusState::AwaitingJson { content, address, minimap, json_text },
            KagStatusEvent::JsonDecoded { reply, now_secs },
        ) => json_decoded(content, address, minimap, json_text, reply, now_secs),
        (
            KagStatusState::AwaitingNames { address, minimap, title, player_count, json_text },
            KagStatusEvent::NamesSanitized { names, now_secs },
        ) => names_sanitized(address, minimap, title, player_count, json_text, names, now_secs),
        (KagStatusState::AwaitingEmbed { json_text }, KagStatusEvent::EmbedSent(sent)) => {
            match sent {
                Ok(_) => (KagStatusState::Finished, KagStatusAction::DeleteFeedback),
                Err(e) => {
                    let log = join("Embed error: ", e.as_str()).concat(", Json: ").concat(
                        json_text.as_str(),
                    );
                    (
                        KagStatusState::Finished,
                        KagStatusAction::EditFeedback {
                            text: String::from_str(
                                "Sending embed failed. This has been logged internally.",
                            ),
                            log: Some(log),
                        },
                    )
                },
            }
        },
        _ => (KagStatusState::Finished, KagStatusAction::Nothing),
    }
}

/// The action fetches this URL.
pub open spec fn fetches_url(a: KagStatusAction, url: Seq<char>) -> bool {
    a matches KagStatusAction::FetchStatus(u) && u@ == url
}

/// The status fetched is that of the server the message asked for: after an
/// invocation that posts the feedback message, and the posting, the URL
/// fetched is the status URL of the selected server.
pub proof fn law_fetches_the_requested_server(
    servers: Seq<KagServer>,
    content: Seq<char>,
    first: (KagStatusState, KagStatusAction),
    second: (KagStatusState, KagStatusAction),
)
    requires
        on_invoked(servers, content, first),
        first.0 matches KagStatusState::AwaitingFeedback { content: c, address: a, minimap: m }
            && on_feedback_posted(c, a, m, second),
    ensures
        requested_name(content) matches Some(arg) && exists|i: int|
            #[trigger] is_selected(servers, arg, i) && fetches_url(
                second.1,
                status_url(servers[i].address@),
            ),
{
}

/// After the names are made safe, the server is reported frozen (a count of 0
/// and the frozen notice) exactly when its player list is empty; with players
/// listed the embed shows the API's player count and every player's line,
/// whatever that count says.
pub proof fn law_frozen_only_without_players(
    address: String,
    minimap: bool,
    title: String,
    player_count: i32,
    json_text: String,
    names: Seq<String>,
    now_secs: i64,
    r: (KagStatusState, KagStatusAction),
)
    requires
        on_names_sanitized(address, minimap, title, player_count, json_text, names, now_secs, r),
    ensures
        r.1 is SendEmbed,
        r.1->SendEmbed_0.title@ == title@,
        opt_text(r.1->SendEmbed_0.image) == embed_image(address@, minimap, now_secs as int),
        r.1->SendEmbed_0.fields@.len() == 2,
        names.len() == 0 ==> r.1->SendEmbed_0.fields@[0].value@ == signed_decimal(0)
            && r.1->SendEmbed_0.fields@[1].value@ == "Seems like the server is frozen \u{1F9CA}"@,
        names.len() > 0 ==> r.1->SendEmbed_0.fields@[0].value@ == signed_decimal(player_count as int)
            && r.1->SendEmbed_0.fields@[1].value@ == player_lines(names),
{
    law_frozen_iff_no_names(names);
}

} // verus!
