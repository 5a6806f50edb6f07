//! What the bot does when members join or leave the guild: whitelisting new
//! members, caging ("gulaging") accounts younger than two weeks, and logging
//! arrivals and departures with an embed.
use vstd::prelude::*;
use crate::embed::Embed;
use crate::embed::EmbedField;
use crate::embed::field;
use crate::embed::field_is;
use crate::embed::opt_text;
use crate::text::decimal;
use crate::text::join;
use crate::text::nat_text;
use serenity::model::id::UserId;

verus! {

/// The role every new member gets.
pub const WHITELIST_ROLE: u64 = 636085201461837834;

/// The role that cages a new account.
pub const GULAG_ROLE: u64 = 377203918557675530;

/// The channel where caged members are told why.
pub const GULAG_CHANNEL: u64 = 394522201589809173;

/// The channel where arrivals and departures are logged.
pub const LOG_CHANNEL: u64 = 444912231176601600;

/// Discord's epoch, in milliseconds since the Unix epoch.
pub const DISCORD_EPOCH_MILLIS: u64 = 1420070400000;

/// Two weeks, in milliseconds.
pub const TWO_WEEKS_MILLIS: i64 = 1209600000;

/// When a Discord id (a snowflake) was made, in milliseconds since the Unix
/// epoch: its upper 42 bits count milliseconds since Discord's epoch.
pub open spec fn created_millis(id: u64) -> int {
    (id >> 22u64) + DISCORD_EPOCH_MILLIS
}

/// The account was made less than two weeks before `now_millis`.
pub open spec fn is_new_account(id: u64, now_millis: int) -> bool {
    created_millis(id) > now_millis - TWO_WEEKS_MILLIS
}

/// Whether the account was made less than two weeks before `now_millis`.
pub fn account_is_new(id: u64, now_millis: i64) -> (r: bool)
    ensures
        r == is_new_account(id, now_millis as int),
{
    let shifted: u64 = id >> 22u64;
    assert(shifted <= 0x3ff_ffff_ffff) by (bit_vector)
        requires
            shifted == id >> 22u64,
    ;
    let created: u64 = shifted + DISCORD_EPOCH_MILLIS;
    (created as i128) > (now_millis as i128) - (TWO_WEEKS_MILLIS as i128)
}

/// How Discord mentions a user: `<@id>`.
pub open spec fn mention(id: u64) -> Seq<char> {
    "<@"@ + decimal(id as nat) + ">"@
}

/// The mention of a user.
pub fn mention_text(id: u64) -> (r: String)
    ensures
        r@ == mention(id),
{
    join("<@", nat_text(id).as_str()).concat(">")
}

/// How serenity and chrono write the time an id was made (`created_at`, in UTC).
pub uninterp spec fn creation_date(id: u64) -> Seq<char>;

/// Trusted: `UserId::created_at` from serenity, written with chrono's
/// `Display` for `DateTime<Utc>`. The text is named `creation_date` of the id;
/// serenity computes the time from the id alone, and chrono's text from the time
/// alone.
#[verifier::external_body]
pub(crate) fn creation_date_text(id: u64) -> (r: String)
    ensures
        r@ == creation_date(id),
{
    format!("{}", UserId(id).created_at())
}

/// A user as the handlers read them.
pub struct MemberInfo {
    pub user_id: u64,
    pub user_name: String,
    /// The member's nickname in the guild, if any.
    pub nick: Option<String>,
    /// The URL of the user's own avatar, if they set one.
    pub avatar_url: Option<String>,
    /// The URL of Discord's default avatar for the user.
    pub default_avatar_url: String,
}

/// The avatar shown: the user's own, else the default one.
pub open spec fn thumbnail(m: MemberInfo) -> Seq<char> {
    match m.avatar_url {
        Some(u) => u@,
        None => m.default_avatar_url@,
    }
}

/// The name shown for a member: the nickname, else the user name.
pub open spec fn display_name(m: MemberInfo) -> Seq<char> {
    match m.nick {
        Some(n) => n@,
        None => m.user_name@,
    }
}

/// The third field of the arrival embed.
pub open spec fn gulag_note(gulaged: bool) -> Seq<char> {
    if gulaged {
        "User has been gulaged for being under 2 weeks old"@
    } else {
        "User has not been gulaged, account over 2 weeks old"@
    }
}

/// The arrival embed: green, with the avatar, the display name, the creation
/// date, the mention and whether the account was caged.
pub open spec fn is_join_embed(e: Embed, m: MemberInfo, gulaged: bool, created: Seq<char>) -> bool {
    &&& e.colour == (52u8, 235u8, 95u8)
    &&& e.title@ == "New user has joined!"@
    &&& opt_text(e.thumbnail) == Some(thumbnail(m))
    &&& opt_text(e.description) == Some(display_name(m))
    &&& e.image is None
    &&& e.fields@.len() == 3
    &&& field_is(e.fields@[0], "Creation date (UTC)"@, created)
    &&& field_is(e.fields@[1], "User mention for quick access"@, mention(m.user_id))
    &&& field_is(e.fields@[2], "Has user been gulaged"@, gulag_note(gulaged))
}

/// The departure embed: red, with the avatar, the user name, the creation date
/// and the mention.
pub open spec fn is_leave_embed(e: Embed, m: MemberInfo, created: Seq<char>) -> bool {
    &&& e.colour == (230u8, 10u8, 10u8)
    &&& e.title@ == "User has left the game!"@
    &&& opt_text(e.thumbnail) == Some(thumbnail(m))
    &&& opt_text(e.description) == Some(m.user_name@)
    &&& e.image is None
    &&& e.fields@.len() == 2
    &&& field_is(e.fields@[0], "Creation date (UTC)"@, created)
    &&& field_is(e.fields@[1], "User mention for quick access"@, mention(m.user_id))
}

fn thumbnail_text(m: &MemberInfo) -> (r: String)
    ensures
        r@ == thumbnail(*m),
{
    match &m.avatar_url {
        Some(u) => u.clone(),
        None => m.default_avatar_url.clone(),
    }
}

/// The embed that logs an arrival, given the text of the account's creation
/// date (as `creation_date_text` gives it).
pub fn join_embed(m: &MemberInfo, gulaged: bool, created: String) -> (e: Embed)
    ensures
        is_join_embed(e, *m, gulaged, created@),
{
    let description = match &m.nick {
        Some(n) => n.clone(),
        None => m.user_name.clone(),
    };
    let note = if gulaged {
        String::from_str("User has been gulaged for being under 2 weeks old")
    } else {
        String::from_str("User has not been gulaged, account over 2 weeks old")
    };
    let mut fields: Vec<EmbedField> = Vec::new();
    fields.push(field("Creation date (UTC)", created));
    fields.push(field("User mention for quick access", mention_text(m.user_id)));
    fields.push(field("Has user been gulaged", note));
    Embed {
        colour: (52, 235, 95),
        title: String::from_str("New user has joined!"),
        description: Some(description),
        thumbnail: Some(thumbnail_text(m)),
        image: None,
        fields,
    }
}

/// The embed that logs a departure (`guild_member_removal`).
pub fn leave_embed(m: &MemberInfo) -> (e: Embed)
    ensures
        is_leave_embed(e, *m, creation_date(m.user_id)),
{
    departure_embed(m, creation_date_text(m.user_id))
}

/// The embed that logs a departure, given the text of the account's creation
/// date (as `creation_date_text` gives it).
pub fn departure_embed(m: &MemberInfo, created: String) -> (e: Embed)
    ensures
        is_leave_embed(e, *m, created@),
{
    let mut fields: Vec<EmbedField> = Vec::new();
    fields.push(field("Creation date (UTC)", created));
    fields.push(field("User mention for quick access", mention_text(m.user_id)));
    Embed {
        colour: (230, 10, 10),
        title: String::from_str("User has left the game!"),
        description: Some(m.user_name.clone()),
        thumbnail: Some(thumbnail_text(m)),
        image: None,
        fields,
    }
}

/// The message that tells a caged member why.
pub open spec fn gulag_message(id: u64) -> Seq<char> {
    "Hey "@ + mention(id)
        + "! Your account is too new for us, so we have placed you in here.\nYou can talk here, an admin may let you out after you request."@
}

fn gulag_message_text(id: u64) -> (r: String)
    ensures
        r@ == gulag_message(id),
{
    join("Hey ", mention_text(id).as_str()).concat(
        "! Your account is too new for us, so we have placed you in here.\nYou can talk here, an admin may let you out after you request.",
    )
}

// ---------------------------------------------------------------------------
// A member joins (`guild_member_addition`)
// ---------------------------------------------------------------------------

/// Where the handling of an arrival stands.
pub enum JoinState {
    /// Nothing happened yet.
    Start,
    /// The whitelist role is being added.
    AddingWhitelist { member: MemberInfo },
    /// The gulag role is being added.
    AddingGulagRole { member: MemberInfo },
    /// The caged member is being told why.
    NotifyingGulag { member: MemberInfo },
    /// The arrival embed is being sent.
    LoggingJoin,
    /// Nothing is left to do.
    Finished,
}

/// What the program observed.
pub enum JoinEvent {
    /// The member joined.
    Joined { member: MemberInfo },
    /// Whether adding the whitelist role succeeded; the time then, in
    /// milliseconds since the Unix epoch.
    Whitelisted { added: bool, now_millis: i64 },
    /// Whether adding the gulag role succeeded.
    RoleAdded(bool),
    /// The message to the caged member was sent, or failed with this error.
    MessageSent(Result<(), String>),
    /// The arrival embed was sent, or failed with this error.
    EmbedSent(Result<(), String>),
}

/// What the program is to do next.
pub enum JoinAction {
    /// Add this role to the member.
    AddRole(u64),
    /// Print that the member could not be whitelisted; nothing follows.
    ReportNotWhitelisted,
    /// Send this text to the channel.
    SendMessage { channel: u64, text: String },
    /// Print the log line if there is one, then send the embed to the channel.
    SendEmbed { channel: u64, embed: Embed, log: Option<String> },
    /// Print this line; nothing follows.
    Log(String),
    /// Nothing.
    Nothing,
}

/// The action sends the arrival embed to the log channel, after this line.
pub open spec fn logs_join(a: JoinAction, m: MemberInfo, gulaged: bool, log: Option<Seq<char>>) -> bool {
    a matches JoinAction::SendEmbed { channel, embed, log: l } && channel == LOG_CHANNEL
        && is_join_embed(embed, m, gulaged, creation_date(m.user_id)) && opt_text(l) == log
}

/// One step of the handling of an arrival: the member is whitelisted; an
/// account younger than two weeks when the whitelisting ended is also caged and told why; the arrival is
/// logged with an embed. A failed role ends the handling; a failed message or
/// embed is printed.
pub open spec fn on_join(state: JoinState, event: JoinEvent, r: (JoinState, JoinAction)) -> bool {
    match (state, event) {
        (JoinState::Start, JoinEvent::Joined { member }) => {
            &&& r.0 matches JoinState::AddingWhitelist { member: m } && m == member
            &&& r.1 == JoinAction::AddRole(WHITELIST_ROLE)
        },
        (JoinState::AddingWhitelist { member }, JoinEvent::Whitelisted { added, now_millis }) => {
            if !added {
                r.0 is Finished && r.1 is ReportNotWhitelisted
            } else if is_new_account(member.user_id, now_millis as int) {
                &&& r.0 matches JoinState::AddingGulagRole { member: m } && m == member
                &&& r.1 == JoinAction::AddRole(GULAG_ROLE)
            } else {
                r.0 is LoggingJoin && logs_join(r.1, member, false, None)
            }
        },
        (JoinState::AddingGulagRole { member }, JoinEvent::RoleAdded(added)) => {
            if !added {
                r.0 is Finished && r.1 is ReportNotWhitelisted
            } else {
                &&& r.0 matches JoinState::NotifyingGulag { member: m } && m == member
                &&& r.1 matches JoinAction::SendMessage { channel, text } && channel
                    == GULAG_CHANNEL && text@ == gulag_message(member.user_id)
            }
        },
        (JoinState::NotifyingGulag { member }, JoinEvent::MessageSent(sent)) => {
            &&& r.0 is LoggingJoin
            &&& logs_join(
                r.1,
                member,
                true,
                match sent {
                    Ok(_) => None,
                    Err(e) => Some("Could not notify user why they were caged: "@ + e@),
                },
            )
        },
        (JoinState::LoggingJoin, JoinEvent::EmbedSent(sent)) => {
            &&& r.0 is Finished
            &&& match sent {
                Ok(_) => r.1 is Nothing,
                Err(e) => r.1 matches JoinAction::Log(l) && l@ == "Logging new user joined error: "@
                    + e@,
            }
        },
        _ => r.0 is Finished && r.1 is Nothing,
    }
}

/// One step of the handling of an arrival.
pub fn member_joined(state: JoinState, event: JoinEvent) -> (r: (JoinState, JoinAction))
    ensures
        on_join(state, event, r),
{
    match (state, event) {
        (JoinState::Start, JoinEvent::Joined { member }) => (
            JoinState::AddingWhitelist { member },
            JoinAction::AddRole(WHITELIST_ROLE),
        ),
        (JoinState::AddingWhitelist { member }, JoinEvent::Whitelisted { added, now_millis }) => {
            if !added {
                (JoinState::Finished, JoinAction::ReportNotWhitelisted)
            } else if account_is_new(member.user_id, now_millis) {
                (JoinState::AddingGulagRole { member }, JoinAction::AddRole(GULAG_ROLE))
            } else {
                let embed = join_embed(&member, false, creation_date_text(member.user_id));
                (JoinState::LoggingJoin, JoinAction::SendEmbed { channel: LOG_CHANNEL, embed, log: None })
            }
        },
        (JoinState::AddingGulagRole { member }, JoinEvent::RoleAdded(added)) => {
            if !added {
                (JoinState::Finished, JoinAction::ReportNotWhitelisted)
            } else {
                let text = gulag_message_text(member.user_id);
                (
                    JoinState::NotifyingGulag { member },
                    JoinAction::SendMessage { channel: GULAG_CHANNEL, text },
                )
            }
        },
        (JoinState::NotifyingGulag { member }, JoinEvent::MessageSent(sent)) => {
            let log = match sent {
                Ok(_) => None,
                Err(e) => Some(join("Could not notify user why they were caged: ", e.as_str())),
            };
            let embed = join_embed(&member, true, creation_date_text(member.user_id));
            (JoinState::LoggingJoin, JoinAction::SendEmbed { channel: LOG_CHANNEL, embed, log })
        },
        (JoinState::LoggingJoin, JoinEvent::EmbedSent(sent)) => match sent {
            Ok(_) => (JoinState::Finished, JoinAction::Nothing),
            Err(e) => (
                JoinState::Finished,
                JoinAction::Log(join("Logging new user joined error: ", e.as_str())),
            ),
        },
        _ => (JoinState::Finished, JoinAction::Nothing),
    }
}

/// The departure embed shows the user's own avatar when they have one, and
/// Discord's default avatar only when they have none: the same avatar as the
/// arrival embed of that user.
pub proof fn law_departure_shows_own_avatar(
    m: MemberInfo,
    created: Seq<char>,
    left: Embed,
    joined: Embed,
    gulaged: bool,
    joined_created: Seq<char>,
)
    requires
        is_leave_embed(left, m, created),
        is_join_embed(joined, m, gulaged, joined_created),
    ensures
        m.avatar_url matches Some(u) ==> opt_text(left.thumbnail) == Some(u@),
        m.avatar_url is None ==> opt_text(left.thumbnail) == Some(m.default_avatar_url@),
        opt_text(left.thumbnail) == opt_text(joined.thumbnail),
{
}

/// The text of the arrival embed's third field, if the action sends an embed
/// with three fields.
pub open spec fn arrival_note(a: JoinAction) -> Option<Seq<char>> {
    match a {
        JoinAction::SendEmbed { embed, .. } => if embed.fields@.len() == 3 {
            Some(embed.fields@[2].value@)
        } else {
            None
        },
        _ => None,
    }
}

/// Once a member is whitelisted, the arrival embed says the member has been
/// gulaged exactly when the account is younger than two weeks: an older
/// account is logged at once as not gulaged; a younger one gets the gulag role
/// and, whatever became of the message that tells them why, is logged as
/// gulaged.
pub proof fn law_gulaged_iff_new_account(
    member: MemberInfo,
    now_millis: i64,
    sent: Result<(), String>,
    first: (JoinState, JoinAction),
    second: (JoinState, JoinAction),
    third: (JoinState, JoinAction),
)
    requires
        on_join(
            JoinState::AddingWhitelist { member },
            JoinEvent::Whitelisted { added: true, now_millis },
            first,
        ),
        on_join(first.0, JoinEvent::RoleAdded(true), second),
        on_join(second.0, JoinEvent::MessageSent(sent), third),
    ensures
        created_millis(member.user_id) > now_millis - TWO_WEEKS_MILLIS ==> first.1 == JoinAction::AddRole(
            GULAG_ROLE,
        ) && arrival_note(third.1) == Some(
            "User has been gulaged for being under 2 weeks old"@,
        ),
        created_millis(member.user_id) <= now_millis - TWO_WEEKS_MILLIS ==> arrival_note(first.1)
            == Some("User has not been gulaged, account over 2 weeks old"@),
{
}

} // verus!
