//! Linking a Discord member to a Geometry Dash account. The work alternates
//! between outside requests (game server, database, Discord) and decisions;
//! the decisions are made here, one step at a time: each step says what to
//! ask next, and the answer comes back as an event.
use vstd::prelude::*;
use vstd::std_specs::convert::FromSpec;
use vstd::string::*;
use crate::state::{BotState, DbError, LinkError, RoleSyncError, UserLookupResponse};
use crate::status::{is_not_found, is_success};
use crate::text::{contains_run, contains_text, decimal, push_decimal};

verus! {

/// Whether a Geometry Dash name may be looked up: ASCII only, at most 16 bytes.
pub open spec fn valid_gd_username(name: Seq<char>) -> bool {
    vstd::utf8::is_ascii_chars(name) && name.len() <= 16
}

/// The text a database message carries when an insert broke a uniqueness rule.
pub open spec fn unique_violation_marker() -> Seq<char> {
    "UNIQUE constraint failed"@
}

/// What the linking needs to learn next.
#[allow(inconsistent_fields)]
pub enum LinkStep {
    /// Ask the game server who the user is: GET `url`, with `authorization`
    /// as the `Authorization` header.
    LookUp { url: String, authorization: String },
    /// Read the body of the failed lookup reply.
    ReadErrorBody,
    /// Read the body of the successful lookup reply and parse it.
    ReadBody,
    /// Store the link of Discord user `user_id` to game account `account_id`.
    Insert { user_id: i64, account_id: i32 },
    /// Find which Discord user the game account is already linked to.
    FindLinkedDiscord { account_id: i32 },
    /// Look up the name of Discord user `user_id` in the cache.
    FindCachedName { user_id: u64 },
    /// Ask Discord for the name of user `user_id`.
    FetchName { user_id: u64 },
    /// Sync the member's roles with the game server.
    SyncRoles,
    /// The linking is over, with this outcome.
    Finished(Result<UserLookupResponse, LinkError>),
}

/// The answer to the last step.
pub enum LinkEvent {
    /// The lookup was answered with this status, or could not be made (the
    /// transport's error text).
    LookupReplied(Result<u16, String>),
    /// The body of the failed lookup reply, if it could be read.
    ErrorBodyRead(Option<String>),
    /// The body of the successful lookup reply (empty if it could not be
    /// read) and what parsing it gave (the parser's diagnostic on failure).
    BodyRead { json: String, parsed: Result<UserLookupResponse, String> },
    /// The outcome of storing the link.
    Inserted(Result<(), DbError>),
    /// The Discord user linked to the game account, if any.
    LinkedDiscordFound(Result<Option<u64>, DbError>),
    /// The cached name of the other Discord user, if the cache has it.
    CachedNameFound(Option<String>),
    /// The other Discord user's name as Discord gave it, if it could.
    NameFetched(Option<String>),
    /// The outcome of the role sync.
    RolesSynced(Result<(), RoleSyncError>),
}

/// Where a linking stands: what it waits for, and what it has learnt.
pub enum LinkFlow {
    AwaitLookup { member_id: u64 },
    AwaitErrorBody { status: u16 },
    AwaitBody { member_id: u64 },
    AwaitInsert { member_id: u64, response: UserLookupResponse },
    AwaitLinkedDiscord { member_id: u64 },
    AwaitCachedName { other: u64 },
    AwaitFetchedName { other: u64 },
    AwaitSync { response: UserLookupResponse },
    Done,
}

/// Whether `event` answers what `flow` waits for.
pub open spec fn answers(flow: LinkFlow, event: LinkEvent) -> bool {
    match flow {
        LinkFlow::AwaitLookup { .. } => event is LookupReplied,
        LinkFlow::AwaitErrorBody { .. } => event is ErrorBodyRead,
        LinkFlow::AwaitBody { .. } => event is BodyRead,
        LinkFlow::AwaitInsert { .. } => event is Inserted,
        LinkFlow::AwaitLinkedDiscord { .. } => event is LinkedDiscordFound,
        LinkFlow::AwaitCachedName { .. } => event is CachedNameFound,
        LinkFlow::AwaitFetchedName { .. } => event is NameFetched,
        LinkFlow::AwaitSync { .. } => event is RolesSynced,
        LinkFlow::Done => false,
    }
}

/// How many answers a linking may still need, at most.
pub open spec fn link_rank(flow: LinkFlow) -> nat {
    match flow {
        LinkFlow::AwaitLookup { .. } => 8,
        LinkFlow::AwaitBody { .. } => 7,
        LinkFlow::AwaitInsert { .. } => 6,
        LinkFlow::AwaitLinkedDiscord { .. } => 5,
        LinkFlow::AwaitCachedName { .. } => 4,
        LinkFlow::AwaitFetchedName { .. } => 3,
        LinkFlow::AwaitErrorBody { .. } => 2,
        LinkFlow::AwaitSync { .. } => 1,
        LinkFlow::Done => 0,
    }
}

/// How another Discord user is named when the game account is theirs:
/// `@` and their name when it is known, else their id.
pub open spec fn other_user_ident(name: Option<String>, user_id: u64) -> Seq<char> {
    match name {
        Some(n) => "@"@ + n@,
        None => decimal(user_id as nat),
    }
}

/// Whether a name may be looked up: ASCII, and at most 16 bytes long.
pub fn is_valid_gd_username(name: &str) -> (r: bool)
    ensures
        r == valid_gd_username(name@),
        r == ((forall|i: int| 0 <= i < name@.len() ==> #[trigger] name@[i] <= '\u{7f}') && name@.len() <= 16),
{
    proof {
        lemma_ascii_is_bounded(name@);
    }
    // For an ASCII name, bytes and characters are the same count.
    name.is_ascii() && name.unicode_len() <= 16
}

/// Whether an event answers what the flow waits for.
pub fn link_expects(flow: &LinkFlow, event: &LinkEvent) -> (r: bool)
    ensures
        r == answers(*flow, *event),
{
    match flow {
        LinkFlow::AwaitLookup { .. } => matches!(event, LinkEvent::LookupReplied(_)),
        LinkFlow::AwaitErrorBody { .. } => matches!(event, LinkEvent::ErrorBodyRead(_)),
        LinkFlow::AwaitBody { .. } => matches!(event, LinkEvent::BodyRead { .. }),
        LinkFlow::AwaitInsert { .. } => matches!(event, LinkEvent::Inserted(_)),
        LinkFlow::AwaitLinkedDiscord { .. } => matches!(event, LinkEvent::LinkedDiscordFound(_)),
        LinkFlow::AwaitCachedName { .. } => matches!(event, LinkEvent::CachedNameFound(_)),
        LinkFlow::AwaitFetchedName { .. } => matches!(event, LinkEvent::NameFetched(_)),
        LinkFlow::AwaitSync { .. } => matches!(event, LinkEvent::RolesSynced(_)),
        LinkFlow::Done => false,
    }
}

/// Starts linking the member `member_id` to the Geometry Dash user
/// `gd_username`. A name that is not ASCII or longer than 16 bytes is refused
/// at once, before anything is asked of the game server; otherwise the game
/// server is asked who the user is, authorized with the server password.
pub fn start_link(state: &BotState, member_id: u64, gd_username: &str) -> (r: (LinkFlow, LinkStep))
    ensures
        (r.0 is Done) == (r.1 is Finished),
        !valid_gd_username(gd_username@) ==> r.0 == LinkFlow::Done && r.1 == LinkStep::Finished(
            Err(LinkError::InvalidUsername),
        ),
        valid_gd_username(gd_username@) ==> r.0 == (LinkFlow::AwaitLookup { member_id }) && (r.1 matches LinkStep::LookUp {
            url,
            authorization,
        } && url@ == state.base_url@ + "/gsp/lookup?username="@ + gd_username@ && authorization@
            == state.server_password@),
{
    if !is_valid_gd_username(gd_username) {
        return (LinkFlow::Done, LinkStep::Finished(Err(LinkError::InvalidUsername)));
    }
    (
        LinkFlow::AwaitLookup { member_id },
        LinkStep::LookUp { url: state.lookup_url(gd_username), authorization: state.authorization() },
    )
}

/// The name of another Discord user, as the linking reports it.
fn ident_from(name: Option<String>, user_id: u64) -> (s: String)
    ensures
        s@ == other_user_ident(name, user_id),
{
    match name {
        Some(n) => String::from_str("@").concat(n.as_str()),
        None => {
            let mut s = String::new();
            push_decimal(&mut s, user_id);
            proof {
                assert(Seq::<char>::empty() + decimal(user_id as nat) =~= decimal(user_id as nat));
            }
            s
        },
    }
}

/// Takes in the answer to the last step and decides the next one. Every
/// answer brings the linking closer to its end: it is over, with its outcome,
/// after at most eight answers, and a step reports the outcome exactly when
/// the linking is over.
///
/// - A lookup that could not be made ends with `ServerRequest`; a 2xx reply
///   has its body read; a 404 ends with `UserNotFound`; any other status has
///   its body read for the `ServerInternalError` it ends with (the body, or
///   `<no message>` when it cannot be read).
/// - A body that does not parse ends with `ServerMalformedResponse`; a parsed
///   answer is stored as the member's link.
/// - A stored link goes on to the role sync. An insert that broke a
///   uniqueness rule asks who holds the game account; any other database
///   failure ends with `Database`.
/// - If another Discord user holds the account, the linking ends with
///   `LinkedToOther`, naming them by their cached name, else by the name
///   Discord gives, else by their id; if nobody else does, with `AlreadyLinked`.
/// - The role sync ends the linking: with the server's answer on success,
///   with `RoleSync` (the sync error and that answer) on failure.
pub fn advance_link(flow: LinkFlow, event: LinkEvent) -> (r: (LinkFlow, LinkStep))
    requires
        answers(flow, event),
    ensures
        link_rank(r.0) < link_rank(flow),
        (r.0 is Done) == (r.1 is Finished),
        match (flow, event) {
            (LinkFlow::AwaitLookup { member_id }, LinkEvent::LookupReplied(Err(e))) => r.0 == LinkFlow::Done && r.1
                == LinkStep::Finished(Err(LinkError::ServerRequest(e))),
            (LinkFlow::AwaitLookup { member_id }, LinkEvent::LookupReplied(Ok(status))) => if 200 <= status
                && status < 300 {
                r.0 == (LinkFlow::AwaitBody { member_id }) && r.1 == LinkStep::ReadBody
            } else if status == 404 {
                r.0 == LinkFlow::Done && r.1 == LinkStep::Finished(Err(LinkError::UserNotFound))
            } else {
                r.0 == (LinkFlow::AwaitErrorBody { status }) && r.1 == LinkStep::ReadErrorBody
            },
            (LinkFlow::AwaitErrorBody { status }, LinkEvent::ErrorBodyRead(body)) => r.0 == LinkFlow::Done && (r.1 matches LinkStep::Finished(
                Err(LinkError::ServerInternalError(s, m)),
            ) && s == status && m@ == match body {
                Some(b) => b@,
                None => "<no message>"@,
            }),
            (LinkFlow::AwaitBody { member_id }, LinkEvent::BodyRead { json, parsed }) => match parsed {
                Err(e) => r.0 == LinkFlow::Done && r.1 == LinkStep::Finished(
                    Err(LinkError::ServerMalformedResponse(e, json)),
                ),
                Ok(response) => r.1 == (LinkStep::Insert {
                    user_id: member_id as i64,
                    account_id: response.account_id,
                }) && r.0 == (LinkFlow::AwaitInsert { member_id, response }),
            },
            (LinkFlow::AwaitInsert { member_id, response }, LinkEvent::Inserted(outcome)) => match outcome {
                Ok(()) => r.0 == (LinkFlow::AwaitSync { response }) && r.1 == LinkStep::SyncRoles,
                Err(DbError::Database { message, text }) => if contains_run(message@, unique_violation_marker()) {
                    r.0 == (LinkFlow::AwaitLinkedDiscord { member_id }) && r.1 == (LinkStep::FindLinkedDiscord {
                        account_id: response.account_id,
                    })
                } else {
                    r.0 == LinkFlow::Done && r.1 == LinkStep::Finished(Err(LinkError::Database(text)))
                },
                Err(e) => r.0 == LinkFlow::Done && r.1 == LinkStep::Finished(Err(LinkError::from_spec(e))),
            },
            (LinkFlow::AwaitLinkedDiscord { member_id }, LinkEvent::LinkedDiscordFound(found)) => match found {
                Err(e) => r.0 == LinkFlow::Done && r.1 == LinkStep::Finished(Err(LinkError::from_spec(e))),
                Ok(Some(other)) => if other != member_id {
                    r.0 == (LinkFlow::AwaitCachedName { other }) && r.1 == (LinkStep::FindCachedName {
                        user_id: other,
                    })
                } else {
                    r.0 == LinkFlow::Done && r.1 == LinkStep::Finished(Err(LinkError::AlreadyLinked))
                },
                Ok(None) => r.0 == LinkFlow::Done && r.1 == LinkStep::Finished(Err(LinkError::AlreadyLinked)),
            },
            (LinkFlow::AwaitCachedName { other }, LinkEvent::CachedNameFound(name)) => match name {
                Some(n) => r.0 == LinkFlow::Done && (r.1 matches LinkStep::Finished(Err(LinkError::LinkedToOther(ident)))
                    && ident@ == "@"@ + n@),
                None => r.0 == (LinkFlow::AwaitFetchedName { other }) && r.1 == (LinkStep::FetchName {
                    user_id: other,
                }),
            },
            (LinkFlow::AwaitFetchedName { other }, LinkEvent::NameFetched(name)) => r.0 == LinkFlow::Done && (r.1 matches LinkStep::Finished(
                Err(LinkError::LinkedToOther(ident)),
            ) && ident@ == other_user_ident(name, other)),
            (LinkFlow::AwaitSync { response }, LinkEvent::RolesSynced(outcome)) => r.0 == LinkFlow::Done && match outcome {
                Ok(()) => r.1 == LinkStep::Finished(Ok(response)),
                Err(e) => r.1 == LinkStep::Finished(Err(LinkError::RoleSync(e, response))),
            },
            _ => true,
        },
{
    match (flow, event) {
        (LinkFlow::AwaitLookup { member_id }, LinkEvent::LookupReplied(reply)) => match reply {
            Err(e) => (LinkFlow::Done, LinkStep::Finished(Err(LinkError::ServerRequest(e)))),
            Ok(status) => {
                if is_success(status) {
                    (LinkFlow::AwaitBody { member_id }, LinkStep::ReadBody)
                } else if is_not_found(status) {
                    (LinkFlow::Done, LinkStep::Finished(Err(LinkError::UserNotFound)))
                } else {
                    (LinkFlow::AwaitErrorBody { status }, LinkStep::ReadErrorBody)
                }
            },
        },
        (LinkFlow::AwaitErrorBody { status }, LinkEvent::ErrorBodyRead(body)) => {
            let message = match body {
                Some(b) => b,
                None => String::from_str("<no message>"),
            };
            (LinkFlow::Done, LinkStep::Finished(Err(LinkError::ServerInternalError(status, message))))
        },
        (LinkFlow::AwaitBody { member_id }, LinkEvent::BodyRead { json, parsed }) => match parsed {
            Err(e) => (LinkFlow::Done, LinkStep::Finished(Err(LinkError::ServerMalformedResponse(e, json)))),
            Ok(response) => {
                let account_id = response.account_id;
                (
                    LinkFlow::AwaitInsert { member_id, response },
                    LinkStep::Insert { user_id: member_id as i64, account_id },
                )
            },
        },
        (LinkFlow::AwaitInsert { member_id, response }, LinkEvent::Inserted(outcome)) => match outcome {
            Ok(()) => (LinkFlow::AwaitSync { response }, LinkStep::SyncRoles),
            Err(DbError::Database { message, text }) => {
                if contains_text(message.as_str(), "UNIQUE constraint failed") {
                    (
                        LinkFlow::AwaitLinkedDiscord { member_id },
                        LinkStep::FindLinkedDiscord { account_id: response.account_id },
                    )
                } else {
                    (LinkFlow::Done, LinkStep::Finished(Err(LinkError::Database(text))))
                }
            },
            Err(e) => (LinkFlow::Done, LinkStep::Finished(Err(LinkError::from(e)))),
        },
        (LinkFlow::AwaitLinkedDiscord { member_id }, LinkEvent::LinkedDiscordFound(found)) => match found {
            Err(e) => (LinkFlow::Done, LinkStep::Finished(Err(LinkError::from(e)))),
            Ok(Some(other)) => {
                if other != member_id {
                    (LinkFlow::AwaitCachedName { other }, LinkStep::FindCachedName { user_id: other })
                } else {
                    (LinkFlow::Done, LinkStep::Finished(Err(LinkError::AlreadyLinked)))
                }
            },
            Ok(None) => (LinkFlow::Done, LinkStep::Finished(Err(LinkError::AlreadyLinked))),
        },
        (LinkFlow::AwaitCachedName { other }, LinkEvent::CachedNameFound(name)) => match name {
            Some(n) => {
                let ident = ident_from(Some(n), other);
                (LinkFlow::Done, LinkStep::Finished(Err(LinkError::LinkedToOther(ident))))
            },
            None => (LinkFlow::AwaitFetchedName { other }, LinkStep::FetchName { user_id: other }),
        },
        (LinkFlow::AwaitFetchedName { other }, LinkEvent::NameFetched(name)) => {
            let ident = ident_from(name, other);
            (LinkFlow::Done, LinkStep::Finished(Err(LinkError::LinkedToOther(ident))))
        },
        (LinkFlow::AwaitSync { response }, LinkEvent::RolesSynced(outcome)) => match outcome {
            Ok(()) => (LinkFlow::Done, LinkStep::Finished(Ok(response))),
            Err(e) => (LinkFlow::Done, LinkStep::Finished(Err(LinkError::RoleSync(e, response)))),
        },
        // `answers` rules out every other pairing of stage and event.
        _ => vstd::pervasive::unreached(),
    }
}

/// No character lies below U+0000.
proof fn lemma_char_at_least_nul(c: char)
    ensures
        '\0' <= c,
{
}

/// ASCII text is text whose every character is at most U+007F.
proof fn lemma_ascii_is_bounded(name: Seq<char>)
    ensures
        vstd::utf8::is_ascii_chars(name) == (forall|i: int| 0 <= i < name.len() ==> #[trigger] name[i] <= '\u{7f}'),
{
    if forall|i: int| 0 <= i < name.len() ==> #[trigger] name[i] <= '\u{7f}' {
        assert forall|i: int| 0 <= i < name.len() implies ('\0' <= #[trigger] name[i] && name[i] <= '\u{7f}') by {
            lemma_char_at_least_nul(name[i]);
        }
    }
}

/// The only names refused are those with a character outside ASCII (above
/// U+007F) and those longer than 16 characters: every other name, letters,
/// digits, punctuation or spaces alike, is looked up.
pub proof fn law_username_rule(name: Seq<char>)
    ensures
        valid_gd_username(name) == ((forall|i: int| 0 <= i < name.len() ==> #[trigger] name[i] <= '\u{7f}')
            && name.len() <= 16),
{
    lemma_ascii_is_bounded(name);
}

/// How another Discord user is named when the game account is theirs: `@`
/// followed by exactly their name when it is known, and otherwise a number
/// that reads back as their id.
pub proof fn law_other_user_ident(name: Option<String>, user_id: u64)
    ensures
        name matches Some(n) ==> other_user_ident(name, user_id).len() == n@.len() + 1 && other_user_ident(
            name,
            user_id,
        )[0] == '@' && other_user_ident(name, user_id).drop_first() == n@,
        name is None ==> crate::text::parsed_u64(other_user_ident(name, user_id)) == Some(user_id),
{
    reveal_strlit("@");
    match name {
        Some(n) => {
            assert(other_user_ident(name, user_id).drop_first() =~= n@);
        },
        None => {
            crate::text::law_decimal_round_trip(user_id);
        },
    }
}

} // verus!
