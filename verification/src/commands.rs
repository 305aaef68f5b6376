//! The bot's slash commands: who may run them, and what they answer for each
//! outcome of the work they start.
use vstd::prelude::*;
use vstd::string::*;
use crate::db::Role;
use crate::state::{
    role_remove_error_text, role_sync_error_text, LinkError, RoleRemoveError, RoleSyncError, UserLookupResponse,
};
use crate::text::{decimal, is_digit, push_decimal, push_signed_decimal, signed_decimal};

verus! {

/// Why a command failed.
pub enum CommandError {
    /// A failure described by this text.
    Other(String),
    /// Discord refused an action; its text.
    Serenity(String),
    /// The command was run in private messages.
    PrivateMessages,
}

/// The text a command error is shown as.
pub open spec fn command_error_text(e: CommandError) -> Seq<char> {
    match e {
        CommandError::Other(s) => s@,
        CommandError::Serenity(s) => "Serenity error: "@ + s@,
        CommandError::PrivateMessages => "Attempted to invoke a command in private messages"@,
    }
}

impl CommandError {
    /// A command error described by `inner`.
    pub fn other(inner: &str) -> (e: CommandError)
        ensures
            e matches CommandError::Other(s) && s@ == inner@,
    {
        CommandError::Other(String::from_str(inner))
    }

    /// The error's text, as it is shown to people.
    pub fn message(&self) -> (s: String)
        ensures
            s@ == command_error_text(*self),
    {
        match self {
            CommandError::Other(s) => s.clone(),
            CommandError::Serenity(s) => String::from_str("Serenity error: ").concat(s.as_str()),
            CommandError::PrivateMessages => String::from_str("Attempted to invoke a command in private messages"),
        }
    }
}

/// What a command answers: the reply it posts, and the error it ends with
/// after posting it, if any.
pub struct CommandReply {
    pub text: String,
    pub failure: Option<CommandError>,
}

/// Whether `reply` posts `text` and then ends with the error text `failure`
/// (as an `Other` error), or succeeds when `failure` is `None`.
pub open spec fn reply_is(reply: CommandReply, text: Seq<char>, failure: Option<Seq<char>>) -> bool {
    &&& reply.text@ == text
    &&& match failure {
        None => reply.failure is None,
        Some(m) => reply.failure matches Some(CommandError::Other(s)) && s@ == m,
    }
}

fn reply(text: String) -> (r: CommandReply)
    ensures
        reply_is(r, text@, None),
{
    CommandReply { text, failure: None }
}

fn reply_then_fail(text: String, failure: String) -> (r: CommandReply)
    ensures
        reply_is(r, text@, Some(failure@)),
{
    CommandReply { text, failure: Some(CommandError::Other(failure)) }
}

/// `serenity::model::Permissions::administrator` on the permission bits
/// `bits`: whether the Administrator bit (1 << 3) is set.
#[verifier::external_body]
fn permits_administrator(bits: u64) -> (r: bool)
    ensures
        r == (bits & 8u64 != 0),
{
    serenity::model::Permissions::from_bits_truncate(bits).administrator()
}

/// `serenity::model::Permissions::manage_roles` on the permission bits
/// `bits`: whether the Manage Roles bit (1 << 28) is set.
#[verifier::external_body]
fn permits_manage_roles(bits: u64) -> (r: bool)
    ensures
        r == (bits & 0x1000_0000u64 != 0),
{
    serenity::model::Permissions::from_bits_truncate(bits).manage_roles()
}

/// Whether the member running a command is an administrator, from the
/// member's permission bits (`None` when Discord gave none).
pub fn has_admin_perm(permissions: Option<u64>) -> (r: bool)
    ensures
        r == (permissions matches Some(bits) && bits & 8u64 != 0),
{
    match permissions {
        Some(bits) => permits_administrator(bits),
        None => false,
    }
}

/// Whether the member running a command may manage roles, from the member's
/// permission bits (`None` when Discord gave none).
pub fn has_manage_roles_perm(permissions: Option<u64>) -> (r: bool)
    ensures
        r == (permissions matches Some(bits) && bits & 0x1000_0000u64 != 0),
{
    match permissions {
        Some(bits) => permits_manage_roles(bits),
        None => false,
    }
}

/// Whether a command may run: only in the Discord server the bot serves.
pub fn command_allowed(guild_id: Option<u64>, served_guild: u64) -> (r: bool)
    ensures
        r == (guild_id == Some(served_guild)),
{
    match guild_id {
        Some(g) => g == served_guild,
        None => false,
    }
}

/// The answer to a member who may not run a command.
pub fn no_permission_reply() -> (r: CommandReply)
    ensures
        reply_is(r, ":x: No permission"@, None),
{
    reply(String::from_str(":x: No permission"))
}

/// Lets an administrator through (`None`); anyone else gets the
/// no-permission reply and the command stops there.
pub fn admin_gate(permissions: Option<u64>) -> (r: Option<CommandReply>)
    ensures
        (permissions matches Some(bits) && bits & 8u64 != 0) ==> r is None,
        !(permissions matches Some(bits) && bits & 8u64 != 0) ==> (r matches Some(reply) && reply_is(
            reply,
            ":x: No permission"@,
            None,
        )),
{
    if has_admin_perm(permissions) {
        None
    } else {
        Some(no_permission_reply())
    }
}

/// Lets a member who may manage roles through (`None`); anyone else gets
/// the no-permission reply and the command stops there.
pub fn manage_roles_gate(permissions: Option<u64>) -> (r: Option<CommandReply>)
    ensures
        (permissions matches Some(bits) && bits & 0x1000_0000u64 != 0) ==> r is None,
        !(permissions matches Some(bits) && bits & 0x1000_0000u64 != 0) ==> (r matches Some(reply) && reply_is(
            reply,
            ":x: No permission"@,
            None,
        )),
{
    if has_manage_roles_perm(permissions) {
        None
    } else {
        Some(no_permission_reply())
    }
}

/// `<@id>`: a mention of a Discord user.
pub open spec fn user_mention(id: u64) -> Seq<char> {
    "<@"@ + decimal(id as nat) + ">"@
}

/// `<@&id>`: a mention of a Discord role.
pub open spec fn role_mention(id: u64) -> Seq<char> {
    "<@&"@ + decimal(id as nat) + ">"@
}

/// `<@&id>`: a mention of a Discord role whose id is stored signed.
pub open spec fn stored_role_mention(id: i64) -> Seq<char> {
    "<@&"@ + signed_decimal(id as int) + ">"@
}

fn user_mention_text(id: u64) -> (s: String)
    ensures
        s@ == user_mention(id),
{
    let mut s = String::from_str("<@");
    push_decimal(&mut s, id);
    s.append(">");
    s
}

fn role_mention_text(id: u64) -> (s: String)
    ensures
        s@ == role_mention(id),
{
    let mut s = String::from_str("<@&");
    push_decimal(&mut s, id);
    s.append(">");
    s
}

fn stored_role_mention_text(id: i64) -> (s: String)
    ensures
        s@ == stored_role_mention(id),
{
    let mut s = String::from_str("<@&");
    push_signed_decimal(&mut s, id);
    s.append(">");
    s
}

/// ` to GD account NAME (ID)`: how a linked account is named in replies.
pub open spec fn account_phrase(user: UserLookupResponse) -> Seq<char> {
    " to GD account "@ + user.name@ + " ("@ + signed_decimal(user.account_id as int) + ")"@
}

fn account_phrase_text(user: &UserLookupResponse) -> (s: String)
    ensures
        s@ == account_phrase(*user),
{
    let mut s = String::from_str(" to GD account ");
    s.append(user.name.as_str());
    s.append(" (");
    push_signed_decimal(&mut s, user.account_id as i64);
    s.append(")");
    s
}

/// The failures of a lookup that every link command reports the same way:
/// the reply, and the error the command ends with (if any).
pub open spec fn lookup_failure_reply(e: LinkError) -> (Seq<char>, Option<Seq<char>>) {
    match e {
        LinkError::InvalidUsername => (":x: Invalid username was provided."@, None),
        LinkError::ServerRequest(err) => (
            ":x: Failed to make a request to the server!"@,
            Some("User lookup failed: "@ + err@),
        ),
        LinkError::ServerInternalError(status, message) => (
            ":x: Server returned an unexpected error!"@,
            Some("User lookup failed: code "@ + decimal(status as nat) + ", message: "@ + message@),
        ),
        LinkError::ServerMalformedResponse(error, json) => (
            ":x: Server returned unparsable data."@,
            Some("User lookup failed: failed to parse response: "@ + error@ + "\nResponse was: "@ + json@),
        ),
        LinkError::Database(err) => (
            ":x: Unknown database error has occurred."@,
            Some("database connection error: "@ + err@),
        ),
        _ => (Seq::empty(), None),
    }
}

fn lookup_failure(e: LinkError) -> (r: CommandReply)
    requires
        e is InvalidUsername || e is ServerRequest || e is ServerInternalError || e is ServerMalformedResponse
            || e is Database,
    ensures
        reply_is(r, lookup_failure_reply(e).0, lookup_failure_reply(e).1),
{
    match e {
        LinkError::InvalidUsername => reply(String::from_str(":x: Invalid username was provided.")),
        LinkError::ServerRequest(err) => reply_then_fail(
            String::from_str(":x: Failed to make a request to the server!"),
            String::from_str("User lookup failed: ").concat(err.as_str()),
        ),
        LinkError::ServerInternalError(status, message) => {
            let mut m = String::from_str("User lookup failed: code ");
            push_decimal(&mut m, status as u64);
            m.append(", message: ");
            m.append(message.as_str());
            reply_then_fail(String::from_str(":x: Server returned an unexpected error!"), m)
        },
        LinkError::ServerMalformedResponse(error, json) => {
            let mut m = String::from_str("User lookup failed: failed to parse response: ");
            m.append(error.as_str());
            m.append("\nResponse was: ");
            m.append(json.as_str());
            reply_then_fail(String::from_str(":x: Server returned unparsable data."), m)
        },
        LinkError::Database(err) => reply_then_fail(
            String::from_str(":x: Unknown database error has occurred."),
            String::from_str("database connection error: ").concat(err.as_str()),
        ),
        _ => reply(String::new()),
    }
}

/// What `/link` answers the member `author_id` who linked themself.
pub open spec fn link_reply_spec(author_id: u64, outcome: Result<UserLookupResponse, LinkError>) -> (
    Seq<char>,
    Option<Seq<char>>,
) {
    match outcome {
        Ok(user) => ("✅ Linked "@ + user_mention(author_id) + account_phrase(user) + "!"@, None),
        Err(LinkError::AlreadyLinked) => (
            ":x: Already linked. Use the `/unlink` command to unlink your account."@,
            None,
        ),
        Err(LinkError::UserNotFound) => (
            ":x: Failed to find the user by the given name. Make sure you are currently online on Globed and try again."@,
            None,
        ),
        Err(LinkError::RoleSync(_, user)) => (
            "Linked "@ + user_mention(author_id) + account_phrase(user)
                + " successfully, but role syncing failed. Try to execute the `/sync` command manually, or contact staff for assistance."@,
            None,
        ),
        Err(LinkError::LinkedToOther(ident)) => (
            ":x: This Geometry Dash account is already linked to another Discord account ("@ + ident@
                + "). If this is not you, please contact the moderator team."@,
            None,
        ),
        Err(e) => lookup_failure_reply(e),
    }
}

/// What `/link` answers the member `author_id` who linked themself.
pub fn link_reply(author_id: u64, outcome: Result<UserLookupResponse, LinkError>) -> (r: CommandReply)
    ensures
        reply_is(r, link_reply_spec(author_id, outcome).0, link_reply_spec(author_id, outcome).1),
{
    match outcome {
        Ok(user) => {
            let mut t = String::from_str("✅ Linked ");
            t.append(user_mention_text(author_id).as_str());
            t.append(account_phrase_text(&user).as_str());
            t.append("!");
            reply(t)
        },
        Err(LinkError::AlreadyLinked) => reply(
            String::from_str(":x: Already linked. Use the `/unlink` command to unlink your account."),
        ),
        Err(LinkError::UserNotFound) => reply(
            String::from_str(
                ":x: Failed to find the user by the given name. Make sure you are currently online on Globed and try again.",
            ),
        ),
        Err(LinkError::RoleSync(_, user)) => {
            let mut t = String::from_str("Linked ");
            t.append(user_mention_text(author_id).as_str());
            t.append(account_phrase_text(&user).as_str());
            t.append(
                " successfully, but role syncing failed. Try to execute the `/sync` command manually, or contact staff for assistance.",
            );
            reply(t)
        },
        Err(LinkError::LinkedToOther(ident)) => {
            let mut t = String::from_str(
                ":x: This Geometry Dash account is already linked to another Discord account (",
            );
            t.append(ident.as_str());
            t.append("). If this is not you, please contact the moderator team.");
            reply(t)
        },
        Err(e) => lookup_failure(e),
    }
}

/// What `/admin link` answers when linking the member named `member_name`.
pub open spec fn admin_link_reply_spec(member_name: Seq<char>, outcome: Result<UserLookupResponse, LinkError>) -> (
    Seq<char>,
    Option<Seq<char>>,
) {
    match outcome {
        Ok(user) => ("✅ Linked "@ + member_name + account_phrase(user) + "!"@, None),
        Err(LinkError::AlreadyLinked) => (
            ":x: This person is already linked. Use the `/unlink` command to unlink their account."@,
            None,
        ),
        Err(LinkError::UserNotFound) => (
            ":x: Failed to find the user by the given name. Make sure they are currently online on Globed and try again."@,
            None,
        ),
        Err(LinkError::RoleSync(_, user)) => (
            "Linked the user to GD account @"@ + user.name@ + " ("@ + signed_decimal(user.account_id as int)
                + ") successfully, but role syncing failed. Try to execute the `/sync` command manually for them."@,
            None,
        ),
        Err(LinkError::LinkedToOther(ident)) => (
            ":x: This Geometry Dash account is already linked to another Discord account ("@ + ident@ + ")."@,
            None,
        ),
        Err(e) => lookup_failure_reply(e),
    }
}

/// What `/admin link` answers when linking the member named `member_name`.
pub fn admin_link_reply(member_name: &str, outcome: Result<UserLookupResponse, LinkError>) -> (r: CommandReply)
    ensures
        reply_is(r, admin_link_reply_spec(member_name@, outcome).0, admin_link_reply_spec(member_name@, outcome).1),
{
    match outcome {
        Ok(user) => {
            let mut t = String::from_str("✅ Linked ");
            t.append(member_name);
            t.append(account_phrase_text(&user).as_str());
            t.append("!");
            reply(t)
        },
        Err(LinkError::AlreadyLinked) => reply(
            String::from_str(":x: This person is already linked. Use the `/unlink` command to unlink their account."),
        ),
        Err(LinkError::UserNotFound) => reply(
            String::from_str(
                ":x: Failed to find the user by the given name. Make sure they are currently online on Globed and try again.",
            ),
        ),
        Err(LinkError::RoleSync(_, user)) => {
            let mut t = String::from_str("Linked the user to GD account @");
            t.append(user.name.as_str());
            t.append(" (");
            push_signed_decimal(&mut t, user.account_id as i64);
            t.append(
                ") successfully, but role syncing failed. Try to execute the `/sync` command manually for them.",
            );
            reply(t)
        },
        Err(LinkError::LinkedToOther(ident)) => {
            let mut t = String::from_str(
                ":x: This Geometry Dash account is already linked to another Discord account (",
            );
            t.append(ident.as_str());
            t.append(").");
            reply(t)
        },
        Err(e) => lookup_failure(e),
    }
}

/// What `/unlink` answers the member named `author_name` who unlinked themself.
pub open spec fn unlink_reply_spec(author_name: Seq<char>, outcome: Result<(), RoleSyncError>) -> (
    Seq<char>,
    Option<Seq<char>>,
) {
    match outcome {
        Ok(()) => ("Successfully unlinked the account!"@, None),
        Err(RoleSyncError::NotLinked) => (":x: Not currently linked to any account."@, None),
        Err(e) => (
            ":x: Failed to unlink your account due to an internal error."@,
            Some("Failed to unlink user ("@ + author_name + "): "@ + role_sync_error_text(e)),
        ),
    }
}

/// What `/unlink` answers the member named `author_name` who unlinked themself.
pub fn unlink_reply(author_name: &str, outcome: Result<(), RoleSyncError>) -> (r: CommandReply)
    ensures
        reply_is(r, unlink_reply_spec(author_name@, outcome).0, unlink_reply_spec(author_name@, outcome).1),
{
    match outcome {
        Ok(()) => reply(String::from_str("Successfully unlinked the account!")),
        Err(RoleSyncError::NotLinked) => reply(String::from_str(":x: Not currently linked to any account.")),
        Err(e) => {
            let mut m = String::from_str("Failed to unlink user (");
            m.append(author_name);
            m.append("): ");
            m.append(e.message().as_str());
            reply_then_fail(String::from_str(":x: Failed to unlink your account due to an internal error."), m)
        },
    }
}

/// What `/admin unlink` answers.
pub open spec fn admin_unlink_reply_spec(outcome: Result<(), RoleSyncError>) -> (Seq<char>, Option<Seq<char>>) {
    match outcome {
        Ok(()) => ("Successfully unlinked the user's account!"@, None),
        Err(RoleSyncError::NotLinked) => (":x: User is not linked to a GD account."@, None),
        Err(e) => (":x: Error while unlinking user: "@ + role_sync_error_text(e), None),
    }
}

/// What `/admin unlink` answers.
pub fn admin_unlink_reply(outcome: Result<(), RoleSyncError>) -> (r: CommandReply)
    ensures
        reply_is(r, admin_unlink_reply_spec(outcome).0, admin_unlink_reply_spec(outcome).1),
{
    match outcome {
        Ok(()) => reply(String::from_str("Successfully unlinked the user's account!")),
        Err(RoleSyncError::NotLinked) => reply(String::from_str(":x: User is not linked to a GD account.")),
        Err(e) => reply(String::from_str(":x: Error while unlinking user: ").concat(e.message().as_str())),
    }
}

/// What `/sync` answers the member named `author_name` who synced themself.
pub open spec fn sync_reply_spec(author_name: Seq<char>, outcome: Result<(), RoleSyncError>) -> (
    Seq<char>,
    Option<Seq<char>>,
) {
    match outcome {
        Ok(()) => (
            "✅ Successfully synced roles! If you were already online on Globed, please reconnect to the server to see the changes."@,
            None,
        ),
        Err(RoleSyncError::NotLinked) => (
            ":x: Not currently linked to any account. Use `/link` to link a GD account."@,
            None,
        ),
        Err(e) => (
            ":x: Failed to sync your roles due to an internal error."@,
            Some("Failed to sync roles ("@ + author_name + "): "@ + role_sync_error_text(e)),
        ),
    }
}

/// What `/sync` answers the member named `author_name` who synced themself.
pub fn sync_reply(author_name: &str, outcome: Result<(), RoleSyncError>) -> (r: CommandReply)
    ensures
        reply_is(r, sync_reply_spec(author_name@, outcome).0, sync_reply_spec(author_name@, outcome).1),
{
    match outcome {
        Ok(()) => reply(
            String::from_str(
                "✅ Successfully synced roles! If you were already online on Globed, please reconnect to the server to see the changes.",
            ),
        ),
        Err(RoleSyncError::NotLinked) => reply(
            String::from_str(":x: Not currently linked to any account. Use `/link` to link a GD account."),
        ),
        Err(e) => {
            let mut m = String::from_str("Failed to sync roles (");
            m.append(author_name);
            m.append("): ");
            m.append(e.message().as_str());
            reply_then_fail(String::from_str(":x: Failed to sync your roles due to an internal error."), m)
        },
    }
}

/// What `/admin sync` answers when syncing the user named `user_name`.
pub open spec fn admin_sync_reply_spec(user_name: Seq<char>, outcome: Result<(), RoleSyncError>) -> (
    Seq<char>,
    Option<Seq<char>>,
) {
    match outcome {
        Ok(()) => (
            "✅ Successfully synced @"@ + user_name
                + "'s roles! If they were already online on Globed, they might need to reconnect to the server to see the changes."@,
            None,
        ),
        Err(RoleSyncError::NotLinked) => (":x: User is not linked to a GD account."@, None),
        Err(e) => (
            ":x: Error while syncing roles: "@ + role_sync_error_text(e),
            Some("Error syncing user: "@ + role_sync_error_text(e)),
        ),
    }
}

/// What `/admin sync` answers when syncing the user named `user_name`.
pub fn admin_sync_reply(user_name: &str, outcome: Result<(), RoleSyncError>) -> (r: CommandReply)
    ensures
        reply_is(r, admin_sync_reply_spec(user_name@, outcome).0, admin_sync_reply_spec(user_name@, outcome).1),
{
    match outcome {
        Ok(()) => {
            let mut t = String::from_str("✅ Successfully synced @");
            t.append(user_name);
            t.append(
                "'s roles! If they were already online on Globed, they might need to reconnect to the server to see the changes.",
            );
            reply(t)
        },
        Err(RoleSyncError::NotLinked) => reply(String::from_str(":x: User is not linked to a GD account.")),
        Err(e) => {
            let text = e.message();
            reply_then_fail(
                String::from_str(":x: Error while syncing roles: ").concat(text.as_str()),
                String::from_str("Error syncing user: ").concat(text.as_str()),
            )
        },
    }
}

/// What `/admin syncall` answers.
pub open spec fn syncall_reply_spec(outcome: Result<usize, RoleSyncError>) -> (Seq<char>, Option<Seq<char>>) {
    match outcome {
        Ok(count) => ("✅ Successfully synced roles of "@ + decimal(count as nat) + " people!"@, None),
        Err(e) => (
            ":x: Error while syncing members: "@ + role_sync_error_text(e),
            Some("Error syncing all members: "@ + role_sync_error_text(e)),
        ),
    }
}

/// What `/admin syncall` answers.
pub fn syncall_reply(outcome: Result<usize, RoleSyncError>) -> (r: CommandReply)
    ensures
        reply_is(r, syncall_reply_spec(outcome).0, syncall_reply_spec(outcome).1),
{
    match outcome {
        Ok(count) => {
            let mut t = String::from_str("✅ Successfully synced roles of ");
            push_decimal(&mut t, count as u64);
            t.append(" people!");
            reply(t)
        },
        Err(e) => {
            let text = e.message();
            reply_then_fail(
                String::from_str(":x: Error while syncing members: ").concat(text.as_str()),
                String::from_str("Error syncing all members: ").concat(text.as_str()),
            )
        },
    }
}

/// What `/role add` answers after linking Discord role `role_id` to the game
/// server role `globed_role_id` (or failing to, with the database's text).
pub open spec fn role_add_reply_spec(role_id: u64, globed_role_id: Seq<char>, outcome: Result<(), Seq<char>>) -> Seq<
    char,
> {
    match outcome {
        Ok(()) => "Successfully linked role "@ + role_mention(role_id) + " to globed role `"@ + globed_role_id
            + "`."@,
        Err(e) => "Failed to add the role: "@ + e,
    }
}

/// What `/role add` answers.
pub fn role_add_reply(role_id: u64, globed_role_id: &str, outcome: Result<(), String>) -> (r: CommandReply)
    ensures
        reply_is(
            r,
            role_add_reply_spec(
                role_id,
                globed_role_id@,
                match outcome {
                    Ok(()) => Ok(()),
                    Err(e) => Err(e@),
                },
            ),
            None,
        ),
{
    match outcome {
        Ok(()) => {
            let mut t = String::from_str("Successfully linked role ");
            t.append(role_mention_text(role_id).as_str());
            t.append(" to globed role `");
            t.append(globed_role_id);
            t.append("`.");
            reply(t)
        },
        Err(e) => reply(String::from_str("Failed to add the role: ").concat(e.as_str())),
    }
}

/// What `/role remove` answers after unlinking Discord role `role_id`.
pub open spec fn role_remove_reply_spec(role_id: u64, outcome: Result<(), RoleRemoveError>) -> Seq<char> {
    match outcome {
        Ok(()) => "Successfully removed role "@ + role_mention(role_id) + "."@,
        Err(e) => "Failed to remove the role: "@ + role_remove_error_text(e),
    }
}

/// What `/role remove` answers.
pub fn role_remove_reply(role_id: u64, outcome: Result<(), RoleRemoveError>) -> (r: CommandReply)
    ensures
        reply_is(r, role_remove_reply_spec(role_id, outcome), None),
{
    match outcome {
        Ok(()) => {
            let mut t = String::from_str("Successfully removed role ");
            t.append(role_mention_text(role_id).as_str());
            t.append(".");
            reply(t)
        },
        Err(e) => reply(String::from_str("Failed to remove the role: ").concat(e.message().as_str())),
    }
}

/// What `/role removeid` answers after unlinking game server role `globed_role_id`.
pub open spec fn role_removeid_reply_spec(globed_role_id: Seq<char>, outcome: Result<(), RoleRemoveError>) -> Seq<
    char,
> {
    match outcome {
        Ok(()) => "Successfully removed role `"@ + globed_role_id + "`."@,
        Err(e) => "Failed to remove the role: "@ + role_remove_error_text(e),
    }
}

/// What `/role removeid` answers.
pub fn role_removeid_reply(globed_role_id: &str, outcome: Result<(), RoleRemoveError>) -> (r: CommandReply)
    ensures
        reply_is(r, role_removeid_reply_spec(globed_role_id@, outcome), None),
{
    match outcome {
        Ok(()) => {
            let mut t = String::from_str("Successfully removed role `");
            t.append(globed_role_id);
            t.append("`.");
            reply(t)
        },
        Err(e) => reply(String::from_str("Failed to remove the role: ").concat(e.message().as_str())),
    }
}

/// One line of the role list: `* <@&DISCORD_ID> - `GAME_ID``.
pub open spec fn role_line(role: Role) -> Seq<char> {
    "* "@ + stored_role_mention(role.discord_id) + " - `"@ + role.id@ + "`\n"@
}

/// The lines of the role list, in order.
pub open spec fn role_lines(roles: Seq<Role>) -> Seq<char>
    decreases roles.len(),
{
    if roles.len() == 0 {
        Seq::empty()
    } else {
        role_lines(roles.drop_last()) + role_line(roles.last())
    }
}

/// What `/role list` answers: a heading and one line per linked role, or the
/// database's text when the roles could not be read.
pub open spec fn role_list_reply_spec(outcome: Result<Seq<Role>, Seq<char>>) -> Seq<char> {
    match outcome {
        Ok(roles) => "List of linked roles on this server:\n\n"@ + role_lines(roles),
        Err(e) => "Failed to get the list of roles: "@ + e,
    }
}

/// What `/role list` answers.
pub fn role_list_reply(outcome: Result<Vec<Role>, String>) -> (r: CommandReply)
    ensures
        reply_is(
            r,
            role_list_reply_spec(
                match outcome {
                    Ok(roles) => Ok(roles@),
                    Err(e) => Err(e@),
                },
            ),
            None,
        ),
{
    match outcome {
        Ok(roles) => {
            let mut t = String::from_str("List of linked roles on this server:\n\n");
            let n = roles.len();
            for i in 0..n
                invariant
                    n == roles@.len(),
                    t@ == "List of linked roles on this server:\n\n"@ + role_lines(roles@.take(i as int)),
            {
                let role = &roles[i];
                let ghost before = t@;
                t.append("* ");
                t.append(stored_role_mention_text(role.discord_id).as_str());
                t.append(" - `");
                t.append(role.id.as_str());
                t.append("`\n");
                proof {
                    assert(roles@.take(i + 1).drop_last() =~= roles@.take(i as int));
                    assert(roles@.take(i + 1).last() == *role);
                    assert(t@ =~= before + role_line(*role));
                }
            }
            proof {
                assert(roles@.take(n as int) =~= roles@);
            }
            reply(t)
        },
        Err(e) => reply(String::from_str("Failed to get the list of roles: ").concat(e.as_str())),
    }
}

/// The line of a linked role shows the role's stored Discord id in full,
/// sign and all, then its game server id.
pub proof fn law_role_line_shows_full_id(role: Role)
    ensures
        role_line(role) == "* "@ + "<@&"@ + signed_decimal(role.discord_id as int) + ">"@ + " - `"@ + role.id@
            + "`\n"@,
{
    assert(role_line(role) =~= "* "@ + "<@&"@ + signed_decimal(role.discord_id as int) + ">"@ + " - `"@
        + role.id@ + "`\n"@);
}

/// Two linked roles with different Discord ids never get the same line: the
/// line names the very role that is stored.
pub proof fn law_role_lines_name_their_roles(a: Role, b: Role)
    ensures
        role_line(a) == role_line(b) ==> a.discord_id == b.discord_id,
{
    if role_line(a) == role_line(b) {
        reveal_strlit("* ");
        reveal_strlit("<@&");
        reveal_strlit(">");
        let da = signed_decimal(a.discord_id as int);
        let db = signed_decimal(b.discord_id as int);
        crate::text::lemma_signed_decimal_shape(a.discord_id as int);
        crate::text::lemma_signed_decimal_shape(b.discord_id as int);
        let la = role_line(a);
        let lb = role_line(b);
        assert forall|i: int| 0 <= i < da.len() implies la[5 + i] == da[i] by {}
        assert forall|i: int| 0 <= i < db.len() implies lb[5 + i] == db[i] by {}
        assert(la[5 + da.len() as int] == '>');
        assert(lb[5 + db.len() as int] == '>');
        if da.len() < db.len() {
            assert(lb[5 + da.len() as int] == db[da.len() as int]);
            assert(is_digit(db[da.len() as int]));
            assert(false);
        } else if db.len() < da.len() {
            assert(la[5 + db.len() as int] == da[db.len() as int]);
            assert(is_digit(da[db.len() as int]));
            assert(false);
        }
        assert(da =~= db) by {
            assert forall|i: int| 0 <= i < da.len() implies da[i] == db[i] by {
                assert(la[5 + i] == lb[5 + i]);
            }
        }
        crate::text::law_signed_decimal_injective(a.discord_id as int, b.discord_id as int);
    }
}

/// Whether a reply announces a failure: it opens with the `:x:` mark.
pub open spec fn reports_failure(text: Seq<char>) -> bool {
    text.len() >= 3 && text[0] == ':' && text[1] == 'x' && text[2] == ':'
}

/// Whether a reply announces success: it opens with the `✅` mark.
pub open spec fn reports_success(text: Seq<char>) -> bool {
    text.len() >= 1 && text[0] == '✅'
}

/// `/unlink` and `/admin unlink` tell the outcome apart: a successful unlink
/// is answered without the failure mark and without ending in an error;
/// every failure is answered with the failure mark; and a member who was not
/// linked gets an answer of its own, unlike any other failure's.
pub proof fn law_unlink_replies_tell_outcome(author_name: Seq<char>, e: RoleSyncError)
    ensures
        !reports_failure(unlink_reply_spec(author_name, Ok(())).0),
        unlink_reply_spec(author_name, Ok(())).1 is None,
        reports_failure(unlink_reply_spec(author_name, Err(e)).0),
        !(e is NotLinked) ==> unlink_reply_spec(author_name, Err(e)).0 != unlink_reply_spec(
            author_name,
            Err(RoleSyncError::NotLinked),
        ).0,
        !reports_failure(admin_unlink_reply_spec(Ok(())).0),
        admin_unlink_reply_spec(Ok(())).1 is None,
        reports_failure(admin_unlink_reply_spec(Err(e)).0),
        !(e is NotLinked) ==> admin_unlink_reply_spec(Err(e)).0 != admin_unlink_reply_spec(
            Err(RoleSyncError::NotLinked),
        ).0,
{
    reveal_strlit("Successfully unlinked the account!");
    reveal_strlit(":x: Not currently linked to any account.");
    reveal_strlit(":x: Failed to unlink your account due to an internal error.");
    reveal_strlit("Successfully unlinked the user's account!");
    reveal_strlit(":x: User is not linked to a GD account.");
    reveal_strlit(":x: Error while unlinking user: ");
    if !(e is NotLinked) {
        let t = admin_unlink_reply_spec(Err(e)).0;
        assert(t[4] == 'E');
    }
}

/// `/sync` and `/admin sync` tell the outcome apart: a successful sync is
/// answered with the success mark and without ending in an error; every
/// failure is answered with the failure mark; and a member who is not linked
/// gets an answer of its own, unlike any other failure's.
pub proof fn law_sync_replies_tell_outcome(name: Seq<char>, e: RoleSyncError)
    ensures
        reports_success(sync_reply_spec(name, Ok(())).0),
        sync_reply_spec(name, Ok(())).1 is None,
        reports_failure(sync_reply_spec(name, Err(e)).0),
        !(e is NotLinked) ==> sync_reply_spec(name, Err(e)).0 != sync_reply_spec(name, Err(RoleSyncError::NotLinked)).0,
        reports_success(admin_sync_reply_spec(name, Ok(())).0),
        admin_sync_reply_spec(name, Ok(())).1 is None,
        reports_failure(admin_sync_reply_spec(name, Err(e)).0),
        !(e is NotLinked) ==> admin_sync_reply_spec(name, Err(e)).0 != admin_sync_reply_spec(
            name,
            Err(RoleSyncError::NotLinked),
        ).0,
{
    reveal_strlit(
        "✅ Successfully synced roles! If you were already online on Globed, please reconnect to the server to see the changes.",
    );
    reveal_strlit(":x: Not currently linked to any account. Use `/link` to link a GD account.");
    reveal_strlit(":x: Failed to sync your roles due to an internal error.");
    reveal_strlit("✅ Successfully synced @");
    reveal_strlit(":x: User is not linked to a GD account.");
    reveal_strlit(":x: Error while syncing roles: ");
    let ok = admin_sync_reply_spec(name, Ok(())).0;
    assert(ok[0] == '✅');
    if !(e is NotLinked) {
        assert(sync_reply_spec(name, Err(e)).0[4] != sync_reply_spec(name, Err(RoleSyncError::NotLinked)).0[4]);
        let t = admin_sync_reply_spec(name, Err(e)).0;
        assert(t[4] == 'E');
        assert(t[0] == ':' && t[1] == 'x' && t[2] == ':');
    }
}

/// `/admin syncall` answers a completed sync with the success mark and any
/// failure with the failure mark and an error.
pub proof fn law_syncall_replies_tell_outcome(count: usize, e: RoleSyncError)
    ensures
        reports_success(syncall_reply_spec(Ok(count)).0),
        syncall_reply_spec(Ok(count)).1 is None,
        reports_failure(syncall_reply_spec(Err(e)).0),
        syncall_reply_spec(Err(e)).1 is Some,
{
    reveal_strlit("✅ Successfully synced roles of ");
    reveal_strlit(":x: Error while syncing members: ");
    let ok = syncall_reply_spec(Ok(count)).0;
    assert(ok[0] == '✅');
    let t = syncall_reply_spec(Err(e)).0;
    assert(t[0] == ':' && t[1] == 'x' && t[2] == ':');
}

/// `/link` and `/admin link` tell the outcome apart: a link is answered
/// with the success mark and without an error; a link whose role sync
/// failed is answered with neither mark (the link itself stands); every
/// other failure is answered with the failure mark.
pub proof fn law_link_replies_tell_outcome(
    author_id: u64,
    member_name: Seq<char>,
    user: UserLookupResponse,
    e: LinkError,
)
    ensures
        reports_success(link_reply_spec(author_id, Ok(user)).0),
        link_reply_spec(author_id, Ok(user)).1 is None,
        reports_success(admin_link_reply_spec(member_name, Ok(user)).0),
        admin_link_reply_spec(member_name, Ok(user)).1 is None,
        e is RoleSync ==> !reports_success(link_reply_spec(author_id, Err(e)).0) && !reports_failure(
            link_reply_spec(author_id, Err(e)).0,
        ),
        e is RoleSync ==> !reports_success(admin_link_reply_spec(member_name, Err(e)).0) && !reports_failure(
            admin_link_reply_spec(member_name, Err(e)).0,
        ),
        !(e is RoleSync) ==> reports_failure(link_reply_spec(author_id, Err(e)).0),
        !(e is RoleSync) ==> reports_failure(admin_link_reply_spec(member_name, Err(e)).0),
{
    reveal_strlit("✅ Linked ");
    reveal_strlit(":x: Already linked. Use the `/unlink` command to unlink your account.");
    reveal_strlit(
        ":x: Failed to find the user by the given name. Make sure you are currently online on Globed and try again.",
    );
    reveal_strlit("Linked ");
    reveal_strlit(":x: This Geometry Dash account is already linked to another Discord account (");
    reveal_strlit(":x: This person is already linked. Use the `/unlink` command to unlink their account.");
    reveal_strlit(
        ":x: Failed to find the user by the given name. Make sure they are currently online on Globed and try again.",
    );
    reveal_strlit("Linked the user to GD account @");
    reveal_strlit(":x: Invalid username was provided.");
    reveal_strlit(":x: Failed to make a request to the server!");
    reveal_strlit(":x: Server returned an unexpected error!");
    reveal_strlit(":x: Server returned unparsable data.");
    reveal_strlit(":x: Unknown database error has occurred.");
    assert(link_reply_spec(author_id, Ok(user)).0[0] == '✅');
    assert(admin_link_reply_spec(member_name, Ok(user)).0[0] == '✅');
    let t = link_reply_spec(author_id, Err(e)).0;
    let u = admin_link_reply_spec(member_name, Err(e)).0;
    if e is RoleSync {
        assert(t[0] == 'L');
        assert(u[0] == 'L');
    } else {
        assert(t[0] == ':' && t[1] == 'x' && t[2] == ':');
        assert(u[0] == ':' && u[1] == 'x' && u[2] == ':');
    }
}

} // verus!
