use auto_role_bot::commands::{
    admin_gate, admin_link_reply, admin_sync_reply, manage_roles_gate, admin_unlink_reply, command_allowed, has_admin_perm, has_manage_roles_perm,
    link_reply, no_permission_reply, role_add_reply, role_list_reply, role_remove_reply, role_removeid_reply,
    sync_reply, syncall_reply, unlink_reply, CommandError, CommandReply,
};
use auto_role_bot::db::Role;
use auto_role_bot::link::{advance_link, is_valid_gd_username, link_expects, start_link, LinkEvent, LinkFlow, LinkStep};
use auto_role_bot::state::{BotState, DbError, LinkError, RoleRemoveError, RoleSyncError, UserLookupResponse};

fn state() -> BotState {
    BotState::new("https://gs.example/".to_string(), "pw".to_string(), 1, &[])
}

fn response() -> UserLookupResponse {
    UserLookupResponse { account_id: 4242, name: "Player".to_string() }
}

fn finished(step: LinkStep) -> Result<UserLookupResponse, LinkError> {
    match step {
        LinkStep::Finished(outcome) => outcome,
        _ => panic!("the linking should be over"),
    }
}

fn step(flow: LinkFlow, event: LinkEvent) -> (LinkFlow, LinkStep) {
    assert!(link_expects(&flow, &event));
    advance_link(flow, event)
}

#[test]
fn usernames() {
    assert!(is_valid_gd_username("RobTop"));
    assert!(is_valid_gd_username("abcdefghijklmnop"));
    assert!(!is_valid_gd_username("abcdefghijklmnopq"));
    assert!(!is_valid_gd_username("Jérôme"));
    assert!(is_valid_gd_username(""));
}

#[test]
fn invalid_name_asks_nothing() {
    let (flow, first) = start_link(&state(), 7, "名前");
    assert!(matches!(flow, LinkFlow::Done));
    assert!(matches!(finished(first), Err(LinkError::InvalidUsername)));
}

#[test]
fn successful_link() {
    let (flow, first) = start_link(&state(), 7, "Player");
    match first {
        LinkStep::LookUp { url, authorization } => {
            assert_eq!(url, "https://gs.example/gsp/lookup?username=Player");
            assert_eq!(authorization, "pw");
        },
        _ => panic!("expected a lookup"),
    }
    let (flow, next) = step(flow, LinkEvent::LookupReplied(Ok(200)));
    assert!(matches!(next, LinkStep::ReadBody));
    let json = r#"{"account_id":4242,"name":"Player"}"#.to_string();
    let (flow, next) = step(flow, LinkEvent::BodyRead { json, parsed: Ok(response()) });
    assert!(matches!(next, LinkStep::Insert { user_id: 7, account_id: 4242 }));
    let (flow, next) = step(flow, LinkEvent::Inserted(Ok(())));
    assert!(matches!(next, LinkStep::SyncRoles));
    let (flow, next) = step(flow, LinkEvent::RolesSynced(Ok(())));
    assert!(matches!(flow, LinkFlow::Done));
    let user = finished(next).ok().unwrap();
    assert_eq!(user.account_id, 4242);
    assert_eq!(user.name, "Player");
}

#[test]
fn lookup_failures() {
    let (flow, _) = start_link(&state(), 7, "Player");
    let (_, next) = step(flow, LinkEvent::LookupReplied(Err("timed out".to_string())));
    match finished(next) {
        Err(LinkError::ServerRequest(e)) => assert_eq!(e, "timed out"),
        _ => panic!("expected a request error"),
    }

    let (flow, _) = start_link(&state(), 7, "Player");
    let (_, next) = step(flow, LinkEvent::LookupReplied(Ok(404)));
    assert!(matches!(finished(next), Err(LinkError::UserNotFound)));

    let (flow, _) = start_link(&state(), 7, "Player");
    let (flow, next) = step(flow, LinkEvent::LookupReplied(Ok(503)));
    assert!(matches!(next, LinkStep::ReadErrorBody));
    let (_, next) = step(flow, LinkEvent::ErrorBodyRead(None));
    match finished(next) {
        Err(LinkError::ServerInternalError(status, message)) => {
            assert_eq!(status, 503);
            assert_eq!(message, "<no message>");
        },
        _ => panic!("expected a server error"),
    }

    let (flow, _) = start_link(&state(), 7, "Player");
    let (flow, _) = step(flow, LinkEvent::LookupReplied(Ok(200)));
    let (_, next) = step(flow, LinkEvent::BodyRead { json: "oops".into(), parsed: Err("expected value".into()) });
    match finished(next) {
        Err(LinkError::ServerMalformedResponse(e, json)) => {
            assert_eq!(e, "expected value");
            assert_eq!(json, "oops");
        },
        _ => panic!("expected a malformed answer"),
    }
}

fn after_lookup(member: u64) -> LinkFlow {
    let (flow, _) = start_link(&state(), member, "Player");
    let (flow, _) = step(flow, LinkEvent::LookupReplied(Ok(200)));
    let (flow, _) = step(flow, LinkEvent::BodyRead { json: String::new(), parsed: Ok(response()) });
    flow
}

fn unique_violation() -> LinkEvent {
    LinkEvent::Inserted(Err(DbError::Database {
        message: "UNIQUE constraint failed: linked_users.id".into(),
        text: "error returned from database: UNIQUE constraint failed: linked_users.id".into(),
    }))
}

#[test]
fn conflicts_when_storing_the_link() {
    let (_, next) = step(after_lookup(7), LinkEvent::Inserted(Err(DbError::Database {
        message: "disk I/O error".into(),
        text: "error returned from database: disk I/O error".into(),
    })));
    match finished(next) {
        Err(LinkError::Database(t)) => assert_eq!(t, "error returned from database: disk I/O error"),
        _ => panic!("expected a database error"),
    }

    let (flow, next) = step(after_lookup(7), unique_violation());
    assert!(matches!(next, LinkStep::FindLinkedDiscord { account_id: 4242 }));
    let (_, next) = step(flow, LinkEvent::LinkedDiscordFound(Ok(Some(7))));
    assert!(matches!(finished(next), Err(LinkError::AlreadyLinked)));

    let (flow, _) = step(after_lookup(7), unique_violation());
    let (_, next) = step(flow, LinkEvent::LinkedDiscordFound(Ok(None)));
    assert!(matches!(finished(next), Err(LinkError::AlreadyLinked)));

    let (flow, _) = step(after_lookup(7), unique_violation());
    let (flow, next) = step(flow, LinkEvent::LinkedDiscordFound(Ok(Some(8))));
    assert!(matches!(next, LinkStep::FindCachedName { user_id: 8 }));
    let (_, next) = step(flow, LinkEvent::CachedNameFound(Some("other".into())));
    match finished(next) {
        Err(LinkError::LinkedToOther(ident)) => assert_eq!(ident, "@other"),
        _ => panic!("expected linked to other"),
    }

    let (flow, _) = step(after_lookup(7), unique_violation());
    let (flow, _) = step(flow, LinkEvent::LinkedDiscordFound(Ok(Some(8))));
    let (flow, next) = step(flow, LinkEvent::CachedNameFound(None));
    assert!(matches!(next, LinkStep::FetchName { user_id: 8 }));
    let (_, next) = step(flow, LinkEvent::NameFetched(None));
    match finished(next) {
        Err(LinkError::LinkedToOther(ident)) => assert_eq!(ident, "8"),
        _ => panic!("expected linked to other"),
    }
}

#[test]
fn failed_role_sync_keeps_the_answer() {
    let (flow, _) = step(after_lookup(7), LinkEvent::Inserted(Ok(())));
    let (_, next) = step(flow, LinkEvent::RolesSynced(Err(RoleSyncError::NotLinked)));
    match finished(next) {
        Err(LinkError::RoleSync(RoleSyncError::NotLinked, user)) => assert_eq!(user.account_id, 4242),
        _ => panic!("expected a role sync error"),
    }
}

#[test]
fn events_must_answer_the_step() {
    let (flow, _) = start_link(&state(), 7, "Player");
    assert!(!link_expects(&flow, &LinkEvent::RolesSynced(Ok(()))));
    assert!(link_expects(&flow, &LinkEvent::LookupReplied(Ok(200))));
    assert!(!link_expects(&LinkFlow::Done, &LinkEvent::LookupReplied(Ok(200))));
}

fn failure_text(reply: &CommandReply) -> Option<String> {
    reply.failure.as_ref().map(|e| e.message())
}

#[test]
fn link_replies() {
    let ok = link_reply(42, Ok(response()));
    assert_eq!(ok.text, "✅ Linked <@42> to GD account Player (4242)!");
    assert!(ok.failure.is_none());
    let r = link_reply(42, Err(LinkError::ServerInternalError(502, "bad".into())));
    assert_eq!(r.text, ":x: Server returned an unexpected error!");
    assert_eq!(failure_text(&r).unwrap(), "User lookup failed: code 502, message: bad");
    let r = link_reply(42, Err(LinkError::RoleSync(RoleSyncError::NotLinked, response())));
    assert_eq!(
        r.text,
        "Linked <@42> to GD account Player (4242) successfully, but role syncing failed. Try to execute the `/sync` command manually, or contact staff for assistance."
    );
    let r = link_reply(42, Err(LinkError::LinkedToOther("@x".into())));
    assert_eq!(
        r.text,
        ":x: This Geometry Dash account is already linked to another Discord account (@x). If this is not you, please contact the moderator team."
    );
    let r = link_reply(42, Err(LinkError::ServerMalformedResponse("E".into(), "{}".into())));
    assert_eq!(failure_text(&r).unwrap(), "User lookup failed: failed to parse response: E\nResponse was: {}");
    let r = link_reply(42, Err(LinkError::Database("db down".into())));
    assert_eq!(r.text, ":x: Unknown database error has occurred.");
    assert_eq!(failure_text(&r).unwrap(), "database connection error: db down");
    let r = link_reply(42, Err(LinkError::InvalidUsername));
    assert_eq!(r.text, ":x: Invalid username was provided.");
    assert!(r.failure.is_none());
    let r = link_reply(42, Err(LinkError::ServerRequest("refused".into())));
    assert_eq!(failure_text(&r).unwrap(), "User lookup failed: refused");
}

#[test]
fn admin_link_replies() {
    let ok = admin_link_reply("someone", Ok(UserLookupResponse { account_id: -3, name: "N".into() }));
    assert_eq!(ok.text, "✅ Linked someone to GD account N (-3)!");
    let r = admin_link_reply("someone", Err(LinkError::RoleSync(RoleSyncError::NotLinked, response())));
    assert_eq!(
        r.text,
        "Linked the user to GD account @Player (4242) successfully, but role syncing failed. Try to execute the `/sync` command manually for them."
    );
    let r = admin_link_reply("someone", Err(LinkError::AlreadyLinked));
    assert_eq!(r.text, ":x: This person is already linked. Use the `/unlink` command to unlink their account.");
    let r = admin_link_reply("someone", Err(LinkError::LinkedToOther("9".into())));
    assert_eq!(r.text, ":x: This Geometry Dash account is already linked to another Discord account (9).");
}

#[test]
fn unlink_and_sync_replies() {
    assert_eq!(unlink_reply("bob", Ok(())).text, "Successfully unlinked the account!");
    assert_eq!(unlink_reply("bob", Err(RoleSyncError::NotLinked)).text, ":x: Not currently linked to any account.");
    let r = unlink_reply("bob", Err(RoleSyncError::Database("gone".into())));
    assert_eq!(failure_text(&r).unwrap(), "Failed to unlink user (bob): Database error: gone");
    assert_eq!(
        admin_unlink_reply(Err(RoleSyncError::ServerRequest("x".into()))).text,
        ":x: Error while unlinking user: Error making a request to the server: x"
    );
    assert!(admin_unlink_reply(Err(RoleSyncError::ServerRequest("x".into()))).failure.is_none());
    let r = sync_reply("bob", Err(RoleSyncError::InternalError("y")));
    assert_eq!(r.text, ":x: Failed to sync your roles due to an internal error.");
    assert_eq!(failure_text(&r).unwrap(), "Failed to sync roles (bob): Internal error: y");
    assert_eq!(
        sync_reply("bob", Err(RoleSyncError::NotLinked)).text,
        ":x: Not currently linked to any account. Use `/link` to link a GD account."
    );
    let r = admin_sync_reply("amy", Ok(()));
    assert!(r.text.starts_with("✅ Successfully synced @amy's roles!"));
    let r = admin_sync_reply("amy", Err(RoleSyncError::ServerUpdate((500, "no".into()))));
    assert_eq!(failure_text(&r).unwrap(), "Error syncing user: Server returned error (code 500 Internal Server Error): no");
    assert_eq!(syncall_reply(Ok(12)).text, "✅ Successfully synced roles of 12 people!");
    let r = syncall_reply(Err(RoleSyncError::NotLinked));
    assert_eq!(r.text, ":x: Error while syncing members: User not linked");
    assert_eq!(failure_text(&r).unwrap(), "Error syncing all members: User not linked");
}

#[test]
fn role_replies() {
    assert_eq!(
        role_add_reply(55, "vip", Ok(())).text,
        "Successfully linked role <@&55> to globed role `vip`."
    );
    assert_eq!(role_add_reply(55, "vip", Err("dup".into())).text, "Failed to add the role: dup");
    assert_eq!(role_remove_reply(55, Ok(())).text, "Successfully removed role <@&55>.");
    assert_eq!(
        role_remove_reply(55, Err(RoleRemoveError::NotFound)).text,
        "Failed to remove the role: Role not found"
    );
    assert_eq!(role_removeid_reply("vip", Ok(())).text, "Successfully removed role `vip`.");
    let roles = vec![
        Role { id: "mod".into(), discord_id: 1 },
        Role { id: "vip".into(), discord_id: -2 },
    ];
    assert_eq!(
        role_list_reply(Ok(roles)).text,
        "List of linked roles on this server:\n\n* <@&1> - `mod`\n* <@&-2> - `vip`\n"
    );
    assert_eq!(role_list_reply(Ok(vec![])).text, "List of linked roles on this server:\n\n");
    assert_eq!(role_list_reply(Err("e".into())).text, "Failed to get the list of roles: e");
    assert_eq!(no_permission_reply().text, ":x: No permission");
}

#[test]
fn permission_gates() {
    assert!(admin_gate(Some(8)).is_none());
    assert_eq!(admin_gate(Some(1 << 28)).unwrap().text, ":x: No permission");
    assert_eq!(admin_gate(None).unwrap().text, ":x: No permission");
    assert!(manage_roles_gate(Some(1 << 28)).is_none());
    assert!(manage_roles_gate(Some(8)).unwrap().failure.is_none());
}

#[test]
fn permissions_and_guild() {
    assert!(has_admin_perm(Some(8)));
    assert!(has_admin_perm(Some(8 | 1)));
    assert!(!has_admin_perm(Some(1 << 28)));
    assert!(!has_admin_perm(None));
    assert!(has_manage_roles_perm(Some(1 << 28)));
    assert!(!has_manage_roles_perm(Some(8)));
    assert!(!has_manage_roles_perm(None));
    assert!(command_allowed(Some(5), 5));
    assert!(!command_allowed(Some(6), 5));
    assert!(!command_allowed(None, 5));
}

#[test]
fn command_errors() {
    assert!(matches!(CommandError::other("x"), CommandError::Other(ref s) if s == "x"));
    assert_eq!(CommandError::Other("a".into()).message(), "a");
    assert_eq!(CommandError::Serenity("b".into()).message(), "Serenity error: b");
    assert_eq!(
        CommandError::PrivateMessages.message(),
        "Attempted to invoke a command in private messages"
    );
}
