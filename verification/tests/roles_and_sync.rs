use auto_role_bot::db::{LinkedUser, Role};
use auto_role_bot::state::{
    linked_discord_account, linked_gd_account, BotState, DbError, RoleRemoveError, RoleSyncError,
};
use auto_role_bot::sync::{
    make_role_sync_request_with, sync_accepted, sync_rejection, unlink_request, RoleSyncRequest,
};
use auto_role_bot::sync_all::{GuildMember, MemberScan, ScanStep};

fn role(id: &str, discord_id: i64) -> Role {
    Role { id: id.to_string(), discord_id }
}

fn roles() -> Vec<Role> {
    vec![role("mod", 11), role("vip", 22), role("helper", 33)]
}

fn state(watched_roles: &[Role]) -> BotState {
    BotState::new("http://server/".to_string(), "secret".to_string(), 99, watched_roles)
}

#[test]
fn bot_state_setup() {
    let s = state(&roles());
    assert_eq!(s.base_url, "http://server");
    assert_eq!(s.server_password, "secret");
    assert_eq!(s.guild_id, 99);
    assert_eq!(s.watched_roles, vec![11, 22, 33]);
    assert_eq!(s.lookup_url("Robtop"), "http://server/gsp/lookup?username=Robtop");
    assert_eq!(s.sync_roles_url(), "http://server/gsp/sync_roles");
    assert_eq!(s.authorization(), "secret");
    let target = s.sync_target();
    assert_eq!(target.url, "http://server/gsp/sync_roles");
    assert_eq!(target.authorization, "secret");
    let negative = state(&[role("x", -1)]);
    assert_eq!(negative.watched_roles, vec![u64::MAX]);
}

#[test]
fn watching_roles_keeps_the_list_sorted_and_distinct() {
    let mut s = state(&[role("b", 30), role("a", 10)]);
    s.watch_role(20);
    assert_eq!(s.watched_roles, vec![10, 20, 30]);
    s.watch_role(20);
    assert_eq!(s.watched_roles, vec![10, 20, 30]);
    s.unwatch_role(20);
    assert_eq!(s.watched_roles, vec![10, 30]);
    s.unwatch_role(77);
    assert_eq!(s.watched_roles, vec![10, 30]);
}

#[test]
fn remove_undoes_add() {
    let mut s = state(&[role("b", 30), role("a", 10)]);
    s.watch_role(20);
    s.unwatch_role(20);
    let mut ids = s.watched_roles.clone();
    ids.sort();
    assert_eq!(ids, vec![10, 30]);
}

#[test]
fn unwatch_removes_only_the_first_occurrence() {
    let mut s = state(&[role("a", 5), role("b", 6), role("c", 5)]);
    s.unwatch_role(5);
    assert_eq!(s.watched_roles, vec![6, 5]);
}

#[test]
fn finishing_role_changes() {
    let mut s = state(&[]);
    let failed = s.finish_role_addition(4, Err(DbError::Other { text: "locked".to_string() }));
    assert!(matches!(failed, Err(DbError::Other { .. })));
    assert!(s.watched_roles.is_empty());
    assert!(s.finish_role_addition(4, Ok(())).is_ok());
    assert_eq!(s.watched_roles, vec![4]);

    assert!(matches!(s.finish_role_removal(4, 0), Err(RoleRemoveError::NotFound)));
    assert_eq!(s.watched_roles, vec![4]);
    assert!(s.finish_role_removal(4, 1).is_ok());
    assert!(s.watched_roles.is_empty());

    s.watch_role(8);
    let missing = s.finish_removal_by_globed_id(Err(DbError::RowNotFound { text: "no rows".to_string() }));
    assert!(matches!(missing, Err(RoleRemoveError::NotFound)));
    let broken = s.finish_removal_by_globed_id(Err(DbError::Other { text: "io".to_string() }));
    match broken {
        Err(RoleRemoveError::Database(text)) => assert_eq!(text, "io"),
        _ => panic!("expected a database error"),
    }
    assert!(s.finish_removal_by_globed_id(Ok(role("x", 8))).is_ok());
    assert!(s.watched_roles.is_empty());
}

#[test]
fn linked_accounts_from_rows() {
    let user = LinkedUser { id: 5, gd_account_id: 1234 };
    assert_eq!(linked_gd_account(Ok(user)).ok(), Some(Some(1234)));
    let zero = LinkedUser { id: 5, gd_account_id: 0 };
    assert_eq!(linked_gd_account(Ok(zero)).ok(), Some(None));
    let wide = LinkedUser { id: 5, gd_account_id: 1 << 32 };
    assert_eq!(linked_gd_account(Ok(wide)).ok(), Some(None));
    assert_eq!(linked_gd_account(Err(DbError::RowNotFound { text: String::new() })).ok(), Some(None));
    assert!(linked_gd_account(Err(DbError::Other { text: String::new() })).is_err());

    let linked = LinkedUser { id: 77, gd_account_id: 3 };
    assert_eq!(linked_discord_account(Ok(linked)).ok(), Some(Some(77)));
    assert_eq!(linked_discord_account(Err(DbError::RowNotFound { text: String::new() })).ok(), Some(None));
    assert!(linked_discord_account(Err(DbError::Database { message: "m".into(), text: "t".into() })).is_err());
}

#[test]
fn sync_request_splits_roles() {
    let user = LinkedUser { id: 1, gd_account_id: 555 };
    let req = make_role_sync_request_with(&[22, 99], &user, &roles());
    assert_eq!(req.account_id, 555);
    assert_eq!(req.keep, vec!["vip".to_string()]);
    assert_eq!(req.remove, vec!["mod".to_string(), "helper".to_string()]);
    assert_eq!(req.keep.len() + req.remove.len(), roles().len());
}

#[test]
fn sync_request_compares_ids_as_stored() {
    let user = LinkedUser { id: 1, gd_account_id: (1i64 << 32) + 7 };
    let req = make_role_sync_request_with(&[u64::MAX], &user, &[role("neg", -1)]);
    assert_eq!(req.account_id, 7);
    assert_eq!(req.keep, vec!["neg".to_string()]);
    assert!(req.remove.is_empty());
}

#[test]
fn unlink_is_sync_without_roles() {
    let user = LinkedUser { id: 1, gd_account_id: 9 };
    let unlink = unlink_request(&user, &roles());
    let empty = make_role_sync_request_with(&[], &user, &roles());
    assert_eq!(unlink.account_id, empty.account_id);
    assert_eq!(unlink.keep, empty.keep);
    assert_eq!(unlink.remove, empty.remove);
    assert_eq!(unlink.remove, vec!["mod".to_string(), "vip".to_string(), "helper".to_string()]);
}

#[test]
fn sync_answers() {
    assert!(sync_accepted(200));
    assert!(!sync_accepted(403));
    match sync_rejection(403, None) {
        RoleSyncError::ServerUpdate((code, message)) => {
            assert_eq!(code, 403);
            assert_eq!(message, "<no message>");
        },
        _ => panic!("expected a server update error"),
    }
    let e = sync_rejection(500, Some("boom".to_string()));
    assert_eq!(e.message(), "Server returned error (code 500 Internal Server Error): boom");
}

#[test]
fn role_sync_error_texts() {
    assert_eq!(RoleSyncError::NotLinked.message(), "User not linked");
    assert_eq!(RoleSyncError::Database("x".into()).message(), "Database error: x");
    assert_eq!(RoleSyncError::ServerRequest("y".into()).message(), "Error making a request to the server: y");
    assert_eq!(RoleSyncError::InternalError("z").message(), "Internal error: z");
    assert_eq!(RoleSyncError::ServerUpdate((404, "gone".into())).message(), "Server returned error (code 404 Not Found): gone");
    assert_eq!(RoleRemoveError::NotFound.message(), "Role not found");
    assert_eq!(RoleRemoveError::Database("d".into()).message(), "Database error: d");
}

#[test]
fn database_failures_convert() {
    assert!(matches!(RoleSyncError::from(DbError::RowNotFound { text: "r".into() }), RoleSyncError::NotLinked));
    match RoleSyncError::from(DbError::Database { message: "m".into(), text: "t".into() }) {
        RoleSyncError::Database(t) => assert_eq!(t, "t"),
        _ => panic!("expected database"),
    }
    assert!(matches!(RoleRemoveError::from(DbError::RowNotFound { text: "r".into() }), RoleRemoveError::NotFound));
    match auto_role_bot::state::LinkError::from(DbError::RowNotFound { text: "r".into() }) {
        auto_role_bot::state::LinkError::Database(t) => assert_eq!(t, "r"),
        _ => panic!("expected database"),
    }
}

fn member(user_id: u64, role_ids: Vec<u64>) -> GuildMember {
    GuildMember { user_id, role_ids }
}

fn scan() -> MemberScan {
    let users = vec![
        LinkedUser { id: 300, gd_account_id: 3 },
        LinkedUser { id: 100, gd_account_id: 1 },
        LinkedUser { id: 100, gd_account_id: 111 },
    ];
    MemberScan::new(users, roles())
}

#[test]
fn member_scan_pages() {
    let mut s = scan();
    assert!(matches!(s.first_step(), ScanStep::FetchPage { after: None }));
    let step = s.on_page(Some(vec![member(100, vec![11]), member(200, vec![11, 22])]));
    assert!(matches!(step, ScanStep::FetchPage { after: Some(200) }));
    let step = s.on_page(Some(vec![member(300, vec![33])]));
    assert!(matches!(step, ScanStep::FetchPage { after: Some(300) }));
    let step = s.on_page(Some(vec![]));
    assert!(matches!(step, ScanStep::Send));
    let data = s.into_data();
    assert_eq!(data.users.len(), 2);
    let first: &RoleSyncRequest = &data.users[0];
    assert_eq!(first.account_id, 1);
    assert_eq!(first.keep, vec!["mod".to_string()]);
    assert_eq!(data.users[1].account_id, 3);
    assert_eq!(data.users[1].keep, vec!["helper".to_string()]);
}

#[test]
fn member_scan_stops_on_fetch_failure() {
    let mut s = scan();
    assert!(matches!(s.on_page(Some(vec![member(300, vec![])])), ScanStep::FetchPage { after: Some(300) }));
    assert!(matches!(s.on_page(None), ScanStep::Send));
    assert_eq!(s.into_data().users.len(), 1);
}

#[test]
fn paging_does_not_change_requests() {
    let mut one = scan();
    one.on_page(Some(vec![member(100, vec![22]), member(300, vec![]), member(5, vec![])]));
    let mut two = scan();
    two.on_page(Some(vec![member(100, vec![22])]));
    two.on_page(Some(vec![member(300, vec![]), member(5, vec![])]));
    let a = one.into_data();
    let b = two.into_data();
    assert_eq!(a.users.len(), b.users.len());
    for (x, y) in a.users.iter().zip(b.users.iter()) {
        assert_eq!(x.account_id, y.account_id);
        assert_eq!(x.keep, y.keep);
        assert_eq!(x.remove, y.remove);
    }
}
