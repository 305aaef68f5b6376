//! Role sync requests: which of the linked roles a member keeps on the game
//! server and which are taken away.
use vstd::prelude::*;
use crate::db::{LinkedUser, Role};
use crate::state::RoleSyncError;
use vstd::string::*;

verus! {

/// What the game server is told about one linked account.
pub struct RoleSyncRequest {
    pub account_id: i32,
    /// Game server ids of the roles the account keeps.
    pub keep: Vec<String>,
    /// Game server ids of the roles taken from the account.
    pub remove: Vec<String>,
}

/// One sync message, covering any number of accounts.
pub struct RoleSyncRequestData {
    pub users: Vec<RoleSyncRequest>,
}

/// A role sync request as plain values.
pub struct RoleSyncRequestView {
    pub account_id: i32,
    pub keep: Seq<Seq<char>>,
    pub remove: Seq<Seq<char>>,
}

/// The texts of a list of strings.
pub open spec fn texts(v: Seq<String>) -> Seq<Seq<char>> {
    v.map_values(|s: String| s@)
}

impl View for RoleSyncRequest {
    type V = RoleSyncRequestView;

    open spec fn view(&self) -> RoleSyncRequestView {
        RoleSyncRequestView { account_id: self.account_id, keep: texts(self.keep@), remove: texts(self.remove@) }
    }
}

/// The requests of a sync message as plain values.
pub open spec fn request_views(v: Seq<RoleSyncRequest>) -> Seq<RoleSyncRequestView> {
    v.map_values(|r: RoleSyncRequest| r@)
}

/// Whether a member holding the Discord roles `member_roles` holds the role
/// with id `discord_id` (ids compared as the database stores them, signed).
pub open spec fn holds_role(member_roles: Seq<u64>, discord_id: i64) -> bool {
    exists|j: int| 0 <= j < member_roles.len() && #[trigger] member_roles[j] as i64 == discord_id
}

/// The game server ids of the linked roles that the member holds (`held`) or
/// does not hold (`!held`), in the order of `roles`.
pub open spec fn role_ids_where(member_roles: Seq<u64>, roles: Seq<Role>, held: bool) -> Seq<Seq<char>>
    decreases roles.len(),
{
    if roles.len() == 0 {
        Seq::empty()
    } else {
        let rest = role_ids_where(member_roles, roles.drop_last(), held);
        if holds_role(member_roles, roles.last().discord_id) == held {
            rest.push(roles.last().id@)
        } else {
            rest
        }
    }
}

/// The request that syncs a member holding `member_roles`, linked as `user`:
/// every linked role the member holds is kept, every other one removed.
pub open spec fn sync_request_for(member_roles: Seq<u64>, user: LinkedUser, roles: Seq<Role>) -> RoleSyncRequestView {
    RoleSyncRequestView {
        account_id: user.gd_account_id as i32,
        keep: role_ids_where(member_roles, roles, true),
        remove: role_ids_where(member_roles, roles, false),
    }
}

/// The request that takes every linked role from an account that is being unlinked.
pub open spec fn unlink_request_for(user: LinkedUser, roles: Seq<Role>) -> RoleSyncRequestView {
    RoleSyncRequestView {
        account_id: user.gd_account_id as i32,
        keep: Seq::empty(),
        remove: roles.map_values(|r: Role| r.id@),
    }
}

/// Whether the member holds the Discord role with id `discord_id`.
pub fn member_holds_role(member_roles: &[u64], discord_id: i64) -> (r: bool)
    ensures
        r == holds_role(member_roles@, discord_id),
        r == (exists|j: int| 0 <= j < member_roles@.len() && #[trigger] member_roles@[j] as i64 == discord_id),
{
    let n = member_roles.len();
    for j in 0..n
        invariant
            n == member_roles@.len(),
            forall|k: int| 0 <= k < j ==> #[trigger] member_roles@[k] as i64 != discord_id,
    {
        if member_roles[j] as i64 == discord_id {
            return true;
        }
    }
    false
}

/// Builds the request that syncs a member's roles: for each linked role in
/// turn, its game server id goes to `keep` if the member holds the Discord
/// role and to `remove` otherwise.
pub fn make_role_sync_request_with(member_roles: &[u64], linked_user: &LinkedUser, all_roles: &[Role]) -> (req: RoleSyncRequest)
    ensures
        req@ == sync_request_for(member_roles@, *linked_user, all_roles@),
{
    let mut kept: Vec<String> = Vec::new();
    let mut removed: Vec<String> = Vec::new();
    let n = all_roles.len();
    for i in 0..n
        invariant
            n == all_roles@.len(),
            texts(kept@) == role_ids_where(member_roles@, all_roles@.take(i as int), true),
            texts(removed@) == role_ids_where(member_roles@, all_roles@.take(i as int), false),
    {
        let role = &all_roles[i];
        let ghost before = all_roles@.take(i as int);
        proof {
            assert(all_roles@.take(i + 1).drop_last() =~= before);
            assert(all_roles@.take(i + 1).last() == *role);
        }
        if member_holds_role(member_roles, role.discord_id) {
            kept.push(role.id.clone());
            proof {
                assert(texts(kept@) =~= texts(kept@.drop_last()).push(role.id@));
            }
        } else {
            removed.push(role.id.clone());
            proof {
                assert(texts(removed@) =~= texts(removed@.drop_last()).push(role.id@));
            }
        }
    }
    proof {
        assert(all_roles@.take(n as int) =~= all_roles@);
    }
    RoleSyncRequest { account_id: linked_user.gd_account_id as i32, keep: kept, remove: removed }
}

/// Builds the request that takes every linked role from an account being unlinked.
pub fn unlink_request(linked_user: &LinkedUser, all_roles: &[Role]) -> (req: RoleSyncRequest)
    ensures
        req@ == unlink_request_for(*linked_user, all_roles@),
{
    let mut removed: Vec<String> = Vec::new();
    let n = all_roles.len();
    for i in 0..n
        invariant
            n == all_roles@.len(),
            texts(removed@) == all_roles@.take(i as int).map_values(|r: Role| r.id@),
    {
        let id = all_roles[i].id.clone();
        let ghost before = removed@;
        removed.push(id);
        proof {
            assert(removed@.drop_last() == before);
            assert(texts(removed@) =~= texts(before).push(id@));
            assert(all_roles@.take(i + 1).map_values(|r: Role| r.id@) =~= all_roles@.take(i as int).map_values(
                |r: Role| r.id@,
            ).push(all_roles@[i as int].id@));
        }
    }
    let kept: Vec<String> = Vec::new();
    proof {
        assert(all_roles@.take(n as int) =~= all_roles@);
        assert(texts(kept@) =~= Seq::<Seq<char>>::empty());
    }
    RoleSyncRequest { account_id: linked_user.gd_account_id as i32, keep: kept, remove: removed }
}


/// Every linked role lands in exactly one of the two lists of a sync request:
/// the lists together are as long as the role list, a role the member holds
/// is among the kept ones, and a role the member does not hold is among the
/// removed ones.
pub proof fn law_sync_request_partitions_roles(member_roles: Seq<u64>, user: LinkedUser, roles: Seq<Role>)
    ensures
        sync_request_for(member_roles, user, roles).keep.len() + sync_request_for(member_roles, user, roles).remove.len()
            == roles.len(),
        forall|i: int|
            0 <= i < roles.len() ==> if holds_role(member_roles, #[trigger] roles[i].discord_id) {
                sync_request_for(member_roles, user, roles).keep.contains(roles[i].id@)
            } else {
                sync_request_for(member_roles, user, roles).remove.contains(roles[i].id@)
            },
    decreases roles.len(),
{
    if roles.len() > 0 {
        let rest = roles.drop_last();
        law_sync_request_partitions_roles(member_roles, user, rest);
        assert forall|i: int|
            0 <= i < roles.len() implies if holds_role(member_roles, #[trigger] roles[i].discord_id) {
                sync_request_for(member_roles, user, roles).keep.contains(roles[i].id@)
            } else {
                sync_request_for(member_roles, user, roles).remove.contains(roles[i].id@)
            } by {
            let kept = role_ids_where(member_roles, roles, true);
            let removed = role_ids_where(member_roles, roles, false);
            if i < roles.len() - 1 {
                assert(roles[i] == rest[i]);
                if holds_role(member_roles, roles[i].discord_id) {
                    let k = choose|k: int| 0 <= k < role_ids_where(member_roles, rest, true).len()
                        && role_ids_where(member_roles, rest, true)[k] == rest[i].id@;
                    assert(kept[k] == roles[i].id@);
                } else {
                    let k = choose|k: int| 0 <= k < role_ids_where(member_roles, rest, false).len()
                        && role_ids_where(member_roles, rest, false)[k] == rest[i].id@;
                    assert(removed[k] == roles[i].id@);
                }
            } else {
                if holds_role(member_roles, roles[i].discord_id) {
                    assert(kept[kept.len() - 1] == roles[i].id@);
                } else {
                    assert(removed[removed.len() - 1] == roles[i].id@);
                }
            }
        }
    }
}

/// Unlinking takes away exactly what a sync would take from a member who
/// holds no Discord roles at all: nothing is kept and every linked role is
/// removed, in order.
pub proof fn law_unlink_is_sync_without_roles(user: LinkedUser, roles: Seq<Role>)
    ensures
        sync_request_for(Seq::empty(), user, roles) == unlink_request_for(user, roles),
    decreases roles.len(),
{
    if roles.len() > 0 {
        law_unlink_is_sync_without_roles(user, roles.drop_last());
        assert(!holds_role(Seq::empty(), roles.last().discord_id));
        assert(roles.map_values(|r: Role| r.id@) =~= roles.drop_last().map_values(|r: Role| r.id@).push(
            roles.last().id@,
        ));
    } else {
        assert(roles.map_values(|r: Role| r.id@) =~= Seq::<Seq<char>>::empty());
    }
}


/// Whether the game server accepted a sync message: it answered with a 2xx status.
pub fn sync_accepted(status: u16) -> (r: bool)
    ensures
        r == (200 <= status && status < 300),
{
    crate::status::is_success(status)
}

/// The error a refused sync message ends with: the status and the body of
/// the answer, or `<no message>` when the body could not be read.
pub fn sync_rejection(status: u16, body: Option<String>) -> (e: RoleSyncError)
    ensures
        e matches RoleSyncError::ServerUpdate((s, m)) && s == status && m@ == match body {
            Some(b) => b@,
            None => "<no message>"@,
        },
{
    let message = match body {
        Some(b) => b,
        None => String::from_str("<no message>"),
    };
    RoleSyncError::ServerUpdate((status, message))
}

/// Every id in the list of roles with `holds_role == held` is the id of such
/// a role.
proof fn lemma_role_ids_where_from(member_roles: Seq<u64>, roles: Seq<Role>, held: bool, k: int)
    requires
        0 <= k < role_ids_where(member_roles, roles, held).len(),
    ensures
        exists|i: int|
            0 <= i < roles.len() && (#[trigger] roles[i]).id@ == role_ids_where(member_roles, roles, held)[k]
                && holds_role(member_roles, roles[i].discord_id) == held,
    decreases roles.len(),
{
    let rest = roles.drop_last();
    let ids = role_ids_where(member_roles, roles, held);
    if k < role_ids_where(member_roles, rest, held).len() {
        lemma_role_ids_where_from(member_roles, rest, held, k);
        let i = choose|i: int|
            0 <= i < rest.len() && (#[trigger] rest[i]).id@ == role_ids_where(member_roles, rest, held)[k]
                && holds_role(member_roles, rest[i].discord_id) == held;
        assert(roles[i] == rest[i]);
        assert(ids[k] == role_ids_where(member_roles, rest, held)[k]);
    } else {
        assert(roles[roles.len() - 1] == roles.last());
    }
}

/// What a sync request does with each linked role, in terms of the member's
/// Discord roles: a role whose Discord id matches any of the member's roles
/// (ids compared as stored, signed) is kept, one that matches none is
/// removed; nothing else is in either list, and the two lists together are
/// as long as the role list.
pub proof fn law_sync_keeps_exactly_held_roles(member_roles: Seq<u64>, user: LinkedUser, roles: Seq<Role>)
    ensures
        sync_request_for(member_roles, user, roles).account_id == user.gd_account_id as i32,
        sync_request_for(member_roles, user, roles).keep.len() + sync_request_for(member_roles, user, roles).remove.len()
            == roles.len(),
        forall|i: int, j: int|
            0 <= i < roles.len() && 0 <= j < member_roles.len() && #[trigger] member_roles[j] as i64
                == #[trigger] roles[i].discord_id ==> sync_request_for(member_roles, user, roles).keep.contains(
                roles[i].id@,
            ),
        forall|i: int|
            0 <= i < roles.len() && (forall|j: int|
                0 <= j < member_roles.len() ==> #[trigger] member_roles[j] as i64 != roles[i].discord_id)
                ==> sync_request_for(member_roles, user, roles).remove.contains(#[trigger] roles[i].id@),
        forall|k: int|
            #![trigger sync_request_for(member_roles, user, roles).keep[k]]
            0 <= k < sync_request_for(member_roles, user, roles).keep.len() ==> exists|i: int|
                0 <= i < roles.len() && (exists|j: int|
                    0 <= j < member_roles.len() && #[trigger] member_roles[j] as i64 == roles[i].discord_id)
                    && (#[trigger] roles[i]).id@ == sync_request_for(member_roles, user, roles).keep[k],
        forall|k: int|
            #![trigger sync_request_for(member_roles, user, roles).remove[k]]
            0 <= k < sync_request_for(member_roles, user, roles).remove.len() ==> exists|i: int|
                0 <= i < roles.len() && (forall|j: int|
                    0 <= j < member_roles.len() ==> #[trigger] member_roles[j] as i64 != roles[i].discord_id)
                    && (#[trigger] roles[i]).id@ == sync_request_for(member_roles, user, roles).remove[k],
{
    law_sync_request_partitions_roles(member_roles, user, roles);
    let req = sync_request_for(member_roles, user, roles);
    assert forall|i: int, j: int|
        0 <= i < roles.len() && 0 <= j < member_roles.len() && #[trigger] member_roles[j] as i64
            == #[trigger] roles[i].discord_id implies req.keep.contains(roles[i].id@) by {
        assert(holds_role(member_roles, roles[i].discord_id));
    }
    assert forall|i: int|
        0 <= i < roles.len() && (forall|j: int|
            0 <= j < member_roles.len() ==> #[trigger] member_roles[j] as i64 != roles[i].discord_id) implies req.remove.contains(
        #[trigger] roles[i].id@) by {
        assert(!holds_role(member_roles, roles[i].discord_id));
    }
    assert forall|k: int| #![trigger req.keep[k]] 0 <= k < req.keep.len() implies exists|i: int|
        0 <= i < roles.len() && (exists|j: int|
            0 <= j < member_roles.len() && #[trigger] member_roles[j] as i64 == roles[i].discord_id)
            && (#[trigger] roles[i]).id@ == req.keep[k] by {
        lemma_role_ids_where_from(member_roles, roles, true, k);
    }
    assert forall|k: int| #![trigger req.remove[k]] 0 <= k < req.remove.len() implies exists|i: int|
        0 <= i < roles.len() && (forall|j: int|
            0 <= j < member_roles.len() ==> #[trigger] member_roles[j] as i64 != roles[i].discord_id)
            && (#[trigger] roles[i]).id@ == req.remove[k] by {
        lemma_role_ids_where_from(member_roles, roles, false, k);
    }
}

} // verus!
