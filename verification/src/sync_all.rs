//! Syncing the roles of every linked member of the Discord server: the
//! members are scanned page by page, and each linked one gets a request.
use vstd::prelude::*;
use crate::db::{LinkedUser, Role};
use crate::state::{ascending, sort_ids};
use crate::sync::{
    make_role_sync_request_with, request_views, sync_request_for, RoleSyncRequest, RoleSyncRequestData,
    RoleSyncRequestView,
};

verus! {

/// A member of the Discord server as the scan reads it: who it is and which
/// Discord roles it holds.
pub struct GuildMember {
    pub user_id: u64,
    pub role_ids: Vec<u64>,
}

/// The first linked user whose Discord id is `id`.
pub open spec fn first_linked(users: Seq<LinkedUser>, id: u64) -> Option<LinkedUser>
    decreases users.len(),
{
    if users.len() == 0 {
        None
    } else if users[0].id == id as i64 {
        Some(users[0])
    } else {
        first_linked(users.drop_first(), id)
    }
}

/// The requests a page of members gives, in page order: one for each member
/// who is linked, built with the first link that names the member.
pub open spec fn page_requests(users: Seq<LinkedUser>, roles: Seq<Role>, page: Seq<GuildMember>) -> Seq<
    RoleSyncRequestView,
>
    decreases page.len(),
{
    if page.len() == 0 {
        Seq::empty()
    } else {
        let rest = page_requests(users, roles, page.drop_last());
        match first_linked(users, page.last().user_id) {
            Some(user) => rest.push(sync_request_for(page.last().role_ids@, user, roles)),
            None => rest,
        }
    }
}

/// `slice::binary_search` on an ascending list of ids, asked only whether
/// the id was found: it is found exactly when the list holds it.
#[verifier::external_body]
fn sorted_contains(ids: &[u64], id: u64) -> (r: bool)
    requires
        ascending(ids@),
    ensures
        r == ids@.contains(id),
{
    ids.binary_search(&id).is_ok()
}

/// A signed database id and an unsigned Discord id name the same user
/// exactly when one read as the other gives it.
proof fn lemma_id_casts(x: i64, y: u64)
    ensures
        (x as u64 == y) == (x == y as i64),
{
    assert((x as u64 == y) == (x == y as i64)) by (bit_vector);
}

proof fn lemma_first_linked_at(users: Seq<LinkedUser>, id: u64, i: int)
    requires
        0 <= i < users.len(),
        users[i].id == id as i64,
        forall|k: int| 0 <= k < i ==> users[k].id != id as i64,
    ensures
        first_linked(users, id) == Some(users[i]),
    decreases i,
{
    if i > 0 {
        lemma_first_linked_at(users.drop_first(), id, i - 1);
    }
}

proof fn lemma_first_linked_none(users: Seq<LinkedUser>, id: u64)
    requires
        forall|k: int| 0 <= k < users.len() ==> users[k].id != id as i64,
    ensures
        first_linked(users, id) is None,
    decreases users.len(),
{
    if users.len() > 0 {
        lemma_first_linked_none(users.drop_first(), id);
    }
}

/// Where the scan goes next.
pub enum ScanStep {
    /// Fetch the page of members that follows the member with id `after`
    /// (from the start when `None`).
    FetchPage { after: Option<u64> },
    /// The scan is over: send what was gathered.
    Send,
}

/// The links, with their Discord ids sorted for binary search.
struct LinkIndex {
    linked_ids: Vec<u64>,
    linked_users: Vec<LinkedUser>,
}

impl LinkIndex {
    #[verifier::type_invariant]
    closed spec fn ids_index_users(self) -> bool {
        &&& ascending(self.linked_ids@)
        &&& self.linked_ids@.to_multiset() == self.linked_users@.map_values(|u: LinkedUser| u.id as u64).to_multiset()
    }

    /// The index of the first link that names the Discord user `user_id`,
    /// when there is one.
    fn find_user(&self, user_id: u64) -> (r: Option<usize>)
        ensures
            match r {
                Some(k) => k < self.linked_users@.len() && first_linked(self.linked_users@, user_id) == Some(
                    self.linked_users@[k as int],
                ),
                None => first_linked(self.linked_users@, user_id) is None,
            },
    {
        let n = self.linked_users.len();
        for k in 0..n
            invariant
                n == self.linked_users@.len(),
                forall|j: int| 0 <= j < k ==> self.linked_users@[j].id != user_id as i64,
        {
            if self.linked_users[k].id == user_id as i64 {
                proof {
                    lemma_first_linked_at(self.linked_users@, user_id, k as int);
                }
                return Some(k);
            }
        }
        proof {
            lemma_first_linked_none(self.linked_users@, user_id);
        }
        None
    }

    /// Whether some link names the Discord user `user_id`, found by binary
    /// search in the sorted ids of the links.
    fn is_linked(&self, user_id: u64) -> (r: bool)
        ensures
            r == (first_linked(self.linked_users@, user_id) is Some),
    {
        proof {
            use_type_invariant(self);
        }
        let found = sorted_contains(self.linked_ids.as_slice(), user_id);
        proof {
            broadcast use vstd::seq_lib::group_to_multiset_ensures;

            let mapped = self.linked_users@.map_values(|u: LinkedUser| u.id as u64);
            assert(found == (mapped.to_multiset().count(user_id) > 0));
            if found {
                let k = choose|k: int| 0 <= k < mapped.len() && mapped[k] == user_id;
                lemma_id_casts(self.linked_users@[k].id, user_id);
                lemma_present_means_some(self.linked_users@, user_id, k);
            } else {
                if first_linked(self.linked_users@, user_id) is Some {
                    let k = lemma_some_means_present(self.linked_users@, user_id);
                    lemma_id_casts(self.linked_users@[k].id, user_id);
                    assert(mapped[k] == user_id);
                }
            }
        }
        found
    }
}

/// A scan of the Discord server's members in progress.
pub struct MemberScan {
    index: LinkIndex,
    roles: Vec<Role>,
    requests: Vec<RoleSyncRequest>,
}

impl MemberScan {
    /// The linked users the scan matches members against.
    pub closed spec fn users(self) -> Seq<LinkedUser> {
        self.index.linked_users@
    }

    /// The linked roles the requests are about.
    pub closed spec fn linked_roles(self) -> Seq<Role> {
        self.roles@
    }

    /// The requests gathered so far.
    pub closed spec fn gathered(self) -> Seq<RoleSyncRequestView> {
        request_views(self.requests@)
    }

    /// Starts a scan for the given links and linked roles, with nothing gathered.
    pub fn new(linked_users: Vec<LinkedUser>, roles: Vec<Role>) -> (scan: MemberScan)
        ensures
            scan.users() == linked_users@,
            scan.linked_roles() == roles@,
            scan.gathered() == Seq::<RoleSyncRequestView>::empty(),
    {
        let mut ids: Vec<u64> = Vec::new();
        let n = linked_users.len();
        for i in 0..n
            invariant
                n == linked_users@.len(),
                ids@ == linked_users@.take(i as int).map_values(|u: LinkedUser| u.id as u64),
        {
            ids.push(linked_users[i].id as u64);
            proof {
                assert(ids@ =~= linked_users@.take(i + 1).map_values(|u: LinkedUser| u.id as u64));
            }
        }
        proof {
            assert(linked_users@.take(n as int) =~= linked_users@);
        }
        sort_ids(&mut ids);
        let requests: Vec<RoleSyncRequest> = Vec::new();
        proof {
            assert(request_views(requests@) =~= Seq::<RoleSyncRequestView>::empty());
        }
        MemberScan { index: LinkIndex { linked_ids: ids, linked_users }, roles, requests }
    }

    /// The first step of a scan: fetch the first page.
    pub fn first_step(&self) -> (step: ScanStep)
        ensures
            step == (ScanStep::FetchPage { after: None }),
    {
        ScanStep::FetchPage { after: None }
    }

    /// Takes in the answer to a page fetch. A failed fetch (`None`) or an
    /// empty page ends the scan; otherwise every linked member of the page
    /// gets its request, in page order, and the next page starts after the
    /// last member of this one.
    pub fn on_page(&mut self, page: Option<Vec<GuildMember>>) -> (step: ScanStep)
        ensures
            final(self).users() == old(self).users(),
            final(self).linked_roles() == old(self).linked_roles(),
            match page {
                None => step == ScanStep::Send && final(self).gathered() == old(self).gathered(),
                Some(members) => if members@.len() == 0 {
                    step == ScanStep::Send && final(self).gathered() == old(self).gathered()
                } else {
                    step == (ScanStep::FetchPage { after: Some(members@.last().user_id) })
                        && final(self).gathered() == old(self).gathered() + page_requests(
                        old(self).users(),
                        old(self).linked_roles(),
                        members@,
                    )
                },
            },
    {
        let members = match page {
            None => return ScanStep::Send,
            Some(members) => members,
        };
        let n = members.len();
        if n == 0 {
            return ScanStep::Send;
        }
        for i in 0..n
            invariant
                n == members@.len(),
                self.users() == old(self).users(),
                self.linked_roles() == old(self).linked_roles(),
                self.gathered() == old(self).gathered() + page_requests(
                    old(self).users(),
                    old(self).linked_roles(),
                    members@.take(i as int),
                ),
        {
            let member = &members[i];
            proof {
                assert(members@.take(i + 1).drop_last() =~= members@.take(i as int));
                assert(members@.take(i + 1).last() == *member);
            }
            if self.index.is_linked(member.user_id) {
                match self.index.find_user(member.user_id) {
                    Some(k) => {
                        let req = make_role_sync_request_with(
                            member.role_ids.as_slice(),
                            &self.index.linked_users[k],
                            self.roles.as_slice(),
                        );
                        let ghost before = self.requests@;
                        self.requests.push(req);
                        proof {
                            assert(request_views(self.requests@) =~= request_views(before).push(req@));
                        }
                    },
                    None => {},
                }
            }
        }
        proof {
            assert(members@.take(n as int) =~= members@);
        }
        ScanStep::FetchPage { after: Some(members[n - 1].user_id) }
    }

    /// Ends the scan: the sync message with every request gathered.
    pub fn into_data(self) -> (data: RoleSyncRequestData)
        ensures
            request_views(data.users@) == self.gathered(),
    {
        RoleSyncRequestData { users: self.requests }
    }
}

proof fn lemma_present_means_some(users: Seq<LinkedUser>, id: u64, k: int)
    requires
        0 <= k < users.len(),
        users[k].id == id as i64,
    ensures
        first_linked(users, id) is Some,
    decreases users.len(),
{
    if users[0].id != id as i64 {
        lemma_present_means_some(users.drop_first(), id, k - 1);
    }
}

proof fn lemma_some_means_present(users: Seq<LinkedUser>, id: u64) -> (k: int)
    requires
        first_linked(users, id) is Some,
    ensures
        0 <= k < users.len(),
        users[k].id == id as i64,
    decreases users.len(),
{
    if users[0].id == id as i64 {
        0
    } else {
        lemma_some_means_present(users.drop_first(), id) + 1
    }
}


/// How Discord splits the members into pages does not matter: the requests
/// of two pages in a row are those of the one page made of both.
pub proof fn law_paging_does_not_matter(
    users: Seq<LinkedUser>,
    roles: Seq<Role>,
    first: Seq<GuildMember>,
    second: Seq<GuildMember>,
)
    ensures
        page_requests(users, roles, first + second) == page_requests(users, roles, first) + page_requests(
            users,
            roles,
            second,
        ),
    decreases second.len(),
{
    if second.len() == 0 {
        assert(first + second =~= first);
        assert(page_requests(users, roles, first) + Seq::<RoleSyncRequestView>::empty() =~= page_requests(
            users,
            roles,
            first,
        ));
    } else {
        law_paging_does_not_matter(users, roles, first, second.drop_last());
        assert((first + second).drop_last() =~= first + second.drop_last());
        assert((first + second).last() == second.last());
        let a = page_requests(users, roles, first);
        let b = page_requests(users, roles, second.drop_last());
        match first_linked(users, second.last().user_id) {
            Some(user) => {
                let req = sync_request_for(second.last().role_ids@, user, roles);
                assert((a + b).push(req) =~= a + b.push(req));
            },
            None => {},
        }
    }
}

/// Only linked members get requests, and each of them exactly one: a page
/// gives as many requests as it has members that some link names.
pub proof fn law_one_request_per_linked_member(users: Seq<LinkedUser>, roles: Seq<Role>, page: Seq<GuildMember>)
    ensures
        page_requests(users, roles, page).len() == page.filter(
            |m: GuildMember| first_linked(users, m.user_id) is Some,
        ).len(),
    decreases page.len(),
{
    reveal(Seq::filter);
    if page.len() > 0 {
        law_one_request_per_linked_member(users, roles, page.drop_last());
    }
}

/// Which link names a member: when some link names the Discord user `id`
/// (its stored id read as `id`), the first such link in the list; when none
/// does, no link.
pub proof fn law_first_linked_is_first_match(users: Seq<LinkedUser>, id: u64)
    ensures
        (exists|k: int| 0 <= k < users.len() && (#[trigger] users[k]).id == id as i64) ==> exists|k: int|
            0 <= k < users.len() && users[k].id == id as i64 && (forall|l: int|
                0 <= l < k ==> (#[trigger] users[l]).id != id as i64) && first_linked(users, id) == Some(
                #[trigger] users[k],
            ),
        (forall|k: int| 0 <= k < users.len() ==> (#[trigger] users[k]).id != id as i64) ==> first_linked(users, id)
            is None,
{
    if exists|k: int| 0 <= k < users.len() && (#[trigger] users[k]).id == id as i64 {
        lemma_present_means_some(users, id, choose|k: int| 0 <= k < users.len() && (#[trigger] users[k]).id == id as i64);
        let k = lemma_first_index(users, id);
        lemma_first_linked_at(users, id, k);
    } else {
        lemma_first_linked_none(users, id);
    }
}

proof fn lemma_first_index(users: Seq<LinkedUser>, id: u64) -> (k: int)
    requires
        first_linked(users, id) is Some,
    ensures
        0 <= k < users.len(),
        users[k].id == id as i64,
        forall|l: int| 0 <= l < k ==> users[l].id != id as i64,
    decreases users.len(),
{
    if users[0].id == id as i64 {
        0
    } else {
        let k = lemma_first_index(users.drop_first(), id) + 1;
        assert forall|l: int| 0 <= l < k implies users[l].id != id as i64 by {
            if l > 0 {
                assert(users[l] == users.drop_first()[l - 1]);
            }
        }
        k
    }
}

/// The scan syncs each member it meets exactly as a sync of that one member
/// would: a member named by a link gets one request, the one built from the
/// member's Discord roles and the first link that names it, so every linked
/// role the member does not hold is in its remove list; a member named by no
/// link gets none.
pub proof fn law_scan_request_is_member_sync(users: Seq<LinkedUser>, roles: Seq<Role>, member: GuildMember)
    ensures
        first_linked(users, member.user_id) matches Some(user) ==> page_requests(users, roles, seq![member])
            == seq![sync_request_for(member.role_ids@, user, roles)],
        first_linked(users, member.user_id) is None ==> page_requests(users, roles, seq![member]) == Seq::<
            RoleSyncRequestView,
        >::empty(),
        first_linked(users, member.user_id) is Some ==> forall|i: int|
            0 <= i < roles.len() && (forall|j: int|
                0 <= j < member.role_ids@.len() ==> #[trigger] member.role_ids@[j] as i64 != roles[i].discord_id)
                ==> page_requests(users, roles, seq![member])[0].remove.contains(#[trigger] roles[i].id@),
{
    let page = seq![member];
    assert(page.drop_last() =~= Seq::<GuildMember>::empty());
    assert(page.last() == member);
    assert(page_requests(users, roles, Seq::<GuildMember>::empty()) == Seq::<RoleSyncRequestView>::empty());
    match first_linked(users, member.user_id) {
        Some(user) => {
            assert(Seq::<RoleSyncRequestView>::empty().push(sync_request_for(member.role_ids@, user, roles)) =~= seq![
                sync_request_for(member.role_ids@, user, roles),
            ]);
            crate::sync::law_sync_keeps_exactly_held_roles(member.role_ids@, user, roles);
        },
        None => {},
    }
}

} // verus!
