//! What the bot knows while it runs (the game server's address and password,
//! the Discord server it serves, the Discord roles it watches), how that
//! changes as linked roles are added and removed, and the errors of its
//! operations with how database failures turn into them.
use vstd::prelude::*;
use crate::status::{status_display, status_text};
use crate::db::{LinkedUser, Role};
use vstd::std_specs::convert::FromSpec;
use vstd::string::*;

verus! {

/// A failed database query, as the database layer reports it.
pub enum DbError {
    /// The query expected a row and found none.
    RowNotFound { text: String },
    /// The database itself refused the statement, with its own `message`.
    Database { message: String, text: String },
    /// Any other failure (connection, decoding, ...).
    Other { text: String },
}

impl DbError {
    /// The error's full text, as shown to people.
    pub open spec fn text_of(&self) -> Seq<char> {
        match self {
            DbError::RowNotFound { text } => text@,
            DbError::Database { text, .. } => text@,
            DbError::Other { text } => text@,
        }
    }

    /// The error's full text.
    pub fn into_text(self) -> (s: String)
        ensures
            s@ == self.text_of(),
    {
        match self {
            DbError::RowNotFound { text } => text,
            DbError::Database { text, .. } => text,
            DbError::Other { text } => text,
        }
    }
}

/// The answer of the game server to a lookup by name.
pub struct UserLookupResponse {
    pub account_id: i32,
    pub name: String,
}

/// Why roles could not be synced with the game server.
pub enum RoleSyncError {
    /// The Discord user is linked to no game account.
    NotLinked,
    /// The database failed; its text.
    Database(String),
    /// The request to the server could not be made; the transport's text.
    ServerRequest(String),
    /// The bot itself failed; what went wrong.
    InternalError(&'static str),
    /// The server answered with a failure status and this message.
    ServerUpdate((u16, String)),
}

/// The text a role sync error is shown as.
pub open spec fn role_sync_error_text(e: RoleSyncError) -> Seq<char> {
    match e {
        RoleSyncError::NotLinked => "User not linked"@,
        RoleSyncError::Database(m) => "Database error: "@ + m@,
        RoleSyncError::ServerRequest(m) => "Error making a request to the server: "@ + m@,
        RoleSyncError::InternalError(m) => "Internal error: "@ + m@,
        RoleSyncError::ServerUpdate((code, m)) => "Server returned error (code "@ + status_display(code)
            + "): "@ + m@,
    }
}

impl RoleSyncError {
    /// The error's text, as it is shown to people.
    pub fn message(&self) -> (s: String)
        ensures
            s@ == role_sync_error_text(*self),
    {
        match self {
            RoleSyncError::NotLinked => String::from_str("User not linked"),
            RoleSyncError::Database(m) => String::from_str("Database error: ").concat(m.as_str()),
            RoleSyncError::ServerRequest(m) => String::from_str(
                "Error making a request to the server: ",
            ).concat(m.as_str()),
            RoleSyncError::InternalError(m) => String::from_str("Internal error: ").concat(m),
            RoleSyncError::ServerUpdate((code, m)) => {
                let mut s = String::from_str("Server returned error (code ");
                s.append(status_text(*code).as_str());
                s.append("): ");
                s.append(m.as_str());
                s
            },
        }
    }
}

impl From<DbError> for RoleSyncError {
    fn from(value: DbError) -> (r: Self) {
        match value {
            DbError::RowNotFound { .. } => RoleSyncError::NotLinked,
            DbError::Database { text, .. } => RoleSyncError::Database(text),
            DbError::Other { text } => RoleSyncError::Database(text),
        }
    }
}

/// A missing row means the user is not linked; any other database failure
/// is kept with its text.
impl vstd::std_specs::convert::FromSpecImpl<DbError> for RoleSyncError {
    open spec fn obeys_from_spec() -> bool {
        true
    }

    open spec fn from_spec(v: DbError) -> Self {
        match v {
            DbError::RowNotFound { .. } => RoleSyncError::NotLinked,
            DbError::Database { text, .. } => RoleSyncError::Database(text),
            DbError::Other { text } => RoleSyncError::Database(text),
        }
    }
}

/// Why a linked role could not be removed.
pub enum RoleRemoveError {
    Database(String),
    /// No linked role matched.
    NotFound,
}

/// The text a role removal error is shown as.
pub open spec fn role_remove_error_text(e: RoleRemoveError) -> Seq<char> {
    match e {
        RoleRemoveError::Database(m) => "Database error: "@ + m@,
        RoleRemoveError::NotFound => "Role not found"@,
    }
}

impl RoleRemoveError {
    /// The error's text, as it is shown to people.
    pub fn message(&self) -> (s: String)
        ensures
            s@ == role_remove_error_text(*self),
    {
        match self {
            RoleRemoveError::Database(m) => String::from_str("Database error: ").concat(m.as_str()),
            RoleRemoveError::NotFound => String::from_str("Role not found"),
        }
    }
}

impl From<DbError> for RoleRemoveError {
    fn from(value: DbError) -> (r: Self) {
        match value {
            DbError::RowNotFound { .. } => RoleRemoveError::NotFound,
            DbError::Database { text, .. } => RoleRemoveError::Database(text),
            DbError::Other { text } => RoleRemoveError::Database(text),
        }
    }
}

/// A missing row means there was no such role; any other database failure is
/// kept with its text.
impl vstd::std_specs::convert::FromSpecImpl<DbError> for RoleRemoveError {
    open spec fn obeys_from_spec() -> bool {
        true
    }

    open spec fn from_spec(v: DbError) -> Self {
        match v {
            DbError::RowNotFound { .. } => RoleRemoveError::NotFound,
            DbError::Database { text, .. } => RoleRemoveError::Database(text),
            DbError::Other { text } => RoleRemoveError::Database(text),
        }
    }
}

/// Why a Discord member could not be linked to a Geometry Dash account.
pub enum LinkError {
    /// The member is already linked.
    AlreadyLinked,
    /// The name is not ASCII or longer than 16 bytes.
    InvalidUsername,
    /// The lookup request could not be made; the transport's text.
    ServerRequest(String),
    /// The server answered the lookup with this failure status and message.
    ServerInternalError(u16, String),
    /// The server knows no such user.
    UserNotFound,
    /// The server's answer did not parse: the parser's diagnostic and the answer.
    ServerMalformedResponse(String, String),
    /// The database failed; its text.
    Database(String),
    /// The link was stored but the roles could not be synced.
    RoleSync(RoleSyncError, UserLookupResponse),
    /// The game account is linked to another Discord user, shown as given.
    LinkedToOther(String),
}

impl From<DbError> for LinkError {
    fn from(value: DbError) -> (r: Self) {
        match value {
            DbError::RowNotFound { text } => LinkError::Database(text),
            DbError::Database { text, .. } => LinkError::Database(text),
            DbError::Other { text } => LinkError::Database(text),
        }
    }
}

/// Every database failure during linking is kept with its text.
impl vstd::std_specs::convert::FromSpecImpl<DbError> for LinkError {
    open spec fn obeys_from_spec() -> bool {
        true
    }

    open spec fn from_spec(v: DbError) -> Self {
        match v {
            DbError::RowNotFound { text } => LinkError::Database(text),
            DbError::Database { text, .. } => LinkError::Database(text),
            DbError::Other { text } => LinkError::Database(text),
        }
    }
}


/// A Discord id as the database holds it (signed) read back as the unsigned
/// id Discord uses.
pub open spec fn as_discord_id(id: i64) -> u64 {
    id as u64
}

/// Whether a list of ids is in ascending order.
pub open spec fn ascending(s: Seq<u64>) -> bool {
    forall|i: int, j: int| 0 <= i <= j < s.len() ==> s[i] <= s[j]
}

/// `slice::sort` on a list of ids: the list ends up in ascending order and
/// holds the same ids as many times as before.
#[verifier::external_body]
pub(crate) fn sort_ids(ids: &mut Vec<u64>)
    ensures
        ascending(final(ids)@),
        final(ids)@.to_multiset() == old(ids)@.to_multiset(),
{
    ids.sort();
}

/// The text of a base URL with one trailing `/` taken off, if it has one.
pub open spec fn without_trailing_slash(s: Seq<char>) -> Seq<char> {
    if s.len() > 0 && s.last() == '/' {
        s.drop_last()
    } else {
        s
    }
}

/// Takes one trailing `/` off the game server's base URL.
pub fn normalize_base_url(url: String) -> (r: String)
    ensures
        r@ == without_trailing_slash(url@),
{
    let n = url.as_str().unicode_len();
    if n > 0 && url.as_str().get_char(n - 1) == '/' {
        String::from_str(url.as_str().substring_char(0, n - 1))
    } else {
        url
    }
}

/// Why the configured server id cannot be used.
#[derive(Debug, PartialEq, Eq, Structural)]
pub enum GuildIdError {
    /// The text is not an unsigned 64-bit number.
    NotAnInteger,
    /// The number is 0, which is no Discord id.
    Zero,
}

/// Reads the id of the Discord server the bot serves.
pub fn parse_guild_id(text: &str) -> (r: Result<u64, GuildIdError>)
    ensures
        match crate::text::parsed_u64(text@) {
            None => r == Err::<u64, GuildIdError>(GuildIdError::NotAnInteger),
            Some(n) => if n == 0 {
                r == Err::<u64, GuildIdError>(GuildIdError::Zero)
            } else {
                r == Ok::<u64, GuildIdError>(n)
            },
        },
{
    match crate::text::parse_u64(text) {
        None => Err(GuildIdError::NotAnInteger),
        Some(n) => if n == 0 {
            Err(GuildIdError::Zero)
        } else {
            Ok(n)
        },
    }
}

/// What the bot knows while it runs: where the game server is, how to
/// authenticate to it, which Discord server it serves, and which Discord
/// roles it watches.
pub struct BotState {
    /// The game server's base URL, without a trailing `/`.
    pub base_url: String,
    pub server_password: String,
    pub guild_id: u64,
    /// Ids of the Discord roles that are linked to game server roles.
    pub watched_roles: Vec<u64>,
}

/// Where and how a role sync message is sent: POST to `url`, with
/// `authorization` as the `Authorization` header.
pub struct SyncTarget {
    pub url: String,
    pub authorization: String,
}

/// Whether an id occurs in a list.
fn list_contains(ids: &Vec<u64>, id: u64) -> (r: bool)
    ensures
        r == ids@.contains(id),
{
    let n = ids.len();
    for i in 0..n
        invariant
            n == ids@.len(),
            forall|k: int| 0 <= k < i ==> ids@[k] != id,
    {
        if ids[i] == id {
            return true;
        }
    }
    false
}

/// The watched roles after a role is added: the id joins the list unless it
/// is there already.
pub open spec fn watched_after_add(watched: Seq<u64>, id: u64) -> Seq<u64> {
    if watched.contains(id) {
        watched
    } else {
        watched.push(id)
    }
}

/// Whether `after` is `before` with the first occurrence of `id` taken out,
/// or `before` itself when `id` does not occur.
pub open spec fn removes_first(before: Seq<u64>, after: Seq<u64>, id: u64) -> bool {
    if before.contains(id) {
        exists|i: int|
            0 <= i < before.len() && before[i] == id && (forall|j: int| 0 <= j < i ==> before[j] != id) && after
                == #[trigger] before.remove(i)
    } else {
        after == before
    }
}

impl BotState {
    /// Sets the bot up: the base URL loses a trailing `/`, and the watched
    /// roles are the Discord ids of the linked roles, in the given order.
    pub fn new(base_url: String, server_password: String, guild_id: u64, roles: &[Role]) -> (s: BotState)
        requires
            guild_id != 0,
            forall|i: int| 0 <= i < roles@.len() ==> (#[trigger] roles@[i]).discord_id != 0,
        ensures
            s.base_url@ == without_trailing_slash(base_url@),
            s.server_password@ == server_password@,
            s.guild_id == guild_id,
            s.watched_roles@ == roles@.map_values(|r: Role| as_discord_id(r.discord_id)),
    {
        let mut watched: Vec<u64> = Vec::new();
        let n = roles.len();
        for i in 0..n
            invariant
                n == roles@.len(),
                watched@ == roles@.take(i as int).map_values(|r: Role| as_discord_id(r.discord_id)),
        {
            watched.push(roles[i].discord_id as u64);
            proof {
                assert(watched@ =~= roles@.take(i + 1).map_values(|r: Role| as_discord_id(r.discord_id)));
            }
        }
        proof {
            assert(roles@.take(n as int) =~= roles@);
        }
        BotState { base_url: normalize_base_url(base_url), server_password, guild_id, watched_roles: watched }
    }

    /// Where the game server is asked who a Geometry Dash user is.
    pub fn lookup_url(&self, gd_username: &str) -> (url: String)
        ensures
            url@ == self.base_url@ + "/gsp/lookup?username="@ + gd_username@,
    {
        let mut url = self.base_url.clone();
        url.append("/gsp/lookup?username=");
        url.append(gd_username);
        url
    }

    /// The value of the `Authorization` header of every request to the game
    /// server: the server password.
    pub fn authorization(&self) -> (value: String)
        ensures
            value@ == self.server_password@,
    {
        self.server_password.clone()
    }

    /// Where and how role sync messages are sent: to the sync endpoint of
    /// the game server, authorized with the server password.
    pub fn sync_target(&self) -> (t: SyncTarget)
        ensures
            t.url@ == self.base_url@ + "/gsp/sync_roles"@,
            t.authorization@ == self.server_password@,
    {
        SyncTarget { url: self.sync_roles_url(), authorization: self.authorization() }
    }

    /// Where role sync requests are sent.
    pub fn sync_roles_url(&self) -> (url: String)
        ensures
            url@ == self.base_url@ + "/gsp/sync_roles"@,
    {
        self.base_url.clone().concat("/gsp/sync_roles")
    }

    /// Starts watching a newly linked Discord role: the id joins the list
    /// unless it is there already, and the list is sorted.
    pub fn watch_role(&mut self, role_id: i64)
        requires
            role_id != 0,
        ensures
            final(self).watched_roles@.to_multiset() == watched_after_add(
                old(self).watched_roles@,
                as_discord_id(role_id),
            ).to_multiset(),
            ascending(final(self).watched_roles@),
            final(self).base_url == old(self).base_url,
            final(self).server_password == old(self).server_password,
            final(self).guild_id == old(self).guild_id,
    {
        let id = role_id as u64;
        if !list_contains(&self.watched_roles, id) {
            self.watched_roles.push(id);
        }
        sort_ids(&mut self.watched_roles);
    }

    /// Stops watching a Discord role whose link was removed: its first
    /// occurrence leaves the list, which is otherwise kept as it was.
    pub fn unwatch_role(&mut self, role_id: i64)
        requires
            role_id != 0,
        ensures
            removes_first(old(self).watched_roles@, final(self).watched_roles@, as_discord_id(role_id)),
            final(self).base_url == old(self).base_url,
            final(self).server_password == old(self).server_password,
            final(self).guild_id == old(self).guild_id,
    {
        let id = role_id as u64;
        let n = self.watched_roles.len();
        let mut i: usize = 0;
        while i < n
            invariant
                n == self.watched_roles@.len(),
                self.watched_roles@ == old(self).watched_roles@,
                self.base_url == old(self).base_url,
                self.server_password == old(self).server_password,
                self.guild_id == old(self).guild_id,
                id == as_discord_id(role_id),
                i <= n,
                forall|k: int| 0 <= k < i ==> self.watched_roles@[k] != id,
            decreases n - i,
        {
            if self.watched_roles[i] == id {
                self.watched_roles.remove(i);
                proof {
                    assert(old(self).watched_roles@.contains(id));
                    assert(self.watched_roles@ == old(self).watched_roles@.remove(i as int));
                }
                return;
            }
            i = i + 1;
        }
    }

    /// Completes the addition of a linked role once the database has
    /// answered: a failure is handed back, success starts watching the role.
    pub fn finish_role_addition(&mut self, role_id: i64, inserted: Result<(), DbError>) -> (r: Result<(), DbError>)
        requires
            inserted is Ok ==> role_id != 0,
        ensures
            inserted is Err ==> r == inserted && final(self).watched_roles == old(self).watched_roles,
            inserted is Ok ==> r is Ok && final(self).watched_roles@.to_multiset() == watched_after_add(
                old(self).watched_roles@,
                as_discord_id(role_id),
            ).to_multiset() && ascending(final(self).watched_roles@),
            final(self).base_url == old(self).base_url,
            final(self).guild_id == old(self).guild_id,
            final(self).server_password == old(self).server_password,
    {
        match inserted {
            Err(e) => Err(e),
            Ok(()) => {
                self.watch_role(role_id);
                Ok(())
            },
        }
    }

    /// Completes the removal of a linked role by its Discord id once the
    /// database has said how many rows it deleted: none means there was no
    /// such role; otherwise the role is no longer watched.
    pub fn finish_role_removal(&mut self, role_id: i64, affected: u64) -> (r: Result<(), RoleRemoveError>)
        requires
            affected != 0 ==> role_id != 0,
        ensures
            affected == 0 ==> r == Err::<(), RoleRemoveError>(RoleRemoveError::NotFound) && final(self).watched_roles
                == old(self).watched_roles,
            affected != 0 ==> r is Ok && removes_first(
                old(self).watched_roles@,
                final(self).watched_roles@,
                as_discord_id(role_id),
            ),
            final(self).base_url == old(self).base_url,
            final(self).guild_id == old(self).guild_id,
            final(self).server_password == old(self).server_password,
    {
        if affected == 0 {
            return Err(RoleRemoveError::NotFound);
        }
        self.unwatch_role(role_id);
        Ok(())
    }

    /// Completes the removal of a linked role by its game server id once the
    /// database has handed back the deleted row (or failed): a missing row
    /// means there was no such role; otherwise the deleted role's Discord id
    /// is no longer watched.
    pub fn finish_removal_by_globed_id(&mut self, deleted: Result<Role, DbError>) -> (r: Result<(), RoleRemoveError>)
        requires
            deleted matches Ok(role) ==> role.discord_id != 0,
        ensures
            match deleted {
                Ok(role) => r is Ok && removes_first(
                    old(self).watched_roles@,
                    final(self).watched_roles@,
                    as_discord_id(role.discord_id),
                ),
                Err(e) => r == Err::<(), RoleRemoveError>(RoleRemoveError::from_spec(e)) && final(self).watched_roles == old(
                    self,
                ).watched_roles,
            },
            final(self).base_url == old(self).base_url,
            final(self).guild_id == old(self).guild_id,
            final(self).server_password == old(self).server_password,
    {
        match deleted {
            Err(e) => Err(RoleRemoveError::from(e)),
            Ok(role) => {
                self.unwatch_role(role.discord_id);
                Ok(())
            },
        }
    }
}

/// The Geometry Dash account a Discord user is linked to, from the answer to
/// the lookup of the user's row: the account id read as 32 bits, `None` for
/// no row or an id that reads as 0; any other failure is handed back.
pub fn linked_gd_account(row: Result<LinkedUser, DbError>) -> (r: Result<Option<i32>, DbError>)
    ensures
        match row {
            Ok(user) => r == Ok::<Option<i32>, DbError>(
                if user.gd_account_id as i32 == 0 {
                    None
                } else {
                    Some(user.gd_account_id as i32)
                },
            ),
            Err(e) => match e {
                DbError::RowNotFound { .. } => r == Ok::<Option<i32>, DbError>(None),
                _ => r == Err::<Option<i32>, DbError>(e),
            },
        },
{
    match row {
        Ok(user) => {
            let account = user.gd_account_id as i32;
            if account == 0 {
                Ok(None)
            } else {
                Ok(Some(account))
            }
        },
        Err(DbError::RowNotFound { .. }) => Ok(None),
        Err(e) => Err(e),
    }
}

/// The Discord user linked to a Geometry Dash account, from the answer to
/// the lookup of the account's row: `None` for no row; any other failure is
/// handed back.
pub fn linked_discord_account(row: Result<LinkedUser, DbError>) -> (r: Result<Option<u64>, DbError>)
    requires
        row matches Ok(user) ==> user.id != 0,
    ensures
        match row {
            Ok(user) => r == Ok::<Option<u64>, DbError>(Some(as_discord_id(user.id))),
            Err(e) => match e {
                DbError::RowNotFound { .. } => r == Ok::<Option<u64>, DbError>(None),
                _ => r == Err::<Option<u64>, DbError>(e),
            },
        },
{
    match row {
        Ok(user) => Ok(Some(user.id as u64)),
        Err(DbError::RowNotFound { .. }) => Ok(None),
        Err(e) => Err(e),
    }
}


/// Once a role has been added, it is watched: whatever order the watched list
/// ends up in, it holds the role's id.
pub proof fn law_added_role_is_watched(before: Seq<u64>, after: Seq<u64>, id: u64)
    requires
        after.to_multiset() == watched_after_add(before, id).to_multiset(),
    ensures
        after.contains(id),
{
    broadcast use vstd::seq_lib::group_to_multiset_ensures;

    let added = watched_after_add(before, id);
    assert(added.contains(id)) by {
        if !before.contains(id) {
            assert(before.push(id)[before.len() as int] == id);
        }
    }
    assert(added.to_multiset().count(id) > 0);
    assert(after.to_multiset().count(id) > 0);
}

/// Adding a role never makes an id appear twice: a watched list without
/// duplicates stays without duplicates.
pub proof fn law_add_keeps_ids_distinct(before: Seq<u64>, after: Seq<u64>, id: u64)
    requires
        before.no_duplicates(),
        after.to_multiset() == watched_after_add(before, id).to_multiset(),
    ensures
        after.no_duplicates(),
{
    broadcast use vstd::seq_lib::group_to_multiset_ensures;

    let added = watched_after_add(before, id);
    assert(added.no_duplicates()) by {
        if !before.contains(id) {
            assert forall|i: int, j: int| 0 <= i < added.len() && 0 <= j < added.len() && i != j implies added[i]
                != added[j] by {
                if i < before.len() && j < before.len() {
                } else if i == before.len() {
                    assert(before.contains(added[j]) || j == before.len());
                } else {
                    assert(before.contains(added[i]) || i == before.len());
                }
            }
        }
    }
    added.lemma_multiset_has_no_duplicates();
    assert forall|i: int, j: int| 0 <= i < after.len() && 0 <= j < after.len() && i != j implies after[i]
        != after[j] by {
        if after[i] == after[j] {
            let x = after[i];
            assert(after.remove(i).contains(x)) by {
                if j < i {
                    assert(after.remove(i)[j] == x);
                } else {
                    assert(after.remove(i)[j - 1] == x);
                }
            }
            assert(after.remove(i).to_multiset() =~= after.to_multiset().remove(x));
            assert(after.remove(i).to_multiset().count(x) > 0);
            assert(after.to_multiset().count(x) >= 2);
            assert(added.to_multiset().count(x) >= 2);
            assert(added.to_multiset().contains(x));
        }
    }
}

/// Removing a role that was just added undoes the addition: when the role
/// was not watched before, the watched ids afterwards are the ones before,
/// each as many times.
pub proof fn law_remove_undoes_add(before: Seq<u64>, added: Seq<u64>, removed: Seq<u64>, id: u64)
    requires
        !before.contains(id),
        added.to_multiset() == watched_after_add(before, id).to_multiset(),
        removes_first(added, removed, id),
    ensures
        removed.to_multiset() == before.to_multiset(),
{
    broadcast use vstd::seq_lib::group_to_multiset_ensures;

    law_added_role_is_watched(before, added, id);
    let i = choose|i: int|
        0 <= i < added.len() && added[i] == id && (forall|j: int| 0 <= j < i ==> added[j] != id) && removed
            == #[trigger] added.remove(i);
    assert(removed.to_multiset() =~= added.to_multiset().remove(id));
    assert(before.to_multiset().insert(id).remove(id) =~= before.to_multiset());
}

} // verus!
