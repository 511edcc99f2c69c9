//! Users: the identities that register for and take tests.
//!
//! The user table itself is plain data owned by the identity subsystem;
//! the library reads it, joins it against the permission catalog, and
//! never invents rows behind the caller's back.

use vstd::prelude::*;

use crate::condense::dedup_ids;
use crate::condense::lemma_dedup_contains;
use crate::errors::Error;
use crate::errors::ErrorKind;
use crate::permissions::check_to_run;
use crate::permissions::spec_allowed;
use crate::permissions::spec_find_user;
use crate::permissions::spec_user_permissions;
use crate::permissions::Permission;
use crate::permissions::PermissionStore;
use crate::permissions::UserPermission;
use crate::search::contains_sub;
use crate::search::str_contains;
use crate::search::str_eq;
use crate::search::Search;

verus! {

/// A row of the user table.
#[derive(Debug, Clone)]
pub struct RawUser {
    pub id: u64,
    pub first_name: String,
    pub last_name: String,
    pub banner_id: u32,
    pub email: String,
}

/// A user row to insert: everything but the assigned id.
#[derive(Debug)]
pub struct NewRawUser {
    pub first_name: String,
    pub last_name: String,
    pub banner_id: u32,
    pub email: String,
}

/// One row of the user/permission left join.
#[derive(Debug)]
pub struct JoinedUser {
    pub user: RawUser,
    pub permission: Option<Permission>,
}

/// A user together with every capability granted to them.
#[derive(Debug)]
pub struct User {
    pub id: u64,
    pub first_name: String,
    pub last_name: String,
    pub banner_id: u32,
    pub email: String,
    pub permissions: Vec<Permission>,
}

/// A user to create, with the ids of the capabilities to grant at birth.
#[derive(Debug)]
pub struct NewUser {
    pub first_name: String,
    pub last_name: String,
    pub banner_id: u32,
    pub email: String,
    pub permissions: Vec<u64>,
}

/// A partial update: only the present fields change.
#[derive(Debug)]
pub struct PartialUser {
    pub first_name: Option<String>,
    pub last_name: Option<String>,
    pub banner_id: Option<u32>,
    pub email: Option<String>,
}

/// Which users to report: one directive per searchable column.
#[derive(Debug)]
pub struct SearchUser {
    pub first_name: Search<String>,
    pub last_name: Search<String>,
    pub banner_id: Search<u32>,
    pub email: Search<String>,
}

#[derive(Debug)]
pub struct UserList {
    pub users: Vec<User>,
}

/// The typed commands of the user endpoint.
#[derive(Debug)]
pub enum UserRequest {
    SearchUsers(SearchUser),
    GetUser(u64),
    CreateUser(NewUser),
    UpdateUser(u64, PartialUser),
    DeleteUser(u64),
}

#[derive(Debug)]
pub enum UserResponse {
    OneUser(User),
    ManyUsers(UserList),
    NoResponse,
}

/// The user table with its id sequence.
pub struct UserStore {
    pub users: Vec<RawUser>,
    pub next_user_id: u64,
}

impl UserStore {
    /// Well-formedness: ids are unique and below the id sequence.
    pub open spec fn wf(self) -> bool {
        &&& forall|i: int, j: int|
            0 <= i < j < self.users@.len() ==> self.users@[i].id != self.users@[j].id
        &&& forall|i: int|
            0 <= i < self.users@.len() ==> #[trigger] self.users@[i].id < self.next_user_id
    }
}


/// The ids of the join rows, in row order.
pub open spec fn user_row_ids(rows: Seq<JoinedUser>) -> Seq<u64> {
    Seq::new(rows.len(), |i: int| rows[i].user.id)
}

/// The ids of the condensed users, in order.
pub open spec fn condensed_ids(out: Seq<User>) -> Seq<u64> {
    Seq::new(out.len(), |i: int| out[i].id)
}

/// The first join row naming this user, if any.
pub open spec fn spec_first_user_row(rows: Seq<JoinedUser>, id: u64) -> Option<RawUser>
    decreases rows.len(),
{
    if rows.len() == 0 {
        Option::None
    } else if rows[0].user.id == id {
        Option::Some(rows[0].user)
    } else {
        spec_first_user_row(rows.drop_first(), id)
    }
}

/// The capabilities this user's join rows carry, in row order.
pub open spec fn spec_rows_permissions(rows: Seq<JoinedUser>, id: u64) -> Seq<Permission>
    decreases rows.len(),
{
    if rows.len() == 0 {
        Seq::empty()
    } else {
        let rest = spec_rows_permissions(rows.drop_last(), id);
        if rows.last().user.id == id {
            match rows.last().permission {
                Option::Some(p) => rest.push(p),
                Option::None => rest,
            }
        } else {
            rest
        }
    }
}

proof fn lemma_first_user_row_push(rows: Seq<JoinedUser>, row: JoinedUser, id: u64)
    ensures
        spec_first_user_row(rows.push(row), id) == (if spec_first_user_row(rows, id) is Some {
            spec_first_user_row(rows, id)
        } else if row.user.id == id {
            Option::Some(row.user)
        } else {
            Option::<RawUser>::None
        }),
    decreases rows.len(),
{
    if rows.len() == 0 {
        assert(rows.push(row)[0] == row);
        assert(rows.push(row).drop_first() =~= Seq::<JoinedUser>::empty());
        assert(spec_first_user_row(Seq::<JoinedUser>::empty(), id) is None);
    } else {
        assert(rows.push(row)[0] == rows[0]);
        lemma_first_user_row_push(rows.drop_first(), row, id);
        assert(rows.push(row).drop_first() =~= rows.drop_first().push(row));
    }
}

proof fn lemma_first_user_row_none(rows: Seq<JoinedUser>, id: u64)
    requires
        forall|j: int| 0 <= j < rows.len() ==> (#[trigger] rows[j]).user.id != id,
    ensures
        spec_first_user_row(rows, id) is None,
    decreases rows.len(),
{
    if rows.len() > 0 {
        lemma_first_user_row_none(rows.drop_first(), id);
    }
}

proof fn lemma_rows_permissions_absent(rows: Seq<JoinedUser>, id: u64)
    requires
        forall|j: int| 0 <= j < rows.len() ==> (#[trigger] rows[j]).user.id != id,
    ensures
        spec_rows_permissions(rows, id) == Seq::<Permission>::empty(),
    decreases rows.len(),
{
    if rows.len() > 0 {
        lemma_rows_permissions_absent(rows.drop_last(), id);
    }
}

/// Condense user/permission join rows: one user per distinct id, in
/// first-occurrence order, whose fields come from the first row naming
/// the user and whose capabilities are the rows' carried permissions,
/// in row order.
pub fn condense_join(joined: Vec<JoinedUser>) -> (r: Vec<User>)
    ensures
        condensed_ids(r@) == dedup_ids(user_row_ids(joined@)),
        forall|k: int|
            0 <= k < r@.len() ==> {
                &&& spec_first_user_row(joined@, (#[trigger] r@[k]).id) matches Option::Some(u)
                    && r@[k].first_name@ == u.first_name@ && r@[k].last_name@ == u.last_name@
                    && r@[k].banner_id == u.banner_id && r@[k].email@ == u.email@
                &&& r@[k].permissions@ == spec_rows_permissions(joined@, r@[k].id)
            },
{
    let n = joined.len();
    let mut condensed: Vec<User> = Vec::new();
    let mut i: usize = 0;
    while i < n
        invariant
            0 <= i <= n,
            n == joined@.len(),
            condensed_ids(condensed@) == dedup_ids(user_row_ids(joined@.subrange(0, i as int))),
            forall|k1: int, k2: int|
                0 <= k1 < k2 < condensed@.len() ==> condensed@[k1].id != condensed@[k2].id,
            forall|k: int|
                0 <= k < condensed@.len() ==> {
                    &&& spec_first_user_row(
                        joined@.subrange(0, i as int),
                        (#[trigger] condensed@[k]).id,
                    ) matches Option::Some(u) && condensed@[k].first_name@ == u.first_name@
                        && condensed@[k].last_name@ == u.last_name@ && condensed@[k].banner_id
                        == u.banner_id && condensed@[k].email@ == u.email@
                    &&& condensed@[k].permissions@ == spec_rows_permissions(
                        joined@.subrange(0, i as int),
                        condensed@[k].id,
                    )
                },
        decreases n - i,
    {
        let ghost prefix = joined@.subrange(0, i as int);
        let ghost prefix1 = joined@.subrange(0, i + 1);
        let ghost old_condensed = condensed@;
        proof {
            assert(prefix1.drop_last() =~= prefix);
            assert(prefix1.last() == joined@[i as int]);
            assert(prefix1 =~= prefix.push(joined@[i as int]));
            assert(user_row_ids(prefix1) =~= user_row_ids(prefix).push(joined@[i as int].user.id));
        }
        let uid = joined[i].user.id;
        let mut idx: Option<usize> = None;
        let mut t: usize = 0;
        while t < condensed.len()
            invariant
                0 <= t <= condensed@.len(),
                condensed@ == old_condensed,
                match idx {
                    Some(x) => x < condensed@.len() && condensed@[x as int].id == uid,
                    None => forall|t2: int| 0 <= t2 < t ==> condensed@[t2].id != uid,
                },
            decreases condensed@.len() - t,
        {
            if condensed[t].id == uid {
                idx = Some(t);
            }
            t += 1;
        }
        match idx {
            Some(x) => {
                proof {
                    let pids = user_row_ids(prefix);
                    assert(condensed_ids(condensed@)[x as int] == uid);
                    assert(dedup_ids(pids).contains(uid)) by {
                        assert(dedup_ids(pids)[x as int] == uid);
                    }
                    lemma_dedup_contains(pids, uid);
                    assert(pids.contains(uid));
                    assert(pids.push(uid).drop_last() =~= pids);
                    assert(pids.push(uid).last() == uid);
                    assert(dedup_ids(pids.push(uid)) == dedup_ids(pids));
                    assert(user_row_ids(prefix1) == pids.push(uid));
                    assert(dedup_ids(user_row_ids(prefix1)) == dedup_ids(pids));
                }
                match &joined[i].permission {
                    Some(p) => {
                        let carried = Permission {
                            id: p.id,
                            permission_name: p.permission_name.clone(),
                        };
                        let mut entry = condensed.remove(x);
                        entry.permissions.push(carried);
                        condensed.insert(x, entry);
                        proof {
                            assert(condensed@ =~= old_condensed.update(
                                x as int,
                                condensed@[x as int],
                            ));
                        }
                    },
                    None => (),
                }
                proof {
                    assert(condensed_ids(condensed@) =~= condensed_ids(old_condensed));
                    assert forall|k: int| 0 <= k < condensed@.len() implies {
                        &&& spec_first_user_row(prefix1, (#[trigger] condensed@[k]).id) matches
                            Option::Some(u) && condensed@[k].first_name@ == u.first_name@
                            && condensed@[k].last_name@ == u.last_name@ && condensed@[k].banner_id
                            == u.banner_id && condensed@[k].email@ == u.email@
                        &&& condensed@[k].permissions@ == spec_rows_permissions(
                            prefix1,
                            condensed@[k].id,
                        )
                    } by {
                        lemma_first_user_row_push(prefix, joined@[i as int], condensed@[k].id);
                        assert(old_condensed[k].id == condensed@[k].id);
                        if k != x {
                            assert(condensed@[k] == old_condensed[k]);
                            assert(condensed@[k].id != uid);
                        }
                    }
                }
            },
            None => {
                proof {
                    assert(!user_row_ids(prefix).contains(uid)) by {
                        if user_row_ids(prefix).contains(uid) {
                            lemma_dedup_contains(user_row_ids(prefix), uid);
                            assert(dedup_ids(user_row_ids(prefix)).contains(uid));
                            let w = choose|w: int|
                                0 <= w < dedup_ids(user_row_ids(prefix)).len() && dedup_ids(
                                    user_row_ids(prefix),
                                )[w] == uid;
                            assert(condensed_ids(condensed@)[w] == uid);
                            assert(condensed@[w].id == uid);
                            assert(false);
                        }
                    }
                    assert(forall|j: int|
                        0 <= j < prefix.len() ==> (#[trigger] prefix[j]).user.id != uid) by {
                        assert forall|j: int|
                            0 <= j < prefix.len() implies (#[trigger] prefix[j]).user.id
                            != uid by {
                            if prefix[j].user.id == uid {
                                assert(user_row_ids(prefix)[j] == uid);
                                assert(user_row_ids(prefix).contains(uid));
                            }
                        }
                    }
                    lemma_first_user_row_none(prefix, uid);
                    lemma_rows_permissions_absent(prefix, uid);
                    lemma_first_user_row_push(prefix, joined@[i as int], uid);
                    let pids = user_row_ids(prefix);
                    assert(pids.push(uid).drop_last() =~= pids);
                    assert(pids.push(uid).last() == uid);
                    assert(dedup_ids(pids.push(uid)) == dedup_ids(pids).push(uid));
                    assert(user_row_ids(prefix1) == pids.push(uid));
                }
                let mut perms0: Vec<Permission> = Vec::new();
                match &joined[i].permission {
                    Some(p) => {
                        perms0.push(
                            Permission { id: p.id, permission_name: p.permission_name.clone() },
                        );
                    },
                    None => (),
                }
                let entry = User {
                    id: uid,
                    first_name: joined[i].user.first_name.clone(),
                    last_name: joined[i].user.last_name.clone(),
                    banner_id: joined[i].user.banner_id,
                    email: joined[i].user.email.clone(),
                    permissions: perms0,
                };
                condensed.push(entry);
                proof {
                    assert(condensed_ids(condensed@) =~= condensed_ids(old_condensed).push(uid));
                    assert forall|k: int| 0 <= k < condensed@.len() implies {
                        &&& spec_first_user_row(prefix1, (#[trigger] condensed@[k]).id) matches
                            Option::Some(u) && condensed@[k].first_name@ == u.first_name@
                            && condensed@[k].last_name@ == u.last_name@ && condensed@[k].banner_id
                            == u.banner_id && condensed@[k].email@ == u.email@
                        &&& condensed@[k].permissions@ == spec_rows_permissions(
                            prefix1,
                            condensed@[k].id,
                        )
                    } by {
                        lemma_first_user_row_push(prefix, joined@[i as int], condensed@[k].id);
                        if k < condensed@.len() - 1 {
                            assert(condensed@[k] == old_condensed[k]);
                            assert(condensed@[k].id != uid);
                        } else {
                            assert(condensed@[k] == entry);
                        }
                    }
                }
            },
        }
        i += 1;
    }
    proof {
        assert(joined@.subrange(0, joined@.len() as int) =~= joined@);
    }
    condensed
}


/// Does a user row pass the search directives?  Partial matches are
/// substring matches on text columns; the integer column matches
/// exactly either way, as a partial match on it is not supported.
pub open spec fn spec_user_selected(u: RawUser, search: SearchUser) -> bool {
    &&& match search.first_name {
        Search::Partial(s) => contains_sub(u.first_name@, s@),
        Search::Exact(s) => u.first_name@ == s@,
        Search::NoSearch => true,
    }
    &&& match search.last_name {
        Search::Partial(s) => contains_sub(u.last_name@, s@),
        Search::Exact(s) => u.last_name@ == s@,
        Search::NoSearch => true,
    }
    &&& match search.banner_id {
        Search::Partial(b) => u.banner_id == b,
        Search::Exact(b) => u.banner_id == b,
        Search::NoSearch => true,
    }
    &&& match search.email {
        Search::Partial(s) => contains_sub(u.email@, s@),
        Search::Exact(s) => u.email@ == s@,
        Search::NoSearch => true,
    }
}

/// The ids of the users passing the search, in table order.
pub open spec fn spec_selected_user_ids(users: Seq<RawUser>, search: SearchUser) -> Seq<u64>
    decreases users.len(),
{
    if users.len() == 0 {
        Seq::empty()
    } else {
        let rest = spec_selected_user_ids(users.drop_last(), search);
        if spec_user_selected(users.last(), search) {
            rest.push(users.last().id)
        } else {
            rest
        }
    }
}

fn user_selected(u: &RawUser, search: &SearchUser) -> (r: bool)
    ensures
        r == spec_user_selected(*u, *search),
{
    let first_ok = match &search.first_name {
        Search::Partial(s) => str_contains(u.first_name.as_str(), s.as_str()),
        Search::Exact(s) => str_eq(u.first_name.as_str(), s.as_str()),
        Search::NoSearch => true,
    };
    let last_ok = match &search.last_name {
        Search::Partial(s) => str_contains(u.last_name.as_str(), s.as_str()),
        Search::Exact(s) => str_eq(u.last_name.as_str(), s.as_str()),
        Search::NoSearch => true,
    };
    let banner_ok = match &search.banner_id {
        Search::Partial(b) => u.banner_id == *b,
        Search::Exact(b) => u.banner_id == *b,
        Search::NoSearch => true,
    };
    let email_ok = match &search.email {
        Search::Partial(s) => str_contains(u.email.as_str(), s.as_str()),
        Search::Exact(s) => str_eq(u.email.as_str(), s.as_str()),
        Search::NoSearch => true,
    };
    first_ok && last_ok && banner_ok && email_ok
}

/// What `search_users` reports: the users passing the directives, in
/// table order, each carrying their granted capabilities.
pub open spec fn search_users_post(
    users: UserStore,
    permissions: PermissionStore,
    search: SearchUser,
    r: Result<UserList, Error>,
) -> bool {
    match r {
        Ok(list) => {
            &&& condensed_ids(list.users@) == spec_selected_user_ids(users.users@, search)
            &&& forall|k: int|
                0 <= k < list.users@.len() ==> {
                    let t = #[trigger] list.users@[k];
                    &&& spec_find_user(users.users@, t.id) matches Option::Some(u)
                        && t.first_name@ == u.first_name@ && t.last_name@ == u.last_name@
                        && t.banner_id == u.banner_id && t.email@ == u.email@
                        && spec_user_selected(u, search)
                    &&& t.permissions@ == spec_user_permissions(
                        permissions.user_permissions@,
                        permissions.permissions@,
                        t.id,
                    )
                }
        },
        Err(_) => false,
    }
}

/// List the users passing the search, with their capabilities.
pub fn search_users(
    user: SearchUser,
    users: &UserStore,
    permissions: &PermissionStore,
) -> (r: Result<UserList, Error>)
    requires
        users.wf(),
    ensures
        search_users_post(*users, *permissions, user, r),
{
    let mut out: Vec<User> = Vec::new();
    let mut i: usize = 0;
    while i < users.users.len()
        invariant
            users.wf(),
            0 <= i <= users.users@.len(),
            condensed_ids(out@) == spec_selected_user_ids(
                users.users@.subrange(0, i as int),
                user,
            ),
            forall|k: int|
                0 <= k < out@.len() ==> {
                    let t = #[trigger] out@[k];
                    &&& spec_find_user(users.users@, t.id) matches Option::Some(u)
                        && t.first_name@ == u.first_name@ && t.last_name@ == u.last_name@
                        && t.banner_id == u.banner_id && t.email@ == u.email@
                        && spec_user_selected(u, user)
                    &&& t.permissions@ == spec_user_permissions(
                        permissions.user_permissions@,
                        permissions.permissions@,
                        t.id,
                    )
                },
        decreases users.users@.len() - i,
    {
        let ghost prefix = users.users@.subrange(0, i as int);
        let ghost prefix1 = users.users@.subrange(0, i + 1);
        proof {
            assert(prefix1.drop_last() =~= prefix);
            assert(prefix1.last() == users.users@[i as int]);
        }
        let row = &users.users[i];
        if user_selected(row, &user) {
            let perms = crate::permissions::permissions_of_user(permissions, row.id);
            let t = User {
                id: row.id,
                first_name: row.first_name.clone(),
                last_name: row.last_name.clone(),
                banner_id: row.banner_id,
                email: row.email.clone(),
                permissions: perms,
            };
            proof {
                assert(forall|j: int|
                    0 <= j < i ==> users.users@[j].id != users.users@[i as int].id);
                crate::permissions::lemma_spec_find_user_at(users.users@, row.id, i as int);
            }
            out.push(t);
            proof {
                assert(condensed_ids(out@) =~= condensed_ids(out@.drop_last()).push(
                    out@.last().id,
                ));
            }
        }
        i += 1;
    }
    proof {
        assert(users.users@.subrange(0, users.users@.len() as int) =~= users.users@);
    }
    Ok(UserList { users: out })
}

/// What `get_user` reports: the user with that id and their granted
/// capabilities, or `NotFound`.
pub open spec fn get_user_post(
    users: UserStore,
    permissions: PermissionStore,
    id: u64,
    r: Result<User, Error>,
) -> bool {
    match r {
        Ok(t) => {
            &&& t.id == id
            &&& spec_find_user(users.users@, id) matches Option::Some(u) && t.first_name@
                == u.first_name@ && t.last_name@ == u.last_name@ && t.banner_id == u.banner_id
                && t.email@ == u.email@
            &&& t.permissions@ == spec_user_permissions(
                permissions.user_permissions@,
                permissions.permissions@,
                id,
            )
        },
        Err(e) => e.kind == ErrorKind::NotFound && spec_find_user(users.users@, id) is None,
    }
}

/// Load one user with their capabilities.
pub fn get_user(id: u64, users: &UserStore, permissions: &PermissionStore) -> (r: Result<
    User,
    Error,
>)
    ensures
        get_user_post(*users, *permissions, id, r),
{
    let mut i: usize = 0;
    while i < users.users.len()
        invariant
            0 <= i <= users.users@.len(),
            forall|j: int| 0 <= j < i ==> users.users@[j].id != id,
        decreases users.users@.len() - i,
    {
        if users.users[i].id == id {
            proof {
                crate::permissions::lemma_spec_find_user_at(users.users@, id, i as int);
            }
            let row = &users.users[i];
            let perms = crate::permissions::permissions_of_user(permissions, id);
            return Ok(
                User {
                    id,
                    first_name: row.first_name.clone(),
                    last_name: row.last_name.clone(),
                    banner_id: row.banner_id,
                    email: row.email.clone(),
                    permissions: perms,
                },
            );
        }
        i += 1;
    }
    proof {
        crate::permissions::lemma_spec_find_user_none(users.users@, id);
    }
    Err(Error::new(ErrorKind::NotFound))
}

/// The grant rows a new user receives, in the order requested.
pub open spec fn spec_new_user_grants(pids: Seq<u64>, user_id: u64, base: u64) -> Seq<
    UserPermission,
> {
    Seq::new(
        pids.len(),
        |k: int|
            UserPermission {
                user_permission_id: (base + k) as u64,
                permission_id: pids[k],
                user_id,
            },
    )
}

/// What `create_user` does to the two stores.
pub open spec fn create_user_post(
    users_pre: UserStore,
    users_post: UserStore,
    perms_pre: PermissionStore,
    perms_post: PermissionStore,
    arg: NewUser,
    r: Result<User, Error>,
) -> bool {
    &&& perms_post.permissions == perms_pre.permissions
    &&& perms_post.next_permission_id == perms_pre.next_permission_id
    &&& match r {
        Ok(t) => {
            &&& users_pre.next_user_id < u64::MAX
            &&& arg.permissions@.len() <= u64::MAX - perms_pre.next_user_permission_id
            &&& forall|a: int, b: int|
                0 <= a < b < arg.permissions@.len() ==> arg.permissions@[a] != arg.permissions@[b]
            &&& forall|a: int|
                #![trigger arg.permissions@[a]]
                0 <= a < arg.permissions@.len() ==> !exists|g: int|
                    0 <= g < perms_pre.user_permissions@.len()
                        && (#[trigger] perms_pre.user_permissions@[g]).user_id
                        == users_pre.next_user_id && perms_pre.user_permissions@[g].permission_id
                        == arg.permissions@[a]
            &&& users_post.users@.len() == users_pre.users@.len() + 1
            &&& users_post.users@.drop_last() == users_pre.users@
            &&& users_post.users@.last().id == users_pre.next_user_id
            &&& users_post.users@.last().first_name@ == arg.first_name@
            &&& users_post.users@.last().last_name@ == arg.last_name@
            &&& users_post.users@.last().banner_id == arg.banner_id
            &&& users_post.users@.last().email@ == arg.email@
            &&& users_post.next_user_id == users_pre.next_user_id + 1
            &&& perms_post.user_permissions@ == perms_pre.user_permissions@
                + spec_new_user_grants(
                arg.permissions@,
                users_pre.next_user_id,
                perms_pre.next_user_permission_id,
            )
            &&& perms_post.next_user_permission_id == perms_pre.next_user_permission_id
                + arg.permissions@.len()
            &&& t.id == users_pre.next_user_id
            &&& t.first_name@ == arg.first_name@
            &&& t.last_name@ == arg.last_name@
            &&& t.banner_id == arg.banner_id
            &&& t.email@ == arg.email@
            &&& t.permissions@ == spec_user_permissions(
                perms_post.user_permissions@,
                perms_post.permissions@,
                t.id,
            )
        },
        Err(e) => {
            &&& e.kind == ErrorKind::Database
            &&& users_post == users_pre
            &&& perms_post == perms_pre
        },
    }
}

/// Create a user and grant the requested capabilities; the created
/// user is returned as a fresh load, capabilities resolved.
pub fn create_user(
    user: NewUser,
    users: &mut UserStore,
    permissions: &mut PermissionStore,
) -> (r: Result<User, Error>)
    requires
        old(users).wf(),
        old(permissions).wf(),
    ensures
        final(users).wf(),
        final(permissions).wf(),
        create_user_post(
            *old(users),
            *final(users),
            *old(permissions),
            *final(permissions),
            user,
            r,
        ),
{
    if users.next_user_id == u64::MAX {
        return Err(Error::new(ErrorKind::Database));
    }
    let n_grants = user.permissions.len();
    if n_grants as u64 > u64::MAX - permissions.next_user_permission_id {
        return Err(Error::new(ErrorKind::Database));
    }
    let uid = users.next_user_id;
    // the requested capability ids must be distinct and not granted yet
    let mut a: usize = 0;
    while a < n_grants
        invariant
            *users == *old(users),
            *permissions == *old(permissions),
            old(users).wf(),
            old(permissions).wf(),
            uid == users.next_user_id,
            n_grants == user.permissions@.len(),
            0 <= a <= n_grants,
            forall|a2: int, b2: int|
                0 <= a2 < b2 < a ==> user.permissions@[a2] != user.permissions@[b2],
            forall|a2: int|
                #![trigger user.permissions@[a2]]
                0 <= a2 < a ==> !exists|g: int|
                    0 <= g < permissions.user_permissions@.len()
                        && (#[trigger] permissions.user_permissions@[g]).user_id == uid
                        && permissions.user_permissions@[g].permission_id == user.permissions@[a2],
        decreases n_grants - a,
    {
        let pid = user.permissions[a];
        let mut b: usize = 0;
        while b < a
            invariant
                *users == *old(users),
                *permissions == *old(permissions),
                old(users).wf(),
                old(permissions).wf(),
                uid == users.next_user_id,
                n_grants == user.permissions@.len(),
                0 <= b <= a < n_grants,
                pid == user.permissions@[a as int],
                forall|b2: int| 0 <= b2 < b ==> user.permissions@[b2] != pid,
            decreases a - b,
        {
            if user.permissions[b] == pid {
                return Err(Error::new(ErrorKind::Database));
            }
            b += 1;
        }
        let mut g: usize = 0;
        while g < permissions.user_permissions.len()
            invariant
                *users == *old(users),
                *permissions == *old(permissions),
                old(users).wf(),
                old(permissions).wf(),
                uid == users.next_user_id,
                n_grants == user.permissions@.len(),
                0 <= a < n_grants,
                pid == user.permissions@[a as int],
                0 <= g <= permissions.user_permissions@.len(),
                forall|g2: int|
                    0 <= g2 < g ==> !((#[trigger] permissions.user_permissions@[g2]).user_id
                        == uid && permissions.user_permissions@[g2].permission_id == pid),
            decreases permissions.user_permissions@.len() - g,
        {
            if permissions.user_permissions[g].user_id == uid
                && permissions.user_permissions[g].permission_id == pid {
                return Err(Error::new(ErrorKind::Database));
            }
            g += 1;
        }
        proof {
            assert(!exists|g: int|
                0 <= g < permissions.user_permissions@.len()
                    && (#[trigger] permissions.user_permissions@[g]).user_id == uid
                    && permissions.user_permissions@[g].permission_id == pid) by {
                if exists|g: int|
                    0 <= g < permissions.user_permissions@.len()
                        && (#[trigger] permissions.user_permissions@[g]).user_id == uid
                        && permissions.user_permissions@[g].permission_id == pid {
                    let w = choose|w: int|
                        0 <= w < permissions.user_permissions@.len()
                            && (#[trigger] permissions.user_permissions@[w]).user_id == uid
                            && permissions.user_permissions@[w].permission_id == pid;
                    assert(false);
                }
            }
        }
        a += 1;
    }
    let ghost users_pre = *users;
    let ghost perms_pre = *permissions;
    let ghost base = permissions.next_user_permission_id;
    users.users.push(
        RawUser {
            id: uid,
            first_name: user.first_name.clone(),
            last_name: user.last_name.clone(),
            banner_id: user.banner_id,
            email: user.email.clone(),
        },
    );
    users.next_user_id = uid + 1;
    let mut k: usize = 0;
    while k < n_grants
        invariant
            perms_pre.wf(),
            users_pre.wf(),
            base == perms_pre.next_user_permission_id,
            uid == users_pre.next_user_id,
            n_grants == user.permissions@.len(),
            n_grants as u64 <= u64::MAX - base,
            0 <= k <= n_grants,
            users.users@ == users_pre.users@.push(users.users@.last()),
            users.users@.last().id == uid,
            users.users@.last().first_name@ == user.first_name@,
            users.users@.last().last_name@ == user.last_name@,
            users.users@.last().banner_id == user.banner_id,
            users.users@.last().email@ == user.email@,
            users.next_user_id == uid + 1,
            users.wf(),
            permissions.permissions == perms_pre.permissions,
            permissions.next_permission_id == perms_pre.next_permission_id,
            permissions.user_permissions@ == perms_pre.user_permissions@
                + spec_new_user_grants(user.permissions@, uid, base).subrange(0, k as int),
            permissions.next_user_permission_id == base + k,
            permissions.wf(),
            forall|a2: int, b2: int|
                0 <= a2 < b2 < n_grants ==> user.permissions@[a2] != user.permissions@[b2],
            forall|a2: int|
                #![trigger user.permissions@[a2]]
                0 <= a2 < n_grants ==> !exists|g: int|
                    0 <= g < perms_pre.user_permissions@.len()
                        && (#[trigger] perms_pre.user_permissions@[g]).user_id == uid
                        && perms_pre.user_permissions@[g].permission_id == user.permissions@[a2],
        decreases n_grants - k,
    {
        let pid = user.permissions[k];
        let row = UserPermission {
            user_permission_id: permissions.next_user_permission_id,
            permission_id: pid,
            user_id: uid,
        };
        permissions.user_permissions.push(row);
        permissions.next_user_permission_id = permissions.next_user_permission_id + 1;
        proof {
            let all = spec_new_user_grants(user.permissions@, uid, base);
            assert(all.subrange(0, k + 1) =~= all.subrange(0, k as int).push(all[k as int]));
            assert(permissions.user_permissions@ =~= perms_pre.user_permissions@ + all.subrange(
                0,
                k + 1,
            ));
            assert forall|x: int, y: int|
                0 <= x < y < permissions.user_permissions@.len() implies !(
            permissions.user_permissions@[x].user_id == permissions.user_permissions@[y].user_id
                && permissions.user_permissions@[x].permission_id
                == permissions.user_permissions@[y].permission_id) by {
                let m = perms_pre.user_permissions@.len() as int;
                if y == permissions.user_permissions@.len() - 1 {
                    if x < m {
                        if permissions.user_permissions@[x].user_id == uid
                            && permissions.user_permissions@[x].permission_id == pid {
                            assert((#[trigger] perms_pre.user_permissions@[x]).user_id == uid
                                && perms_pre.user_permissions@[x].permission_id
                                == user.permissions@[k as int]);
                        }
                    } else {
                        assert(permissions.user_permissions@[x].permission_id
                            == user.permissions@[x - m]);
                    }
                }
            }
        }
        k += 1;
    }
    proof {
        let all = spec_new_user_grants(user.permissions@, uid, base);
        assert(all.subrange(0, all.len() as int) =~= all);
        assert(users.users@.drop_last() =~= users_pre.users@);
    }
    let perms = crate::permissions::permissions_of_user(permissions, uid);
    Ok(
        User {
            id: uid,
            first_name: user.first_name,
            last_name: user.last_name,
            banner_id: user.banner_id,
            email: user.email,
            permissions: perms,
        },
    )
}

/// What `update_user` does to the store: present fields change on the
/// named row; a missing id changes nothing.
pub open spec fn update_user_post(
    pre: UserStore,
    post: UserStore,
    id: u64,
    partial: PartialUser,
    r: Result<(), Error>,
) -> bool {
    &&& post.next_user_id == pre.next_user_id
    &&& r is Ok
    &&& if exists|i: int| 0 <= i < pre.users@.len() && pre.users@[i].id == id {
        let i = choose|i: int| 0 <= i < pre.users@.len() && pre.users@[i].id == id;
        &&& post.users@.len() == pre.users@.len()
        &&& forall|j: int| 0 <= j < pre.users@.len() && j != i ==> post.users@[j] == pre.users@[j]
        &&& post.users@[i].id == id
        &&& post.users@[i].first_name@ == (match partial.first_name {
            Option::Some(s) => s@,
            Option::None => pre.users@[i].first_name@,
        })
        &&& post.users@[i].last_name@ == (match partial.last_name {
            Option::Some(s) => s@,
            Option::None => pre.users@[i].last_name@,
        })
        &&& post.users@[i].banner_id == (match partial.banner_id {
            Option::Some(b) => b,
            Option::None => pre.users@[i].banner_id,
        })
        &&& post.users@[i].email@ == (match partial.email {
            Option::Some(s) => s@,
            Option::None => pre.users@[i].email@,
        })
    } else {
        post.users == pre.users
    }
}

/// Apply a partial update to one user row.
pub fn update_user(id: u64, user: PartialUser, users: &mut UserStore) -> (r: Result<(), Error>)
    requires
        old(users).wf(),
    ensures
        final(users).wf(),
        update_user_post(*old(users), *final(users), id, user, r),
{
    let mut i: usize = 0;
    while i < users.users.len()
        invariant
            *users == *old(users),
            old(users).wf(),
            0 <= i <= users.users@.len(),
            forall|j: int| 0 <= j < i ==> users.users@[j].id != id,
        decreases users.users@.len() - i,
    {
        if users.users[i].id == id {
            let row = &users.users[i];
            let updated = RawUser {
                id,
                first_name: match user.first_name {
                    Some(s) => s,
                    None => row.first_name.clone(),
                },
                last_name: match user.last_name {
                    Some(s) => s,
                    None => row.last_name.clone(),
                },
                banner_id: match user.banner_id {
                    Some(b) => b,
                    None => row.banner_id,
                },
                email: match user.email {
                    Some(s) => s,
                    None => row.email.clone(),
                },
            };
            proof {
                let ghost pre = old(users).users@;
                let j = choose|j: int| 0 <= j < pre.len() && pre[j].id == id;
                assert(pre[j].id == id && pre[i as int].id == id);
                assert(j == i);
            }
            users.users.set(i, updated);
            return Ok(());
        }
        i += 1;
    }
    proof {
        assert(!exists|j: int|
            0 <= j < old(users).users@.len() && old(users).users@[j].id == id) by {
            if exists|j: int| 0 <= j < old(users).users@.len() && old(users).users@[j].id == id {
                let j = choose|j: int|
                    0 <= j < old(users).users@.len() && old(users).users@[j].id == id;
                assert(false);
            }
        }
    }
    Ok(())
}

/// What `delete_user` does to the store.
pub open spec fn delete_user_post(pre: UserStore, post: UserStore, id: u64, r: Result<
    (),
    Error,
>) -> bool {
    &&& post.next_user_id == pre.next_user_id
    &&& r is Ok
    &&& if exists|i: int| 0 <= i < pre.users@.len() && pre.users@[i].id == id {
        let i = choose|i: int| 0 <= i < pre.users@.len() && pre.users@[i].id == id;
        post.users@ == pre.users@.remove(i)
    } else {
        post.users == pre.users
    }
}

/// Remove a user row; deleting a missing id changes nothing.
pub fn delete_user(id: u64, users: &mut UserStore) -> (r: Result<(), Error>)
    requires
        old(users).wf(),
    ensures
        final(users).wf(),
        delete_user_post(*old(users), *final(users), id, r),
{
    let mut i: usize = 0;
    while i < users.users.len()
        invariant
            *users == *old(users),
            old(users).wf(),
            0 <= i <= users.users@.len(),
            forall|j: int| 0 <= j < i ==> users.users@[j].id != id,
        decreases users.users@.len() - i,
    {
        if users.users[i].id == id {
            proof {
                let ghost pre = old(users).users@;
                let j = choose|j: int| 0 <= j < pre.len() && pre[j].id == id;
                assert(pre[j].id == id && pre[i as int].id == id);
                assert(j == i);
            }
            users.users.remove(i);
            return Ok(());
        }
        i += 1;
    }
    proof {
        assert(!exists|j: int|
            0 <= j < old(users).users@.len() && old(users).users@[j].id == id) by {
            if exists|j: int| 0 <= j < old(users).users@.len() && old(users).users@[j].id == id {
                let j = choose|j: int|
                    0 <= j < old(users).users@.len() && old(users).users@[j].id == id;
                assert(false);
            }
        }
    }
    Ok(())
}

/// Dispatch a user command behind the user capabilities, as the
/// routing layer wires them.
pub fn handle_user(
    request: UserRequest,
    requested_user: Option<u64>,
    users: &mut UserStore,
    permissions: &mut PermissionStore,
) -> (r: Result<UserResponse, Error>)
    requires
        old(users).wf(),
        old(permissions).wf(),
    ensures
        final(users).wf(),
        final(permissions).wf(),
        request matches UserRequest::SearchUsers(search) ==> {
            &&& !spec_allowed(*old(permissions), requested_user, "GetUsers"@) ==> (r matches Err(e)
                && e.kind == ErrorKind::PermissionDenied && *final(users) == *old(users)
                && *final(permissions) == *old(permissions))
            &&& spec_allowed(*old(permissions), requested_user, "GetUsers"@) ==> (*final(users)
                == *old(users) && *final(permissions) == *old(permissions) && match r {
                Ok(UserResponse::ManyUsers(list)) => search_users_post(
                    *old(users),
                    *old(permissions),
                    search,
                    Ok(list),
                ),
                _ => false,
            })
        },
        request matches UserRequest::GetUser(id) ==> {
            &&& !spec_allowed(*old(permissions), requested_user, "GetUsers"@) ==> (r matches Err(e)
                && e.kind == ErrorKind::PermissionDenied && *final(users) == *old(users)
                && *final(permissions) == *old(permissions))
            &&& spec_allowed(*old(permissions), requested_user, "GetUsers"@) ==> (*final(users)
                == *old(users) && *final(permissions) == *old(permissions) && match r {
                Ok(UserResponse::OneUser(t)) => get_user_post(
                    *old(users),
                    *old(permissions),
                    id,
                    Ok(t),
                ),
                Err(e) => get_user_post(*old(users), *old(permissions), id, Err(e)),
                Ok(_) => false,
            })
        },
        request matches UserRequest::CreateUser(arg) ==> {
            &&& !spec_allowed(*old(permissions), requested_user, "CreateUsers"@) ==> (r matches
            Err(e) && e.kind == ErrorKind::PermissionDenied && *final(users) == *old(users)
                && *final(permissions) == *old(permissions))
            &&& spec_allowed(*old(permissions), requested_user, "CreateUsers"@) ==> (match r {
                Ok(UserResponse::OneUser(t)) => create_user_post(
                    *old(users),
                    *final(users),
                    *old(permissions),
                    *final(permissions),
                    arg,
                    Ok(t),
                ),
                Err(e) => create_user_post(
                    *old(users),
                    *final(users),
                    *old(permissions),
                    *final(permissions),
                    arg,
                    Err(e),
                ),
                Ok(_) => false,
            })
        },
        request matches UserRequest::UpdateUser(id, partial) ==> {
            &&& !spec_allowed(*old(permissions), requested_user, "DeleteUsers"@) ==> (r matches
            Err(e) && e.kind == ErrorKind::PermissionDenied && *final(users) == *old(users)
                && *final(permissions) == *old(permissions))
            &&& spec_allowed(*old(permissions), requested_user, "DeleteUsers"@) ==> (*final(permissions) == *old(permissions) && match r {
                Ok(UserResponse::NoResponse) => update_user_post(
                    *old(users),
                    *final(users),
                    id,
                    partial,
                    Ok(()),
                ),
                Err(e) => update_user_post(*old(users), *final(users), id, partial, Err(e)),
                Ok(_) => false,
            })
        },
        request matches UserRequest::DeleteUser(id) ==> {
            &&& !spec_allowed(*old(permissions), requested_user, "GetUsers"@) ==> (r matches Err(e)
                && e.kind == ErrorKind::PermissionDenied && *final(users) == *old(users)
                && *final(permissions) == *old(permissions))
            &&& spec_allowed(*old(permissions), requested_user, "GetUsers"@) ==> (*final(permissions) == *old(permissions) && match r {
                Ok(UserResponse::NoResponse) => delete_user_post(
                    *old(users),
                    *final(users),
                    id,
                    Ok(()),
                ),
                Err(e) => delete_user_post(*old(users), *final(users), id, Err(e)),
                Ok(_) => false,
            })
        },
{
    match request {
        UserRequest::SearchUsers(search) => {
            check_to_run(requested_user, "GetUsers", permissions)?;
            match search_users(search, users, permissions) {
                Ok(list) => Ok(UserResponse::ManyUsers(list)),
                Err(e) => Err(e),
            }
        },
        UserRequest::GetUser(id) => {
            check_to_run(requested_user, "GetUsers", permissions)?;
            match get_user(id, users, permissions) {
                Ok(t) => Ok(UserResponse::OneUser(t)),
                Err(e) => Err(e),
            }
        },
        UserRequest::CreateUser(arg) => {
            check_to_run(requested_user, "CreateUsers", permissions)?;
            match create_user(arg, users, permissions) {
                Ok(t) => Ok(UserResponse::OneUser(t)),
                Err(e) => Err(e),
            }
        },
        UserRequest::UpdateUser(id, partial) => {
            check_to_run(requested_user, "DeleteUsers", permissions)?;
            match update_user(id, partial, users) {
                Ok(()) => Ok(UserResponse::NoResponse),
                Err(e) => Err(e),
            }
        },
        UserRequest::DeleteUser(id) => {
            check_to_run(requested_user, "GetUsers", permissions)?;
            match delete_user(id, users) {
                Ok(()) => Ok(UserResponse::NoResponse),
                Err(e) => Err(e),
            }
        },
    }
}

} // verus!
