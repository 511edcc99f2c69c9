//! The permission catalog and the access guard.
//!
//! A `Permission` is a named capability; a `UserPermission` is a grant
//! of one capability to one user.  `check_to_run` is the single
//! enforcement point placed in front of every state-changing or
//! sensitive operation, and `first_permission` is the one-shot
//! bootstrap that hands the first identity every non-root capability.

use vstd::prelude::*;

use crate::errors::Error;
use crate::errors::ErrorKind;
use crate::search::str_eq;
use crate::search::Search;
use crate::users::RawUser;

verus! {

/// The id the bootstrap reserves for the root capability row.
pub const ROOT_PERMISSION_ID: u64 = 1;

/// A named capability of the catalog.
#[derive(Debug, Clone)]
pub struct Permission {
    pub id: u64,
    pub permission_name: String,
}

#[derive(Debug)]
pub struct NewPermission {
    pub permission_name: String,
}

#[derive(Debug)]
pub struct PartialPermission {
    pub permission_name: Option<String>,
}

#[derive(Debug)]
pub struct PermissionList {
    pub permissions: Vec<Permission>,
}

/// A grant: `user_id` holds the capability `permission_id`.
#[derive(Debug, Clone)]
pub struct UserPermission {
    pub user_permission_id: u64,
    pub permission_id: u64,
    pub user_id: u64,
}

#[derive(Debug)]
pub struct NewUserPermission {
    pub permission_id: u64,
    pub user_id: u64,
}

#[derive(Debug)]
pub struct PartialUserPermission {
    pub permission_id: Option<u64>,
    pub user_id: Option<u64>,
}

#[derive(Debug)]
pub struct SearchUserPermission {
    pub permission_id: Search<u64>,
    pub user_id: Search<u64>,
}

/// A grant joined with the user it names.
#[derive(Debug)]
pub struct JoinedUserPermission {
    pub user_permission_id: u64,
    pub user_id: u64,
    pub permission_id: u64,
    pub first_name: String,
    pub last_name: String,
    pub banner_id: u32,
}

#[derive(Debug)]
pub struct JoinedUserPermissionList {
    pub entries: Vec<JoinedUserPermission>,
}

/// The typed commands of the permission-catalog endpoint.
#[derive(Debug)]
pub enum PermissionRequest {
    GetPermission(u64),
    CreatePermission(NewPermission),
    UpdatePermission(u64, PartialPermission),
    DeletePermission(u64),
    FirstPermission,
    GetPermissions,
}

#[derive(Debug)]
pub enum PermissionResponse {
    OnePermission(Permission),
    ManyPermissions(PermissionList),
    NoResponse,
}

/// The typed commands of the grant endpoint.
#[derive(Debug)]
pub enum UserPermissionRequest {
    SearchPermission(SearchUserPermission),
    GetCurrentUserPermission,
    GetPermission(u64),
    CheckPermission(u64, String),
    CreatePermission(NewUserPermission),
    UpdatePermission(u64, PartialUserPermission),
    DeletePermission(u64),
}

#[derive(Debug)]
pub enum UserPermissionResponse {
    PermissionState(bool),
    ManyUserPermission(JoinedUserPermissionList),
    ManyPermission(PermissionList),
    OneUserPermission(UserPermission),
    NoResponse,
}

/// The catalog and grant tables with their id sequences.
pub struct PermissionStore {
    pub permissions: Vec<Permission>,
    pub user_permissions: Vec<UserPermission>,
    pub next_permission_id: u64,
    pub next_user_permission_id: u64,
}

impl PermissionStore {
    /// Well-formedness: catalog ids and names are unique, grant ids are
    /// unique, ids stay below their sequences, and no (user, capability)
    /// pair is granted twice.
    pub open spec fn wf(self) -> bool {
        &&& forall|i: int, j: int|
            0 <= i < j < self.permissions@.len() ==> self.permissions@[i].id
                != self.permissions@[j].id
        &&& forall|i: int, j: int|
            0 <= i < j < self.permissions@.len() ==> self.permissions@[i].permission_name@
                != self.permissions@[j].permission_name@
        &&& forall|i: int|
            0 <= i < self.permissions@.len() ==> #[trigger] self.permissions@[i].id
                < self.next_permission_id
        &&& forall|i: int, j: int|
            0 <= i < j < self.user_permissions@.len()
                ==> self.user_permissions@[i].user_permission_id
                != self.user_permissions@[j].user_permission_id
        &&& forall|i: int|
            0 <= i < self.user_permissions@.len()
                ==> #[trigger] self.user_permissions@[i].user_permission_id
                < self.next_user_permission_id
        &&& forall|i: int, j: int|
            0 <= i < j < self.user_permissions@.len() ==> !(self.user_permissions@[i].user_id
                == self.user_permissions@[j].user_id && self.user_permissions@[i].permission_id
                == self.user_permissions@[j].permission_id)
    }

    /// Does `user_id` hold the capability named `name`?
    pub open spec fn spec_has_permission(self, user_id: u64, name: Seq<char>) -> bool {
        exists|i: int, j: int|
            0 <= i < self.user_permissions@.len() && 0 <= j < self.permissions@.len()
                && self.user_permissions@[i].user_id == user_id
                && self.user_permissions@[i].permission_id == self.permissions@[j].id
                && self.permissions@[j].permission_name@ == name
    }

    /// The number of grants of capabilities other than the root one.
    pub open spec fn spec_non_root_grants(self) -> Seq<UserPermission> {
        self.user_permissions@.filter(|g: UserPermission| g.permission_id != ROOT_PERMISSION_ID)
    }
}

/// Whether a `u64` column value satisfies a search directive.  Partial
/// and exact matches coincide on integers.
pub open spec fn spec_u64_selected(s: Search<u64>, v: u64) -> bool {
    match s {
        Search::Partial(x) => v == x,
        Search::Exact(x) => v == x,
        Search::NoSearch => true,
    }
}

/// The first user row with the given id, if any.
pub open spec fn spec_find_user(users: Seq<RawUser>, id: u64) -> Option<RawUser>
    decreases users.len(),
{
    if users.len() == 0 {
        Option::None
    } else if users[0].id == id {
        Option::Some(users[0])
    } else {
        spec_find_user(users.drop_first(), id)
    }
}

fn u64_selected(s: &Search<u64>, v: u64) -> (r: bool)
    ensures
        r == spec_u64_selected(*s, v),
{
    match s {
        Search::Partial(x) => v == *x,
        Search::Exact(x) => v == *x,
        Search::NoSearch => true,
    }
}

/// Does `user_id` hold the capability named `permission_name`?
///
/// A pure read of the catalog; in-memory it cannot fail.
pub fn check_user_permission(
    user_id: u64,
    permission_name: &str,
    store: &PermissionStore,
) -> (r: Result<bool, Error>)
    ensures
        r matches Ok(b) && b == store.spec_has_permission(user_id, permission_name@),
{
    let mut i: usize = 0;
    while i < store.user_permissions.len()
        invariant
            0 <= i <= store.user_permissions@.len(),
            forall|i2: int, j2: int|
                0 <= i2 < i && 0 <= j2 < store.permissions@.len() ==> !(
                store.user_permissions@[i2].user_id == user_id
                    && store.user_permissions@[i2].permission_id == store.permissions@[j2].id
                    && store.permissions@[j2].permission_name@ == permission_name@),
        decreases store.user_permissions@.len() - i,
    {
        let grant = &store.user_permissions[i];
        if grant.user_id == user_id {
            let mut j: usize = 0;
            while j < store.permissions.len()
                invariant
                    0 <= j <= store.permissions@.len(),
                    i < store.user_permissions@.len(),
                    store.user_permissions@[i as int].user_id == user_id,
                    grant == store.user_permissions@[i as int],
                    forall|j2: int|
                        0 <= j2 < j ==> !(store.user_permissions@[i as int].permission_id
                            == store.permissions@[j2].id && store.permissions@[j2].permission_name@
                            == permission_name@),
                decreases store.permissions@.len() - j,
            {
                let p = &store.permissions[j];
                if p.id == grant.permission_id && str_eq(
                    p.permission_name.as_str(),
                    permission_name,
                ) {
                    return Ok(true);
                }
                j += 1;
            }
        }
        i += 1;
    }
    Ok(false)
}

/// The first catalog row with the given id, if any.
pub open spec fn spec_find_permission(perms: Seq<Permission>, id: u64) -> Option<Permission>
    decreases perms.len(),
{
    if perms.len() == 0 {
        Option::None
    } else if perms[0].id == id {
        Option::Some(perms[0])
    } else {
        spec_find_permission(perms.drop_first(), id)
    }
}

/// No grant names a capability other than the root one.
pub open spec fn spec_no_non_root_grants(s: PermissionStore) -> bool {
    forall|i: int|
        0 <= i < s.user_permissions@.len() ==> #[trigger] s.user_permissions@[i].permission_id
            == ROOT_PERMISSION_ID
}

/// The grants the bootstrap hands out: one per catalog row that is
/// neither the reserved root id nor named like the root capability,
/// with ids assigned in sequence from `base`.
pub open spec fn spec_bootstrap_grants(perms: Seq<Permission>, user_id: u64, base: u64) -> Seq<
    UserPermission,
>
    decreases perms.len(),
{
    if perms.len() == 0 {
        Seq::empty()
    } else {
        let rest = spec_bootstrap_grants(perms.drop_last(), user_id, base);
        let p = perms.last();
        if p.id != ROOT_PERMISSION_ID && p.permission_name@ != "RootPermission"@ {
            rest.push(
                UserPermission {
                    user_permission_id: (base + rest.len()) as u64,
                    permission_id: p.id,
                    user_id,
                },
            )
        } else {
            rest
        }
    }
}

/// The access guard: allow exactly when the caller resolved to a user
/// who holds the named capability; deny otherwise.
pub fn check_to_run(
    requesting_user_id: Option<u64>,
    permission_name: &str,
    store: &PermissionStore,
) -> (r: Result<(), Error>)
    ensures
        match r {
            Ok(()) => requesting_user_id matches Some(u) && store.spec_has_permission(
                u,
                permission_name@,
            ),
            Err(e) => e.kind == ErrorKind::PermissionDenied && !(requesting_user_id matches Some(u)
                && store.spec_has_permission(u, permission_name@)),
        },
{
    match requesting_user_id {
        Some(user_id) => {
            match check_user_permission(user_id, permission_name, store) {
                Ok(true) => Ok(()),
                Ok(false) => Err(Error::new(ErrorKind::PermissionDenied)),
                Err(e) => Err(e),
            }
        },
        None => Err(Error::new(ErrorKind::PermissionDenied)),
    }
}

/// The index of the catalog row with the given id, if any.
fn find_permission_index(perms: &Vec<Permission>, id: u64) -> (r: Option<usize>)
    ensures
        match r {
            Some(i) => i < perms@.len() && perms@[i as int].id == id,
            None => forall|i: int| 0 <= i < perms@.len() ==> perms@[i].id != id,
        },
{
    let mut i: usize = 0;
    while i < perms.len()
        invariant
            0 <= i <= perms@.len(),
            forall|j: int| 0 <= j < i ==> perms@[j].id != id,
        decreases perms@.len() - i,
    {
        if perms[i].id == id {
            return Some(i);
        }
        i += 1;
    }
    None
}

/// Is some catalog row other than the one with id `except` named `name`?
fn name_taken(perms: &Vec<Permission>, name: &str, except: Option<u64>) -> (r: bool)
    ensures
        r == exists|i: int|
            0 <= i < perms@.len() && perms@[i].permission_name@ == name@ && match except {
                Some(id) => perms@[i].id != id,
                None => true,
            },
{
    let mut i: usize = 0;
    while i < perms.len()
        invariant
            0 <= i <= perms@.len(),
            forall|j: int|
                0 <= j < i ==> !(perms@[j].permission_name@ == name@ && match except {
                    Some(id) => perms@[j].id != id,
                    None => true,
                }),
        decreases perms@.len() - i,
    {
        let excluded = match except {
            Some(id) => perms[i].id == id,
            None => false,
        };
        if !excluded && str_eq(perms[i].permission_name.as_str(), name) {
            return true;
        }
        i += 1;
    }
    false
}

/// The index of the grant row with the given id, if any.
fn find_grant_index(grants: &Vec<UserPermission>, id: u64) -> (r: Option<usize>)
    ensures
        match r {
            Some(i) => i < grants@.len() && grants@[i as int].user_permission_id == id,
            None => forall|i: int|
                0 <= i < grants@.len() ==> grants@[i].user_permission_id != id,
        },
{
    let mut i: usize = 0;
    while i < grants.len()
        invariant
            0 <= i <= grants@.len(),
            forall|j: int| 0 <= j < i ==> grants@[j].user_permission_id != id,
        decreases grants@.len() - i,
    {
        if grants[i].user_permission_id == id {
            return Some(i);
        }
        i += 1;
    }
    None
}

/// Is the (user, capability) pair already granted, outside row `except`?
fn pair_exists(grants: &Vec<UserPermission>, user_id: u64, permission_id: u64, except: Option<
    u64,
>) -> (r: bool)
    ensures
        r == exists|i: int|
            0 <= i < grants@.len() && grants@[i].user_id == user_id && grants@[i].permission_id
                == permission_id && match except {
                Some(id) => grants@[i].user_permission_id != id,
                None => true,
            },
{
    let mut i: usize = 0;
    while i < grants.len()
        invariant
            0 <= i <= grants@.len(),
            forall|j: int|
                0 <= j < i ==> !(grants@[j].user_id == user_id && grants@[j].permission_id
                    == permission_id && match except {
                    Some(id) => grants@[j].user_permission_id != id,
                    None => true,
                }),
        decreases grants@.len() - i,
    {
        let excluded = match except {
            Some(id) => grants[i].user_permission_id == id,
            None => false,
        };
        if !excluded && grants[i].user_id == user_id && grants[i].permission_id == permission_id {
            return true;
        }
        i += 1;
    }
    false
}

/// What `get_permission` reports of store `s`.
pub open spec fn get_permission_post(s: PermissionStore, id: u64, r: Result<
    Permission,
    Error,
>) -> bool {
    match r {
        Ok(p) => s.permissions@.contains(p) && p.id == id,
        Err(e) => e.kind == ErrorKind::NotFound && forall|i: int|
            0 <= i < s.permissions@.len() ==> s.permissions@[i].id != id,
    }
}

/// Look one capability up by id.
pub fn get_permission(id: u64, store: &PermissionStore) -> (r: Result<Permission, Error>)
    ensures
        get_permission_post(*store, id, r),
{
    match find_permission_index(&store.permissions, id) {
        Some(i) => {
            let p = &store.permissions[i];
            Ok(Permission { id: p.id, permission_name: p.permission_name.clone() })
        },
        None => Err(Error::new(ErrorKind::NotFound)),
    }
}

/// What `get_permissions` reports: the whole catalog, in order.
pub open spec fn get_permissions_post(s: PermissionStore, r: Result<PermissionList, Error>) -> bool {
    r matches Ok(list) && list.permissions@ == s.permissions@
}

/// List the whole capability catalog.
pub fn get_permissions(store: &PermissionStore) -> (r: Result<PermissionList, Error>)
    ensures
        get_permissions_post(*store, r),
{
    let mut out: Vec<Permission> = Vec::new();
    let mut i: usize = 0;
    while i < store.permissions.len()
        invariant
            0 <= i <= store.permissions@.len(),
            out@ == store.permissions@.subrange(0, i as int),
        decreases store.permissions@.len() - i,
    {
        let p = &store.permissions[i];
        out.push(Permission { id: p.id, permission_name: p.permission_name.clone() });
        proof {
            assert(out@ =~= store.permissions@.subrange(0, i + 1));
        }
        i += 1;
    }
    proof {
        assert(out@ =~= store.permissions@);
    }
    Ok(PermissionList { permissions: out })
}

/// What `create_permission` does to the store.
pub open spec fn create_permission_post(
    pre: PermissionStore,
    post: PermissionStore,
    name: Seq<char>,
    r: Result<Permission, Error>,
) -> bool {
    let dup = exists|i: int|
        0 <= i < pre.permissions@.len() && pre.permissions@[i].permission_name@ == name;
    &&& post.user_permissions == pre.user_permissions
    &&& post.next_user_permission_id == pre.next_user_permission_id
    &&& match r {
        Ok(p) => {
            &&& !dup
            &&& pre.next_permission_id < u64::MAX
            &&& p.id == pre.next_permission_id
            &&& p.permission_name@ == name
            &&& post.permissions@.len() == pre.permissions@.len() + 1
            &&& post.permissions@.drop_last() == pre.permissions@
            &&& post.permissions@.last().id == pre.next_permission_id
            &&& post.permissions@.last().permission_name@ == name
            &&& post.next_permission_id == pre.next_permission_id + 1
        },
        Err(e) => {
            &&& e.kind == ErrorKind::Database
            &&& dup || pre.next_permission_id == u64::MAX
            &&& post.permissions == pre.permissions
            &&& post.next_permission_id == pre.next_permission_id
        },
    }
}

/// Add a capability to the catalog under a fresh id.
///
/// A duplicate name is refused, as the store's unique-name rule would.
pub fn create_permission(permission: NewPermission, store: &mut PermissionStore) -> (r: Result<
    Permission,
    Error,
>)
    requires
        old(store).wf(),
    ensures
        final(store).wf(),
        create_permission_post(*old(store), *final(store), permission.permission_name@, r),
{
    if name_taken(&store.permissions, permission.permission_name.as_str(), None) {
        return Err(Error::new(ErrorKind::Database));
    }
    if store.next_permission_id == u64::MAX {
        return Err(Error::new(ErrorKind::Database));
    }
    let id = store.next_permission_id;
    let row = Permission { id, permission_name: permission.permission_name.clone() };
    store.permissions.push(row);
    store.next_permission_id = id + 1;
    proof {
        assert(final(store).permissions@.drop_last() =~= old(store).permissions@);
    }
    Ok(Permission { id, permission_name: permission.permission_name })
}

/// What `update_permission` does to the store.
pub open spec fn update_permission_post(
    pre: PermissionStore,
    post: PermissionStore,
    id: u64,
    partial: PartialPermission,
    r: Result<(), Error>,
) -> bool {
    &&& post.user_permissions == pre.user_permissions
    &&& post.next_user_permission_id == pre.next_user_permission_id
    &&& post.next_permission_id == pre.next_permission_id
    &&& match partial.permission_name {
        Option::None => r is Ok && post.permissions == pre.permissions,
        Option::Some(name) => {
            let taken = exists|j: int|
                0 <= j < pre.permissions@.len() && pre.permissions@[j].permission_name@ == name@
                    && pre.permissions@[j].id != id;
            match r {
                Ok(()) => {
                    &&& !taken
                    &&& if exists|i: int| 0 <= i < pre.permissions@.len()
                        && pre.permissions@[i].id == id {
                        let i = choose|i: int|
                            0 <= i < pre.permissions@.len() && pre.permissions@[i].id == id;
                        &&& post.permissions@.len() == pre.permissions@.len()
                        &&& forall|j: int|
                            0 <= j < pre.permissions@.len() && j != i ==> post.permissions@[j]
                                == pre.permissions@[j]
                        &&& post.permissions@[i].id == id
                        &&& post.permissions@[i].permission_name@ == name@
                    } else {
                        post.permissions == pre.permissions
                    }
                },
                Err(e) => {
                    &&& e.kind == ErrorKind::Database
                    &&& taken
                    &&& post.permissions == pre.permissions
                },
            }
        },
    }
}

/// Rename a capability; updating a missing id changes nothing, and a
/// name already in use elsewhere is refused.
pub fn update_permission(
    id: u64,
    permission: PartialPermission,
    store: &mut PermissionStore,
) -> (r: Result<(), Error>)
    requires
        old(store).wf(),
    ensures
        final(store).wf(),
        update_permission_post(*old(store), *final(store), id, permission, r),
{
    match permission.permission_name {
        Option::Some(name) => {
            if name_taken(&store.permissions, name.as_str(), Some(id)) {
                return Err(Error::new(ErrorKind::Database));
            }
            match find_permission_index(&store.permissions, id) {
                Some(i) => {
                    store.permissions.set(i, Permission { id, permission_name: name });
                    Ok(())
                },
                None => Ok(()),
            }
        },
        Option::None => Ok(()),
    }
}

/// What `delete_permission` does to the store.
pub open spec fn delete_permission_post(
    pre: PermissionStore,
    post: PermissionStore,
    id: u64,
    r: Result<(), Error>,
) -> bool {
    &&& post.user_permissions == pre.user_permissions
    &&& post.next_user_permission_id == pre.next_user_permission_id
    &&& post.next_permission_id == pre.next_permission_id
    &&& r is Ok
    &&& if exists|i: int| 0 <= i < pre.permissions@.len() && pre.permissions@[i].id == id {
        let i = choose|i: int| 0 <= i < pre.permissions@.len() && pre.permissions@[i].id == id;
        post.permissions@ == pre.permissions@.remove(i)
    } else {
        post.permissions == pre.permissions
    }
}

/// Remove a capability row; deleting a missing id changes nothing.
pub fn delete_permission(id: u64, store: &mut PermissionStore) -> (r: Result<(), Error>)
    requires
        old(store).wf(),
    ensures
        final(store).wf(),
        delete_permission_post(*old(store), *final(store), id, r),
{
    match find_permission_index(&store.permissions, id) {
        Some(i) => {
            store.permissions.remove(i);
            proof {
                let ghost pre = old(store).permissions@;
                let j = choose|j: int| 0 <= j < pre.len() && pre[j].id == id;
                assert(pre[j].id == id && pre[i as int].id == id);
                assert(j == i);
            }
            Ok(())
        },
        None => Ok(()),
    }
}

/// What `create_user_permission` does to the store.
pub open spec fn create_user_permission_post(
    pre: PermissionStore,
    post: PermissionStore,
    arg: NewUserPermission,
    r: Result<UserPermission, Error>,
) -> bool {
    let dup = exists|i: int|
        0 <= i < pre.user_permissions@.len() && pre.user_permissions@[i].user_id == arg.user_id
            && pre.user_permissions@[i].permission_id == arg.permission_id;
    &&& post.permissions == pre.permissions
    &&& post.next_permission_id == pre.next_permission_id
    &&& match r {
        Ok(g) => {
            &&& !dup
            &&& pre.next_user_permission_id < u64::MAX
            &&& g == UserPermission {
                user_permission_id: pre.next_user_permission_id,
                permission_id: arg.permission_id,
                user_id: arg.user_id,
            }
            &&& post.user_permissions@ == pre.user_permissions@.push(g)
            &&& post.next_user_permission_id == pre.next_user_permission_id + 1
        },
        Err(e) => {
            &&& e.kind == ErrorKind::Database
            &&& dup || pre.next_user_permission_id == u64::MAX
            &&& post.user_permissions == pre.user_permissions
            &&& post.next_user_permission_id == pre.next_user_permission_id
        },
    }
}

/// Grant a capability to a user.
///
/// A second grant of the same (user, capability) pair is rejected, not
/// silently merged.
pub fn create_user_permission(
    user_permission: NewUserPermission,
    store: &mut PermissionStore,
) -> (r: Result<UserPermission, Error>)
    requires
        old(store).wf(),
    ensures
        final(store).wf(),
        create_user_permission_post(*old(store), *final(store), user_permission, r),
{
    if pair_exists(
        &store.user_permissions,
        user_permission.user_id,
        user_permission.permission_id,
        None,
    ) {
        return Err(Error::new(ErrorKind::Database));
    }
    if store.next_user_permission_id == u64::MAX {
        return Err(Error::new(ErrorKind::Database));
    }
    let id = store.next_user_permission_id;
    let row = UserPermission {
        user_permission_id: id,
        permission_id: user_permission.permission_id,
        user_id: user_permission.user_id,
    };
    store.user_permissions.push(row);
    store.next_user_permission_id = id + 1;
    Ok(
        UserPermission {
            user_permission_id: id,
            permission_id: user_permission.permission_id,
            user_id: user_permission.user_id,
        },
    )
}

/// What `update_user_permission` does to the store.
pub open spec fn update_user_permission_post(
    pre: PermissionStore,
    post: PermissionStore,
    id: u64,
    partial: PartialUserPermission,
    r: Result<(), Error>,
) -> bool {
    &&& post.permissions == pre.permissions
    &&& post.next_permission_id == pre.next_permission_id
    &&& post.next_user_permission_id == pre.next_user_permission_id
    &&& if exists|i: int|
        0 <= i < pre.user_permissions@.len() && pre.user_permissions@[i].user_permission_id
            == id {
        let i = choose|i: int|
            0 <= i < pre.user_permissions@.len() && pre.user_permissions@[i].user_permission_id
                == id;
        let updated = UserPermission {
            user_permission_id: id,
            permission_id: match partial.permission_id {
                Option::Some(p) => p,
                Option::None => pre.user_permissions@[i].permission_id,
            },
            user_id: match partial.user_id {
                Option::Some(u) => u,
                Option::None => pre.user_permissions@[i].user_id,
            },
        };
        let dup = exists|j: int|
            0 <= j < pre.user_permissions@.len() && j != i && pre.user_permissions@[j].user_id
                == updated.user_id && pre.user_permissions@[j].permission_id
                == updated.permission_id;
        match r {
            Ok(()) => !dup && post.user_permissions@ == pre.user_permissions@.update(i, updated),
            Err(e) => e.kind == ErrorKind::Database && dup && post.user_permissions
                == pre.user_permissions,
        }
    } else {
        r is Ok && post.user_permissions == pre.user_permissions
    }
}

/// Re-point a grant; a change that would duplicate an existing
/// (user, capability) pair is refused.
pub fn update_user_permission(
    id: u64,
    user_permission: PartialUserPermission,
    store: &mut PermissionStore,
) -> (r: Result<(), Error>)
    requires
        old(store).wf(),
    ensures
        final(store).wf(),
        update_user_permission_post(*old(store), *final(store), id, user_permission, r),
{
    match find_grant_index(&store.user_permissions, id) {
        Some(i) => {
            let row = &store.user_permissions[i];
            let new_permission_id = match user_permission.permission_id {
                Some(p) => p,
                None => row.permission_id,
            };
            let new_user_id = match user_permission.user_id {
                Some(u) => u,
                None => row.user_id,
            };
            proof {
                let ghost pre = old(store).user_permissions@;
                let j = choose|j: int|
                    0 <= j < pre.len() && pre[j].user_permission_id == id;
                assert(j == i);
            }
            if pair_exists(&store.user_permissions, new_user_id, new_permission_id, Some(id)) {
                return Err(Error::new(ErrorKind::Database));
            }
            store.user_permissions.set(
                i,
                UserPermission {
                    user_permission_id: id,
                    permission_id: new_permission_id,
                    user_id: new_user_id,
                },
            );
            Ok(())
        },
        None => Ok(()),
    }
}

/// What `delete_user_permission` does to the store.
pub open spec fn delete_user_permission_post(
    pre: PermissionStore,
    post: PermissionStore,
    id: u64,
    r: Result<(), Error>,
) -> bool {
    &&& post.permissions == pre.permissions
    &&& post.next_permission_id == pre.next_permission_id
    &&& post.next_user_permission_id == pre.next_user_permission_id
    &&& r is Ok
    &&& if exists|i: int|
        0 <= i < pre.user_permissions@.len() && pre.user_permissions@[i].user_permission_id
            == id {
        let i = choose|i: int|
            0 <= i < pre.user_permissions@.len() && pre.user_permissions@[i].user_permission_id
                == id;
        post.user_permissions@ == pre.user_permissions@.remove(i)
    } else {
        post.user_permissions == pre.user_permissions
    }
}

/// Revoke a grant; deleting a missing id changes nothing.
pub fn delete_user_permission(id: u64, store: &mut PermissionStore) -> (r: Result<(), Error>)
    requires
        old(store).wf(),
    ensures
        final(store).wf(),
        delete_user_permission_post(*old(store), *final(store), id, r),
{
    match find_grant_index(&store.user_permissions, id) {
        Some(i) => {
            store.user_permissions.remove(i);
            proof {
                let ghost pre = old(store).user_permissions@;
                let j = choose|j: int|
                    0 <= j < pre.len() && pre[j].user_permission_id == id;
                assert(j == i);
            }
            Ok(())
        },
        None => Ok(()),
    }
}

/// What `get_user_permission` reports: the grant that a load-then-pop
/// of all rows for this capability yields, i.e. the last one.
pub open spec fn get_user_permission_post(s: PermissionStore, permission_id: u64, r: Result<
    UserPermission,
    Error,
>) -> bool {
    match r {
        Ok(g) => exists|i: int|
            0 <= i < s.user_permissions@.len() && s.user_permissions@[i] == g && g.permission_id
                == permission_id && forall|j: int|
                i < j < s.user_permissions@.len() ==> s.user_permissions@[j].permission_id
                    != permission_id,
        Err(e) => e.kind == ErrorKind::NotFound && forall|i: int|
            0 <= i < s.user_permissions@.len() ==> s.user_permissions@[i].permission_id
                != permission_id,
    }
}

/// Fetch the most recently loaded grant of one capability.
pub fn get_user_permission(permission_id: u64, store: &PermissionStore) -> (r: Result<
    UserPermission,
    Error,
>)
    ensures
        get_user_permission_post(*store, permission_id, r),
{
    let mut found: Option<usize> = None;
    let mut i: usize = 0;
    while i < store.user_permissions.len()
        invariant
            0 <= i <= store.user_permissions@.len(),
            match found {
                Some(k) => k < i && store.user_permissions@[k as int].permission_id
                    == permission_id && forall|j: int|
                    k < j < i ==> store.user_permissions@[j].permission_id != permission_id,
                None => forall|j: int|
                    0 <= j < i ==> store.user_permissions@[j].permission_id != permission_id,
            },
        decreases store.user_permissions@.len() - i,
    {
        if store.user_permissions[i].permission_id == permission_id {
            found = Some(i);
        }
        i += 1;
    }
    match found {
        Some(k) => {
            let g = &store.user_permissions[k];
            Ok(
                UserPermission {
                    user_permission_id: g.user_permission_id,
                    permission_id: g.permission_id,
                    user_id: g.user_id,
                },
            )
        },
        None => Err(Error::new(ErrorKind::NotFound)),
    }
}

/// The capabilities granted to one user, in grant order, resolved
/// against the catalog; grants naming a missing row are skipped.
pub open spec fn spec_user_permissions(
    grants: Seq<UserPermission>,
    perms: Seq<Permission>,
    user_id: u64,
) -> Seq<Permission>
    decreases grants.len(),
{
    if grants.len() == 0 {
        Seq::empty()
    } else {
        let rest = spec_user_permissions(grants.drop_last(), perms, user_id);
        let g = grants.last();
        if g.user_id == user_id {
            match spec_find_permission(perms, g.permission_id) {
                Option::Some(p) => rest.push(p),
                Option::None => rest,
            }
        } else {
            rest
        }
    }
}

proof fn lemma_spec_find_permission_at(perms: Seq<Permission>, id: u64, i: int)
    requires
        0 <= i < perms.len(),
        perms[i].id == id,
        forall|j: int| 0 <= j < i ==> perms[j].id != id,
    ensures
        spec_find_permission(perms, id) == Option::Some(perms[i]),
    decreases i,
{
    if i > 0 {
        lemma_spec_find_permission_at(perms.drop_first(), id, i - 1);
    }
}

proof fn lemma_spec_find_permission_none(perms: Seq<Permission>, id: u64)
    requires
        forall|j: int| 0 <= j < perms.len() ==> perms[j].id != id,
    ensures
        spec_find_permission(perms, id) is None,
    decreases perms.len(),
{
    if perms.len() > 0 {
        lemma_spec_find_permission_none(perms.drop_first(), id);
    }
}

pub proof fn lemma_spec_find_user_at(users: Seq<RawUser>, id: u64, i: int)
    requires
        0 <= i < users.len(),
        users[i].id == id,
        forall|j: int| 0 <= j < i ==> users[j].id != id,
    ensures
        spec_find_user(users, id) == Option::Some(users[i]),
    decreases i,
{
    if i > 0 {
        lemma_spec_find_user_at(users.drop_first(), id, i - 1);
    }
}

pub proof fn lemma_spec_find_user_none(users: Seq<RawUser>, id: u64)
    requires
        forall|j: int| 0 <= j < users.len() ==> users[j].id != id,
    ensures
        spec_find_user(users, id) is None,
    decreases users.len(),
{
    if users.len() > 0 {
        lemma_spec_find_user_none(users.drop_first(), id);
    }
}

/// The first catalog row with the given id, cloned.
fn find_permission(perms: &Vec<Permission>, id: u64) -> (r: Option<Permission>)
    ensures
        match r {
            Some(p) => spec_find_permission(perms@, id) == Option::Some(p),
            None => spec_find_permission(perms@, id) is None,
        },
{
    let mut i: usize = 0;
    while i < perms.len()
        invariant
            0 <= i <= perms@.len(),
            forall|j: int| 0 <= j < i ==> perms@[j].id != id,
        decreases perms@.len() - i,
    {
        if perms[i].id == id {
            proof {
                lemma_spec_find_permission_at(perms@, id, i as int);
            }
            let p = &perms[i];
            return Some(Permission { id: p.id, permission_name: p.permission_name.clone() });
        }
        i += 1;
    }
    proof {
        lemma_spec_find_permission_none(perms@, id);
    }
    None
}

/// The first user row with the given id, cloned.
fn find_user(users: &Vec<RawUser>, id: u64) -> (r: Option<RawUser>)
    ensures
        match r {
            Some(u) => spec_find_user(users@, id) == Option::Some(u),
            None => spec_find_user(users@, id) is None,
        },
{
    let mut i: usize = 0;
    while i < users.len()
        invariant
            0 <= i <= users@.len(),
            forall|j: int| 0 <= j < i ==> users@[j].id != id,
        decreases users@.len() - i,
    {
        if users[i].id == id {
            proof {
                lemma_spec_find_user_at(users@, id, i as int);
            }
            let u = &users[i];
            return Some(
                RawUser {
                    id: u.id,
                    first_name: u.first_name.clone(),
                    last_name: u.last_name.clone(),
                    banner_id: u.banner_id,
                    email: u.email.clone(),
                },
            );
        }
        i += 1;
    }
    proof {
        lemma_spec_find_user_none(users@, id);
    }
    None
}

/// What `get_current_user_permission` reports.
pub open spec fn get_current_user_permission_post(
    s: PermissionStore,
    requesting_user: Option<u64>,
    r: Result<PermissionList, Error>,
) -> bool {
    match requesting_user {
        Option::Some(u) => r matches Ok(list) && list.permissions@ == spec_user_permissions(
            s.user_permissions@,
            s.permissions@,
            u,
        ),
        Option::None => r matches Err(e) && e.kind == ErrorKind::PermissionDenied,
    }
}

/// The capabilities granted to one user, resolved against the catalog.
pub fn permissions_of_user(store: &PermissionStore, user_id: u64) -> (r: Vec<Permission>)
    ensures
        r@ == spec_user_permissions(store.user_permissions@, store.permissions@, user_id),
{
    let mut out: Vec<Permission> = Vec::new();
    let mut i: usize = 0;
    while i < store.user_permissions.len()
        invariant
            0 <= i <= store.user_permissions@.len(),
            out@ == spec_user_permissions(
                store.user_permissions@.subrange(0, i as int),
                store.permissions@,
                user_id,
            ),
        decreases store.user_permissions@.len() - i,
    {
        let ghost prefix = store.user_permissions@.subrange(0, i as int);
        let ghost prefix1 = store.user_permissions@.subrange(0, i + 1);
        proof {
            assert(prefix1.drop_last() =~= prefix);
            assert(prefix1.last() == store.user_permissions@[i as int]);
        }
        let g = &store.user_permissions[i];
        if g.user_id == user_id {
            match find_permission(&store.permissions, g.permission_id) {
                Some(p) => out.push(p),
                None => (),
            }
        }
        i += 1;
    }
    proof {
        assert(store.user_permissions@.subrange(0, store.user_permissions@.len() as int)
            =~= store.user_permissions@);
    }
    out
}

/// The capabilities of the calling user; an unresolved caller is denied.
pub fn get_current_user_permission(
    requesting_user: Option<u64>,
    store: &PermissionStore,
) -> (r: Result<PermissionList, Error>)
    ensures
        get_current_user_permission_post(*store, requesting_user, r),
{
    match requesting_user {
        Some(u) => Ok(PermissionList { permissions: permissions_of_user(store, u) }),
        None => Err(Error::new(ErrorKind::PermissionDenied)),
    }
}

/// The rows of the grant search: grants passing both directives, inner
/// joined with the user they name, in grant order.
pub open spec fn spec_search_user_permission(
    grants: Seq<UserPermission>,
    users: Seq<RawUser>,
    search: SearchUserPermission,
) -> Seq<JoinedUserPermission>
    decreases grants.len(),
{
    if grants.len() == 0 {
        Seq::empty()
    } else {
        let rest = spec_search_user_permission(grants.drop_last(), users, search);
        let g = grants.last();
        if spec_u64_selected(search.permission_id, g.permission_id) && spec_u64_selected(
            search.user_id,
            g.user_id,
        ) {
            match spec_find_user(users, g.user_id) {
                Option::Some(u) => rest.push(
                    JoinedUserPermission {
                        user_permission_id: g.user_permission_id,
                        user_id: g.user_id,
                        permission_id: g.permission_id,
                        first_name: u.first_name,
                        last_name: u.last_name,
                        banner_id: u.banner_id,
                    },
                ),
                Option::None => rest,
            }
        } else {
            rest
        }
    }
}

/// What `search_user_permission` reports.
pub open spec fn search_user_permission_post(
    s: PermissionStore,
    users: Seq<RawUser>,
    search: SearchUserPermission,
    r: Result<JoinedUserPermissionList, Error>,
) -> bool {
    r matches Ok(list) && list.entries@ == spec_search_user_permission(
        s.user_permissions@,
        users,
        search,
    )
}

/// List grants filtered by capability and user, joined with user rows.
pub fn search_user_permission(
    user_permission_search: SearchUserPermission,
    store: &PermissionStore,
    users: &Vec<RawUser>,
) -> (r: Result<JoinedUserPermissionList, Error>)
    ensures
        search_user_permission_post(*store, users@, user_permission_search, r),
{
    let mut out: Vec<JoinedUserPermission> = Vec::new();
    let mut i: usize = 0;
    while i < store.user_permissions.len()
        invariant
            0 <= i <= store.user_permissions@.len(),
            out@ == spec_search_user_permission(
                store.user_permissions@.subrange(0, i as int),
                users@,
                user_permission_search,
            ),
        decreases store.user_permissions@.len() - i,
    {
        let ghost prefix = store.user_permissions@.subrange(0, i as int);
        let ghost prefix1 = store.user_permissions@.subrange(0, i + 1);
        proof {
            assert(prefix1.drop_last() =~= prefix);
            assert(prefix1.last() == store.user_permissions@[i as int]);
        }
        let g = &store.user_permissions[i];
        if u64_selected(&user_permission_search.permission_id, g.permission_id) && u64_selected(
            &user_permission_search.user_id,
            g.user_id,
        ) {
            match find_user(users, g.user_id) {
                Some(u) => out.push(
                    JoinedUserPermission {
                        user_permission_id: g.user_permission_id,
                        user_id: g.user_id,
                        permission_id: g.permission_id,
                        first_name: u.first_name,
                        last_name: u.last_name,
                        banner_id: u.banner_id,
                    },
                ),
                None => (),
            }
        }
        i += 1;
    }
    proof {
        assert(store.user_permissions@.subrange(0, store.user_permissions@.len() as int)
            =~= store.user_permissions@);
    }
    Ok(JoinedUserPermissionList { entries: out })
}

proof fn lemma_bootstrap_mono(perms: Seq<Permission>, user_id: u64, base: u64, i: int, j: int)
    requires
        0 <= i <= j <= perms.len(),
    ensures
        spec_bootstrap_grants(perms.subrange(0, i), user_id, base).len()
            <= spec_bootstrap_grants(perms.subrange(0, j), user_id, base).len(),
    decreases j - i,
{
    if i < j {
        lemma_bootstrap_mono(perms, user_id, base, i, j - 1);
        assert(perms.subrange(0, j).drop_last() =~= perms.subrange(0, j - 1));
    }
}

/// What `first_permission` does to the store.
///
/// The bootstrap succeeds exactly once: while no capability other than
/// the root one has ever been granted, the caller receives every
/// non-root catalog capability; afterwards it is always denied.
pub open spec fn first_permission_post(
    pre: PermissionStore,
    post: PermissionStore,
    requesting_user: Option<u64>,
    r: Result<(), Error>,
) -> bool {
    &&& post.permissions == pre.permissions
    &&& post.next_permission_id == pre.next_permission_id
    &&& match r {
        Ok(()) => requesting_user matches Option::Some(u) && spec_no_non_root_grants(pre) && ({
            let grants = spec_bootstrap_grants(pre.permissions@, u, pre.next_user_permission_id);
            &&& pre.next_user_permission_id + grants.len() <= u64::MAX
            &&& post.user_permissions@ == pre.user_permissions@ + grants
            &&& post.next_user_permission_id == pre.next_user_permission_id + grants.len()
        }),
        Err(e) => post.user_permissions == pre.user_permissions
            && post.next_user_permission_id == pre.next_user_permission_id && ((e.kind
            == ErrorKind::PermissionDenied && (requesting_user is None || !spec_no_non_root_grants(
            pre,
        ))) || (e.kind == ErrorKind::Database && (requesting_user matches Option::Some(u)
            && spec_no_non_root_grants(pre) && pre.next_user_permission_id
            + spec_bootstrap_grants(pre.permissions@, u, pre.next_user_permission_id).len()
            > u64::MAX))),
    }
}

/// The one-shot bootstrap: grant the calling identity every non-root
/// capability, provided no non-root grant exists anywhere yet.
pub fn first_permission(requesting_user: Option<u64>, store: &mut PermissionStore) -> (r: Result<
    (),
    Error,
>)
    requires
        old(store).wf(),
    ensures
        final(store).wf(),
        first_permission_post(*old(store), *final(store), requesting_user, r),
{
    let user_id = match requesting_user {
        Some(u) => u,
        None => {
            return Err(Error::new(ErrorKind::PermissionDenied));
        },
    };
    let mut i: usize = 0;
    while i < store.user_permissions.len()
        invariant
            *store == *old(store),
            old(store).wf(),
            0 <= i <= store.user_permissions@.len(),
            forall|j: int|
                0 <= j < i ==> #[trigger] store.user_permissions@[j].permission_id
                    == ROOT_PERMISSION_ID,
        decreases store.user_permissions@.len() - i,
    {
        if store.user_permissions[i].permission_id != ROOT_PERMISSION_ID {
            return Err(Error::new(ErrorKind::PermissionDenied));
        }
        i += 1;
    }
    let ghost base = store.next_user_permission_id;
    let mut count: u64 = 0;
    let mut i: usize = 0;
    while i < store.permissions.len()
        invariant
            *store == *old(store),
            old(store).wf(),
            base == store.next_user_permission_id,
            0 <= i <= store.permissions@.len(),
            count <= i,
            count == spec_bootstrap_grants(
                store.permissions@.subrange(0, i as int),
                user_id,
                base,
            ).len(),
        decreases store.permissions@.len() - i,
    {
        let ghost prefix = store.permissions@.subrange(0, i as int);
        let ghost prefix1 = store.permissions@.subrange(0, i + 1);
        proof {
            assert(prefix1.drop_last() =~= prefix);
            assert(prefix1.last() == store.permissions@[i as int]);
        }
        let p = &store.permissions[i];
        if p.id != ROOT_PERMISSION_ID && !str_eq(
            p.permission_name.as_str(),
            "RootPermission",
        ) {
            count += 1;
        }
        i += 1;
    }
    proof {
        assert(store.permissions@.subrange(0, store.permissions@.len() as int)
            =~= store.permissions@);
    }
    if count > u64::MAX - store.next_user_permission_id {
        return Err(Error::new(ErrorKind::Database));
    }
    let ghost pre = *store;
    let ghost old_len = store.user_permissions@.len();
    let mut i: usize = 0;
    while i < store.permissions.len()
        invariant
            0 <= i <= store.permissions@.len(),
            store.permissions == pre.permissions,
            store.next_permission_id == pre.next_permission_id,
            pre.wf(),
            base == pre.next_user_permission_id,
            old_len == pre.user_permissions@.len(),
            forall|j: int|
                0 <= j < old_len ==> #[trigger] pre.user_permissions@[j].permission_id
                    == ROOT_PERMISSION_ID,
            base + spec_bootstrap_grants(pre.permissions@, user_id, base).len() <= u64::MAX,
            store.user_permissions@ == pre.user_permissions@ + spec_bootstrap_grants(
                pre.permissions@.subrange(0, i as int),
                user_id,
                base,
            ),
            store.next_user_permission_id == base + spec_bootstrap_grants(
                pre.permissions@.subrange(0, i as int),
                user_id,
                base,
            ).len(),
            forall|k: int|
                old_len <= k < store.user_permissions@.len() ==> exists|j: int|
                    0 <= j < i && #[trigger] store.user_permissions@[k].permission_id
                        == pre.permissions@[j].id,
            store.wf(),
        decreases store.permissions@.len() - i,
    {
        let ghost prefix = pre.permissions@.subrange(0, i as int);
        let ghost prefix1 = pre.permissions@.subrange(0, i + 1);
        proof {
            assert(prefix1.drop_last() =~= prefix);
            assert(prefix1.last() == pre.permissions@[i as int]);
            lemma_bootstrap_mono(pre.permissions@, user_id, base, i + 1, pre.permissions@.len() as int);
            assert(pre.permissions@.subrange(0, pre.permissions@.len() as int)
                =~= pre.permissions@);
        }
        let p = &store.permissions[i];
        if p.id != ROOT_PERMISSION_ID && !str_eq(
            p.permission_name.as_str(),
            "RootPermission",
        ) {
            let id = store.next_user_permission_id;
            let row = UserPermission { user_permission_id: id, permission_id: p.id, user_id };
            store.user_permissions.push(row);
            store.next_user_permission_id = id + 1;
        }
        i += 1;
    }
    proof {
        assert(pre.permissions@.subrange(0, pre.permissions@.len() as int) =~= pre.permissions@);
    }
    Ok(())
}

/// Is the caller a resolved user holding the named capability?
pub open spec fn spec_allowed(s: PermissionStore, requesting_user: Option<u64>, name: Seq<
    char,
>) -> bool {
    requesting_user matches Option::Some(u) && s.spec_has_permission(u, name)
}

/// Dispatch a permission-catalog command, guarding each mutating
/// operation with the matching capability; the bootstrap guards itself.
pub fn handle_permission(
    request: PermissionRequest,
    requesting_user: Option<u64>,
    store: &mut PermissionStore,
) -> (r: Result<PermissionResponse, Error>)
    requires
        old(store).wf(),
    ensures
        final(store).wf(),
        match request {
            PermissionRequest::GetPermission(id) => {
                &&& !spec_allowed(*old(store), requesting_user, "GetPermission"@) ==> (r matches
                Err(e) && e.kind == ErrorKind::PermissionDenied && *final(store) == *old(store))
                &&& spec_allowed(*old(store), requesting_user, "GetPermission"@) ==> (*final(store)
                    == *old(store) && match r {
                    Ok(PermissionResponse::OnePermission(p)) => get_permission_post(
                        *old(store),
                        id,
                        Ok(p),
                    ),
                    Err(e) => get_permission_post(*old(store), id, Err(e)),
                    Ok(_) => false,
                })
            },
            PermissionRequest::CreatePermission(p) => {
                &&& !spec_allowed(*old(store), requesting_user, "CreatePermission"@) ==> (r matches
                Err(e) && e.kind == ErrorKind::PermissionDenied && *final(store) == *old(store))
                &&& spec_allowed(*old(store), requesting_user, "CreatePermission"@) ==> (match r {
                    Ok(PermissionResponse::OnePermission(q)) => create_permission_post(
                        *old(store),
                        *final(store),
                        p.permission_name@,
                        Ok(q),
                    ),
                    Err(e) => create_permission_post(
                        *old(store),
                        *final(store),
                        p.permission_name@,
                        Err(e),
                    ),
                    Ok(_) => false,
                })
            },
            PermissionRequest::UpdatePermission(id, partial) => {
                &&& !spec_allowed(*old(store), requesting_user, "UpdatePermission"@) ==> (r matches
                Err(e) && e.kind == ErrorKind::PermissionDenied && *final(store) == *old(store))
                &&& spec_allowed(*old(store), requesting_user, "UpdatePermission"@) ==> (match r {
                    Ok(PermissionResponse::NoResponse) => update_permission_post(
                        *old(store),
                        *final(store),
                        id,
                        partial,
                        Ok(()),
                    ),
                    Err(e) => update_permission_post(
                        *old(store),
                        *final(store),
                        id,
                        partial,
                        Err(e),
                    ),
                    Ok(_) => false,
                })
            },
            PermissionRequest::DeletePermission(id) => {
                &&& !spec_allowed(*old(store), requesting_user, "DeletePermission"@) ==> (r matches
                Err(e) && e.kind == ErrorKind::PermissionDenied && *final(store) == *old(store))
                &&& spec_allowed(*old(store), requesting_user, "DeletePermission"@) ==> (match r {
                    Ok(PermissionResponse::NoResponse) => delete_permission_post(
                        *old(store),
                        *final(store),
                        id,
                        Ok(()),
                    ),
                    Err(e) => delete_permission_post(*old(store), *final(store), id, Err(e)),
                    Ok(_) => false,
                })
            },
            PermissionRequest::FirstPermission => match r {
                Ok(PermissionResponse::NoResponse) => first_permission_post(
                    *old(store),
                    *final(store),
                    requesting_user,
                    Ok(()),
                ),
                Err(e) => first_permission_post(
                    *old(store),
                    *final(store),
                    requesting_user,
                    Err(e),
                ),
                Ok(_) => false,
            },
            PermissionRequest::GetPermissions => *final(store) == *old(store) && match r {
                Ok(PermissionResponse::ManyPermissions(list)) => get_permissions_post(
                    *old(store),
                    Ok(list),
                ),
                _ => false,
            },
        },
{
    match request {
        PermissionRequest::GetPermission(id) => {
            check_to_run(requesting_user, "GetPermission", store)?;
            match get_permission(id, store) {
                Ok(p) => Ok(PermissionResponse::OnePermission(p)),
                Err(e) => Err(e),
            }
        },
        PermissionRequest::CreatePermission(p) => {
            check_to_run(requesting_user, "CreatePermission", store)?;
            match create_permission(p, store) {
                Ok(q) => Ok(PermissionResponse::OnePermission(q)),
                Err(e) => Err(e),
            }
        },
        PermissionRequest::UpdatePermission(id, partial) => {
            check_to_run(requesting_user, "UpdatePermission", store)?;
            match update_permission(id, partial, store) {
                Ok(()) => Ok(PermissionResponse::NoResponse),
                Err(e) => Err(e),
            }
        },
        PermissionRequest::DeletePermission(id) => {
            check_to_run(requesting_user, "DeletePermission", store)?;
            match delete_permission(id, store) {
                Ok(()) => Ok(PermissionResponse::NoResponse),
                Err(e) => Err(e),
            }
        },
        PermissionRequest::FirstPermission => {
            match first_permission(requesting_user, store) {
                Ok(()) => Ok(PermissionResponse::NoResponse),
                Err(e) => Err(e),
            }
        },
        PermissionRequest::GetPermissions => {
            match get_permissions(store) {
                Ok(list) => Ok(PermissionResponse::ManyPermissions(list)),
                Err(e) => Err(e),
            }
        },
    }
}

/// Dispatch a grant command, guarding reads and writes with the grant
/// capabilities; the capability check and the current-user listing are
/// open by design.
pub fn handle_user_permission(
    request: UserPermissionRequest,
    requesting_user: Option<u64>,
    store: &mut PermissionStore,
    users: &Vec<RawUser>,
) -> (r: Result<UserPermissionResponse, Error>)
    requires
        old(store).wf(),
    ensures
        final(store).wf(),
        match request {
            UserPermissionRequest::SearchPermission(search) => {
                &&& !spec_allowed(*old(store), requesting_user, "GetUserPermission"@) ==> (r matches
                Err(e) && e.kind == ErrorKind::PermissionDenied && *final(store) == *old(store))
                &&& spec_allowed(*old(store), requesting_user, "GetUserPermission"@) ==> (*final(store) == *old(store) && match r {
                    Ok(UserPermissionResponse::ManyUserPermission(list)) =>
                        search_user_permission_post(*old(store), users@, search, Ok(list)),
                    _ => false,
                })
            },
            UserPermissionRequest::GetCurrentUserPermission => *final(store) == *old(store)
                && match r {
                Ok(UserPermissionResponse::ManyPermission(list)) =>
                    get_current_user_permission_post(*old(store), requesting_user, Ok(list)),
                Err(e) => get_current_user_permission_post(
                    *old(store),
                    requesting_user,
                    Err(e),
                ),
                Ok(_) => false,
            },
            UserPermissionRequest::GetPermission(pid) => {
                &&& !spec_allowed(*old(store), requesting_user, "GetUserPermission"@) ==> (r matches
                Err(e) && e.kind == ErrorKind::PermissionDenied && *final(store) == *old(store))
                &&& spec_allowed(*old(store), requesting_user, "GetUserPermission"@) ==> (*final(store) == *old(store) && match r {
                    Ok(UserPermissionResponse::OneUserPermission(g)) => get_user_permission_post(
                        *old(store),
                        pid,
                        Ok(g),
                    ),
                    Err(e) => get_user_permission_post(*old(store), pid, Err(e)),
                    Ok(_) => false,
                })
            },
            UserPermissionRequest::CheckPermission(user_id, name) => *final(store) == *old(store)
                && (r matches Ok(UserPermissionResponse::PermissionState(b)) && b == old(
                store,
            ).spec_has_permission(user_id, name@)),
            UserPermissionRequest::CreatePermission(new) => {
                &&& !spec_allowed(*old(store), requesting_user, "CreateUserPermission"@) ==> (
                r matches Err(e) && e.kind == ErrorKind::PermissionDenied && *final(store) == *old(
                    store,
                ))
                &&& spec_allowed(*old(store), requesting_user, "CreateUserPermission"@) ==> (
                match r {
                    Ok(UserPermissionResponse::OneUserPermission(g)) =>
                        create_user_permission_post(*old(store), *final(store), new, Ok(g)),
                    Err(e) => create_user_permission_post(
                        *old(store),
                        *final(store),
                        new,
                        Err(e),
                    ),
                    Ok(_) => false,
                })
            },
            UserPermissionRequest::UpdatePermission(id, partial) => {
                &&& !spec_allowed(*old(store), requesting_user, "UpdateUserPermission"@) ==> (
                r matches Err(e) && e.kind == ErrorKind::PermissionDenied && *final(store) == *old(
                    store,
                ))
                &&& spec_allowed(*old(store), requesting_user, "UpdateUserPermission"@) ==> (
                match r {
                    Ok(UserPermissionResponse::NoResponse) => update_user_permission_post(
                        *old(store),
                        *final(store),
                        id,
                        partial,
                        Ok(()),
                    ),
                    Err(e) => update_user_permission_post(
                        *old(store),
                        *final(store),
                        id,
                        partial,
                        Err(e),
                    ),
                    Ok(_) => false,
                })
            },
            UserPermissionRequest::DeletePermission(id) => {
                &&& !spec_allowed(*old(store), requesting_user, "DeleteUserPermission"@) ==> (
                r matches Err(e) && e.kind == ErrorKind::PermissionDenied && *final(store) == *old(
                    store,
                ))
                &&& spec_allowed(*old(store), requesting_user, "DeleteUserPermission"@) ==> (
                match r {
                    Ok(UserPermissionResponse::NoResponse) => delete_user_permission_post(
                        *old(store),
                        *final(store),
                        id,
                        Ok(()),
                    ),
                    Err(e) => delete_user_permission_post(*old(store), *final(store), id, Err(e)),
                    Ok(_) => false,
                })
            },
        },
{
    match request {
        UserPermissionRequest::SearchPermission(search) => {
            check_to_run(requesting_user, "GetUserPermission", store)?;
            match search_user_permission(search, store, users) {
                Ok(list) => Ok(UserPermissionResponse::ManyUserPermission(list)),
                Err(e) => Err(e),
            }
        },
        UserPermissionRequest::GetCurrentUserPermission => {
            match get_current_user_permission(requesting_user, store) {
                Ok(list) => Ok(UserPermissionResponse::ManyPermission(list)),
                Err(e) => Err(e),
            }
        },
        UserPermissionRequest::GetPermission(pid) => {
            check_to_run(requesting_user, "GetUserPermission", store)?;
            match get_user_permission(pid, store) {
                Ok(g) => Ok(UserPermissionResponse::OneUserPermission(g)),
                Err(e) => Err(e),
            }
        },
        UserPermissionRequest::CheckPermission(user_id, name) => {
            match check_user_permission(user_id, name.as_str(), store) {
                Ok(b) => Ok(UserPermissionResponse::PermissionState(b)),
                Err(e) => Err(e),
            }
        },
        UserPermissionRequest::CreatePermission(new) => {
            check_to_run(requesting_user, "CreateUserPermission", store)?;
            match create_user_permission(new, store) {
                Ok(g) => Ok(UserPermissionResponse::OneUserPermission(g)),
                Err(e) => Err(e),
            }
        },
        UserPermissionRequest::UpdatePermission(id, partial) => {
            check_to_run(requesting_user, "UpdateUserPermission", store)?;
            match update_user_permission(id, partial, store) {
                Ok(()) => Ok(UserPermissionResponse::NoResponse),
                Err(e) => Err(e),
            }
        },
        UserPermissionRequest::DeletePermission(id) => {
            check_to_run(requesting_user, "DeleteUserPermission", store)?;
            match delete_user_permission(id, store) {
                Ok(()) => Ok(UserPermissionResponse::NoResponse),
                Err(e) => Err(e),
            }
        },
    }
}

} // verus!
