//! The chemical inventory: plain catalog rows for chemicals and for
//! where each acquired batch is kept.  No invariant holds here beyond
//! unique ids; the module exists so the guard fronts its reads and
//! writes like every other table's.

use vstd::prelude::*;

use crate::errors::Error;
use crate::errors::ErrorKind;
use crate::permissions::check_to_run;
use crate::permissions::spec_allowed;
use crate::permissions::PermissionStore;
use crate::search::contains_sub;
use crate::search::str_contains;
use crate::search::str_eq;
use crate::search::Search;

verus! {

/// A chemical of the catalog.
#[derive(Debug, Clone)]
pub struct Chemical {
    pub id: u64,
    pub name: String,
    pub purpose: String,
    pub company_name: String,
    pub ingredients: String,
    pub manual_link: String,
}

#[derive(Debug)]
pub struct NewChemical {
    pub name: String,
    pub purpose: String,
    pub company_name: String,
    pub ingredients: String,
    pub manual_link: String,
}

#[derive(Debug)]
pub struct PartialChemical {
    pub name: Option<String>,
    pub purpose: Option<String>,
    pub company_name: Option<String>,
    pub ingredients: Option<String>,
    pub manual_link: Option<String>,
}

/// Which chemicals to report: one directive per searchable column.
#[derive(Debug)]
pub struct SearchChemical {
    pub name: Search<String>,
    pub purpose: Search<String>,
    pub company_name: Search<String>,
    pub ingredients: Search<String>,
    pub manual_link: Search<String>,
}

#[derive(Debug)]
pub struct ChemicalList {
    pub chemicals: Vec<Chemical>,
}

/// The typed commands of the chemical endpoint.
#[derive(Debug)]
pub enum ChemicalRequest {
    Search(SearchChemical),
    GetChemical(u64),
    CreateChemical(NewChemical),
    UpdateChemical(u64, PartialChemical),
    DeleteChemical(u64),
}

#[derive(Debug)]
pub enum ChemicalResponse {
    OneChemical(Chemical),
    ManyChemicals(ChemicalList),
    NoResponse,
}

/// One stored batch of a chemical.
#[derive(Debug, Clone)]
pub struct ChemicalInventory {
    pub id: u64,
    pub purchaser_id: u64,
    pub custodian_id: u64,
    pub chemical_id: u64,
    pub storage_location: String,
    pub amount: String,
}

#[derive(Debug)]
pub struct NewChemicalInventory {
    pub purchaser_id: u64,
    pub custodian_id: u64,
    pub chemical_id: u64,
    pub storage_location: String,
    pub amount: String,
}

#[derive(Debug)]
pub struct PartialChemicalInventory {
    pub purchaser_id: Option<u64>,
    pub custodian_id: Option<u64>,
    pub chemical_id: Option<u64>,
    pub storage_location: Option<String>,
    pub amount: Option<String>,
}

/// Which inventory entries to report.
#[derive(Debug)]
pub struct SearchChemicalInventory {
    pub purchaser_id: Search<u64>,
    pub custodian_id: Search<u64>,
    pub chemical_id: Search<u64>,
    pub storage_location: Search<String>,
    pub amount: Search<String>,
}

#[derive(Debug)]
pub struct ChemicalInventoryList {
    pub entries: Vec<ChemicalInventory>,
}

/// The typed commands of the inventory endpoint.
#[derive(Debug)]
pub enum ChemicalInventoryRequest {
    SearchInventory(SearchChemicalInventory),
    GetInventory(u64),
    CreateInventory(NewChemicalInventory),
    UpdateInventory(u64, PartialChemicalInventory),
    DeleteInventory(u64),
}

#[derive(Debug)]
pub enum ChemicalInventoryResponse {
    OneInventoryEntry(ChemicalInventory),
    ManyInventoryEntries(ChemicalInventoryList),
    NoResponse,
}

/// The chemical and inventory tables with their id sequences.
pub struct ChemicalStore {
    pub chemicals: Vec<Chemical>,
    pub inventory: Vec<ChemicalInventory>,
    pub next_chemical_id: u64,
    pub next_inventory_id: u64,
}

impl ChemicalStore {
    /// Well-formedness: ids are unique and below their sequences.
    pub open spec fn wf(self) -> bool {
        &&& forall|i: int, j: int|
            0 <= i < j < self.chemicals@.len() ==> self.chemicals@[i].id != self.chemicals@[j].id
        &&& forall|i: int|
            0 <= i < self.chemicals@.len() ==> #[trigger] self.chemicals@[i].id
                < self.next_chemical_id
        &&& forall|i: int, j: int|
            0 <= i < j < self.inventory@.len() ==> self.inventory@[i].id != self.inventory@[j].id
        &&& forall|i: int|
            0 <= i < self.inventory@.len() ==> #[trigger] self.inventory@[i].id
                < self.next_inventory_id
    }
}

/// Does a text column pass its directive: substring for partial
/// matches, the whole text for exact ones?
pub open spec fn spec_text_selected(text: Seq<char>, s: Search<String>) -> bool {
    match s {
        Search::Partial(t) => contains_sub(text, t@),
        Search::Exact(t) => text == t@,
        Search::NoSearch => true,
    }
}

fn text_selected(text: &str, s: &Search<String>) -> (r: bool)
    ensures
        r == spec_text_selected(text@, *s),
{
    match s {
        Search::Partial(t) => str_contains(text, t.as_str()),
        Search::Exact(t) => str_eq(text, t.as_str()),
        Search::NoSearch => true,
    }
}

/// Does a chemical pass all five directives?
pub open spec fn spec_chemical_selected(c: Chemical, search: SearchChemical) -> bool {
    &&& spec_text_selected(c.name@, search.name)
    &&& spec_text_selected(c.purpose@, search.purpose)
    &&& spec_text_selected(c.company_name@, search.company_name)
    &&& spec_text_selected(c.ingredients@, search.ingredients)
    &&& spec_text_selected(c.manual_link@, search.manual_link)
}

/// The chemicals passing the directives, in table order.
pub open spec fn spec_selected_chemicals(chemicals: Seq<Chemical>, search: SearchChemical) -> Seq<
    Chemical,
>
    decreases chemicals.len(),
{
    if chemicals.len() == 0 {
        Seq::empty()
    } else {
        let rest = spec_selected_chemicals(chemicals.drop_last(), search);
        if spec_chemical_selected(chemicals.last(), search) {
            rest.push(chemicals.last())
        } else {
            rest
        }
    }
}

fn clone_chemical(c: &Chemical) -> (r: Chemical)
    ensures
        r == *c,
{
    Chemical {
        id: c.id,
        name: c.name.clone(),
        purpose: c.purpose.clone(),
        company_name: c.company_name.clone(),
        ingredients: c.ingredients.clone(),
        manual_link: c.manual_link.clone(),
    }
}

/// What `search_chemical` reports.
pub open spec fn search_chemical_post(s: ChemicalStore, search: SearchChemical, r: Result<
    ChemicalList,
    Error,
>) -> bool {
    r matches Ok(list) && list.chemicals@ == spec_selected_chemicals(s.chemicals@, search)
}

/// List the chemicals passing the directives.
pub fn search_chemical(chemical: SearchChemical, store: &ChemicalStore) -> (r: Result<
    ChemicalList,
    Error,
>)
    ensures
        search_chemical_post(*store, chemical, r),
{
    let mut out: Vec<Chemical> = Vec::new();
    let mut i: usize = 0;
    while i < store.chemicals.len()
        invariant
            0 <= i <= store.chemicals@.len(),
            out@ == spec_selected_chemicals(store.chemicals@.subrange(0, i as int), chemical),
        decreases store.chemicals@.len() - i,
    {
        let ghost prefix = store.chemicals@.subrange(0, i as int);
        let ghost prefix1 = store.chemicals@.subrange(0, i + 1);
        proof {
            assert(prefix1.drop_last() =~= prefix);
            assert(prefix1.last() == store.chemicals@[i as int]);
        }
        let c = &store.chemicals[i];
        let selected = text_selected(c.name.as_str(), &chemical.name) && text_selected(
            c.purpose.as_str(),
            &chemical.purpose,
        ) && text_selected(c.company_name.as_str(), &chemical.company_name) && text_selected(
            c.ingredients.as_str(),
            &chemical.ingredients,
        ) && text_selected(c.manual_link.as_str(), &chemical.manual_link);
        if selected {
            out.push(clone_chemical(c));
        }
        i += 1;
    }
    proof {
        assert(store.chemicals@.subrange(0, store.chemicals@.len() as int) =~= store.chemicals@);
    }
    Ok(ChemicalList { chemicals: out })
}

/// What `get_chemical` reports.
pub open spec fn get_chemical_post(s: ChemicalStore, id: u64, r: Result<Chemical, Error>) -> bool {
    match r {
        Ok(c) => s.chemicals@.contains(c) && c.id == id,
        Err(e) => e.kind == ErrorKind::NotFound && forall|i: int|
            0 <= i < s.chemicals@.len() ==> s.chemicals@[i].id != id,
    }
}

/// Look one chemical up by id.
pub fn get_chemical(id: u64, store: &ChemicalStore) -> (r: Result<Chemical, Error>)
    ensures
        get_chemical_post(*store, id, r),
{
    let mut i: usize = 0;
    while i < store.chemicals.len()
        invariant
            0 <= i <= store.chemicals@.len(),
            forall|j: int| 0 <= j < i ==> store.chemicals@[j].id != id,
        decreases store.chemicals@.len() - i,
    {
        if store.chemicals[i].id == id {
            return Ok(clone_chemical(&store.chemicals[i]));
        }
        i += 1;
    }
    Err(Error::new(ErrorKind::NotFound))
}

/// What `create_chemical` does to the store.
pub open spec fn create_chemical_post(
    pre: ChemicalStore,
    post: ChemicalStore,
    arg: NewChemical,
    r: Result<Chemical, Error>,
) -> bool {
    &&& post.inventory == pre.inventory
    &&& post.next_inventory_id == pre.next_inventory_id
    &&& match r {
        Ok(c) => {
            &&& pre.next_chemical_id < u64::MAX
            &&& c.id == pre.next_chemical_id
            &&& c.name@ == arg.name@
            &&& c.purpose@ == arg.purpose@
            &&& c.company_name@ == arg.company_name@
            &&& c.ingredients@ == arg.ingredients@
            &&& c.manual_link@ == arg.manual_link@
            &&& post.chemicals@.len() == pre.chemicals@.len() + 1
            &&& post.chemicals@.drop_last() == pre.chemicals@
            &&& post.chemicals@.last() == c
            &&& post.next_chemical_id == pre.next_chemical_id + 1
        },
        Err(e) => {
            &&& e.kind == ErrorKind::Database
            &&& pre.next_chemical_id == u64::MAX
            &&& post.chemicals == pre.chemicals
            &&& post.next_chemical_id == pre.next_chemical_id
        },
    }
}

/// Insert a chemical under a fresh id and return the stored row.
pub fn create_chemical(chemical: NewChemical, store: &mut ChemicalStore) -> (r: Result<
    Chemical,
    Error,
>)
    requires
        old(store).wf(),
    ensures
        final(store).wf(),
        create_chemical_post(*old(store), *final(store), chemical, r),
{
    if store.next_chemical_id == u64::MAX {
        return Err(Error::new(ErrorKind::Database));
    }
    let id = store.next_chemical_id;
    let row = Chemical {
        id,
        name: chemical.name,
        purpose: chemical.purpose,
        company_name: chemical.company_name,
        ingredients: chemical.ingredients,
        manual_link: chemical.manual_link,
    };
    let copy = clone_chemical(&row);
    store.chemicals.push(row);
    store.next_chemical_id = id + 1;
    proof {
        assert(final(store).chemicals@.drop_last() =~= old(store).chemicals@);
    }
    Ok(copy)
}

/// What `update_chemical` does to the store.
pub open spec fn update_chemical_post(
    pre: ChemicalStore,
    post: ChemicalStore,
    id: u64,
    partial: PartialChemical,
    r: Result<(), Error>,
) -> bool {
    &&& post.inventory == pre.inventory
    &&& post.next_inventory_id == pre.next_inventory_id
    &&& post.next_chemical_id == pre.next_chemical_id
    &&& r is Ok
    &&& if exists|i: int| 0 <= i < pre.chemicals@.len() && pre.chemicals@[i].id == id {
        let i = choose|i: int| 0 <= i < pre.chemicals@.len() && pre.chemicals@[i].id == id;
        &&& post.chemicals@.len() == pre.chemicals@.len()
        &&& forall|j: int|
            0 <= j < pre.chemicals@.len() && j != i ==> post.chemicals@[j] == pre.chemicals@[j]
        &&& post.chemicals@[i].id == id
        &&& post.chemicals@[i].name@ == (match partial.name {
            Option::Some(s) => s@,
            Option::None => pre.chemicals@[i].name@,
        })
        &&& post.chemicals@[i].purpose@ == (match partial.purpose {
            Option::Some(s) => s@,
            Option::None => pre.chemicals@[i].purpose@,
        })
        &&& post.chemicals@[i].company_name@ == (match partial.company_name {
            Option::Some(s) => s@,
            Option::None => pre.chemicals@[i].company_name@,
        })
        &&& post.chemicals@[i].ingredients@ == (match partial.ingredients {
            Option::Some(s) => s@,
            Option::None => pre.chemicals@[i].ingredients@,
        })
        &&& post.chemicals@[i].manual_link@ == (match partial.manual_link {
            Option::Some(s) => s@,
            Option::None => pre.chemicals@[i].manual_link@,
        })
    } else {
        post.chemicals == pre.chemicals
    }
}

/// Apply a partial update to one chemical row.
pub fn update_chemical(
    id: u64,
    chemical: PartialChemical,
    store: &mut ChemicalStore,
) -> (r: Result<(), Error>)
    requires
        old(store).wf(),
    ensures
        final(store).wf(),
        update_chemical_post(*old(store), *final(store), id, chemical, r),
{
    let mut i: usize = 0;
    while i < store.chemicals.len()
        invariant
            *store == *old(store),
            old(store).wf(),
            0 <= i <= store.chemicals@.len(),
            forall|j: int| 0 <= j < i ==> store.chemicals@[j].id != id,
        decreases store.chemicals@.len() - i,
    {
        if store.chemicals[i].id == id {
            let row = &store.chemicals[i];
            let updated = Chemical {
                id,
                name: match chemical.name {
                    Some(s) => s,
                    None => row.name.clone(),
                },
                purpose: match chemical.purpose {
                    Some(s) => s,
                    None => row.purpose.clone(),
                },
                company_name: match chemical.company_name {
                    Some(s) => s,
                    None => row.company_name.clone(),
                },
                ingredients: match chemical.ingredients {
                    Some(s) => s,
                    None => row.ingredients.clone(),
                },
                manual_link: match chemical.manual_link {
                    Some(s) => s,
                    None => row.manual_link.clone(),
                },
            };
            proof {
                let ghost pre = old(store).chemicals@;
                let j = choose|j: int| 0 <= j < pre.len() && pre[j].id == id;
                assert(pre[j].id == id && pre[i as int].id == id);
                assert(j == i);
            }
            store.chemicals.set(i, updated);
            return Ok(());
        }
        i += 1;
    }
    proof {
        assert(!exists|j: int|
            0 <= j < old(store).chemicals@.len() && old(store).chemicals@[j].id == id) by {
            if exists|j: int|
                0 <= j < old(store).chemicals@.len() && old(store).chemicals@[j].id == id {
                let j = choose|j: int|
                    0 <= j < old(store).chemicals@.len() && old(store).chemicals@[j].id == id;
                assert(false);
            }
        }
    }
    Ok(())
}

/// What `delete_chemical` does to the store.
pub open spec fn delete_chemical_post(
    pre: ChemicalStore,
    post: ChemicalStore,
    id: u64,
    r: Result<(), Error>,
) -> bool {
    &&& post.inventory == pre.inventory
    &&& post.next_inventory_id == pre.next_inventory_id
    &&& post.next_chemical_id == pre.next_chemical_id
    &&& r is Ok
    &&& if exists|i: int| 0 <= i < pre.chemicals@.len() && pre.chemicals@[i].id == id {
        let i = choose|i: int| 0 <= i < pre.chemicals@.len() && pre.chemicals@[i].id == id;
        post.chemicals@ == pre.chemicals@.remove(i)
    } else {
        post.chemicals == pre.chemicals
    }
}

/// Remove a chemical row; deleting a missing id changes nothing.
pub fn delete_chemical(id: u64, store: &mut ChemicalStore) -> (r: Result<(), Error>)
    requires
        old(store).wf(),
    ensures
        final(store).wf(),
        delete_chemical_post(*old(store), *final(store), id, r),
{
    let mut i: usize = 0;
    while i < store.chemicals.len()
        invariant
            *store == *old(store),
            old(store).wf(),
            0 <= i <= store.chemicals@.len(),
            forall|j: int| 0 <= j < i ==> store.chemicals@[j].id != id,
        decreases store.chemicals@.len() - i,
    {
        if store.chemicals[i].id == id {
            proof {
                let ghost pre = old(store).chemicals@;
                let j = choose|j: int| 0 <= j < pre.len() && pre[j].id == id;
                assert(pre[j].id == id && pre[i as int].id == id);
                assert(j == i);
            }
            store.chemicals.remove(i);
            return Ok(());
        }
        i += 1;
    }
    proof {
        assert(!exists|j: int|
            0 <= j < old(store).chemicals@.len() && old(store).chemicals@[j].id == id) by {
            if exists|j: int|
                0 <= j < old(store).chemicals@.len() && old(store).chemicals@[j].id == id {
                let j = choose|j: int|
                    0 <= j < old(store).chemicals@.len() && old(store).chemicals@[j].id == id;
                assert(false);
            }
        }
    }
    Ok(())
}

/// Dispatch a chemical command behind the chemical capabilities.
pub fn handle_chemical(
    request: ChemicalRequest,
    requested_user: Option<u64>,
    permissions: &PermissionStore,
    store: &mut ChemicalStore,
) -> (r: Result<ChemicalResponse, Error>)
    requires
        old(store).wf(),
    ensures
        final(store).wf(),
        request matches ChemicalRequest::Search(search) ==> {
            &&& !spec_allowed(*permissions, requested_user, "GetChemical"@) ==> (r matches Err(e)
                && e.kind == ErrorKind::PermissionDenied && *final(store) == *old(store))
            &&& spec_allowed(*permissions, requested_user, "GetChemical"@) ==> (*final(store)
                == *old(store) && match r {
                Ok(ChemicalResponse::ManyChemicals(list)) => search_chemical_post(
                    *old(store),
                    search,
                    Ok(list),
                ),
                _ => false,
            })
        },
        request matches ChemicalRequest::GetChemical(id) ==> {
            &&& !spec_allowed(*permissions, requested_user, "GetChemical"@) ==> (r matches Err(e)
                && e.kind == ErrorKind::PermissionDenied && *final(store) == *old(store))
            &&& spec_allowed(*permissions, requested_user, "GetChemical"@) ==> (*final(store)
                == *old(store) && match r {
                Ok(ChemicalResponse::OneChemical(c)) => get_chemical_post(*old(store), id, Ok(c)),
                Err(e) => get_chemical_post(*old(store), id, Err(e)),
                Ok(_) => false,
            })
        },
        request matches ChemicalRequest::CreateChemical(arg) ==> {
            &&& !spec_allowed(*permissions, requested_user, "CreateChemical"@) ==> (r matches Err(
            e,
            ) && e.kind == ErrorKind::PermissionDenied && *final(store) == *old(store))
            &&& spec_allowed(*permissions, requested_user, "CreateChemical"@) ==> (match r {
                Ok(ChemicalResponse::OneChemical(c)) => create_chemical_post(
                    *old(store),
                    *final(store),
                    arg,
                    Ok(c),
                ),
                Err(e) => create_chemical_post(*old(store), *final(store), arg, Err(e)),
                Ok(_) => false,
            })
        },
        request matches ChemicalRequest::UpdateChemical(id, partial) ==> {
            &&& !spec_allowed(*permissions, requested_user, "UpdateChemical"@) ==> (r matches Err(
            e,
            ) && e.kind == ErrorKind::PermissionDenied && *final(store) == *old(store))
            &&& spec_allowed(*permissions, requested_user, "UpdateChemical"@) ==> (match r {
                Ok(ChemicalResponse::NoResponse) => update_chemical_post(
                    *old(store),
                    *final(store),
                    id,
                    partial,
                    Ok(()),
                ),
                Err(e) => update_chemical_post(*old(store), *final(store), id, partial, Err(e)),
                Ok(_) => false,
            })
        },
        request matches ChemicalRequest::DeleteChemical(id) ==> {
            &&& !spec_allowed(*permissions, requested_user, "DeleteChemical"@) ==> (r matches Err(
            e,
            ) && e.kind == ErrorKind::PermissionDenied && *final(store) == *old(store))
            &&& spec_allowed(*permissions, requested_user, "DeleteChemical"@) ==> (match r {
                Ok(ChemicalResponse::NoResponse) => delete_chemical_post(
                    *old(store),
                    *final(store),
                    id,
                    Ok(()),
                ),
                Err(e) => delete_chemical_post(*old(store), *final(store), id, Err(e)),
                Ok(_) => false,
            })
        },
{
    match request {
        ChemicalRequest::Search(search) => {
            check_to_run(requested_user, "GetChemical", permissions)?;
            match search_chemical(search, store) {
                Ok(list) => Ok(ChemicalResponse::ManyChemicals(list)),
                Err(e) => Err(e),
            }
        },
        ChemicalRequest::GetChemical(id) => {
            check_to_run(requested_user, "GetChemical", permissions)?;
            match get_chemical(id, store) {
                Ok(c) => Ok(ChemicalResponse::OneChemical(c)),
                Err(e) => Err(e),
            }
        },
        ChemicalRequest::CreateChemical(arg) => {
            check_to_run(requested_user, "CreateChemical", permissions)?;
            match create_chemical(arg, store) {
                Ok(c) => Ok(ChemicalResponse::OneChemical(c)),
                Err(e) => Err(e),
            }
        },
        ChemicalRequest::UpdateChemical(id, partial) => {
            check_to_run(requested_user, "UpdateChemical", permissions)?;
            match update_chemical(id, partial, store) {
                Ok(()) => Ok(ChemicalResponse::NoResponse),
                Err(e) => Err(e),
            }
        },
        ChemicalRequest::DeleteChemical(id) => {
            check_to_run(requested_user, "DeleteChemical", permissions)?;
            match delete_chemical(id, store) {
                Ok(()) => Ok(ChemicalResponse::NoResponse),
                Err(e) => Err(e),
            }
        },
    }
}


/// Does an inventory entry pass all five directives?  Ids match
/// exactly either way.
pub open spec fn spec_inventory_selected(e: ChemicalInventory, search: SearchChemicalInventory) -> bool {
    &&& match search.purchaser_id {
        Search::Partial(x) => e.purchaser_id == x,
        Search::Exact(x) => e.purchaser_id == x,
        Search::NoSearch => true,
    }
    &&& match search.custodian_id {
        Search::Partial(x) => e.custodian_id == x,
        Search::Exact(x) => e.custodian_id == x,
        Search::NoSearch => true,
    }
    &&& match search.chemical_id {
        Search::Partial(x) => e.chemical_id == x,
        Search::Exact(x) => e.chemical_id == x,
        Search::NoSearch => true,
    }
    &&& spec_text_selected(e.storage_location@, search.storage_location)
    &&& spec_text_selected(e.amount@, search.amount)
}

/// The inventory entries passing the directives, in table order.
pub open spec fn spec_selected_inventory(
    entries: Seq<ChemicalInventory>,
    search: SearchChemicalInventory,
) -> Seq<ChemicalInventory>
    decreases entries.len(),
{
    if entries.len() == 0 {
        Seq::empty()
    } else {
        let rest = spec_selected_inventory(entries.drop_last(), search);
        if spec_inventory_selected(entries.last(), search) {
            rest.push(entries.last())
        } else {
            rest
        }
    }
}

fn clone_inventory(e: &ChemicalInventory) -> (r: ChemicalInventory)
    ensures
        r == *e,
{
    ChemicalInventory {
        id: e.id,
        purchaser_id: e.purchaser_id,
        custodian_id: e.custodian_id,
        chemical_id: e.chemical_id,
        storage_location: e.storage_location.clone(),
        amount: e.amount.clone(),
    }
}

fn u64_matches(v: u64, s: &Search<u64>) -> (r: bool)
    ensures
        r == match *s {
            Search::Partial(x) => v == x,
            Search::Exact(x) => v == x,
            Search::NoSearch => true,
        },
{
    match s {
        Search::Partial(x) => v == *x,
        Search::Exact(x) => v == *x,
        Search::NoSearch => true,
    }
}

/// What `search_chemical_inventory` reports.
pub open spec fn search_chemical_inventory_post(
    s: ChemicalStore,
    search: SearchChemicalInventory,
    r: Result<ChemicalInventoryList, Error>,
) -> bool {
    r matches Ok(list) && list.entries@ == spec_selected_inventory(s.inventory@, search)
}

/// List the inventory entries passing the directives.
pub fn search_chemical_inventory(
    inventory: SearchChemicalInventory,
    store: &ChemicalStore,
) -> (r: Result<ChemicalInventoryList, Error>)
    ensures
        search_chemical_inventory_post(*store, inventory, r),
{
    let mut out: Vec<ChemicalInventory> = Vec::new();
    let mut i: usize = 0;
    while i < store.inventory.len()
        invariant
            0 <= i <= store.inventory@.len(),
            out@ == spec_selected_inventory(store.inventory@.subrange(0, i as int), inventory),
        decreases store.inventory@.len() - i,
    {
        let ghost prefix = store.inventory@.subrange(0, i as int);
        let ghost prefix1 = store.inventory@.subrange(0, i + 1);
        proof {
            assert(prefix1.drop_last() =~= prefix);
            assert(prefix1.last() == store.inventory@[i as int]);
        }
        let e = &store.inventory[i];
        let selected = u64_matches(e.purchaser_id, &inventory.purchaser_id) && u64_matches(
            e.custodian_id,
            &inventory.custodian_id,
        ) && u64_matches(e.chemical_id, &inventory.chemical_id) && text_selected(
            e.storage_location.as_str(),
            &inventory.storage_location,
        ) && text_selected(e.amount.as_str(), &inventory.amount);
        if selected {
            out.push(clone_inventory(e));
        }
        i += 1;
    }
    proof {
        assert(store.inventory@.subrange(0, store.inventory@.len() as int) =~= store.inventory@);
    }
    Ok(ChemicalInventoryList { entries: out })
}

/// What `get_chemical_inventory` reports.
pub open spec fn get_chemical_inventory_post(s: ChemicalStore, id: u64, r: Result<
    ChemicalInventory,
    Error,
>) -> bool {
    match r {
        Ok(e) => s.inventory@.contains(e) && e.id == id,
        Err(e) => e.kind == ErrorKind::NotFound && forall|i: int|
            0 <= i < s.inventory@.len() ==> s.inventory@[i].id != id,
    }
}

/// Look one inventory entry up by id.
pub fn get_chemical_inventory(id: u64, store: &ChemicalStore) -> (r: Result<
    ChemicalInventory,
    Error,
>)
    ensures
        get_chemical_inventory_post(*store, id, r),
{
    let mut i: usize = 0;
    while i < store.inventory.len()
        invariant
            0 <= i <= store.inventory@.len(),
            forall|j: int| 0 <= j < i ==> store.inventory@[j].id != id,
        decreases store.inventory@.len() - i,
    {
        if store.inventory[i].id == id {
            return Ok(clone_inventory(&store.inventory[i]));
        }
        i += 1;
    }
    Err(Error::new(ErrorKind::NotFound))
}

/// What `create_chemical_inventory` does to the store.
pub open spec fn create_chemical_inventory_post(
    pre: ChemicalStore,
    post: ChemicalStore,
    arg: NewChemicalInventory,
    r: Result<ChemicalInventory, Error>,
) -> bool {
    &&& post.chemicals == pre.chemicals
    &&& post.next_chemical_id == pre.next_chemical_id
    &&& match r {
        Ok(e) => {
            &&& pre.next_inventory_id < u64::MAX
            &&& e.id == pre.next_inventory_id
            &&& e.purchaser_id == arg.purchaser_id
            &&& e.custodian_id == arg.custodian_id
            &&& e.chemical_id == arg.chemical_id
            &&& e.storage_location@ == arg.storage_location@
            &&& e.amount@ == arg.amount@
            &&& post.inventory@.len() == pre.inventory@.len() + 1
            &&& post.inventory@.drop_last() == pre.inventory@
            &&& post.inventory@.last() == e
            &&& post.next_inventory_id == pre.next_inventory_id + 1
        },
        Err(e) => {
            &&& e.kind == ErrorKind::Database
            &&& pre.next_inventory_id == u64::MAX
            &&& post.inventory == pre.inventory
            &&& post.next_inventory_id == pre.next_inventory_id
        },
    }
}

/// Insert an inventory entry under a fresh id.
pub fn create_chemical_inventory(
    entry: NewChemicalInventory,
    store: &mut ChemicalStore,
) -> (r: Result<ChemicalInventory, Error>)
    requires
        old(store).wf(),
    ensures
        final(store).wf(),
        create_chemical_inventory_post(*old(store), *final(store), entry, r),
{
    if store.next_inventory_id == u64::MAX {
        return Err(Error::new(ErrorKind::Database));
    }
    let id = store.next_inventory_id;
    let row = ChemicalInventory {
        id,
        purchaser_id: entry.purchaser_id,
        custodian_id: entry.custodian_id,
        chemical_id: entry.chemical_id,
        storage_location: entry.storage_location,
        amount: entry.amount,
    };
    let copy = clone_inventory(&row);
    store.inventory.push(row);
    store.next_inventory_id = id + 1;
    proof {
        assert(final(store).inventory@.drop_last() =~= old(store).inventory@);
    }
    Ok(copy)
}

/// What `update_chemical_inventory` does to the store.
pub open spec fn update_chemical_inventory_post(
    pre: ChemicalStore,
    post: ChemicalStore,
    id: u64,
    partial: PartialChemicalInventory,
    r: Result<(), Error>,
) -> bool {
    &&& post.chemicals == pre.chemicals
    &&& post.next_chemical_id == pre.next_chemical_id
    &&& post.next_inventory_id == pre.next_inventory_id
    &&& r is Ok
    &&& if exists|i: int| 0 <= i < pre.inventory@.len() && pre.inventory@[i].id == id {
        let i = choose|i: int| 0 <= i < pre.inventory@.len() && pre.inventory@[i].id == id;
        &&& post.inventory@.len() == pre.inventory@.len()
        &&& forall|j: int|
            0 <= j < pre.inventory@.len() && j != i ==> post.inventory@[j] == pre.inventory@[j]
        &&& post.inventory@[i].id == id
        &&& post.inventory@[i].purchaser_id == (match partial.purchaser_id {
            Option::Some(x) => x,
            Option::None => pre.inventory@[i].purchaser_id,
        })
        &&& post.inventory@[i].custodian_id == (match partial.custodian_id {
            Option::Some(x) => x,
            Option::None => pre.inventory@[i].custodian_id,
        })
        &&& post.inventory@[i].chemical_id == (match partial.chemical_id {
            Option::Some(x) => x,
            Option::None => pre.inventory@[i].chemical_id,
        })
        &&& post.inventory@[i].storage_location@ == (match partial.storage_location {
            Option::Some(s) => s@,
            Option::None => pre.inventory@[i].storage_location@,
        })
        &&& post.inventory@[i].amount@ == (match partial.amount {
            Option::Some(s) => s@,
            Option::None => pre.inventory@[i].amount@,
        })
    } else {
        post.inventory == pre.inventory
    }
}

/// Apply a partial update to one inventory entry.
pub fn update_chemical_inventory(
    id: u64,
    entry: PartialChemicalInventory,
    store: &mut ChemicalStore,
) -> (r: Result<(), Error>)
    requires
        old(store).wf(),
    ensures
        final(store).wf(),
        update_chemical_inventory_post(*old(store), *final(store), id, entry, r),
{
    let mut i: usize = 0;
    while i < store.inventory.len()
        invariant
            *store == *old(store),
            old(store).wf(),
            0 <= i <= store.inventory@.len(),
            forall|j: int| 0 <= j < i ==> store.inventory@[j].id != id,
        decreases store.inventory@.len() - i,
    {
        if store.inventory[i].id == id {
            let row = &store.inventory[i];
            let updated = ChemicalInventory {
                id,
                purchaser_id: match entry.purchaser_id {
                    Some(x) => x,
                    None => row.purchaser_id,
                },
                custodian_id: match entry.custodian_id {
                    Some(x) => x,
                    None => row.custodian_id,
                },
                chemical_id: match entry.chemical_id {
                    Some(x) => x,
                    None => row.chemical_id,
                },
                storage_location: match entry.storage_location {
                    Some(s) => s,
                    None => row.storage_location.clone(),
                },
                amount: match entry.amount {
                    Some(s) => s,
                    None => row.amount.clone(),
                },
            };
            proof {
                let ghost pre = old(store).inventory@;
                let j = choose|j: int| 0 <= j < pre.len() && pre[j].id == id;
                assert(pre[j].id == id && pre[i as int].id == id);
                assert(j == i);
            }
            store.inventory.set(i, updated);
            return Ok(());
        }
        i += 1;
    }
    proof {
        assert(!exists|j: int|
            0 <= j < old(store).inventory@.len() && old(store).inventory@[j].id == id) by {
            if exists|j: int|
                0 <= j < old(store).inventory@.len() && old(store).inventory@[j].id == id {
                let j = choose|j: int|
                    0 <= j < old(store).inventory@.len() && old(store).inventory@[j].id == id;
                assert(false);
            }
        }
    }
    Ok(())
}

/// What `delete_chemical_inventory` does to the store.
pub open spec fn delete_chemical_inventory_post(
    pre: ChemicalStore,
    post: ChemicalStore,
    id: u64,
    r: Result<(), Error>,
) -> bool {
    &&& post.chemicals == pre.chemicals
    &&& post.next_chemical_id == pre.next_chemical_id
    &&& post.next_inventory_id == pre.next_inventory_id
    &&& r is Ok
    &&& if exists|i: int| 0 <= i < pre.inventory@.len() && pre.inventory@[i].id == id {
        let i = choose|i: int| 0 <= i < pre.inventory@.len() && pre.inventory@[i].id == id;
        post.inventory@ == pre.inventory@.remove(i)
    } else {
        post.inventory == pre.inventory
    }
}

/// Remove an inventory entry; deleting a missing id changes nothing.
pub fn delete_chemical_inventory(id: u64, store: &mut ChemicalStore) -> (r: Result<(), Error>)
    requires
        old(store).wf(),
    ensures
        final(store).wf(),
        delete_chemical_inventory_post(*old(store), *final(store), id, r),
{
    let mut i: usize = 0;
    while i < store.inventory.len()
        invariant
            *store == *old(store),
            old(store).wf(),
            0 <= i <= store.inventory@.len(),
            forall|j: int| 0 <= j < i ==> store.inventory@[j].id != id,
        decreases store.inventory@.len() - i,
    {
        if store.inventory[i].id == id {
            proof {
                let ghost pre = old(store).inventory@;
                let j = choose|j: int| 0 <= j < pre.len() && pre[j].id == id;
                assert(pre[j].id == id && pre[i as int].id == id);
                assert(j == i);
            }
            store.inventory.remove(i);
            return Ok(());
        }
        i += 1;
    }
    proof {
        assert(!exists|j: int|
            0 <= j < old(store).inventory@.len() && old(store).inventory@[j].id == id) by {
            if exists|j: int|
                0 <= j < old(store).inventory@.len() && old(store).inventory@[j].id == id {
                let j = choose|j: int|
                    0 <= j < old(store).inventory@.len() && old(store).inventory@[j].id == id;
                assert(false);
            }
        }
    }
    Ok(())
}

/// Dispatch an inventory command behind the inventory capabilities.
pub fn handle_chemical_inventory(
    request: ChemicalInventoryRequest,
    requested_user: Option<u64>,
    permissions: &PermissionStore,
    store: &mut ChemicalStore,
) -> (r: Result<ChemicalInventoryResponse, Error>)
    requires
        old(store).wf(),
    ensures
        final(store).wf(),
        request matches ChemicalInventoryRequest::SearchInventory(search) ==> {
            &&& !spec_allowed(*permissions, requested_user, "GetChemicalInventory"@) ==> (r matches
            Err(e) && e.kind == ErrorKind::PermissionDenied && *final(store) == *old(store))
            &&& spec_allowed(*permissions, requested_user, "GetChemicalInventory"@) ==> (*final(store) == *old(store) && match r {
                Ok(ChemicalInventoryResponse::ManyInventoryEntries(list)) =>
                    search_chemical_inventory_post(*old(store), search, Ok(list)),
                _ => false,
            })
        },
        request matches ChemicalInventoryRequest::GetInventory(id) ==> {
            &&& !spec_allowed(*permissions, requested_user, "GetChemicalInventory"@) ==> (r matches
            Err(e) && e.kind == ErrorKind::PermissionDenied && *final(store) == *old(store))
            &&& spec_allowed(*permissions, requested_user, "GetChemicalInventory"@) ==> (*final(store) == *old(store) && match r {
                Ok(ChemicalInventoryResponse::OneInventoryEntry(e2)) => get_chemical_inventory_post(
                    *old(store),
                    id,
                    Ok(e2),
                ),
                Err(e) => get_chemical_inventory_post(*old(store), id, Err(e)),
                Ok(_) => false,
            })
        },
        request matches ChemicalInventoryRequest::CreateInventory(arg) ==> {
            &&& !spec_allowed(*permissions, requested_user, "CreateChemicalInventory"@) ==> (
            r matches Err(e) && e.kind == ErrorKind::PermissionDenied && *final(store) == *old(
                store,
            ))
            &&& spec_allowed(*permissions, requested_user, "CreateChemicalInventory"@) ==> (
            match r {
                Ok(ChemicalInventoryResponse::OneInventoryEntry(e2)) =>
                    create_chemical_inventory_post(*old(store), *final(store), arg, Ok(e2)),
                Err(e) => create_chemical_inventory_post(*old(store), *final(store), arg, Err(e)),
                Ok(_) => false,
            })
        },
        request matches ChemicalInventoryRequest::UpdateInventory(id, partial) ==> {
            &&& !spec_allowed(*permissions, requested_user, "UpdateChemicalInventory"@) ==> (
            r matches Err(e) && e.kind == ErrorKind::PermissionDenied && *final(store) == *old(
                store,
            ))
            &&& spec_allowed(*permissions, requested_user, "UpdateChemicalInventory"@) ==> (
            match r {
                Ok(ChemicalInventoryResponse::NoResponse) => update_chemical_inventory_post(
                    *old(store),
                    *final(store),
                    id,
                    partial,
                    Ok(()),
                ),
                Err(e) => update_chemical_inventory_post(
                    *old(store),
                    *final(store),
                    id,
                    partial,
                    Err(e),
                ),
                Ok(_) => false,
            })
        },
        request matches ChemicalInventoryRequest::DeleteInventory(id) ==> {
            &&& !spec_allowed(*permissions, requested_user, "DeleteChemicalInventory"@) ==> (
            r matches Err(e) && e.kind == ErrorKind::PermissionDenied && *final(store) == *old(
                store,
            ))
            &&& spec_allowed(*permissions, requested_user, "DeleteChemicalInventory"@) ==> (
            match r {
                Ok(ChemicalInventoryResponse::NoResponse) => delete_chemical_inventory_post(
                    *old(store),
                    *final(store),
                    id,
                    Ok(()),
                ),
                Err(e) => delete_chemical_inventory_post(*old(store), *final(store), id, Err(e)),
                Ok(_) => false,
            })
        },
{
    match request {
        ChemicalInventoryRequest::SearchInventory(search) => {
            check_to_run(requested_user, "GetChemicalInventory", permissions)?;
            match search_chemical_inventory(search, store) {
                Ok(list) => Ok(ChemicalInventoryResponse::ManyInventoryEntries(list)),
                Err(e) => Err(e),
            }
        },
        ChemicalInventoryRequest::GetInventory(id) => {
            check_to_run(requested_user, "GetChemicalInventory", permissions)?;
            match get_chemical_inventory(id, store) {
                Ok(e) => Ok(ChemicalInventoryResponse::OneInventoryEntry(e)),
                Err(e) => Err(e),
            }
        },
        ChemicalInventoryRequest::CreateInventory(arg) => {
            check_to_run(requested_user, "CreateChemicalInventory", permissions)?;
            match create_chemical_inventory(arg, store) {
                Ok(e) => Ok(ChemicalInventoryResponse::OneInventoryEntry(e)),
                Err(e) => Err(e),
            }
        },
        ChemicalInventoryRequest::UpdateInventory(id, partial) => {
            check_to_run(requested_user, "UpdateChemicalInventory", permissions)?;
            match update_chemical_inventory(id, partial, store) {
                Ok(()) => Ok(ChemicalInventoryResponse::NoResponse),
                Err(e) => Err(e),
            }
        },
        ChemicalInventoryRequest::DeleteInventory(id) => {
            check_to_run(requested_user, "DeleteChemicalInventory", permissions)?;
            match delete_chemical_inventory(id, store) {
                Ok(()) => Ok(ChemicalInventoryResponse::NoResponse),
                Err(e) => Err(e),
            }
        },
    }
}

} // verus!
