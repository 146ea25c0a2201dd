//! Base entity rows, with their foreign keys wired round-robin.
use vstd::prelude::*;
use crate::error::SeedError;
use crate::round_robin::{cycle_targets, cycled};

verus! {

/// A name with its e-mail address: a supplier or a client to insert.
#[derive(Debug)]
pub struct Contact {
    pub name: String,
    pub email: String,
}

/// A supplier row: its country and its contact details.
#[derive(Debug)]
pub struct SupplierRow {
    pub country_id: i32,
    pub name: String,
    pub email: String,
}

/// A subcategory row under the category it belongs to.
#[derive(Debug)]
pub struct SubcategoryRow {
    pub category_id: i32,
    pub name: String,
}

/// A product row with its supplier and its subcategory.
#[derive(Debug)]
pub struct ProductRow {
    pub supplier_id: i32,
    pub subcategory_id: i32,
    pub name: String,
}

/// A client address row attached to its client.
#[derive(Debug)]
pub struct ClientAddressRow {
    pub client_id: i32,
    pub address: String,
}

/// The smaller of two lengths.
pub open spec fn shorter(a: nat, b: nat) -> nat {
    if a < b {
        a
    } else {
        b
    }
}

/// Names and e-mail addresses zipped by position, cut to the shorter list.
pub fn zip_contacts(names: &Vec<String>, emails: &Vec<String>) -> (r: Vec<Contact>)
    ensures
        r@.len() == shorter(names@.len(), emails@.len()),
        forall|i: int|
            0 <= i < r@.len() ==> (#[trigger] r@[i]).name == names@[i] && r@[i].email == emails@[i],
{
    let n: usize = if names.len() < emails.len() { names.len() } else { emails.len() };
    let mut out: Vec<Contact> = Vec::new();
    let mut i: usize = 0;
    while i < n
        invariant
            n == shorter(names@.len(), emails@.len()),
            0 <= i <= n,
            out@.len() == i,
            forall|k: int|
                0 <= k < i ==> (#[trigger] out@[k]).name == names@[k] && out@[k].email == emails@[k],
        decreases n - i,
    {
        out.push(Contact { name: names[i].clone(), email: emails[i].clone() });
        i = i + 1;
    }
    out
}

/// One supplier row per contact, in order; supplier `i` gets the country
/// `country_ids[i mod m]`. Fails with `Exhausted` when there is no country.
pub fn assign_suppliers(contacts: &Vec<Contact>, country_ids: &Vec<i32>) -> (r: Result<
    Vec<SupplierRow>,
    SeedError,
>)
    ensures
        country_ids@.len() == 0 <==> r is Err,
        r is Err ==> r->Err_0 == SeedError::Exhausted,
        r matches Ok(v) ==> {
            &&& v@.len() == contacts@.len()
            &&& forall|i: int|
                0 <= i < v@.len() ==> {
                    &&& #[trigger] v@[i].country_id == country_ids@[i % country_ids@.len() as int]
                    &&& v@[i].name == contacts@[i].name
                    &&& v@[i].email == contacts@[i].email
                }
        },
{
    let countries = match cycle_targets(contacts.len(), country_ids) {
        Err(e) => return Err(e),
        Ok(ts) => ts,
    };
    let mut out: Vec<SupplierRow> = Vec::new();
    let mut i: usize = 0;
    while i < contacts.len()
        invariant
            country_ids@.len() > 0,
            countries@ == cycled(contacts@.len(), country_ids@),
            0 <= i <= contacts@.len(),
            out@.len() == i,
            forall|k: int|
                0 <= k < i ==> {
                    &&& #[trigger] out@[k].country_id == country_ids@[k % country_ids@.len() as int]
                    &&& out@[k].name == contacts@[k].name
                    &&& out@[k].email == contacts@[k].email
                },
        decreases contacts@.len() - i,
    {
        let c = &contacts[i];
        out.push(SupplierRow { country_id: countries[i], name: c.name.clone(), email: c.email.clone() });
        i = i + 1;
    }
    Ok(out)
}

/// The subcategory rows of one category, in order, each referencing the
/// identifier that the category's insert returned.
pub fn subcategory_rows(category_id: i32, names: &Vec<String>) -> (r: Vec<SubcategoryRow>)
    ensures
        r@.len() == names@.len(),
        forall|i: int|
            0 <= i < r@.len() ==> #[trigger] r@[i].category_id == category_id && r@[i].name
                == names@[i],
{
    let mut out: Vec<SubcategoryRow> = Vec::new();
    let mut i: usize = 0;
    while i < names.len()
        invariant
            0 <= i <= names@.len(),
            out@.len() == i,
            forall|k: int|
                0 <= k < i ==> #[trigger] out@[k].category_id == category_id && out@[k].name
                    == names@[k],
        decreases names@.len() - i,
    {
        out.push(SubcategoryRow { category_id, name: names[i].clone() });
        i = i + 1;
    }
    out
}

/// One product row per name, in order; product `i` gets the subcategory
/// `subcategory_ids[i mod s]` and, independently, the supplier
/// `supplier_ids[i mod p]`. Fails with `Exhausted` when either list is empty.
pub fn assign_products(
    names: &Vec<String>,
    subcategory_ids: &Vec<i32>,
    supplier_ids: &Vec<i32>,
) -> (r: Result<Vec<ProductRow>, SeedError>)
    ensures
        (subcategory_ids@.len() == 0 || supplier_ids@.len() == 0) <==> r is Err,
        r is Err ==> r->Err_0 == SeedError::Exhausted,
        r matches Ok(v) ==> {
            &&& v@.len() == names@.len()
            &&& forall|i: int|
                0 <= i < v@.len() ==> {
                    &&& #[trigger] v@[i].subcategory_id == subcategory_ids@[i
                        % subcategory_ids@.len() as int]
                    &&& v@[i].supplier_id == supplier_ids@[i % supplier_ids@.len() as int]
                    &&& v@[i].name == names@[i]
                }
        },
{
    let subcategories = match cycle_targets(names.len(), subcategory_ids) {
        Err(e) => return Err(e),
        Ok(ts) => ts,
    };
    let suppliers = match cycle_targets(names.len(), supplier_ids) {
        Err(e) => return Err(e),
        Ok(ts) => ts,
    };
    let mut out: Vec<ProductRow> = Vec::new();
    let mut i: usize = 0;
    while i < names.len()
        invariant
            subcategory_ids@.len() > 0,
            supplier_ids@.len() > 0,
            subcategories@ == cycled(names@.len(), subcategory_ids@),
            suppliers@ == cycled(names@.len(), supplier_ids@),
            0 <= i <= names@.len(),
            out@.len() == i,
            forall|k: int|
                0 <= k < i ==> {
                    &&& #[trigger] out@[k].subcategory_id == subcategory_ids@[k
                        % subcategory_ids@.len() as int]
                    &&& out@[k].supplier_id == supplier_ids@[k % supplier_ids@.len() as int]
                    &&& out@[k].name == names@[k]
                },
        decreases names@.len() - i,
    {
        out.push(
            ProductRow {
                supplier_id: suppliers[i],
                subcategory_id: subcategories[i],
                name: names[i].clone(),
            },
        );
        i = i + 1;
    }
    Ok(out)
}

/// One client address row per address, in order; address `i` goes to the
/// client `client_ids[i mod m]`. Fails with `Exhausted` when there is no client.
pub fn assign_client_addresses(addresses: &Vec<String>, client_ids: &Vec<i32>) -> (r: Result<
    Vec<ClientAddressRow>,
    SeedError,
>)
    ensures
        client_ids@.len() == 0 <==> r is Err,
        r is Err ==> r->Err_0 == SeedError::Exhausted,
        r matches Ok(v) ==> {
            &&& v@.len() == addresses@.len()
            &&& forall|i: int|
                0 <= i < v@.len() ==> {
                    &&& #[trigger] v@[i].client_id == client_ids@[i % client_ids@.len() as int]
                    &&& v@[i].address == addresses@[i]
                }
        },
{
    let clients = match cycle_targets(addresses.len(), client_ids) {
        Err(e) => return Err(e),
        Ok(ts) => ts,
    };
    let mut out: Vec<ClientAddressRow> = Vec::new();
    let mut i: usize = 0;
    while i < addresses.len()
        invariant
            client_ids@.len() > 0,
            clients@ == cycled(addresses@.len(), client_ids@),
            0 <= i <= addresses@.len(),
            out@.len() == i,
            forall|k: int|
                0 <= k < i ==> {
                    &&& #[trigger] out@[k].client_id == client_ids@[k % client_ids@.len() as int]
                    &&& out@[k].address == addresses@[k]
                },
        decreases addresses@.len() - i,
    {
        out.push(ClientAddressRow { client_id: clients[i], address: addresses[i].clone() });
        i = i + 1;
    }
    Ok(out)
}

} // verus!
