//! Roles and user accounts, with the rule that a user belongs to at most one
//! supplier or client.
use vstd::prelude::*;
use crate::error::SeedError;

verus! {

/// Name of the administrator account.
pub const ADMIN_NAME: &'static str = "Gigachad";

/// Credential of the administrator account, hashed before it is stored.
pub const ADMIN_PASSWORD: &'static str = "adminadmin";

/// Credential given to every supplier and client account, hashed before it is stored.
pub const DEFAULT_PASSWORD: &'static str = "password";

/// The role a user account is bound to.
#[derive(Clone, Copy, Debug, PartialEq, Eq, Structural)]
pub enum Role {
    Admin,
    Manager,
    Client,
    Supplier,
}

impl Role {
    /// The role's name as stored in `user_roles`.
    pub open spec fn name_spec(self) -> Seq<char> {
        match self {
            Role::Admin => "admin"@,
            Role::Manager => "manager"@,
            Role::Client => "client"@,
            Role::Supplier => "supplier"@,
        }
    }

    /// The role's name as stored in `user_roles`.
    pub fn name(self) -> (r: &'static str)
        ensures
            r@ == self.name_spec(),
    {
        match self {
            Role::Admin => "admin",
            Role::Manager => "manager",
            Role::Client => "client",
            Role::Supplier => "supplier",
        }
    }
}

/// The fixed role vocabulary, in the order in which it is inserted.
pub open spec fn roles_spec() -> Seq<Role> {
    seq![Role::Admin, Role::Manager, Role::Client, Role::Supplier]
}

/// Every role, once each, in insertion order.
pub fn roles() -> (r: Vec<Role>)
    ensures
        r@ == roles_spec(),
{
    vec![Role::Admin, Role::Manager, Role::Client, Role::Supplier]
}

/// A user account to insert. Its password is the plain credential; the
/// statement that stores it hashes it with a salt.
#[derive(Debug)]
pub struct NewUser {
    pub name: String,
    pub password: String,
    pub role: Role,
    pub supplier_id: Option<i32>,
    pub client_id: Option<i32>,
}

/// At most one of the two owners is set.
pub open spec fn exclusive_owner(supplier_id: Option<i32>, client_id: Option<i32>) -> bool {
    !(supplier_id is Some && client_id is Some)
}

impl NewUser {
    /// The account is linked to a supplier or to a client, never to both.
    pub open spec fn is_exclusive(&self) -> bool {
        exclusive_owner(self.supplier_id, self.client_id)
    }
}

/// Accepts an owner pair only when at most one of the two is set; rejects it
/// with `OwnershipConflict` otherwise.
pub fn check_ownership(supplier_id: Option<i32>, client_id: Option<i32>) -> (r: Result<
    (),
    SeedError,
>)
    ensures
        r is Ok <==> exclusive_owner(supplier_id, client_id),
        r is Err ==> r->Err_0 == SeedError::OwnershipConflict,
{
    if supplier_id.is_some() && client_id.is_some() {
        Err(SeedError::OwnershipConflict)
    } else {
        Ok(())
    }
}

/// A user account with the given fields, or `OwnershipConflict` when it would
/// be linked to a supplier and to a client at once.
pub fn new_user(
    name: String,
    password: String,
    role: Role,
    supplier_id: Option<i32>,
    client_id: Option<i32>,
) -> (r: Result<NewUser, SeedError>)
    ensures
        r is Ok <==> exclusive_owner(supplier_id, client_id),
        r is Err ==> r->Err_0 == SeedError::OwnershipConflict,
        r matches Ok(u) ==> u.name == name && u.password == password && u.role == role
            && u.supplier_id == supplier_id && u.client_id == client_id,
{
    match check_ownership(supplier_id, client_id) {
        Err(e) => Err(e),
        Ok(()) => Ok(NewUser { name, password, role, supplier_id, client_id }),
    }
}

/// The administrator account: fixed name and credential, admin role, no owner.
pub fn admin_user() -> (r: NewUser)
    ensures
        r.name@ == ADMIN_NAME@,
        r.password@ == ADMIN_PASSWORD@,
        r.role == Role::Admin,
        r.supplier_id is None,
        r.client_id is None,
{
    NewUser {
        name: String::from_str(ADMIN_NAME),
        password: String::from_str(ADMIN_PASSWORD),
        role: Role::Admin,
        supplier_id: None,
        client_id: None,
    }
}

/// The fixed roster of managers: (name, credential) pairs.
pub open spec fn manager_roster_spec() -> Seq<(Seq<char>, Seq<char>)> {
    seq![
        ("Helmer"@, "array"@),
        ("Macey"@, "capacitor"@),
        ("Melvina"@, "interface"@),
        ("Priscilla"@, "driver"@),
        ("Mollie"@, "capacitor"@),
        ("Jaren"@, "driver"@),
        ("Addison"@, "port"@),
        ("Jerrold"@, "firewall"@),
    ]
}

/// One manager account per roster entry, in roster order: manager role, no owner.
pub fn manager_users() -> (r: Vec<NewUser>)
    ensures
        r@.len() == manager_roster_spec().len(),
        forall|i: int|
            0 <= i < r@.len() ==> {
                &&& (#[trigger] r@[i]).name@ == manager_roster_spec()[i].0
                &&& r@[i].password@ == manager_roster_spec()[i].1
                &&& r@[i].role == Role::Manager
                &&& r@[i].supplier_id is None
                &&& r@[i].client_id is None
            },
{
    let roster: Vec<(&'static str, &'static str)> = vec![
        ("Helmer", "array"),
        ("Macey", "capacitor"),
        ("Melvina", "interface"),
        ("Priscilla", "driver"),
        ("Mollie", "capacitor"),
        ("Jaren", "driver"),
        ("Addison", "port"),
        ("Jerrold", "firewall"),
    ];
    let ghost spec_roster = manager_roster_spec();
    assert(roster@.len() == spec_roster.len());
    assert forall|k: int| 0 <= k < roster@.len() implies (#[trigger] roster@[k]).0@
        == spec_roster[k].0 && roster@[k].1@ == spec_roster[k].1 by {}
    let mut out: Vec<NewUser> = Vec::new();
    let mut i: usize = 0;
    while i < roster.len()
        invariant
            spec_roster == manager_roster_spec(),
            roster@.len() == spec_roster.len(),
            forall|k: int|
                0 <= k < roster@.len() ==> (#[trigger] roster@[k]).0@ == spec_roster[k].0
                    && roster@[k].1@ == spec_roster[k].1,
            0 <= i <= roster@.len(),
            out@.len() == i,
            forall|k: int|
                0 <= k < i ==> {
                    &&& (#[trigger] out@[k]).name@ == spec_roster[k].0
                    &&& out@[k].password@ == spec_roster[k].1
                    &&& out@[k].role == Role::Manager
                    &&& out@[k].supplier_id is None
                    &&& out@[k].client_id is None
                },
        decreases roster@.len() - i,
    {
        let (name, password) = roster[i];
        out.push(
            NewUser {
                name: String::from_str(name),
                password: String::from_str(password),
                role: Role::Manager,
                supplier_id: None,
                client_id: None,
            },
        );
        i = i + 1;
    }
    out
}

/// An existing supplier or client: its identifier and its name.
#[derive(Debug)]
pub struct Owner {
    pub id: i32,
    pub name: String,
}

/// The account of one owner: named after it, default credential, `role`, and
/// linked to it as a supplier (when `as_supplier`) or as a client.
pub open spec fn owned_account(u: NewUser, o: Owner, role: Role, as_supplier: bool) -> bool {
    &&& u.name == o.name
    &&& u.password@ == DEFAULT_PASSWORD@
    &&& u.role == role
    &&& if as_supplier {
        u.supplier_id == Some(o.id) && u.client_id is None
    } else {
        u.client_id == Some(o.id) && u.supplier_id is None
    }
}

fn owned_users(owners: &Vec<Owner>, role: Role, as_supplier: bool) -> (r: Vec<NewUser>)
    ensures
        r@.len() == owners@.len(),
        forall|i: int|
            0 <= i < r@.len() ==> owned_account(#[trigger] r@[i], owners@[i], role, as_supplier),
{
    let mut out: Vec<NewUser> = Vec::new();
    let mut i: usize = 0;
    while i < owners.len()
        invariant
            0 <= i <= owners@.len(),
            out@.len() == i,
            forall|k: int|
                0 <= k < i ==> owned_account(#[trigger] out@[k], owners@[k], role, as_supplier),
        decreases owners@.len() - i,
    {
        let o = &owners[i];
        let (supplier_id, client_id) = if as_supplier {
            (Some(o.id), None)
        } else {
            (None, Some(o.id))
        };
        out.push(
            NewUser {
                name: o.name.clone(),
                password: String::from_str(DEFAULT_PASSWORD),
                role,
                supplier_id,
                client_id,
            },
        );
        i = i + 1;
    }
    out
}

/// One account per supplier, in order: named after the supplier, default
/// credential, supplier role, linked to that supplier and to no client.
/// No supplier gives no account.
pub fn supplier_users(suppliers: &Vec<Owner>) -> (r: Vec<NewUser>)
    ensures
        r@.len() == suppliers@.len(),
        forall|i: int|
            0 <= i < r@.len() ==> owned_account(#[trigger] r@[i], suppliers@[i], Role::Supplier, true),
{
    owned_users(suppliers, Role::Supplier, true)
}

/// One account per client, in order: named after the client, default
/// credential, client role, linked to that client and to no supplier.
/// No client gives no account.
pub fn client_users(clients: &Vec<Owner>) -> (r: Vec<NewUser>)
    ensures
        r@.len() == clients@.len(),
        forall|i: int|
            0 <= i < r@.len() ==> owned_account(#[trigger] r@[i], clients@[i], Role::Client, false),
{
    owned_users(clients, Role::Client, false)
}

/// Every account of a run, in insertion order: the administrator, the
/// managers, one per supplier, then one per client. None of them is linked to
/// a supplier and a client at once.
pub fn all_users(suppliers: &Vec<Owner>, clients: &Vec<Owner>) -> (r: Vec<NewUser>)
    ensures
        r@.len() == 1 + manager_roster_spec().len() + suppliers@.len() + clients@.len(),
        r@[0].role == Role::Admin,
        forall|i: int| 1 <= i < 1 + manager_roster_spec().len() ==> (#[trigger] r@[i]).role
            == Role::Manager,
        forall|i: int|
            0 <= i < suppliers@.len() ==> owned_account(
                #[trigger] r@[1 + manager_roster_spec().len() + i],
                suppliers@[i],
                Role::Supplier,
                true,
            ),
        forall|i: int|
            0 <= i < clients@.len() ==> owned_account(
                #[trigger] r@[1 + manager_roster_spec().len() + suppliers@.len() + i],
                clients@[i],
                Role::Client,
                false,
            ),
        forall|i: int| 0 <= i < r@.len() ==> (#[trigger] r@[i]).is_exclusive(),
{
    let mut out: Vec<NewUser> = Vec::new();
    out.push(admin_user());
    let mut managers = manager_users();
    let mut owned_s = supplier_users(suppliers);
    let mut owned_c = client_users(clients);
    let ghost m = managers@;
    let ghost ss = owned_s@;
    let ghost cs = owned_c@;
    out.append(&mut managers);
    out.append(&mut owned_s);
    out.append(&mut owned_c);
    assert forall|i: int| 0 <= i < out@.len() implies (#[trigger] out@[i]).is_exclusive() by {
        if i >= 1 && i < 1 + m.len() {
            assert(out@[i] == m[i - 1]);
        } else if i >= 1 + m.len() && i < 1 + m.len() + ss.len() {
            assert(out@[i] == ss[i - 1 - m.len()]);
        } else if i >= 1 + m.len() + ss.len() {
            assert(out@[i] == cs[i - 1 - m.len() - ss.len()]);
        }
    }
    assert forall|i: int| 0 <= i < suppliers@.len() implies owned_account(
        #[trigger] out@[1 + manager_roster_spec().len() + i],
        suppliers@[i],
        Role::Supplier,
        true,
    ) by {
        assert(out@[1 + m.len() + i] == ss[i]);
    }
    assert forall|i: int| 0 <= i < clients@.len() implies owned_account(
        #[trigger] out@[1 + manager_roster_spec().len() + suppliers@.len() + i],
        clients@[i],
        Role::Client,
        false,
    ) by {
        assert(out@[1 + m.len() + ss.len() + i] == cs[i]);
    }
    assert forall|i: int| 1 <= i < 1 + manager_roster_spec().len() implies (#[trigger] out@[
        i]).role == Role::Manager by {
        assert(out@[i] == m[i - 1]);
    }
    out
}

} // verus!
