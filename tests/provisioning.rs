use db_initializer::identity::{
    admin_user, all_users, check_ownership, client_users, manager_users, new_user, roles,
    supplier_users, Owner, Role,
};
use db_initializer::error::SeedError;
use db_initializer::schema::{
    creation_order, drop_failure_tolerated, drop_order, seed_order, Table, HASHING_EXTENSION_SQL,
};

fn owners(names: &[(i32, &str)]) -> Vec<Owner> {
    names.iter().map(|(id, n)| Owner { id: *id, name: n.to_string() }).collect()
}

fn comes_after_references(order: &[Table]) -> bool {
    order.iter().enumerate().all(|(i, t)| {
        t.references().iter().all(|d| order[..i].contains(d))
    })
}

#[test]
fn creation_order_respects_foreign_keys() {
    let order = creation_order();
    assert_eq!(order.len(), 12);
    assert!(comes_after_references(&order));
    assert_eq!(order[0].name(), "countries");
    assert_eq!(order[11].name(), "users");
}

#[test]
fn seed_order_respects_foreign_keys() {
    let order = seed_order();
    assert_eq!(order.len(), 12);
    assert!(comes_after_references(&order));
}

#[test]
fn references_follow_the_schema() {
    assert_eq!(Table::Products.references(), vec![Table::Suppliers, Table::ProductSubcategories]);
    assert_eq!(
        Table::Users.references(),
        vec![Table::Suppliers, Table::Clients, Table::UserRoles]
    );
    assert!(Table::Warehouses.references().is_empty());
}

#[test]
fn every_created_table_is_dropped_first() {
    let created = creation_order();
    let dropped = drop_order();
    for t in &created {
        assert!(dropped.contains(t));
    }
    assert_eq!(created, drop_order());
    assert_eq!(Table::Countries.drop_sql(), "DROP TABLE countries CASCADE");
}

#[test]
fn provisioning_twice_gives_the_same_statements() {
    let first: Vec<&str> = creation_order().iter().map(|t| t.create_sql()).collect();
    let second: Vec<&str> = creation_order().iter().map(|t| t.create_sql()).collect();
    assert_eq!(first, second);
    assert!(Table::Users.create_sql().contains("CHECK ((supplier_id IS NULL) OR (client_id IS NULL))"));
    assert!(HASHING_EXTENSION_SQL.contains("pgcrypto"));
}

#[test]
fn only_missing_tables_are_ignored_on_drop() {
    assert!(drop_failure_tolerated(&"42P01".to_string()));
    assert!(!drop_failure_tolerated(&"42501".to_string()));
    assert!(!drop_failure_tolerated(&String::new()));
}

#[test]
fn role_vocabulary() {
    let names: Vec<&str> = roles().iter().map(|r| r.name()).collect();
    assert_eq!(names, vec!["admin", "manager", "client", "supplier"]);
}

#[test]
fn admin_and_managers() {
    let admin = admin_user();
    assert_eq!(admin.name, "Gigachad");
    assert_eq!(admin.password, "adminadmin");
    assert_eq!(admin.role, Role::Admin);
    let managers = manager_users();
    assert_eq!(managers.len(), 8);
    assert_eq!(managers[0].name, "Helmer");
    assert_eq!(managers[0].password, "array");
    assert_eq!(managers[7].name, "Jerrold");
    assert!(managers.iter().all(|m| m.role == Role::Manager && m.supplier_id.is_none()));
}

#[test]
fn no_suppliers_gives_no_supplier_users() {
    assert!(supplier_users(&Vec::new()).is_empty());
    assert!(client_users(&Vec::new()).is_empty());
}

#[test]
fn supplier_and_client_users_are_linked_once() {
    let s = supplier_users(&owners(&[(3, "Acme"), (5, "Globex")]));
    assert_eq!(s.len(), 2);
    assert_eq!(s[1].name, "Globex");
    assert_eq!(s[1].supplier_id, Some(5));
    assert_eq!(s[1].client_id, None);
    assert_eq!(s[1].password, "password");
    assert_eq!(s[1].role, Role::Supplier);
    let c = client_users(&owners(&[(9, "Initech")]));
    assert_eq!(c[0].client_id, Some(9));
    assert_eq!(c[0].supplier_id, None);
    assert_eq!(c[0].role, Role::Client);
}

#[test]
fn all_users_are_exclusive() {
    let users = all_users(&owners(&[(1, "A"), (2, "B")]), &owners(&[(1, "C")]));
    assert_eq!(users.len(), 1 + 8 + 2 + 1);
    assert!(users.iter().all(|u| u.supplier_id.is_none() || u.client_id.is_none()));
    assert_eq!(users[9].supplier_id, Some(1));
    assert_eq!(users[11].client_id, Some(1));
    assert_eq!(users[11].name, "C");
}

#[test]
fn user_with_two_owners_is_rejected() {
    assert_eq!(check_ownership(Some(1), Some(2)), Err(SeedError::OwnershipConflict));
    assert_eq!(check_ownership(Some(1), None), Ok(()));
    assert_eq!(check_ownership(None, None), Ok(()));
    let bad = new_user("x".to_string(), "p".to_string(), Role::Client, Some(1), Some(2));
    assert!(matches!(bad, Err(SeedError::OwnershipConflict)));
    let good = new_user("x".to_string(), "p".to_string(), Role::Client, None, Some(2)).unwrap();
    assert_eq!(good.client_id, Some(2));
}
