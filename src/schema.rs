//! The table catalog: names, definitions, foreign-key edges and the order in
//! which tables are dropped and created.
use vstd::prelude::*;

verus! {

/// Definition of the `countries` table.
pub const COUNTRIES_DDL: &'static str = "
        CREATE TABLE countries (
            country_id  SERIAL PRIMARY KEY,
            name        TEXT UNIQUE NOT NULL
        )
    ";

/// Definition of the `suppliers` table.
pub const SUPPLIERS_DDL: &'static str = "
        CREATE TABLE suppliers (
            supplier_id SERIAL PRIMARY KEY,
            country_id  INTEGER REFERENCES countries NOT NULL,
            name        TEXT NOT NULL,
            email       TEXT NOT NULL
        )
    ";

/// Definition of the `product_categories` table.
pub const PRODUCT_CATEGORIES_DDL: &'static str = "
        CREATE TABLE product_categories (
            category_id SERIAL PRIMARY KEY,
            name        TEXT UNIQUE NOT NULL
        )
    ";

/// Definition of the `product_subcategories` table.
pub const PRODUCT_SUBCATEGORIES_DDL: &'static str = "
        CREATE TABLE product_subcategories (
            subcategory_id  SERIAL PRIMARY KEY,
            category_id     INTEGER REFERENCES product_categories NOT NULL,
            name            TEXT UNIQUE NOT NULL
        )
    ";

/// Definition of the `products` table.
pub const PRODUCTS_DDL: &'static str = "
        CREATE TABLE products (
            product_id      SERIAL PRIMARY KEY,
            supplier_id     INTEGER REFERENCES suppliers NOT NULL,
            subcategory_id  INTEGER REFERENCES product_subcategories NOT NULL,
            name            TEXT UNIQUE NOT NULL
        )
    ";

/// Definition of the `clients` table.
pub const CLIENTS_DDL: &'static str = "
        CREATE TABLE clients (
            client_id   SERIAL PRIMARY KEY,
            name        TEXT UNIQUE NOT NULL,
            email       TEXT NOT NULL
        )
    ";

/// Definition of the `client_addresses` table.
pub const CLIENT_ADDRESSES_DDL: &'static str = "
        CREATE TABLE client_addresses (
            client_address_id   SERIAL PRIMARY KEY,
            client_id           INTEGER REFERENCES clients NOT NULL,
            address             TEXT NOT NULL
        )
    ";

/// Definition of the `product_requirements` table.
pub const PRODUCT_REQUIREMENTS_DDL: &'static str = "
        CREATE TABLE product_requirements (
            product_requirement_id  SERIAL PRIMARY KEY,
            product_id              INTEGER REFERENCES products NOT NULL,
            client_address_id       INTEGER REFERENCES client_addresses NOT NULL,
            count                   INTEGER NOT NULL,
            CHECK (count >= 0)
        )
    ";

/// Definition of the `warehouses` table.
pub const WAREHOUSES_DDL: &'static str = "
        CREATE TABLE warehouses (
            warehouse_id    SERIAL PRIMARY KEY,
            address         TEXT UNIQUE NOT NULL
        )
    ";

/// Definition of the `product_locations` table.
pub const PRODUCT_LOCATIONS_DDL: &'static str = "
        CREATE TABLE product_locations (
            product_location_id SERIAL PRIMARY KEY,
            warehouse_id        INTEGER REFERENCES warehouses NOT NULL,
            product_id          INTEGER REFERENCES products NOT NULL,
            count               INTEGER NOT NULL,
            CHECK (count >= 0)
        )
    ";

/// Definition of the `user_roles` table.
pub const USER_ROLES_DDL: &'static str = "
        CREATE TABLE user_roles (
            user_role_id    SERIAL PRIMARY KEY,
            name            TEXT UNIQUE NOT NULL
        )
    ";

/// Definition of the `users` table.
pub const USERS_DDL: &'static str = "
        CREATE TABLE users (
            user_id             SERIAL PRIMARY KEY,
            supplier_id         INTEGER REFERENCES suppliers UNIQUE,
            client_id           INTEGER REFERENCES clients UNIQUE,
            user_role_id        INTEGER REFERENCES user_roles NOT NULL,
            name                TEXT UNIQUE NOT NULL,
            password            TEXT NOT NULL,
            CHECK ((supplier_id IS NULL) OR (client_id IS NULL))
        )
    ";

/// Drops the `countries` table and what depends on it.
pub const COUNTRIES_DROP: &'static str = "DROP TABLE countries CASCADE";

/// Drops the `suppliers` table and what depends on it.
pub const SUPPLIERS_DROP: &'static str = "DROP TABLE suppliers CASCADE";

/// Drops the `product_categories` table and what depends on it.
pub const PRODUCT_CATEGORIES_DROP: &'static str = "DROP TABLE product_categories CASCADE";

/// Drops the `product_subcategories` table and what depends on it.
pub const PRODUCT_SUBCATEGORIES_DROP: &'static str = "DROP TABLE product_subcategories CASCADE";

/// Drops the `products` table and what depends on it.
pub const PRODUCTS_DROP: &'static str = "DROP TABLE products CASCADE";

/// Drops the `clients` table and what depends on it.
pub const CLIENTS_DROP: &'static str = "DROP TABLE clients CASCADE";

/// Drops the `client_addresses` table and what depends on it.
pub const CLIENT_ADDRESSES_DROP: &'static str = "DROP TABLE client_addresses CASCADE";

/// Drops the `product_requirements` table and what depends on it.
pub const PRODUCT_REQUIREMENTS_DROP: &'static str = "DROP TABLE product_requirements CASCADE";

/// Drops the `warehouses` table and what depends on it.
pub const WAREHOUSES_DROP: &'static str = "DROP TABLE warehouses CASCADE";

/// Drops the `product_locations` table and what depends on it.
pub const PRODUCT_LOCATIONS_DROP: &'static str = "DROP TABLE product_locations CASCADE";

/// Drops the `user_roles` table and what depends on it.
pub const USER_ROLES_DROP: &'static str = "DROP TABLE user_roles CASCADE";

/// Drops the `users` table and what depends on it.
pub const USERS_DROP: &'static str = "DROP TABLE users CASCADE";

/// Makes the salted one-way hash (`crypt`, `gen_salt`) available; run in the
/// creation transaction, before any user row can be written.
pub const HASHING_EXTENSION_SQL: &'static str = "CREATE EXTENSION IF NOT EXISTS pgcrypto";

/// Index on the ownership columns of `users`.
pub const USER_OWNER_INDEX_SQL: &'static str = "
        CREATE INDEX user_index
        ON users(supplier_id, client_id)
    ";

/// Index on the names of `user_roles`.
pub const USER_ROLE_INDEX_SQL: &'static str = "
        CREATE INDEX user_role_index
        ON user_roles(name)
    ";

/// SQLSTATE of "relation does not exist": the one failure a drop may ignore.
pub const UNDEFINED_TABLE_STATE: &'static str = "42P01";

/// A table of the schema.
#[derive(Clone, Copy, Debug, PartialEq, Eq, Structural)]
pub enum Table {
    Countries,
    Suppliers,
    ProductCategories,
    ProductSubcategories,
    Products,
    Clients,
    ClientAddresses,
    ProductRequirements,
    Warehouses,
    ProductLocations,
    UserRoles,
    Users,
}

impl Table {
    /// The statement that creates this table.
    pub open spec fn create_sql_spec(self) -> &'static str {
        match self {
            Table::Countries => COUNTRIES_DDL,
            Table::Suppliers => SUPPLIERS_DDL,
            Table::ProductCategories => PRODUCT_CATEGORIES_DDL,
            Table::ProductSubcategories => PRODUCT_SUBCATEGORIES_DDL,
            Table::Products => PRODUCTS_DDL,
            Table::Clients => CLIENTS_DDL,
            Table::ClientAddresses => CLIENT_ADDRESSES_DDL,
            Table::ProductRequirements => PRODUCT_REQUIREMENTS_DDL,
            Table::Warehouses => WAREHOUSES_DDL,
            Table::ProductLocations => PRODUCT_LOCATIONS_DDL,
            Table::UserRoles => USER_ROLES_DDL,
            Table::Users => USERS_DDL,
        }
    }

    /// The statement that creates this table.
    pub fn create_sql(self) -> (r: &'static str)
        ensures
            r == self.create_sql_spec(),
    {
        match self {
            Table::Countries => COUNTRIES_DDL,
            Table::Suppliers => SUPPLIERS_DDL,
            Table::ProductCategories => PRODUCT_CATEGORIES_DDL,
            Table::ProductSubcategories => PRODUCT_SUBCATEGORIES_DDL,
            Table::Products => PRODUCTS_DDL,
            Table::Clients => CLIENTS_DDL,
            Table::ClientAddresses => CLIENT_ADDRESSES_DDL,
            Table::ProductRequirements => PRODUCT_REQUIREMENTS_DDL,
            Table::Warehouses => WAREHOUSES_DDL,
            Table::ProductLocations => PRODUCT_LOCATIONS_DDL,
            Table::UserRoles => USER_ROLES_DDL,
            Table::Users => USERS_DDL,
        }
    }

    /// The statement that drops this table.
    pub open spec fn drop_sql_spec(self) -> &'static str {
        match self {
            Table::Countries => COUNTRIES_DROP,
            Table::Suppliers => SUPPLIERS_DROP,
            Table::ProductCategories => PRODUCT_CATEGORIES_DROP,
            Table::ProductSubcategories => PRODUCT_SUBCATEGORIES_DROP,
            Table::Products => PRODUCTS_DROP,
            Table::Clients => CLIENTS_DROP,
            Table::ClientAddresses => CLIENT_ADDRESSES_DROP,
            Table::ProductRequirements => PRODUCT_REQUIREMENTS_DROP,
            Table::Warehouses => WAREHOUSES_DROP,
            Table::ProductLocations => PRODUCT_LOCATIONS_DROP,
            Table::UserRoles => USER_ROLES_DROP,
            Table::Users => USERS_DROP,
        }
    }

    /// The statement that drops this table, with cascade.
    pub fn drop_sql(self) -> (r: &'static str)
        ensures
            r == self.drop_sql_spec(),
    {
        match self {
            Table::Countries => COUNTRIES_DROP,
            Table::Suppliers => SUPPLIERS_DROP,
            Table::ProductCategories => PRODUCT_CATEGORIES_DROP,
            Table::ProductSubcategories => PRODUCT_SUBCATEGORIES_DROP,
            Table::Products => PRODUCTS_DROP,
            Table::Clients => CLIENTS_DROP,
            Table::ClientAddresses => CLIENT_ADDRESSES_DROP,
            Table::ProductRequirements => PRODUCT_REQUIREMENTS_DROP,
            Table::Warehouses => WAREHOUSES_DROP,
            Table::ProductLocations => PRODUCT_LOCATIONS_DROP,
            Table::UserRoles => USER_ROLES_DROP,
            Table::Users => USERS_DROP,
        }
    }

    /// The table's name in the database.
    pub open spec fn name_spec(self) -> Seq<char> {
        match self {
            Table::Countries => "countries"@,
            Table::Suppliers => "suppliers"@,
            Table::ProductCategories => "product_categories"@,
            Table::ProductSubcategories => "product_subcategories"@,
            Table::Products => "products"@,
            Table::Clients => "clients"@,
            Table::ClientAddresses => "client_addresses"@,
            Table::ProductRequirements => "product_requirements"@,
            Table::Warehouses => "warehouses"@,
            Table::ProductLocations => "product_locations"@,
            Table::UserRoles => "user_roles"@,
            Table::Users => "users"@,
        }
    }

    /// The table's name in the database.
    pub fn name(self) -> (r: &'static str)
        ensures
            r@ == self.name_spec(),
    {
        match self {
            Table::Countries => "countries",
            Table::Suppliers => "suppliers",
            Table::ProductCategories => "product_categories",
            Table::ProductSubcategories => "product_subcategories",
            Table::Products => "products",
            Table::Clients => "clients",
            Table::ClientAddresses => "client_addresses",
            Table::ProductRequirements => "product_requirements",
            Table::Warehouses => "warehouses",
            Table::ProductLocations => "product_locations",
            Table::UserRoles => "user_roles",
            Table::Users => "users",
        }
    }

    /// The tables this one holds foreign keys into.
    pub open spec fn references_spec(self) -> Seq<Table> {
        match self {
            Table::Countries => seq![],
            Table::Suppliers => seq![Table::Countries],
            Table::ProductCategories => seq![],
            Table::ProductSubcategories => seq![Table::ProductCategories],
            Table::Products => seq![Table::Suppliers, Table::ProductSubcategories],
            Table::Clients => seq![],
            Table::ClientAddresses => seq![Table::Clients],
            Table::ProductRequirements => seq![Table::Products, Table::ClientAddresses],
            Table::Warehouses => seq![],
            Table::ProductLocations => seq![Table::Warehouses, Table::Products],
            Table::UserRoles => seq![],
            Table::Users => seq![Table::Suppliers, Table::Clients, Table::UserRoles],
        }
    }

    /// The tables this one holds foreign keys into.
    pub fn references(self) -> (r: Vec<Table>)
        ensures
            r@ == self.references_spec(),
    {
        match self {
            Table::Countries => vec![],
            Table::Suppliers => vec![Table::Countries],
            Table::ProductCategories => vec![],
            Table::ProductSubcategories => vec![Table::ProductCategories],
            Table::Products => vec![Table::Suppliers, Table::ProductSubcategories],
            Table::Clients => vec![],
            Table::ClientAddresses => vec![Table::Clients],
            Table::ProductRequirements => vec![Table::Products, Table::ClientAddresses],
            Table::Warehouses => vec![],
            Table::ProductLocations => vec![Table::Warehouses, Table::Products],
            Table::UserRoles => vec![],
            Table::Users => vec![Table::Suppliers, Table::Clients, Table::UserRoles],
        }
    }
}

/// The creation order: every table after all the tables it references.
pub open spec fn creation_order_spec() -> Seq<Table> {
    seq![Table::Countries, Table::Suppliers, Table::ProductCategories, Table::ProductSubcategories, Table::Products, Table::Clients, Table::ClientAddresses, Table::ProductRequirements, Table::Warehouses, Table::ProductLocations, Table::UserRoles, Table::Users]
}

/// Every table of the schema, in creation order.
pub fn creation_order() -> (r: Vec<Table>)
    ensures
        r@ == creation_order_spec(),
{
    vec![Table::Countries, Table::Suppliers, Table::ProductCategories, Table::ProductSubcategories, Table::Products, Table::Clients, Table::ClientAddresses, Table::ProductRequirements, Table::Warehouses, Table::ProductLocations, Table::UserRoles, Table::Users]
}

/// The drop order: the catalog as it stands; each drop cascades.
pub open spec fn drop_order_spec() -> Seq<Table> {
    creation_order_spec()
}

/// Every table of the schema, in the order in which they are dropped.
pub fn drop_order() -> (r: Vec<Table>)
    ensures
        r@ == drop_order_spec(),
{
    creation_order()
}

/// Position of a table in the creation order.
pub open spec fn creation_rank(t: Table) -> int {
    match t {
        Table::Countries => 0,
        Table::Suppliers => 1,
        Table::ProductCategories => 2,
        Table::ProductSubcategories => 3,
        Table::Products => 4,
        Table::Clients => 5,
        Table::ClientAddresses => 6,
        Table::ProductRequirements => 7,
        Table::Warehouses => 8,
        Table::ProductLocations => 9,
        Table::UserRoles => 10,
        Table::Users => 11,
    }
}

/// Position of a table in the seed order.
pub open spec fn seed_rank(t: Table) -> int {
    match t {
        Table::Countries => 0,
        Table::Suppliers => 1,
        Table::Clients => 2,
        Table::ProductCategories => 3,
        Table::ProductSubcategories => 4,
        Table::Products => 5,
        Table::Warehouses => 6,
        Table::ClientAddresses => 7,
        Table::ProductRequirements => 8,
        Table::ProductLocations => 9,
        Table::UserRoles => 10,
        Table::Users => 11,
    }
}

/// The order in which the seeding fills the tables.
pub open spec fn seed_order_spec() -> Seq<Table> {
    seq![Table::Countries, Table::Suppliers, Table::Clients, Table::ProductCategories, Table::ProductSubcategories, Table::Products, Table::Warehouses, Table::ClientAddresses, Table::ProductRequirements, Table::ProductLocations, Table::UserRoles, Table::Users]
}

/// Every table, in the order in which the seeding fills it: base entities
/// first, then the relations, then the roles and the users.
pub fn seed_order() -> (r: Vec<Table>)
    ensures
        r@ == seed_order_spec(),
{
    vec![Table::Countries, Table::Suppliers, Table::Clients, Table::ProductCategories, Table::ProductSubcategories, Table::Products, Table::Warehouses, Table::ClientAddresses, Table::ProductRequirements, Table::ProductLocations, Table::UserRoles, Table::Users]
}

/// Every table of `order` comes after each table it references.
pub open spec fn respects_references(order: Seq<Table>) -> bool {
    forall|i: int, k: int|
        0 <= i < order.len() && 0 <= k < order[i].references_spec().len() ==> exists|j: int|
            0 <= j < i && order[j] == #[trigger] order[i].references_spec()[k]
}

proof fn lemma_ranked_order(order: Seq<Table>, rank: spec_fn(Table) -> int)
    requires
        forall|t: Table| 0 <= #[trigger] rank(t) < order.len() && order[rank(t)] == t,
        forall|i: int| 0 <= i < order.len() ==> rank(#[trigger] order[i]) == i,
        forall|t: Table, k: int|
            0 <= k < t.references_spec().len() ==> rank(#[trigger] t.references_spec()[k]) < rank(
                t,
            ),
    ensures
        respects_references(order),
{
    assert forall|i: int, k: int|
        0 <= i < order.len() && 0 <= k < order[i].references_spec().len() implies exists|j: int|
        0 <= j < i && order[j] == #[trigger] order[i].references_spec()[k] by {
        let d = order[i].references_spec()[k];
        assert(rank(order[i]) == i);
        assert(order[rank(d)] == d);
    }
}

/// Dependency order: in the creation order and in the seed order alike, a
/// table that holds a foreign key into another comes after it, so neither
/// creating the tables nor filling them meets a reference to a table that is
/// not there yet.
pub proof fn lemma_dependency_order()
    ensures
        respects_references(creation_order_spec()),
        respects_references(seed_order_spec()),
{
    let c = creation_order_spec();
    let s = seed_order_spec();
    assert forall|t: Table| 0 <= #[trigger] creation_rank(t) < c.len() && c[creation_rank(t)] == t by {
    }
    assert forall|i: int| 0 <= i < c.len() implies creation_rank(#[trigger] c[i]) == i by {
    }
    assert forall|t: Table, k: int| 0 <= k < t.references_spec().len() implies creation_rank(
        #[trigger] t.references_spec()[k],
    ) < creation_rank(t) by {
    }
    lemma_ranked_order(c, |t: Table| creation_rank(t));
    assert forall|t: Table| 0 <= #[trigger] seed_rank(t) < s.len() && s[seed_rank(t)] == t by {
    }
    assert forall|i: int| 0 <= i < s.len() implies seed_rank(#[trigger] s[i]) == i by {
    }
    assert forall|t: Table, k: int| 0 <= k < t.references_spec().len() implies seed_rank(
        #[trigger] t.references_spec()[k],
    ) < seed_rank(t) by {
    }
    lemma_ranked_order(s, |t: Table| seed_rank(t));
}

/// Re-provisioning: a run drops every table of the catalog before it creates
/// any, then creates each table exactly once from a fixed statement, so a
/// second run in a row meets the same starting point and builds the same
/// schema as the first.
pub proof fn lemma_reprovision_same_schema(t: Table)
    ensures
        creation_order_spec().contains(t),
        drop_order_spec().contains(t),
        creation_order_spec().no_duplicates(),
        drop_order_spec() == creation_order_spec(),
{
    let c = creation_order_spec();
    assert(c[creation_rank(t)] == t);
    assert forall|i: int, j: int| 0 <= i < c.len() && 0 <= j < c.len() && i != j implies c[i]
        != c[j] by {
        assert(creation_rank(c[i]) == i);
        assert(creation_rank(c[j]) == j);
    }
}

/// Whether a failed drop may be passed over: only when the table did not
/// exist (SQLSTATE `42P01`); every other failure is a real one.
pub fn drop_failure_tolerated(state: &String) -> (r: bool)
    ensures
        r == (state@ == UNDEFINED_TABLE_STATE@),
{
    let missing = String::from_str(UNDEFINED_TABLE_STATE);
    *state == missing
}

} // verus!
