//! The fixed, parameterized statements that write and read the seed rows.
//! Values are always bound as parameters; no statement is assembled from data.
use vstd::prelude::*;

verus! {

/// How many products the relation rows are generated against.
pub const PRODUCT_SAMPLE_LIMIT: usize = 10;

/// `$1` name.
pub const INSERT_COUNTRY: &'static str = "INSERT INTO countries (name) VALUES ($1)";

/// `$1` country id, `$2` name, `$3` email.
pub const INSERT_SUPPLIER: &'static str =
    "INSERT INTO suppliers (country_id, name, email) VALUES ($1, $2, $3)";

/// `$1` name, `$2` email.
pub const INSERT_CLIENT: &'static str = "INSERT INTO clients (name, email) VALUES ($1, $2)";

/// `$1` name; returns the new `category_id`.
pub const INSERT_CATEGORY: &'static str =
    "INSERT INTO product_categories (name) VALUES ($1) RETURNING (category_id)";

/// `$1` category id, `$2` name.
pub const INSERT_SUBCATEGORY: &'static str =
    "INSERT INTO product_subcategories (category_id, name) VALUES ($1, $2)";

/// `$1` supplier id, `$2` subcategory id, `$3` name.
pub const INSERT_PRODUCT: &'static str =
    "INSERT INTO products (supplier_id, subcategory_id, name) VALUES ($1, $2, $3)";

/// `$1` address.
pub const INSERT_WAREHOUSE: &'static str = "INSERT INTO warehouses (address) VALUES ($1)";

/// `$1` client id, `$2` address.
pub const INSERT_CLIENT_ADDRESS: &'static str =
    "INSERT INTO client_addresses (client_id, address) VALUES ($1, $2)";

/// `$1` client address id, `$2` product id, `$3` count.
pub const INSERT_REQUIREMENT: &'static str =
    "INSERT INTO product_requirements (client_address_id, product_id, count) VALUES ($1, $2, $3)";

/// `$1` warehouse id, `$2` product id, `$3` count.
pub const INSERT_LOCATION: &'static str =
    "INSERT INTO product_locations (warehouse_id, product_id, count) VALUES ($1, $2, $3)";

/// `$1` role name.
pub const INSERT_ROLE: &'static str = "INSERT INTO user_roles (name) VALUES ($1)";

/// `$1` name, `$2` plain credential (hashed with a fresh salt here), `$3` role
/// name, `$4` supplier id or null, `$5` client id or null.
pub const INSERT_USER: &'static str = "INSERT INTO users (name, password, user_role_id, supplier_id, client_id) VALUES ($1, crypt($2, gen_salt('md5')), (SELECT user_role_id FROM user_roles WHERE name = $3), $4, $5)";

/// Identifiers of every country.
pub const SELECT_COUNTRY_IDS: &'static str = "SELECT country_id FROM countries";

/// Identifiers of every subcategory.
pub const SELECT_SUBCATEGORY_IDS: &'static str = "SELECT subcategory_id FROM product_subcategories";

/// Identifiers of every supplier.
pub const SELECT_SUPPLIER_IDS: &'static str = "SELECT supplier_id FROM suppliers";

/// Identifiers of every client.
pub const SELECT_CLIENT_IDS: &'static str = "SELECT client_id FROM clients";

/// Identifiers of every client address.
pub const SELECT_CLIENT_ADDRESS_IDS: &'static str = "SELECT client_address_id FROM client_addresses";

/// Identifiers of every product.
pub const SELECT_PRODUCT_IDS: &'static str = "SELECT product_id FROM products";

/// Identifiers of every warehouse.
pub const SELECT_WAREHOUSE_IDS: &'static str = "SELECT warehouse_id FROM warehouses";

/// Identifier and name of every supplier.
pub const SELECT_SUPPLIERS: &'static str = "SELECT supplier_id, name FROM suppliers";

/// Identifier and name of every client.
pub const SELECT_CLIENTS: &'static str = "SELECT client_id, name FROM clients";

} // verus!
