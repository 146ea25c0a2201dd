use db_initializer::error::SeedError;
use db_initializer::relation::{
    first_ids, relation_count, relation_rows, sampled_relation_rows, RelationRow,
};
use db_initializer::round_robin::{cycle_targets, round_robin};
use db_initializer::seed::{
    assign_client_addresses, assign_products, assign_suppliers, subcategory_rows, zip_contacts,
    Contact,
};

fn strings(items: &[&str]) -> Vec<String> {
    items.iter().map(|s| s.to_string()).collect()
}

fn contacts(n: usize) -> Vec<Contact> {
    (0..n)
        .map(|i| Contact { name: format!("supplier{i}"), email: format!("s{i}@mail.test") })
        .collect()
}

#[test]
fn round_robin_pairs_every_assignee() {
    let pairs = round_robin(&vec![10u8, 11, 12, 13, 14], &vec!['a', 'b']).unwrap();
    assert_eq!(pairs, vec![(10, 'a'), (11, 'b'), (12, 'a'), (13, 'b'), (14, 'a')]);
}

#[test]
fn round_robin_with_more_targets_than_assignees() {
    let pairs = round_robin(&vec![1i32, 2], &vec![7i32, 8, 9]).unwrap();
    assert_eq!(pairs, vec![(1, 7), (2, 8)]);
}

#[test]
fn round_robin_of_no_assignees_is_empty() {
    let pairs = round_robin(&Vec::<i32>::new(), &vec![1i32]).unwrap();
    assert!(pairs.is_empty());
}

#[test]
fn round_robin_without_targets_is_exhausted() {
    assert_eq!(round_robin(&vec![1i32, 2, 3], &Vec::<i32>::new()), Err(SeedError::Exhausted));
    assert_eq!(round_robin(&Vec::<i32>::new(), &Vec::<i32>::new()), Err(SeedError::Exhausted));
    assert_eq!(cycle_targets(4, &Vec::<i32>::new()), Err(SeedError::Exhausted));
}

#[test]
fn cycle_targets_wraps_around() {
    assert_eq!(cycle_targets(7, &vec![5i32, 6, 7]).unwrap(), vec![5, 6, 7, 5, 6, 7, 5]);
}

#[test]
fn three_countries_ten_suppliers() {
    let countries = vec![101, 202, 303];
    let rows = assign_suppliers(&contacts(10), &countries).unwrap();
    assert_eq!(rows.len(), 10);
    for i in [0, 3, 6, 9] {
        assert_eq!(rows[i].country_id, 101);
    }
    for i in [1, 4, 7] {
        assert_eq!(rows[i].country_id, 202);
    }
    for i in [2, 5, 8] {
        assert_eq!(rows[i].country_id, 303);
    }
    assert_eq!(rows[4].name, "supplier4");
    assert_eq!(rows[4].email, "s4@mail.test");
}

#[test]
fn suppliers_without_countries_are_exhausted() {
    assert!(matches!(assign_suppliers(&contacts(2), &vec![]), Err(SeedError::Exhausted)));
}

#[test]
fn contacts_are_cut_to_the_shorter_list() {
    let c = zip_contacts(&strings(&["a", "b", "c"]), &strings(&["a@x", "b@x"]));
    assert_eq!(c.len(), 2);
    assert_eq!(c[1].name, "b");
    assert_eq!(c[1].email, "b@x");
    assert!(zip_contacts(&strings(&[]), &strings(&["a@x"])).is_empty());
}

#[test]
fn subcategories_reference_their_category() {
    let rows = subcategory_rows(4, &strings(&["Milk", "Meat"]));
    assert_eq!(rows.len(), 2);
    assert_eq!(rows[0].category_id, 4);
    assert_eq!(rows[1].category_id, 4);
    assert_eq!(rows[1].name, "Meat");
}

#[test]
fn products_cycle_subcategories_and_suppliers_independently() {
    let names = strings(&["p0", "p1", "p2", "p3", "p4"]);
    let rows = assign_products(&names, &vec![1, 2], &vec![10, 20, 30]).unwrap();
    let got: Vec<(i32, i32)> = rows.iter().map(|r| (r.subcategory_id, r.supplier_id)).collect();
    assert_eq!(got, vec![(1, 10), (2, 20), (1, 30), (2, 10), (1, 20)]);
    assert_eq!(rows[3].name, "p3");
}

#[test]
fn products_need_both_target_lists() {
    let names = strings(&["p0"]);
    assert!(matches!(assign_products(&names, &vec![], &vec![1]), Err(SeedError::Exhausted)));
    assert!(matches!(assign_products(&names, &vec![1], &vec![]), Err(SeedError::Exhausted)));
}

#[test]
fn addresses_are_spread_over_clients() {
    let rows = assign_client_addresses(&strings(&["A", "B", "C"]), &vec![8, 9]).unwrap();
    let got: Vec<(i32, String)> = rows.iter().map(|r| (r.client_id, r.address.clone())).collect();
    assert_eq!(got, vec![(8, "A".to_string()), (9, "B".to_string()), (8, "C".to_string())]);
    assert!(matches!(
        assign_client_addresses(&strings(&["A"]), &vec![]),
        Err(SeedError::Exhausted)
    ));
}

#[test]
fn count_of_address_two_and_product_five() {
    assert_eq!(relation_count(2, 5), 193);
    let rows = relation_rows(&vec![2], &vec![5]);
    assert_eq!(rows, vec![RelationRow { left_id: 2, product_id: 5, count: 193 }]);
}

#[test]
fn count_of_address_one_and_product_zero() {
    assert_eq!(relation_count(1, 0), 115);
    let rows = relation_rows(&vec![1], &vec![0]);
    assert_eq!(rows, vec![RelationRow { left_id: 1, product_id: 0, count: 115 }]);
}

#[test]
fn zero_count_pair_gives_no_row() {
    assert_eq!(relation_count(2, 112), 0);
    assert!(relation_rows(&vec![2], &vec![112]).is_empty());
}

#[test]
fn count_is_reproducible() {
    assert_eq!(relation_count(17, 4), relation_count(17, 4));
    assert_eq!(relation_count(17, 4), (17 * 73 + 4 + 42) % 300);
}

#[test]
fn count_wraps_instead_of_failing() {
    assert_eq!(relation_count(i32::MAX, i32::MAX), -32);
    assert_eq!(relation_count(-5, 3), -20);
}

#[test]
fn relation_rows_walk_left_then_products() {
    let rows = relation_rows(&vec![1, 2], &vec![0, 112, 5]);
    let got: Vec<(i32, i32, i32)> =
        rows.iter().map(|r| (r.left_id, r.product_id, r.count)).collect();
    assert_eq!(got, vec![(1, 0, 115), (1, 112, 227), (1, 5, 120), (2, 0, 188), (2, 5, 193)]);
}

#[test]
fn relation_rows_of_nothing() {
    assert!(relation_rows(&vec![], &vec![1, 2]).is_empty());
    assert!(relation_rows(&vec![1, 2], &vec![]).is_empty());
}

#[test]
fn product_sample_is_bounded() {
    let ids: Vec<i32> = (1..=15).collect();
    assert_eq!(first_ids(&ids, 10), (1..=10).collect::<Vec<i32>>());
    assert_eq!(first_ids(&vec![3, 4], 10), vec![3, 4]);
    assert!(first_ids(&ids, 0).is_empty());
}

#[test]
fn sampled_relations_use_only_the_first_products() {
    let products: Vec<i32> = (1..=12).collect();
    let rows = sampled_relation_rows(&vec![1], &products, 10);
    assert_eq!(rows.len(), 10);
    assert!(rows.iter().all(|r| r.product_id <= 10));
    assert_eq!(rows[0], RelationRow { left_id: 1, product_id: 1, count: 116 });
    assert!(sampled_relation_rows(&vec![1, 2], &products, 0).is_empty());
}
