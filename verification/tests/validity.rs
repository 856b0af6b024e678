use inventory_management::errors::PaymentErr;
use inventory_management::inventory::check_all_inventory_validity;
use inventory_management::inventory::check_inventory_validity;
use inventory_management::models::Inventory;

fn record(sku: &str, expiry: u128) -> Inventory {
    Inventory {
        sku: sku.to_string(),
        title: "thing".to_string(),
        description: 1,
        quantity: 2,
        expiry,
        currency_code: "USD".to_string(),
        currency_symbol: "$".to_string(),
        currency_affix_side: "left".to_string(),
        amount: 3,
    }
}

#[test]
fn valid_record_passes_unchanged() {
    let r = record("a", 1001);
    let same = r.clone();
    assert_eq!(check_inventory_validity(r, 1000), Ok(same));
}

#[test]
fn expired_record_is_rejected() {
    let r = record("a", 1000);
    assert_eq!(
        check_inventory_validity(r, 1000),
        Err(PaymentErr::InventoryDetailsNotFound)
    );
    let r = record("a", 999);
    assert_eq!(
        check_inventory_validity(r, 1000),
        Err(PaymentErr::InventoryDetailsNotFound)
    );
}

#[test]
fn zero_expiry_is_always_rejected() {
    let r = record("a", 0);
    assert_eq!(
        check_inventory_validity(r, 0),
        Err(PaymentErr::InventoryDetailsNotFound)
    );
}

#[test]
fn filter_keeps_valid_subset_in_order() {
    let list = vec![
        record("a", 2000),
        record("b", 500),
        record("c", 3000),
        record("d", 1000),
        record("e", 1001),
    ];
    let out = check_all_inventory_validity(list, 1000).unwrap();
    let skus: Vec<&str> = out.iter().map(|r| r.sku.as_str()).collect();
    assert_eq!(skus, vec!["a", "c", "e"]);
}

#[test]
fn filter_of_empty_list_is_expired() {
    assert_eq!(
        check_all_inventory_validity(Vec::new(), 1000),
        Err(PaymentErr::InventoryDetailsNotFound)
    );
}

#[test]
fn filter_of_all_expired_list_is_expired() {
    let list = vec![record("a", 1000), record("b", 1), record("c", 999)];
    assert_eq!(
        check_all_inventory_validity(list, 1000),
        Err(PaymentErr::InventoryDetailsNotFound)
    );
}

#[test]
fn empty_search_and_expired_search_are_indistinguishable() {
    let none_matched = check_all_inventory_validity(Vec::new(), 1000);
    let all_expired = check_all_inventory_validity(vec![record("a", 900)], 1000);
    assert_eq!(none_matched, all_expired);
    assert_eq!(none_matched, Err(PaymentErr::InventoryDetailsNotFound));
}
