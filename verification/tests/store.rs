use inventory_management::dbutil::build_sku_query;
use inventory_management::dbutil::build_title_query;
use inventory_management::dbutil::delete_request_record;
use inventory_management::dbutil::find_inventory_by_title;
use inventory_management::dbutil::get_inventory_by_sku;
use inventory_management::dbutil::inventory_to_delete_input;
use inventory_management::dbutil::inventory_to_item;
use inventory_management::dbutil::inventory_to_put_input;
use inventory_management::dbutil::resolve_store_region;
use inventory_management::dbutil::to_inventory;
use inventory_management::dbutil::try_to_inventory;
use inventory_management::dbutil::StoreAttr;
use inventory_management::dbutil::StoreItem;
use inventory_management::dbutil::StoreQueryOutcome;
use inventory_management::dbutil::StoreRegion;
use inventory_management::digits::parse_u128_decimal;
use inventory_management::digits::parse_u64_decimal;
use inventory_management::digits::u128_to_decimal;
use inventory_management::digits::u64_to_decimal;
use inventory_management::errors::PaymentErr;
use inventory_management::models::Inventory;

fn sample() -> Inventory {
    Inventory {
        sku: "42".to_string(),
        title: "Widget".to_string(),
        description: 7,
        quantity: 11,
        expiry: 340282366920938463463374607431768211455,
        currency_code: "USD".to_string(),
        currency_symbol: "$".to_string(),
        currency_affix_side: "left".to_string(),
        amount: 500,
    }
}

#[test]
fn decimal_rendering_is_exact() {
    assert_eq!(u64_to_decimal(0), "0");
    assert_eq!(u64_to_decimal(7), "7");
    assert_eq!(u64_to_decimal(500), "500");
    assert_eq!(u64_to_decimal(u64::MAX), "18446744073709551615");
    assert_eq!(u128_to_decimal(1060000), "1060000");
    assert_eq!(
        u128_to_decimal(u128::MAX),
        "340282366920938463463374607431768211455"
    );
}

#[test]
fn decimal_parsing_is_exact() {
    assert_eq!(parse_u64_decimal("0"), Some(0));
    assert_eq!(parse_u64_decimal("500"), Some(500));
    assert_eq!(parse_u64_decimal("007"), Some(7));
    assert_eq!(parse_u64_decimal("18446744073709551615"), Some(u64::MAX));
    assert_eq!(parse_u64_decimal("18446744073709551616"), None);
    assert_eq!(parse_u64_decimal(""), None);
    assert_eq!(parse_u64_decimal("12a"), None);
    assert_eq!(parse_u64_decimal("-1"), None);
    assert_eq!(
        parse_u128_decimal("340282366920938463463374607431768211455"),
        Some(u128::MAX)
    );
    assert_eq!(
        parse_u128_decimal("340282366920938463463374607431768211456"),
        None
    );
}

#[test]
fn item_round_trip_returns_the_record() {
    let inv = sample();
    let item = inventory_to_item(&inv);
    let back = try_to_inventory(&item).unwrap();
    assert_eq!(back, inv);
}

#[test]
fn missing_affix_side_falls_back_to_left() {
    let inv = sample();
    let mut item = inventory_to_item(&inv);
    item.currency_affix_side = None;
    let back = try_to_inventory(&item).unwrap();
    assert_eq!(back.currency_affix_side, "left");
}

#[test]
fn malformed_items_do_not_decode() {
    let inv = sample();

    let mut item = inventory_to_item(&inv);
    item.sku = None;
    assert!(try_to_inventory(&item).is_none());

    let mut item = inventory_to_item(&inv);
    item.quantity = Some(StoreAttr::S("11".to_string()));
    assert!(try_to_inventory(&item).is_none());

    let mut item = inventory_to_item(&inv);
    item.amount = Some(StoreAttr::N("18446744073709551616".to_string()));
    assert!(try_to_inventory(&item).is_none());

    let mut item = inventory_to_item(&inv);
    item.expiry = Some(StoreAttr::N("later".to_string()));
    assert!(try_to_inventory(&item).is_none());
}

#[test]
fn missing_row_reads_as_the_zero_record() {
    let r = to_inventory(None);
    assert_eq!(r.sku, "");
    assert_eq!(r.title, "");
    assert_eq!(r.description, 0);
    assert_eq!(r.quantity, 0);
    assert_eq!(r.expiry, 0);
    assert_eq!(r.currency_affix_side, "");
    assert_eq!(r.amount, 0);
}

#[test]
fn point_read_of_no_rows_is_not_found() {
    assert_eq!(
        get_inventory_by_sku(StoreQueryOutcome::Rows(Vec::new())),
        Err(PaymentErr::NoPreviousPayment)
    );
}

#[test]
fn point_read_takes_the_last_row() {
    let mut first = sample();
    first.title = "old".to_string();
    let second = sample();
    let rows = vec![inventory_to_item(&first), inventory_to_item(&second)];
    let got = get_inventory_by_sku(StoreQueryOutcome::Rows(rows)).unwrap();
    assert_eq!(got, second);
}

#[test]
fn point_read_of_unreachable_store_fails() {
    assert_eq!(
        get_inventory_by_sku(StoreQueryOutcome::Unavailable),
        Err(PaymentErr::RusotoDynamodbError)
    );
}

#[test]
fn search_decodes_every_row_in_order() {
    let mut a = sample();
    a.sku = "1".to_string();
    let mut b = sample();
    b.sku = "2".to_string();
    let rows = vec![inventory_to_item(&a), inventory_to_item(&b)];
    let got = find_inventory_by_title(StoreQueryOutcome::Rows(rows)).unwrap();
    assert_eq!(got, vec![a, b]);
}

#[test]
fn search_of_no_rows_is_the_empty_list() {
    let got = find_inventory_by_title(StoreQueryOutcome::Rows(Vec::new())).unwrap();
    assert!(got.is_empty());
}

#[test]
fn search_of_unreachable_store_fails() {
    assert_eq!(
        find_inventory_by_title(StoreQueryOutcome::Unavailable),
        Err(PaymentErr::RusotoDynamodbError)
    );
}

#[test]
fn put_input_carries_the_partition_key() {
    let inv = sample();
    let put = inventory_to_put_input(&inv);
    assert_eq!(put.table_name, "inventory");
    match put.item.sku_id {
        Some(StoreAttr::N(n)) => assert_eq!(n, "42"),
        _ => panic!("partition key missing"),
    }
    match put.item.amount {
        Some(StoreAttr::N(n)) => assert_eq!(n, "500"),
        _ => panic!("amount missing"),
    }
}

#[test]
fn delete_input_carries_only_the_key() {
    let inv = sample();
    let del = inventory_to_delete_input(&inv);
    assert_eq!(del.table_name, "inventory");
    assert_eq!(del.key_name, "sku_id");
    match del.key_value {
        StoreAttr::N(n) => assert_eq!(n, "42"),
        _ => panic!("key must be numeric"),
    }
}

#[test]
fn queries_target_their_indexes() {
    let q = build_sku_query("42".to_string(), "sku-idx".to_string());
    assert_eq!(q.table_name, "payment-details");
    assert_eq!(q.index_name, "sku-idx");
    assert_eq!(q.key_name, "sku_id");
    match q.key_value {
        StoreAttr::S(s) => assert_eq!(s, "42"),
        _ => panic!("sku key is a string value"),
    }

    let q = build_title_query("Widget".to_string(), "title-idx".to_string());
    assert_eq!(q.table_name, "payment-details");
    assert_eq!(q.index_name, "title-idx");
    assert_eq!(q.key_name, "title");
    match q.key_value {
        StoreAttr::S(s) => assert_eq!(s, "Widget"),
        _ => panic!("title key is a string value"),
    }
}

#[test]
fn delete_request_takes_the_entity_key() {
    let form = vec![
        ("views".to_string(), "9".to_string()),
        ("entity_type".to_string(), "42".to_string()),
    ];
    let rec = delete_request_record(&form).unwrap();
    assert_eq!(rec.sku, "42");
    assert_eq!(rec.title, "");
    assert_eq!(rec.expiry, 0);
    assert_eq!(rec.amount, 0);
}

#[test]
fn delete_request_without_key_is_rejected() {
    let form = vec![("views".to_string(), "9".to_string())];
    assert_eq!(
        delete_request_record(&form),
        Err(PaymentErr::DeleteFieldsMissing)
    );
}

#[test]
fn test_create_client() {
    match resolve_store_region(None, None) {
        StoreRegion::Local { endpoint } => assert_eq!(endpoint, "localhost:8000"),
        _ => panic!("unset region resolves to the local store"),
    }
    match resolve_store_region(Some("local".to_string()), Some("store:9000".to_string())) {
        StoreRegion::Local { endpoint } => assert_eq!(endpoint, "store:9000"),
        _ => panic!("the local region resolves to the local store"),
    }
    match resolve_store_region(Some("eu-west-1".to_string()), None) {
        StoreRegion::Named { name } => assert_eq!(name, "eu-west-1"),
        _ => panic!("other regions keep their name"),
    }
}
