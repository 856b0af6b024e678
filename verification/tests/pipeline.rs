use inventory_management::dbutil::get_inventory_by_sku;
use inventory_management::dbutil::inventory_to_put_input;
use inventory_management::dbutil::write_inventory_update;
use inventory_management::dbutil::StoreQueryOutcome;
use inventory_management::dbutil::StoreWriteOutcome;
use inventory_management::errors::customize_error;
use inventory_management::errors::PaymentErr;
use inventory_management::inventory::check_inventory_validity;
use inventory_management::models::default_currency_affix_side;
use inventory_management::models::Inventory;
use inventory_management::pipeline::delete_confirmation;
use inventory_management::pipeline::send_avro_event;
use inventory_management::pipeline::stream_inventory_update_event;
use inventory_management::pipeline::update_confirmation;
use inventory_management::pipeline::PublishAttempt;
use inventory_management::pipeline::PublishOutcome;
use inventory_management::ready::readiness_check;

fn widget(now: u128) -> Inventory {
    Inventory {
        sku: "42".to_string(),
        title: "Widget".to_string(),
        description: 0,
        quantity: 0,
        expiry: now + 60000,
        currency_code: "USD".to_string(),
        currency_symbol: "$".to_string(),
        currency_affix_side: default_currency_affix_side(),
        amount: 500,
    }
}

#[test]
fn soft_mode_swallows_every_failure() {
    assert_eq!(
        send_avro_event(false, PublishAttempt::EncodeFailed),
        PublishOutcome::SoftFailed
    );
    assert_eq!(
        send_avro_event(false, PublishAttempt::ConnectFailed),
        PublishOutcome::SoftFailed
    );
    assert_eq!(
        send_avro_event(false, PublishAttempt::SendFailed),
        PublishOutcome::SoftFailed
    );
    assert_eq!(
        send_avro_event(false, PublishAttempt::Crashed),
        PublishOutcome::SoftFailed
    );
    assert_eq!(
        send_avro_event(false, PublishAttempt::Delivered),
        PublishOutcome::Published
    );
}

#[test]
fn strict_mode_fails_loudly() {
    assert_eq!(
        send_avro_event(true, PublishAttempt::ConnectFailed),
        PublishOutcome::HardFailed
    );
    assert_eq!(
        send_avro_event(true, PublishAttempt::Delivered),
        PublishOutcome::Published
    );
}

#[test]
fn write_succeeds_despite_unreachable_broker_when_soft() {
    let now: u128 = 1_000_000;
    let inv = widget(now);
    let written = write_inventory_update(inv.clone(), StoreWriteOutcome::Done).unwrap();
    let streamed =
        stream_inventory_update_event(written, false, PublishAttempt::ConnectFailed).unwrap();
    assert_eq!(streamed, inv);
}

#[test]
fn write_surfaces_publish_failure_when_strict() {
    let now: u128 = 1_000_000;
    let inv = widget(now);
    let written = write_inventory_update(inv, StoreWriteOutcome::Done).unwrap();
    assert_eq!(
        stream_inventory_update_event(written, true, PublishAttempt::ConnectFailed),
        Err(PaymentErr::KafkaPublishError)
    );
}

#[test]
fn write_fails_when_store_unreachable() {
    let now: u128 = 1_000_000;
    let inv = widget(now);
    assert_eq!(
        write_inventory_update(inv, StoreWriteOutcome::Unavailable),
        Err(PaymentErr::RusotoDynamodbError)
    );
}

#[test]
fn write_then_read_example() {
    let now: u128 = 1_000_000;
    let inv = widget(now);

    let written = write_inventory_update(inv.clone(), StoreWriteOutcome::Done).unwrap();
    assert_eq!(
        update_confirmation(&written),
        "Updated inventory of 42 to $500 with expiry 1060000"
    );

    let stored = inventory_to_put_input(&written).item;
    let read = get_inventory_by_sku(StoreQueryOutcome::Rows(vec![stored])).unwrap();
    assert_eq!(read, inv);

    let within_a_minute: u128 = now + 59_999;
    assert_eq!(
        check_inventory_validity(read.clone(), within_a_minute),
        Ok(inv)
    );

    let after_a_minute: u128 = now + 60_000;
    assert_eq!(
        check_inventory_validity(read, after_a_minute),
        Err(PaymentErr::InventoryDetailsNotFound)
    );
}

#[test]
fn delete_echo_confirmation() {
    let rec = Inventory::key_only("42".to_string());
    assert_eq!(
        delete_confirmation(&rec),
        "Deleted inventory of 42 to 0 with expiry 0"
    );
}

#[test]
fn error_envelopes_are_fixed() {
    let e = customize_error(Some(&PaymentErr::DeleteFieldsMissing));
    assert_eq!((e.code, e.status_code), (-4, 400));
    assert_eq!(
        e.message,
        "One or more of the fields are missing: entity_type, views, expiry"
    );

    let e = customize_error(Some(&PaymentErr::InventoryDetailsNotFound));
    assert_eq!((e.code, e.status_code), (-2, 404));
    assert_eq!(e.message, "Payment details not found");

    let e = customize_error(Some(&PaymentErr::NoPreviousPayment));
    assert_eq!((e.code, e.status_code), (-4, 404));
    assert_eq!(e.message, "No previous payment details found");

    let e = customize_error(Some(&PaymentErr::RusotoDynamodbError));
    assert_eq!((e.code, e.status_code), (-6, 500));
    assert_eq!(e.message, "Rusoto DynamoDB Error");

    let e = customize_error(Some(&PaymentErr::AwsRegionNotSet));
    assert_eq!((e.code, e.status_code), (-6, 500));

    let e = customize_error(Some(&PaymentErr::InventoryNotFound));
    assert_eq!((e.code, e.status_code), (-6, 500));

    let e = customize_error(Some(&PaymentErr::KafkaPublishError));
    assert_eq!((e.code, e.status_code), (-6, 500));
    assert_eq!(e.message, "Failed to publish inventory event");

    let e = customize_error(None);
    assert_eq!((e.code, e.status_code), (-5, 500));
    assert_eq!(e.message, "Internal Server Error");
}

#[test]
fn readiness_requires_both_probes() {
    let (ok, body) = readiness_check(true, true);
    assert!(ok);
    assert_eq!(body, "{\"dynamodb\":true,\"kafka_reachable\":true}");

    for (a, b) in [(true, false), (false, true), (false, false)] {
        let (ok, body) = readiness_check(a, b);
        assert!(!ok);
        assert_eq!(body, "readiness_check: Readiness Check failed");
    }
}
