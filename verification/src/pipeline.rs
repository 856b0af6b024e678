//! The event publisher's failure policy.
//!
//! Every write and delete attempts to publish a change event.  A boolean
//! configuration flag decides whether a failed attempt fails the request
//! loudly or is logged and swallowed; by default the publish step is not
//! part of the write's durability contract.  The broker edge itself —
//! schema-registry encoding, opening a short-lived producer, the send —
//! happens outside; it reports here how the attempt went.

use vstd::prelude::*;

use crate::errors::PaymentErr;
use crate::models::Inventory;

verus! {

/// How one publish attempt went at the broker edge: the event was
/// delivered, or the schema encoding, the producer connection or the
/// send itself failed, or the attempt crashed outright.
#[derive(Clone, Copy, Debug, PartialEq, Eq, Structural)]
pub enum PublishAttempt {
    Delivered,
    EncodeFailed,
    ConnectFailed,
    SendFailed,
    Crashed,
}

/// The policy's explicit outcome: published; failed but swallowed, left
/// to the log; or failed loudly, to be surfaced to the caller.
#[derive(Clone, Copy, Debug, PartialEq, Eq, Structural)]
pub enum PublishOutcome {
    Published,
    SoftFailed,
    HardFailed,
}

/// What the failure policy makes of one attempt.
pub open spec fn spec_publish_outcome(fail_on_disconnect: bool, attempt: PublishAttempt) -> PublishOutcome {
    if attempt is Delivered {
        PublishOutcome::Published
    } else if fail_on_disconnect {
        PublishOutcome::HardFailed
    } else {
        PublishOutcome::SoftFailed
    }
}

/// Applies the fail-loud / fail-soft policy to one publish attempt.
/// With the strict flag clear, every failure — a crash included — is
/// swallowed; with it set, every failure is loud.
pub fn send_avro_event(fail_on_disconnect: bool, attempt: PublishAttempt) -> (r: PublishOutcome)
    ensures
        r == spec_publish_outcome(fail_on_disconnect, attempt),
{
    match attempt {
        PublishAttempt::Delivered => PublishOutcome::Published,
        _ => if fail_on_disconnect {
            PublishOutcome::HardFailed
        } else {
            PublishOutcome::SoftFailed
        },
    }
}

/// What a write or delete reports once its change event was attempted:
/// the record unchanged, unless the policy failed loudly.
pub open spec fn spec_stream_result(
    inventory: Inventory,
    fail_on_disconnect: bool,
    attempt: PublishAttempt,
) -> Result<Inventory, PaymentErr> {
    if spec_publish_outcome(fail_on_disconnect, attempt) is HardFailed {
        Err(PaymentErr::KafkaPublishError)
    } else {
        Ok(inventory)
    }
}

/// Decides what a completed write or delete reports after the change
/// event for its record was attempted.
pub fn stream_inventory_update_event(
    inventory: Inventory,
    fail_on_disconnect: bool,
    attempt: PublishAttempt,
) -> (r: Result<Inventory, PaymentErr>)
    ensures
        r == spec_stream_result(inventory, fail_on_disconnect, attempt),
{
    match send_avro_event(fail_on_disconnect, attempt) {
        PublishOutcome::HardFailed => Err(PaymentErr::KafkaPublishError),
        _ => Ok(inventory),
    }
}

/// The confirmation body a successful write or delete returns: the verb
/// phrase, then the key, the currency symbol glued to the amount, and
/// the expiry timestamp.
pub open spec fn spec_confirmation(prefix: Seq<char>, inv: Inventory) -> Seq<char> {
    prefix + inv.sku@ + " to "@ + inv.currency_symbol@ + crate::digits::dec_digits(
        inv.amount as int,
    ) + " with expiry "@ + crate::digits::dec_digits(inv.expiry as int)
}

fn confirmation(prefix: &str, inventory: &Inventory) -> (r: String)
    ensures
        r@ == spec_confirmation(prefix@, *inventory),
{
    let mut r = String::from_str(prefix);
    r.append(inventory.sku.as_str());
    r.append(" to ");
    r.append(inventory.currency_symbol.as_str());
    let amount = crate::digits::u64_to_decimal(inventory.amount);
    r.append(amount.as_str());
    r.append(" with expiry ");
    let expiry = crate::digits::u128_to_decimal(inventory.expiry);
    r.append(expiry.as_str());
    proof {
        assert(r@ =~= spec_confirmation(prefix@, *inventory));
    }
    r
}

/// The plain-text body a successful write answers with.
pub fn update_confirmation(inventory: &Inventory) -> (r: String)
    ensures
        r@ == spec_confirmation("Updated inventory of "@, *inventory),
{
    confirmation("Updated inventory of ", inventory)
}

/// The plain-text body a successful delete answers with.
pub fn delete_confirmation(inventory: &Inventory) -> (r: String)
    ensures
        r@ == spec_confirmation("Deleted inventory of "@, *inventory),
{
    confirmation("Deleted inventory of ", inventory)
}

/// Law: with the strict-publish flag clear, a persisted write or delete
/// succeeds whatever became of its event — a caller cannot tell a
/// published event from a lost one by the response.
pub proof fn lemma_soft_mode_never_surfaces(inventory: Inventory, attempt: PublishAttempt)
    ensures
        spec_stream_result(inventory, false, attempt) == Ok::<Inventory, PaymentErr>(inventory),
{
}

/// Law: with the strict-publish flag set, the same failed attempt is
/// surfaced to the caller as a publish failure.
pub proof fn lemma_strict_mode_surfaces(inventory: Inventory, attempt: PublishAttempt)
    requires
        !(attempt is Delivered),
    ensures
        spec_stream_result(inventory, true, attempt) == Err::<Inventory, PaymentErr>(
            PaymentErr::KafkaPublishError,
        ),
{
}

} // verus!
