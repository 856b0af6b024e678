use vstd::prelude::*;

verus! {

/// Every way the pipeline can fail.
///
/// `AwsRegionNotSet` is a startup misconfiguration; `DeleteFieldsMissing`
/// is a malformed delete request; `InventoryDetailsNotFound` marks records
/// found but already expired; `InventoryNotFound` marks a stored row that
/// held no record; `NoPreviousPayment` is a point lookup that matched no
/// row; `RusotoDynamodbError` is any store-communication failure; and
/// `KafkaPublishError` is a publish failure surfaced only when the
/// strict-publish flag is set.
#[derive(Clone, Copy, Debug, PartialEq, Eq, Structural)]
pub enum PaymentErr {
    AwsRegionNotSet,
    DeleteFieldsMissing,
    InventoryDetailsNotFound,
    InventoryNotFound,
    NoPreviousPayment,
    RusotoDynamodbError,
    KafkaPublishError,
}

/// The human-readable line each failure reports.
pub open spec fn spec_error_message(err: PaymentErr) -> Seq<char> {
    match err {
        PaymentErr::AwsRegionNotSet => "AWS region not set"@,
        PaymentErr::DeleteFieldsMissing => (
            "One or more of the fields are missing: entity_type, views, expiry"@
        ),
        PaymentErr::InventoryDetailsNotFound => "Payment details not found"@,
        PaymentErr::InventoryNotFound => "Payment detail not found"@,
        PaymentErr::NoPreviousPayment => "No previous payment details found"@,
        PaymentErr::RusotoDynamodbError => "Rusoto DynamoDB Error"@,
        PaymentErr::KafkaPublishError => "Failed to publish inventory event"@,
    }
}

impl PaymentErr {
    /// The human-readable line each failure reports.
    pub fn message(&self) -> (r: String)
        ensures
            r@ == spec_error_message(*self),
    {
        match self {
            PaymentErr::AwsRegionNotSet => String::from_str("AWS region not set"),
            PaymentErr::DeleteFieldsMissing => String::from_str(
                "One or more of the fields are missing: entity_type, views, expiry",
            ),
            PaymentErr::InventoryDetailsNotFound => String::from_str("Payment details not found"),
            PaymentErr::InventoryNotFound => String::from_str("Payment detail not found"),
            PaymentErr::NoPreviousPayment => String::from_str("No previous payment details found"),
            PaymentErr::RusotoDynamodbError => String::from_str("Rusoto DynamoDB Error"),
            PaymentErr::KafkaPublishError => String::from_str("Failed to publish inventory event"),
        }
    }
}

/// The fixed envelope every non-2xx response carries.
#[derive(Debug)]
pub struct ErrorMessage {
    pub code: i8,
    pub status_code: u16,
    pub message: String,
}

/// The envelope code a failure maps to.  The codes are a fixed small
/// enumeration of their own, not derived from the HTTP status.
pub open spec fn spec_error_code(err: PaymentErr) -> i8 {
    match err {
        PaymentErr::DeleteFieldsMissing => -4i8,
        PaymentErr::InventoryDetailsNotFound => -2i8,
        PaymentErr::NoPreviousPayment => -4i8,
        _ => -6i8,
    }
}

/// The HTTP status a failure maps to: a missing request field is the
/// caller's fault (400); a lookup that found nothing usable, whether no
/// row matched or every match had expired, reads as absence (404); every
/// other failure is the service's own (500).
pub open spec fn spec_error_status(err: PaymentErr) -> u16 {
    match err {
        PaymentErr::DeleteFieldsMissing => 400u16,
        PaymentErr::InventoryDetailsNotFound => 404u16,
        PaymentErr::NoPreviousPayment => 404u16,
        _ => 500u16,
    }
}

/// Recovers a failure into the envelope the HTTP boundary returns.
/// A rejection that carries no pipeline failure (`None`) becomes the
/// generic internal-error envelope.
pub fn customize_error(err: Option<&PaymentErr>) -> (r: ErrorMessage)
    ensures
        match err {
            Some(e) => {
                &&& r.code == spec_error_code(*e)
                &&& r.status_code == spec_error_status(*e)
                &&& r.message@ == spec_error_message(*e)
            },
            None => {
                &&& r.code == -5
                &&& r.status_code == 500
                &&& r.message@ == "Internal Server Error"@
            },
        },
{
    match err {
        Some(e) => {
            let code: i8 = match e {
                PaymentErr::DeleteFieldsMissing => -4,
                PaymentErr::InventoryDetailsNotFound => -2,
                PaymentErr::NoPreviousPayment => -4,
                _ => -6,
            };
            let status_code: u16 = match e {
                PaymentErr::DeleteFieldsMissing => 400,
                PaymentErr::InventoryDetailsNotFound => 404,
                PaymentErr::NoPreviousPayment => 404,
                _ => 500,
            };
            ErrorMessage { code, status_code, message: e.message() }
        },
        None => ErrorMessage {
            code: -5,
            status_code: 500,
            message: String::from_str("Internal Server Error"),
        },
    }
}

} // verus!
