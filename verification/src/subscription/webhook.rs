//! Payload of the `subscription.updated.v2` webhook.

use vstd::prelude::*;

verus! {

/// A JSON value of any shape (`serde_json::Value`), carried through unread.
#[verifier::external_type_specification]
#[verifier::external_body]
pub struct ExJsonValue(serde_json::Value);

/// The error that `chrono` reports for text that does not match a format.
#[verifier::external_type_specification]
#[verifier::external_body]
pub struct ExChronoParseError(chrono::format::ParseError);

/// The format of SolidGate's timestamps: naive UTC, `YYYY-MM-DD HH:MM:SS`.
pub const SOLIDGATE_DATETIME_FORMAT: &'static str = "%Y-%m-%d %H:%M:%S";

/// An instant in UTC: whole seconds since the Unix epoch and the nanoseconds past them.
#[derive(Debug, Clone, Copy, PartialEq, Eq, Structural)]
pub struct UtcDateTime {
    pub seconds: i64,
    pub nanos: u32,
}

/// What `chrono` reads from `text` with `format` as a naive date-time taken as UTC:
/// the Unix seconds and nanoseconds, or nothing when the text does not match.
pub uninterp spec fn chrono_naive_utc(text: Seq<char>, format: Seq<char>) -> Option<(i64, u32)>;

/// `chrono::NaiveDateTime::parse_from_str(text, format)`, then `and_utc()`, read as
/// `timestamp()` and `timestamp_subsec_nanos()`. Claimed: the outcome depends on the
/// text and the format alone (named `chrono_naive_utc`); what chrono accepts is left
/// to that name.
#[verifier::external_body]
fn parse_naive_utc(text: &str, format: &str) -> (res: Result<(i64, u32), chrono::format::ParseError>)
    ensures
        chrono_naive_utc(text@, format@) == (match res {
            Ok(v) => Some(v),
            Err(_) => None,
        }),
{
    match chrono::NaiveDateTime::parse_from_str(text, format) {
        Ok(naive) => Ok((naive.and_utc().timestamp(), naive.and_utc().timestamp_subsec_nanos())),
        Err(e) => Err(e),
    }
}

/// A SolidGate timestamp that does not match `YYYY-MM-DD HH:MM:SS`.
#[derive(Debug)]
pub struct DateTimeParseError {
    pub cause: chrono::format::ParseError,
}

/// What a SolidGate timestamp field holds: nothing for an absent or empty value,
/// else the instant that its text names, or `None` inside when the text is invalid.
pub open spec fn spec_solidgate_datetime(raw: Option<Seq<char>>) -> Option<Option<UtcDateTime>> {
    match raw {
        None => Some(None),
        Some(text) => if text.len() == 0 {
            Some(None)
        } else {
            match chrono_naive_utc(text, SOLIDGATE_DATETIME_FORMAT@) {
                Some(v) => Some(Some(UtcDateTime { seconds: v.0, nanos: v.1 })),
                None => None,
            }
        },
    }
}

/// Reads a SolidGate timestamp: naive UTC `YYYY-MM-DD HH:MM:SS` (no `T`, no zone).
/// Absent or empty gives `None`.
pub fn parse_solidgate_datetime(raw: Option<String>) -> (res: Result<Option<UtcDateTime>, DateTimeParseError>)
    ensures
        spec_solidgate_datetime(match raw {
            Some(t) => Some(t@),
            None => None,
        }) == (match res {
            Ok(v) => Some(v),
            Err(_) => None,
        }),
        (res matches Ok(None)) <==> (raw is None || (raw matches Some(t) && t@.len() == 0)),
        (match raw {
            Some(t) => t@.len() > 0 ==> (match chrono_naive_utc(t@, SOLIDGATE_DATETIME_FORMAT@) {
                Some(v) => (res matches Ok(Some(d)) && d.seconds == v.0 && d.nanos == v.1),
                None => res is Err,
            }),
            None => true,
        }),
{
    match raw {
        None => Ok(None),
        Some(text) => {
            if text.as_str().unicode_len() == 0 {
                Ok(None)
            } else {
                match parse_naive_utc(text.as_str(), SOLIDGATE_DATETIME_FORMAT) {
                    Ok(v) => Ok(Some(UtcDateTime { seconds: v.0, nanos: v.1 })),
                    Err(e) => Err(DateTimeParseError { cause: e }),
                }
            }
        },
    }
}

/// Only an absent or empty timestamp reads as `None`: every non-empty text that chrono
/// reads as an instant gives that instant, and every other non-empty text is an error.
pub proof fn solidgate_datetime_reads_every_nonempty_text(text: Seq<char>)
    ensures
        spec_solidgate_datetime(None) == Some(Option::<UtcDateTime>::None),
        spec_solidgate_datetime(Some(Seq::<char>::empty())) == Some(Option::<UtcDateTime>::None),
        forall|v: (i64, u32)|
            text.len() > 0 && chrono_naive_utc(text, SOLIDGATE_DATETIME_FORMAT@) == Some(v)
                ==> spec_solidgate_datetime(Some(text)) == Some(Some(UtcDateTime { seconds: v.0, nanos: v.1 })),
        text.len() > 0 && chrono_naive_utc(text, SOLIDGATE_DATETIME_FORMAT@) is None
            ==> spec_solidgate_datetime(Some(text)) is None,
{
}

/// Payload of the `subscription.updated.v2` webhook.
///
/// SolidGate delivers the full subscription snapshot on every change; the reason for
/// the delivery is in `callback_type`, the resulting state in `subscription.status`.
#[derive(Debug)]
pub struct SubscriptionWebhookModel {
    /// Reason for this delivery (active / renew / cancel / pause / resume / redemption / create).
    pub callback_type: CallbackTypeWrapper,
    pub subscription: SubscriptionData,
    pub customer: SubscriptionCustomer,
    pub product: SubscriptionProduct,
    /// Invoice id to invoice, kept as delivered.
    pub invoices: std::collections::HashMap<String, serde_json::Value>,
}

/// Why a subscription webhook was delivered. On the wire: the lower-case name.
#[derive(Debug, Clone, PartialEq, Eq, Structural)]
pub enum CallbackType {
    /// Created with `pending` status, awaiting the first payment.
    Create,
    /// First successful charge: the subscription becomes `active`.
    Active,
    /// A recurring charge succeeded; a new billing period started.
    Renew,
    /// Paused (per pause schedule).
    Pause,
    /// The pause period ended.
    Resume,
    /// Cancelled (any reason).
    Cancel,
    /// A recurring charge failed; the subscription is in its retry window.
    Redemption,
}

/// A known callback type, or the text of one this library does not know.
#[derive(Debug, Clone, PartialEq, Eq)]
pub enum CallbackTypeWrapper {
    Known(CallbackType),
    Unknown(String),
}

/// The state of a subscription. On the wire: the lower-case name; any other text
/// reads as `Unknown`.
#[derive(Debug, Clone, Copy, PartialEq, Eq, Structural)]
pub enum SubscriptionStatus {
    Pending,
    Active,
    Cancelled,
    Redemption,
    Paused,
    Expired,
    /// Any status SolidGate adds in the future.
    Unknown,
}

#[derive(Debug)]
pub struct SubscriptionData {
    pub id: String,
    pub status: SubscriptionStatus,
    pub started_at: Option<UtcDateTime>,
    pub expired_at: Option<UtcDateTime>,
    pub next_charge_at: Option<UtcDateTime>,
    pub cancelled_at: Option<UtcDateTime>,
    pub trial: bool,
    pub cancel_code: Option<String>,
    pub cancel_message: Option<String>,
    pub payment_type: Option<String>,
}

#[derive(Debug)]
pub struct SubscriptionCustomer {
    pub customer_account_id: String,
    pub customer_email: Option<String>,
}

#[derive(Debug)]
pub struct SubscriptionProduct {
    /// On the wire: `product_id`.
    pub id: String,
    pub name: Option<String>,
    pub amount: Option<i64>,
    pub currency: Option<String>,
}

} // verus!
