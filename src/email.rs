use vstd::prelude::*;
use crate::subscriber_email::SubscriberEmail;

verus! {

/// One message for the email gateway: recipient, subject and the two bodies.
#[derive(Debug, Clone)]
pub struct EmailMessage {
    pub recipient: SubscriberEmail,
    pub subject: String,
    pub html_body: String,
    pub text_body: String,
}

/// How the gateway answered one send: accepted, refused for this recipient, or
/// not reachable (a transport failure, or a failure on the gateway's side).
#[derive(Debug, Clone, Copy, PartialEq, Eq, Structural)]
pub enum DeliveryOutcome {
    Delivered,
    Rejected,
    Unreachable,
}

/// The outcome of a send from the HTTP status of the gateway's answer, `None`
/// where no answer came.
pub open spec fn delivery_outcome_of(status: Option<u16>) -> DeliveryOutcome {
    match status {
        None => DeliveryOutcome::Unreachable,
        Some(s) => if 200 <= s < 300 {
            DeliveryOutcome::Delivered
        } else if 400 <= s < 500 {
            DeliveryOutcome::Rejected
        } else {
            DeliveryOutcome::Unreachable
        },
    }
}

/// Classifies the gateway's answer: a 2xx status delivered the message, a 4xx
/// status refused this recipient, and anything else, or no answer, means that the
/// gateway cannot be relied on for the rest of a batch.
pub fn classify_delivery(status: Option<u16>) -> (r: DeliveryOutcome)
    ensures
        r == delivery_outcome_of(status),
{
    match status {
        None => DeliveryOutcome::Unreachable,
        Some(s) => if 200 <= s && s < 300 {
            DeliveryOutcome::Delivered
        } else if 400 <= s && s < 500 {
            DeliveryOutcome::Rejected
        } else {
            DeliveryOutcome::Unreachable
        },
    }
}

} // verus!
