use vstd::prelude::*;
use crate::subscriber_email::SubscriberEmail;
use crate::subscriber_name::SubscriberName;

verus! {

/// The identifier of a subscriber: the 128 bits of a UUID.
#[derive(Debug, Clone, Copy, PartialEq, Eq, Structural)]
pub struct SubscriberId(pub u128);

/// The version field of a UUID held as a 128-bit big-endian number.
pub open spec fn uuid_version(v: u128) -> u128 {
    (v >> 76u128) & 0xfu128
}

/// Relies on uuid::Uuid::new_v4 (random version-4 UUID) and Uuid::as_u128
/// (its bytes read big-endian): a fresh identifier whose version field is 4.
#[verifier::external_body]
pub(crate) fn new_subscriber_id() -> (r: SubscriberId)
    ensures
        uuid_version(r.0) == 4,
{
    SubscriberId(uuid::Uuid::new_v4().as_u128())
}

/// A subscriber that passed validation and is about to be stored.
#[derive(Debug, Clone)]
pub struct NewSubscriber {
    pub id: SubscriberId,
    pub email: SubscriberEmail,
    pub name: SubscriberName,
}

impl NewSubscriber {
    pub open spec fn wf(&self) -> bool {
        self.email.wf() && self.name.wf()
    }
}

/// Where a subscriber stands in the double opt-in.
#[derive(Debug, Clone, Copy, PartialEq, Eq, Structural)]
pub enum SubscriptionStatus {
    PendingConfirmation,
    Confirmed,
}

/// The name under which the status is stored.
pub open spec fn status_name(s: SubscriptionStatus) -> Seq<char> {
    match s {
        SubscriptionStatus::PendingConfirmation => "pending_confirmation"@,
        SubscriptionStatus::Confirmed => "confirmed"@,
    }
}

impl SubscriptionStatus {
    /// The name under which the status is stored.
    pub fn as_str(&self) -> (r: &'static str)
        ensures
            r@ == status_name(*self),
    {
        match self {
            SubscriptionStatus::PendingConfirmation => "pending_confirmation",
            SubscriptionStatus::Confirmed => "confirmed",
        }
    }

    /// The status stored under `name`, if any.
    pub fn parse(name: &str) -> (r: Option<SubscriptionStatus>)
        ensures
            r matches Some(s) ==> status_name(s) == name@,
            r is None ==> name@ != status_name(SubscriptionStatus::PendingConfirmation)
                && name@ != status_name(SubscriptionStatus::Confirmed),
    {
        if str_eq(name, "pending_confirmation") {
            Some(SubscriptionStatus::PendingConfirmation)
        } else if str_eq(name, "confirmed") {
            Some(SubscriptionStatus::Confirmed)
        } else {
            None
        }
    }
}

/// Whether two strings hold the same characters.
pub fn str_eq(a: &str, b: &str) -> (r: bool)
    ensures
        r == (a@ == b@),
{
    let n = a.unicode_len();
    if n != b.unicode_len() {
        return false;
    }
    let mut i: usize = 0;
    while i < n
        invariant
            n == a@.len(),
            n == b@.len(),
            i <= n,
            forall|j: int| 0 <= j < i ==> a@[j] == b@[j],
        decreases n - i,
    {
        if a.get_char(i) != b.get_char(i) {
            return false;
        }
        i = i + 1;
    }
    assert(a@ =~= b@);
    true
}

} // verus!
