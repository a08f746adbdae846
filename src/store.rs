use vstd::prelude::*;
use crate::new_subscriber::{SubscriberId, SubscriptionStatus};

verus! {

/// A stored subscriber: address, name, time of subscription and status.
pub struct SubscriberRecord {
    pub email: Seq<char>,
    pub name: Seq<char>,
    pub subscribed_at: int,
    pub status: SubscriptionStatus,
}

/// The logical content of the store that registration writes and confirmation
/// reads and writes: which subscriber each token belongs to, and each subscriber's
/// record. Both maps are keyed by the tables' primary keys.
pub struct SubscriptionStore {
    pub tokens: Map<Seq<char>, SubscriberId>,
    pub subscribers: Map<SubscriberId, SubscriberRecord>,
}

/// Every token belongs to a stored subscriber.
pub open spec fn store_wf(db: SubscriptionStore) -> bool {
    forall|t: Seq<char>| #[trigger]
        db.tokens.contains_key(t) ==> db.subscribers.contains_key(db.tokens[t])
}

/// What the lookup of a token answers on this store.
pub open spec fn token_lookup(db: SubscriptionStore, t: Seq<char>) -> Option<SubscriberId> {
    if db.tokens.contains_key(t) {
        Some(db.tokens[t])
    } else {
        None
    }
}

/// The store after the update that sets a subscriber's status to confirmed; the
/// rest of the record stays.
pub open spec fn mark_confirmed(db: SubscriptionStore, id: SubscriberId) -> SubscriptionStore {
    if db.subscribers.contains_key(id) {
        SubscriptionStore {
            tokens: db.tokens,
            subscribers: db.subscribers.insert(
                id,
                SubscriberRecord { status: SubscriptionStatus::Confirmed, ..db.subscribers[id] },
            ),
        }
    } else {
        db
    }
}

/// The primary keys admit the two inserts of a registration: neither the identifier
/// nor the token is taken. Where one is, its insert step fails and the transaction
/// is not committed.
pub open spec fn registration_admitted(
    db: SubscriptionStore,
    id: SubscriberId,
    token: Seq<char>,
) -> bool {
    !db.subscribers.contains_key(id) && !db.tokens.contains_key(token)
}

/// The store after a registration committed: one new pending subscriber and its
/// token; nothing changes where the keys did not admit the inserts.
pub open spec fn record_registration(
    db: SubscriptionStore,
    id: SubscriberId,
    token: Seq<char>,
    email: Seq<char>,
    name: Seq<char>,
    subscribed_at: int,
) -> SubscriptionStore {
    if registration_admitted(db, id, token) {
        SubscriptionStore {
            tokens: db.tokens.insert(token, id),
            subscribers: db.subscribers.insert(
                id,
                SubscriberRecord {
                    email,
                    name,
                    subscribed_at,
                    status: SubscriptionStatus::PendingConfirmation,
                },
            ),
        }
    } else {
        db
    }
}

} // verus!
