use vstd::prelude::*;
use crate::new_subscriber::{SubscriberId, SubscriptionStatus};
use crate::store::{mark_confirmed, store_wf, token_lookup, SubscriberRecord, SubscriptionStore};

verus! {

/// The query of a confirmation visit; the token is absent when the link was cut.
pub struct Parameters {
    pub subscription_token: Option<String>,
}

/// Why a confirmation failed.
#[derive(Debug)]
pub enum ConfirmError {
    /// The visit carried no token.
    MissingToken,
    /// No subscriber holds the token (a typo or tampering: the two are not told apart).
    UnknownToken,
    /// The store failed, with its cause.
    PersistenceError(String),
}

/// The response status of a failed confirmation.
pub open spec fn confirm_status(e: ConfirmError) -> u16 {
    match e {
        ConfirmError::MissingToken => 400,
        ConfirmError::UnknownToken => 401,
        ConfirmError::PersistenceError(_) => 500,
    }
}

/// The response status of a confirmation visit.
pub open spec fn confirm_response_status(r: Result<(), ConfirmError>) -> u16 {
    match r {
        Ok(()) => 200,
        Err(e) => confirm_status(e),
    }
}

impl ConfirmError {
    /// 400 without a token, 401 for an unknown token, 500 when the store failed.
    pub fn status_code(&self) -> (r: u16)
        ensures
            r == confirm_status(*self),
    {
        match self {
            ConfirmError::MissingToken => 400,
            ConfirmError::UnknownToken => 401,
            ConfirmError::PersistenceError(_) => 500,
        }
    }
}

/// The response status of a confirmation visit: 200 on success.
pub fn confirm_response_code(r: &Result<(), ConfirmError>) -> (c: u16)
    ensures
        c == confirm_response_status(*r),
{
    match r {
        Ok(()) => 200,
        Err(e) => e.status_code(),
    }
}

/// The first step of a visit: the token to look up, or `MissingToken`.
pub open spec fn requested_outcome(p: Parameters) -> Result<String, ConfirmError> {
    match p.subscription_token {
        Some(t) => Ok(t),
        None => Err(ConfirmError::MissingToken),
    }
}

/// The second step: the subscriber that the lookup of the token found.
pub open spec fn resolve_outcome(lookup: Result<Option<SubscriberId>, String>) -> Result<
    SubscriberId,
    ConfirmError,
> {
    match lookup {
        Ok(Some(id)) => Ok(id),
        Ok(None) => Err(ConfirmError::UnknownToken),
        Err(c) => Err(ConfirmError::PersistenceError(c)),
    }
}

/// The last step: the answer once the status update ran.
pub open spec fn update_outcome(update: Result<(), String>) -> Result<(), ConfirmError> {
    match update {
        Ok(()) => Ok(()),
        Err(c) => Err(ConfirmError::PersistenceError(c)),
    }
}

/// The token that a visit asks to confirm.
pub fn requested_token(p: Parameters) -> (r: Result<String, ConfirmError>)
    ensures
        r == requested_outcome(p),
{
    match p.subscription_token {
        Some(t) => Ok(t),
        None => Err(ConfirmError::MissingToken),
    }
}

/// Decides on the lookup of the token: the subscriber to confirm, `UnknownToken`
/// when no subscriber holds it, or the store's failure.
pub fn resolve_token(lookup: Result<Option<SubscriberId>, String>) -> (r: Result<
    SubscriberId,
    ConfirmError,
>)
    ensures
        r == resolve_outcome(lookup),
{
    match lookup {
        Ok(Some(id)) => Ok(id),
        Ok(None) => Err(ConfirmError::UnknownToken),
        Err(c) => Err(ConfirmError::PersistenceError(c)),
    }
}

/// Decides on the update that marked the subscriber confirmed. The update is the
/// same whatever the status was, so a repeated visit succeeds as the first did.
pub fn confirmation_result(update: Result<(), String>) -> (r: Result<(), ConfirmError>)
    ensures
        r == update_outcome(update),
{
    match update {
        Ok(()) => Ok(()),
        Err(c) => Err(ConfirmError::PersistenceError(c)),
    }
}

/// One visit of the confirmation link, with query `p`, on a store that
/// answers every query: the store after the visit and the response status. It
/// chains the three decisions above.
pub open spec fn confirm_visit(db: SubscriptionStore, p: Parameters) -> (SubscriptionStore, u16) {
    match requested_outcome(p) {
        Err(e) => (db, confirm_status(e)),
        Ok(t) => match resolve_outcome(Ok(token_lookup(db, t@))) {
            Err(e) => (db, confirm_status(e)),
            Ok(id) => (
                mark_confirmed(db, id),
                confirm_response_status(update_outcome(Ok(()))),
            ),
        },
    }
}

/// Visiting a confirmation link confirms its subscriber with status 200, keeps the
/// subscriber's address, name and time of subscription, keeps the token (the link is
/// not consumed) and touches no other subscriber; visiting it again answers 200 too
/// and changes nothing more.
pub proof fn lemma_confirmation_is_idempotent(db: SubscriptionStore, p: Parameters)
    requires
        store_wf(db),
        p.subscription_token matches Some(t) && db.tokens.contains_key(t@),
    ensures
        ({
            let (db1, s1) = confirm_visit(db, p);
            let (db2, s2) = confirm_visit(db1, p);
            let id = db.tokens[p.subscription_token->Some_0@];
            &&& s1 == 200
            &&& db1.subscribers.contains_key(id)
            &&& db1.subscribers[id].status == SubscriptionStatus::Confirmed
            &&& db1.subscribers[id].email == db.subscribers[id].email
            &&& db1.subscribers[id].name == db.subscribers[id].name
            &&& db1.subscribers[id].subscribed_at == db.subscribers[id].subscribed_at
            &&& db1.tokens == db.tokens
            &&& forall|o: SubscriberId|
                o != id ==> #[trigger] db1.subscribers.contains_key(o) == db.subscribers.contains_key(o)
                    && db1.subscribers[o] == db.subscribers[o]
            &&& s2 == 200
            &&& db2 == db1
        }),
{
    let t = p.subscription_token->Some_0@;
    let id = db.tokens[t];
    let db1 = mark_confirmed(db, id);
    assert(db1.subscribers.insert(
        id,
        SubscriberRecord { status: SubscriptionStatus::Confirmed, ..db1.subscribers[id] },
    ) =~= db1.subscribers);
}

/// A visit without a token is answered 400 and leaves the store alone; a visit with
/// any token on a store that answers is never a server error.
pub proof fn lemma_confirmation_never_server_error(db: SubscriptionStore, p: Parameters)
    ensures
        p.subscription_token is None ==> confirm_visit(db, p) == (db, 400u16),
        confirm_visit(db, p).1 != 500,
        confirm_visit(db, p).1 == 200 || confirm_visit(db, p).1 == 400 || confirm_visit(db, p).1
            == 401,
{
}

/// A visit confirms no one but the holder of its token: a subscriber that is
/// confirmed after a visit and was not before holds a token of the store.
pub proof fn lemma_only_token_holders_become_confirmed(db: SubscriptionStore, p: Parameters)
    ensures
        forall|id: SubscriberId|
            #[trigger] confirm_visit(db, p).0.subscribers.contains_key(id)
                && confirm_visit(db, p).0.subscribers[id].status == SubscriptionStatus::Confirmed
                && !(db.subscribers.contains_key(id) && db.subscribers[id].status
                == SubscriptionStatus::Confirmed) ==> exists|t: Seq<char>|
                #[trigger] db.tokens.contains_key(t) && db.tokens[t] == id,
{
    assert forall|id: SubscriberId|
        #[trigger] confirm_visit(db, p).0.subscribers.contains_key(id)
            && confirm_visit(db, p).0.subscribers[id].status == SubscriptionStatus::Confirmed
            && !(db.subscribers.contains_key(id) && db.subscribers[id].status
            == SubscriptionStatus::Confirmed) implies exists|t: Seq<char>|
        #[trigger] db.tokens.contains_key(t) && db.tokens[t] == id by {
        let t = p.subscription_token->Some_0@;
        assert(db.tokens.contains_key(t) && db.tokens[t] == id);
    }
}

} // verus!
