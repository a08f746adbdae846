use vstd::prelude::*;
use crate::email::EmailMessage;
use crate::errors::{error_chain, error_chain_fmt};
use crate::new_subscriber::{new_subscriber_id, NewSubscriber};
use crate::subscriber_email::{email_accepted, email_rejection, SubscriberEmail};
use crate::subscriber_name::{name_accepted, name_rejection, SubscriberName};
use crate::token::{generate_subscription_token, is_subscription_token};
use crate::new_subscriber::SubscriptionStatus;
use crate::store::{
    record_registration, registration_admitted, store_wf, token_lookup, SubscriberRecord,
    SubscriptionStore,
};
use crate::subscriptions_confirm::{confirm_visit, Parameters};

verus! {

/// The subscription form as submitted.
pub struct FormData {
    pub email: String,
    pub name: String,
}

/// Why a registration failed. Each variant but the first carries the cause
/// reported by the store or the gateway.
#[derive(Debug)]
pub enum SubscribeError {
    ValidationError(String),
    PoolError(String),
    InsertSubscriberError(String),
    StoreTokenError(String),
    TransactionCommitError(String),
    SendEmailError(String),
}

/// The response status of a failed registration: the client's fault for bad input,
/// the server's for everything else.
pub open spec fn subscribe_status(e: SubscribeError) -> u16 {
    match e {
        SubscribeError::ValidationError(_) => 400,
        _ => 500,
    }
}

/// The message of each error.
pub open spec fn subscribe_message(e: SubscribeError) -> Seq<char> {
    match e {
        SubscribeError::ValidationError(m) => m@,
        SubscribeError::PoolError(_) => "Failed to acquire a Postgres connection from the pool"@,
        SubscribeError::InsertSubscriberError(_) => "Failed to insert new subscriber in the database"@,
        SubscribeError::StoreTokenError(_) => "Failed to store the confirmation token for a new subscriber"@,
        SubscribeError::TransactionCommitError(_) => "Failed to commit SQL transaction to store a new subscriber"@,
        SubscribeError::SendEmailError(_) => "Failed to send a confirmation email"@,
    }
}

/// The underlying cause of each error, where there is one.
pub open spec fn subscribe_cause(e: SubscribeError) -> Option<Seq<char>> {
    match e {
        SubscribeError::ValidationError(_) => None,
        SubscribeError::PoolError(c) => Some(c@),
        SubscribeError::InsertSubscriberError(c) => Some(c@),
        SubscribeError::StoreTokenError(c) => Some(c@),
        SubscribeError::TransactionCommitError(c) => Some(c@),
        SubscribeError::SendEmailError(c) => Some(c@),
    }
}

impl SubscribeError {
    /// The response status: 400 for a validation error, 500 otherwise.
    pub fn status_code(&self) -> (r: u16)
        ensures
            r == subscribe_status(*self),
    {
        match self {
            SubscribeError::ValidationError(_) => 400,
            _ => 500,
        }
    }

    /// The message shown for the error.
    pub fn message(&self) -> (r: String)
        ensures
            r@ == subscribe_message(*self),
    {
        match self {
            SubscribeError::ValidationError(m) => m.clone(),
            SubscribeError::PoolError(_) => String::from_str(
                "Failed to acquire a Postgres connection from the pool",
            ),
            SubscribeError::InsertSubscriberError(_) => String::from_str(
                "Failed to insert new subscriber in the database",
            ),
            SubscribeError::StoreTokenError(_) => String::from_str(
                "Failed to store the confirmation token for a new subscriber",
            ),
            SubscribeError::TransactionCommitError(_) => String::from_str(
                "Failed to commit SQL transaction to store a new subscriber",
            ),
            SubscribeError::SendEmailError(_) => String::from_str(
                "Failed to send a confirmation email",
            ),
        }
    }

    /// The cause reported by the store or the gateway.
    pub fn source(&self) -> (r: Option<String>)
        ensures
            r matches Some(c) ==> subscribe_cause(*self) == Some(c@),
            r is None <==> subscribe_cause(*self) is None,
    {
        match self {
            SubscribeError::ValidationError(_) => None,
            SubscribeError::PoolError(c) => Some(c.clone()),
            SubscribeError::InsertSubscriberError(c) => Some(c.clone()),
            SubscribeError::StoreTokenError(c) => Some(c.clone()),
            SubscribeError::TransactionCommitError(c) => Some(c.clone()),
            SubscribeError::SendEmailError(c) => Some(c.clone()),
        }
    }

    /// The report for the logs: the message, a blank line, then its cause.
    pub fn report(&self) -> (r: String)
        ensures
            subscribe_cause(*self) matches Some(c) ==> r@ == subscribe_message(*self) + "\n\n"@
                + "Caused by:\n\t"@ + c + "\n"@,
            subscribe_cause(*self) is None ==> r@ == subscribe_message(*self) + "\n\n"@,
    {
        let mut head = self.message();
        head.append("\n");
        let mut causes: Vec<String> = Vec::new();
        match self.source() {
            Some(c) => causes.push(c),
            None => {},
        }
        let r = error_chain_fmt(head.as_str(), &causes);
        proof {
            reveal_strlit("\n");
            reveal_strlit("\n\n");
            let m = causes@.map_values(|c: String| c@);
            let msg = subscribe_message(*self);
            assert(msg + "\n"@ + "\n"@ =~= msg + "\n\n"@);
            match subscribe_cause(*self) {
                Some(c) => {
                    assert(m =~= seq![c]);
                    assert(m.drop_last() =~= Seq::<Seq<char>>::empty());
                    assert(error_chain(head@, m) == error_chain(head@, m.drop_last())
                        + "Caused by:\n\t"@ + c + "\n"@);
                    assert(error_chain(head@, m.drop_last()) == head@ + "\n"@);
                    assert(r@ =~= msg + "\n\n"@ + "Caused by:\n\t"@ + c + "\n"@);
                },
                None => assert(m =~= Seq::<Seq<char>>::empty()),
            }
        }
        r
    }
}

impl NewSubscriber {
    /// Validates the form: the name first, then the email; the identifier is fresh.
    pub fn try_from(data: FormData) -> (r: Result<NewSubscriber, SubscribeError>)
        ensures
            r is Ok <==> name_accepted(data.name@) && email_accepted(data.email@),
            !name_accepted(data.name@) ==> (r matches Err(SubscribeError::ValidationError(m))
                && m@ == name_rejection(data.name@)),
            name_accepted(data.name@) && !email_accepted(data.email@) ==> (r matches Err(
                SubscribeError::ValidationError(m),
            ) && m@ == email_rejection(data.email@)),
            r matches Ok(s) ==> s.wf() && s.email@ == data.email@ && s.name@ == data.name@,
    {
        let name = match SubscriberName::parse(data.name) {
            Ok(n) => n,
            Err(m) => {
                return Err(SubscribeError::ValidationError(m));
            },
        };
        let email = match SubscriberEmail::parse(data.email) {
            Ok(e) => e,
            Err(m) => {
                return Err(SubscribeError::ValidationError(m));
            },
        };
        Ok(NewSubscriber { id: new_subscriber_id(), email, name })
    }
}

/// The path, relative to the public base address, that confirms a subscription.
pub open spec fn confirmation_link(access_url: Seq<char>, token: Seq<char>) -> Seq<char> {
    access_url + "/subscriptions/confirm?subscription_token="@ + token
}

/// The HTML body of the confirmation email around its link.
pub open spec fn confirmation_html(link: Seq<char>) -> Seq<char> {
    "Welcome to our newsletter!<br />Click <a href=\""@ + link
        + "\">here</a> to confirm your subscription."@
}

/// The plain-text body of the confirmation email around its link.
pub open spec fn confirmation_text(link: Seq<char>) -> Seq<char> {
    "Welcome to our newsletter!\nVisit "@ + link + " to confirm your subscription."@
}

/// The confirmation link for a token.
pub fn confirmation_link_for(access_url: &str, token: &str) -> (r: String)
    ensures
        r@ == confirmation_link(access_url@, token@),
{
    let mut r = String::from_str(access_url);
    r.append("/subscriptions/confirm?subscription_token=");
    r.append(token);
    r
}

/// The confirmation email of a new subscriber: both bodies carry the same link.
pub fn confirmation_email(access_url: &str, subscriber: &NewSubscriber, token: &str) -> (r:
    EmailMessage)
    ensures
        r.recipient@ == subscriber.email@,
        r.subject@ == "Welcome!"@,
        r.html_body@ == confirmation_html(confirmation_link(access_url@, token@)),
        r.text_body@ == confirmation_text(confirmation_link(access_url@, token@)),
{
    let link = confirmation_link_for(access_url, token);
    let mut html = String::from_str("Welcome to our newsletter!<br />Click <a href=\"");
    html.append(link.as_str());
    html.append("\">here</a> to confirm your subscription.");
    let mut text = String::from_str("Welcome to our newsletter!\nVisit ");
    text.append(link.as_str());
    text.append(" to confirm your subscription.");
    EmailMessage {
        recipient: subscriber.email.clone_email(),
        subject: String::from_str("Welcome!"),
        html_body: html,
        text_body: text,
    }
}

/// The link occurs, character for character, in both bodies of the confirmation
/// email.
pub proof fn lemma_confirmation_bodies_share_link(link: Seq<char>)
    ensures
        exists|i: int|
            0 <= i && i + link.len() <= confirmation_html(link).len()
                && #[trigger] confirmation_html(link).subrange(i, i + link.len()) == link,
        exists|j: int|
            0 <= j && j + link.len() <= confirmation_text(link).len()
                && #[trigger] confirmation_text(link).subrange(j, j + link.len()) == link,
{
    let p = "Welcome to our newsletter!<br />Click <a href=\""@;
    let q = "Welcome to our newsletter!\nVisit "@;
    assert(confirmation_html(link).subrange(p.len() as int, p.len() + link.len() as int) =~= link);
    assert(confirmation_text(link).subrange(q.len() as int, q.len() + link.len() as int) =~= link);
}

/// The outside work that a registration asks for, in the order in which it is done.
#[derive(Debug, Clone, Copy, PartialEq, Eq, Structural)]
pub enum SubscribeAction {
    /// Open a database transaction.
    BeginTransaction,
    /// Insert the subscriber, with status `pending_confirmation`, in the transaction.
    InsertSubscriber,
    /// Insert the token and the subscriber's identifier in the transaction.
    StoreToken,
    /// Commit the transaction.
    Commit,
    /// Send the confirmation email.
    SendEmail,
    /// Nothing more to do: answer the client.
    Respond,
}

/// The five steps of a registration that succeeds.
pub open spec fn registration_plan() -> Seq<SubscribeAction> {
    seq![
        SubscribeAction::BeginTransaction,
        SubscribeAction::InsertSubscriber,
        SubscribeAction::StoreToken,
        SubscribeAction::Commit,
        SubscribeAction::SendEmail,
    ]
}

/// The action after `completed` steps of the plan succeeded, or after a failure.
pub open spec fn registration_action(completed: nat, failed: bool) -> SubscribeAction {
    if failed || completed >= registration_plan().len() {
        SubscribeAction::Respond
    } else {
        registration_plan()[completed as int]
    }
}

/// `e` is the error that the failure of step `step` with cause `cause` gives: a
/// persistence error for the four database steps, a delivery error for the email.
pub open spec fn is_step_error(step: nat, e: SubscribeError, cause: Seq<char>) -> bool {
    match e {
        SubscribeError::PoolError(c) => step == 0 && c@ == cause,
        SubscribeError::InsertSubscriberError(c) => step == 1 && c@ == cause,
        SubscribeError::StoreTokenError(c) => step == 2 && c@ == cause,
        SubscribeError::TransactionCommitError(c) => step == 3 && c@ == cause,
        SubscribeError::SendEmailError(c) => step == 4 && c@ == cause,
        SubscribeError::ValidationError(_) => false,
    }
}

/// A registration in progress: a validated subscriber, its token, and how far the
/// steps of `registration_plan` have gone.
pub struct Registration {
    subscriber: NewSubscriber,
    token: String,
    access_url: String,
    completed: usize,
    failure: Option<SubscribeError>,
}

impl Registration {
    /// How many steps of the plan have succeeded.
    pub closed spec fn completed(&self) -> nat {
        self.completed as nat
    }

    /// The error of the step that failed, if one did.
    pub closed spec fn failure(&self) -> Option<SubscribeError> {
        self.failure
    }

    pub closed spec fn subscriber_spec(&self) -> NewSubscriber {
        self.subscriber
    }

    pub closed spec fn token_spec(&self) -> Seq<char> {
        self.token@
    }

    pub closed spec fn access_url_spec(&self) -> Seq<char> {
        self.access_url@
    }

    /// The next action the registration asks for.
    pub open spec fn action(&self) -> SubscribeAction {
        registration_action(self.completed(), self.failure() is Some)
    }

    pub closed spec fn wf(&self) -> bool {
        &&& self.completed <= 5
        &&& self.failure is Some ==> self.completed < 5
        &&& self.subscriber.wf()
        &&& is_subscription_token(self.token@)
    }

    /// Validates the form and, on success, starts a registration with a fresh
    /// identifier and token; nothing is stored yet.
    pub fn start(form: FormData, access_url: String) -> (r: Result<Registration, SubscribeError>)
        ensures
            r is Ok <==> name_accepted(form.name@) && email_accepted(form.email@),
            !name_accepted(form.name@) ==> (r matches Err(SubscribeError::ValidationError(m))
                && m@ == name_rejection(form.name@)),
            name_accepted(form.name@) && !email_accepted(form.email@) ==> (r matches Err(
                SubscribeError::ValidationError(m),
            ) && m@ == email_rejection(form.email@)),
            r matches Ok(g) ==> {
                &&& g.wf()
                &&& g.completed() == 0
                &&& g.failure() is None
                &&& g.subscriber_spec().email@ == form.email@
                &&& g.subscriber_spec().name@ == form.name@
                &&& g.access_url_spec() == access_url@
                &&& is_subscription_token(g.token_spec())
            },
    {
        let subscriber = NewSubscriber::try_from(form)?;
        let token = generate_subscription_token();
        Ok(Registration { subscriber, token, access_url, completed: 0, failure: None })
    }

    /// The next action: the steps of the plan in order while they succeed, then
    /// `Respond`; `Respond` at once after a failure.
    pub fn next_action(&self) -> (a: SubscribeAction)
        requires
            self.wf(),
        ensures
            a == self.action(),
    {
        if self.failure.is_some() || self.completed == 5 {
            SubscribeAction::Respond
        } else if self.completed == 0 {
            SubscribeAction::BeginTransaction
        } else if self.completed == 1 {
            SubscribeAction::InsertSubscriber
        } else if self.completed == 2 {
            SubscribeAction::StoreToken
        } else if self.completed == 3 {
            SubscribeAction::Commit
        } else {
            SubscribeAction::SendEmail
        }
    }

    /// Records how the action asked for went: success moves to the next step; a
    /// failure, with the cause that the store or the gateway gave, ends the
    /// registration with the error of that step.
    pub fn record(&mut self, result: Result<(), String>)
        requires
            old(self).wf(),
            old(self).action() != SubscribeAction::Respond,
        ensures
            final(self).wf(),
            final(self).subscriber_spec() == old(self).subscriber_spec(),
            final(self).token_spec() == old(self).token_spec(),
            final(self).access_url_spec() == old(self).access_url_spec(),
            result is Ok ==> final(self).completed() == old(self).completed() + 1
                && final(self).failure() is None,
            result matches Err(c) ==> final(self).completed() == old(self).completed() && (
            final(self).failure() matches Some(e) && is_step_error(old(self).completed(), e, c@)),
    {
        match result {
            Ok(()) => {
                self.completed = self.completed + 1;
            },
            Err(c) => {
                let e = if self.completed == 0 {
                    SubscribeError::PoolError(c)
                } else if self.completed == 1 {
                    SubscribeError::InsertSubscriberError(c)
                } else if self.completed == 2 {
                    SubscribeError::StoreTokenError(c)
                } else if self.completed == 3 {
                    SubscribeError::TransactionCommitError(c)
                } else {
                    SubscribeError::SendEmailError(c)
                };
                self.failure = Some(e);
            },
        }
    }

    /// The answer once the registration asks for nothing more: success when every
    /// step succeeded, else the error of the step that failed.
    pub fn finish(self) -> (r: Result<(), SubscribeError>)
        requires
            self.wf(),
            self.action() == SubscribeAction::Respond,
        ensures
            r is Ok <==> self.failure() is None,
            r is Ok ==> self.completed() == registration_plan().len(),
            r matches Err(e) ==> self.failure() == Some(e),
    {
        match self.failure {
            None => Ok(()),
            Some(e) => Err(e),
        }
    }

    /// The subscriber being registered.
    pub fn subscriber(&self) -> (r: &NewSubscriber)
        ensures
            *r == self.subscriber_spec(),
    {
        &self.subscriber
    }

    /// The subscriber's confirmation token.
    pub fn token(&self) -> (r: &str)
        ensures
            r@ == self.token_spec(),
    {
        self.token.as_str()
    }

    /// The email that `SendEmail` sends.
    pub fn confirmation_email(&self) -> (r: EmailMessage)
        ensures
            r.recipient@ == self.subscriber_spec().email@,
            r.subject@ == "Welcome!"@,
            r.html_body@ == confirmation_html(
                confirmation_link(self.access_url_spec(), self.token_spec()),
            ),
            r.text_body@ == confirmation_text(
                confirmation_link(self.access_url_spec(), self.token_spec()),
            ),
    {
        confirmation_email(self.access_url.as_str(), &self.subscriber, self.token.as_str())
    }
}

/// The confirmation email is asked for only after the subscriber row and the token
/// row were inserted in one transaction and that transaction was committed; a
/// registration that ends without failure went through every step once, in order.
pub proof fn lemma_email_only_after_commit(g: &Registration)
    requires
        g.wf(),
        g.action() == SubscribeAction::SendEmail,
    ensures
        g.failure() is None,
        registration_plan().take(g.completed() as int) == seq![
            SubscribeAction::BeginTransaction,
            SubscribeAction::InsertSubscriber,
            SubscribeAction::StoreToken,
            SubscribeAction::Commit,
        ],
{
    assert(registration_plan().take(g.completed() as int) =~= seq![
        SubscribeAction::BeginTransaction,
        SubscribeAction::InsertSubscriber,
        SubscribeAction::StoreToken,
        SubscribeAction::Commit,
    ]);
}

/// The store after a registration, in whatever state it ended, with `subscribed_at`
/// the time written in its row: the subscriber row and the token row appear
/// together once the commit step succeeded, and neither appears before.
pub open spec fn registration_effect(
    db: SubscriptionStore,
    g: Registration,
    subscribed_at: int,
) -> SubscriptionStore {
    if g.completed() >= 4 {
        record_registration(
            db,
            g.subscriber_spec().id,
            g.token_spec(),
            g.subscriber_spec().email@,
            g.subscriber_spec().name@,
            subscribed_at,
        )
    } else {
        db
    }
}

/// A registration that succeeded (its inserts were admitted by the keys, so its
/// identifier is new) asked for exactly one email and added exactly one subscriber,
/// pending, with the form's address and name, and one token resolving to it; a
/// visit of the link with that token then answers 200 and confirms that subscriber,
/// keeping its address and name.
pub proof fn lemma_registration_then_confirmation(
    db: SubscriptionStore,
    g: &Registration,
    subscribed_at: int,
    p: Parameters,
)
    requires
        store_wf(db),
        g.failure() is None,
        g.completed() == registration_plan().len(),
        registration_admitted(db, g.subscriber_spec().id, g.token_spec()),
        p.subscription_token matches Some(t) && t@ == g.token_spec(),
    ensures
        forall|k: int|
            0 <= k < registration_plan().len() ==> (#[trigger] registration_plan()[k]
                == SubscribeAction::SendEmail <==> k == 4),
        ({
            let id = g.subscriber_spec().id;
            let db1 = registration_effect(db, *g, subscribed_at);
            let row = SubscriberRecord {
                email: g.subscriber_spec().email@,
                name: g.subscriber_spec().name@,
                subscribed_at,
                status: SubscriptionStatus::PendingConfirmation,
            };
            let (db2, code) = confirm_visit(db1, p);
            &&& !db.subscribers.contains_key(id)
            &&& db1.subscribers == db.subscribers.insert(id, row)
            &&& db1.tokens == db.tokens.insert(g.token_spec(), id)
            &&& store_wf(db1)
            &&& token_lookup(db1, g.token_spec()) == Some(id)
            &&& code == 200
            &&& db2.subscribers[id].status == SubscriptionStatus::Confirmed
            &&& db2.subscribers[id].email == row.email
            &&& db2.subscribers[id].name == row.name
        }),
{
    let db1 = registration_effect(db, *g, subscribed_at);
    assert forall|t: Seq<char>| #[trigger] db1.tokens.contains_key(t) implies db1.subscribers.contains_key(
        db1.tokens[t],
    ) by {
        if t != g.token_spec() {
            assert(db.tokens.contains_key(t));
        }
    }
}

} // verus!
