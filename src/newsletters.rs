use vstd::prelude::*;
use crate::authentication::{
    argon2_verifies, auth_outcome, phc_well_formed, AuthError, Credentials, StoredCredentials,
};
use crate::email::{DeliveryOutcome, EmailMessage};
use crate::new_subscriber::{status_name, str_eq, SubscriptionStatus};
use crate::subscriber_email::{email_accepted, email_rejection, SubscriberEmail};

verus! {

/// The two bodies of an issue, passed through as they are.
pub struct Content {
    pub html: String,
    pub text: String,
}

/// A newsletter issue: its title and content.
pub struct BodyData {
    pub title: String,
    pub content: Content,
}

/// Why a publication failed.
#[derive(Debug)]
pub enum PublishError {
    /// The request carried no Basic credentials.
    MissingCredentials,
    /// The body lacks a field; the message names it.
    InvalidBody(String),
    /// The credentials were refused; the cause is for the logs only.
    AuthError(String),
    /// Anything else: the store failed, or the gateway could not be reached.
    UnexpectedError(String),
}

/// What the client receives for an error: status, `WWW-Authenticate` challenge, and
/// body.
pub struct ErrorResponse {
    pub status: u16,
    pub challenge: Option<String>,
    pub body: String,
}

/// The challenge that comes with a refused publication.
pub open spec fn publish_challenge() -> Seq<char> {
    "Basic realm=\"publish\""@
}

pub open spec fn publish_status(e: PublishError) -> u16 {
    match e {
        PublishError::MissingCredentials => 400,
        PublishError::InvalidBody(_) => 422,
        PublishError::AuthError(_) => 401,
        PublishError::UnexpectedError(_) => 500,
    }
}

/// The body sent for each error: it never holds the cause of a refusal or of an
/// internal failure.
pub open spec fn publish_body(e: PublishError) -> Seq<char> {
    match e {
        PublishError::MissingCredentials => "Missing credentials"@,
        PublishError::InvalidBody(m) => m@,
        PublishError::AuthError(_) => "Authentication failed"@,
        PublishError::UnexpectedError(_) => "Something went wrong"@,
    }
}

/// The response of an error is `(status, challenge, body)`.
pub open spec fn response_is(r: ErrorResponse, e: PublishError) -> bool {
    &&& r.status == publish_status(e)
    &&& (e is AuthError ==> (r.challenge matches Some(c) && c@ == publish_challenge()))
    &&& (!(e is AuthError) ==> r.challenge is None)
    &&& r.body@ == publish_body(e)
}

/// The publication error of a failed credential check.
pub open spec fn publish_error_of(e: AuthError) -> PublishError {
    match e {
        AuthError::InvalidCredentials(c) => PublishError::AuthError(c),
        AuthError::UnexpectedError(c) => PublishError::UnexpectedError(c),
    }
}

impl PublishError {
    /// A refused credential check becomes `AuthError`, any other failure
    /// `UnexpectedError`.
    pub fn from_auth(e: AuthError) -> (r: PublishError)
        ensures
            r == publish_error_of(e),
    {
        match e {
            AuthError::InvalidCredentials(c) => PublishError::AuthError(c),
            AuthError::UnexpectedError(c) => PublishError::UnexpectedError(c),
        }
    }

    /// The response status: 400, 422, 401 or 500.
    pub fn status_code(&self) -> (r: u16)
        ensures
            r == publish_status(*self),
    {
        match self {
            PublishError::MissingCredentials => 400,
            PublishError::InvalidBody(_) => 422,
            PublishError::AuthError(_) => 401,
            PublishError::UnexpectedError(_) => 500,
        }
    }

    /// The full response; only a refusal carries the Basic challenge.
    pub fn response(&self) -> (r: ErrorResponse)
        ensures
            response_is(r, *self),
    {
        let status = self.status_code();
        match self {
            PublishError::MissingCredentials => ErrorResponse {
                status,
                challenge: None,
                body: String::from_str("Missing credentials"),
            },
            PublishError::InvalidBody(m) => ErrorResponse {
                status,
                challenge: None,
                body: m.clone(),
            },
            PublishError::AuthError(_) => ErrorResponse {
                status,
                challenge: Some(String::from_str("Basic realm=\"publish\"")),
                body: String::from_str("Authentication failed"),
            },
            PublishError::UnexpectedError(_) => ErrorResponse {
                status,
                challenge: None,
                body: String::from_str("Something went wrong"),
            },
        }
    }

    /// The cause kept for the logs, where there is one.
    pub fn cause(&self) -> (r: Option<String>)
        ensures
            *self is MissingCredentials ==> r is None,
            *self matches PublishError::InvalidBody(m) ==> r == Some(m),
            *self matches PublishError::AuthError(c) ==> r == Some(c),
            *self matches PublishError::UnexpectedError(c) ==> r == Some(c),
    {
        match self {
            PublishError::MissingCredentials => None,
            PublishError::InvalidBody(m) => Some(m.clone()),
            PublishError::AuthError(c) => Some(c.clone()),
            PublishError::UnexpectedError(c) => Some(c.clone()),
        }
    }
}

/// The message of a body that lacks a field.
pub open spec fn missing_field(name: Seq<char>) -> Seq<char> {
    "missing field `"@ + name + "`"@
}

fn missing_field_message(name: &str) -> (r: String)
    ensures
        r@ == missing_field(name@),
{
    let mut r = String::from_str("missing field `");
    r.append(name);
    r.append("`");
    r
}

/// Checks a publication request: first that it carries credentials, then that its
/// body has a title, an HTML and a text content.
pub fn accept_publish_request(
    credentials: Option<Credentials>,
    title: Option<String>,
    html: Option<String>,
    text: Option<String>,
) -> (r: Result<(Credentials, BodyData), PublishError>)
    ensures
        r is Ok <==> credentials is Some && title is Some && html is Some && text is Some,
        credentials is None ==> r matches Err(PublishError::MissingCredentials),
        credentials is Some && title is None ==> (r matches Err(PublishError::InvalidBody(m))
            && m@ == missing_field("title"@)),
        title is None ==> (r matches Err(e) && (publish_status(e) == 400 || publish_status(e)
            == 422)),
        credentials is Some && title is Some && (html is None || text is None) ==> (r matches Err(
            PublishError::InvalidBody(_),
        )),
        r matches Ok((c, b)) ==> {
            &&& credentials == Some(c)
            &&& title == Some(b.title)
            &&& html == Some(b.content.html)
            &&& text == Some(b.content.text)
        },
{
    let c = match credentials {
        Some(c) => c,
        None => {
            return Err(PublishError::MissingCredentials);
        },
    };
    let t = match title {
        Some(t) => t,
        None => {
            return Err(PublishError::InvalidBody(missing_field_message("title")));
        },
    };
    let h = match html {
        Some(h) => h,
        None => {
            return Err(PublishError::InvalidBody(missing_field_message("html")));
        },
    };
    let x = match text {
        Some(x) => x,
        None => {
            return Err(PublishError::InvalidBody(missing_field_message("text")));
        },
    };
    Ok((c, BodyData { title: t, content: Content { html: h, text: x } }))
}

/// A subscriber as the store holds it: the address as stored (it may predate the
/// current rules) and the status name.
pub struct StoredSubscriber {
    pub email: String,
    pub status: String,
}

/// The store marks the subscriber confirmed.
pub open spec fn is_confirmed(r: StoredSubscriber) -> bool {
    r.status@ == status_name(SubscriptionStatus::Confirmed)
}

/// A stored subscriber receives the issue: confirmed, with an address that is still
/// accepted.
pub open spec fn receives_issue(r: StoredSubscriber) -> bool {
    is_confirmed(r) && email_accepted(r.email@)
}

/// The positions, in increasing order, of the first `n` stored subscribers that
/// receive the issue.
pub open spec fn recipients_among(rows: Seq<StoredSubscriber>, n: nat) -> Seq<int>
    decreases n,
{
    if n == 0 {
        seq![]
    } else if receives_issue(rows[n - 1]) {
        recipients_among(rows, (n - 1) as nat).push(n - 1)
    } else {
        recipients_among(rows, (n - 1) as nat)
    }
}

/// `recipients_among` holds exactly the receiving positions below `n`, each once,
/// in increasing order.
pub proof fn lemma_recipients_among(rows: Seq<StoredSubscriber>, n: nat)
    requires
        n <= rows.len(),
    ensures
        forall|j: int, k: int|
            0 <= j < k < recipients_among(rows, n).len() ==> recipients_among(rows, n)[j]
                < recipients_among(rows, n)[k],
        forall|j: int|
            0 <= j < recipients_among(rows, n).len() ==> 0 <= #[trigger] recipients_among(
                rows,
                n,
            )[j] < n,
        forall|i: int|
            0 <= i < n ==> (receives_issue(rows[i]) <==> recipients_among(rows, n).contains(i)),
    decreases n,
{
    if n > 0 {
        lemma_recipients_among(rows, (n - 1) as nat);
        let prev = recipients_among(rows, (n - 1) as nat);
        let cur = recipients_among(rows, n);
        assert(cur == if receives_issue(rows[n - 1]) {
            prev.push(n - 1)
        } else {
            prev
        });
        assert forall|i: int| 0 <= i < n implies (receives_issue(rows[i]) <==> cur.contains(i)) by {
            if i < n - 1 {
                assert(receives_issue(rows[i]) <==> prev.contains(i));
                if receives_issue(rows[i]) {
                    let j = choose|j: int| 0 <= j < prev.len() && prev[j] == i;
                    assert(cur[j] == i);
                }
                if cur.contains(i) {
                    let j = choose|j: int| 0 <= j < cur.len() && cur[j] == i;
                    if j < prev.len() {
                        assert(prev[j] == i);
                    }
                }
            } else {
                if receives_issue(rows[i]) {
                    assert(cur[cur.len() - 1] == i);
                }
                if cur.contains(i) {
                    let j = choose|j: int| 0 <= j < cur.len() && cur[j] == i;
                    if j < prev.len() {
                        assert(prev[j] < n - 1);
                    }
                }
            }
        }
    }
}

/// The message of a batch that ended because the gateway could not be reached.
pub open spec fn unreachable_message(email: Seq<char>, cause: Seq<char>) -> Seq<char> {
    "Failed to send newsletter issue to "@ + email + ": "@ + cause
}

/// One step of a dispatch.
pub enum DispatchStep {
    /// Send this message, then `record` how it went.
    Send(EmailMessage),
    /// A confirmed subscriber whose stored address is no longer accepted is passed
    /// over; the warning says why.
    Skip(String),
    /// Every stored subscriber was seen, or the gateway could not be reached.
    Done,
}

/// What a finished dispatch did.
#[derive(Debug, Clone, Copy, PartialEq, Eq, Structural)]
pub struct DispatchReport {
    pub delivered: usize,
    pub rejected: usize,
}

/// The fan-out of one issue over the stored subscribers, in order: confirmed ones
/// with an accepted address get one message each, the others none. A recipient that
/// the gateway refuses is counted and passed over; a gateway that cannot be reached
/// ends the batch.
pub struct Dispatch {
    rows: Vec<StoredSubscriber>,
    issue: BodyData,
    position: usize,
    sent: Ghost<Seq<int>>,
    awaiting: bool,
    delivered: usize,
    rejected: usize,
    failure: Option<String>,
}

impl Dispatch {
    pub closed spec fn rows(&self) -> Seq<StoredSubscriber> {
        self.rows@
    }

    /// How many stored subscribers have been seen.
    pub closed spec fn position(&self) -> nat {
        self.position as nat
    }

    /// The positions of the subscribers that were handed out to send to, in order.
    pub closed spec fn sent(&self) -> Seq<int> {
        self.sent@
    }

    /// A message was handed out and its outcome is not recorded yet.
    pub closed spec fn awaiting(&self) -> bool {
        self.awaiting
    }

    /// The gateway could not be reached; the batch is over.
    pub open spec fn aborted(&self) -> bool {
        self.failure_message() is Some
    }

    /// The message that ended the batch, once the gateway could not be reached.
    pub closed spec fn failure_message(&self) -> Option<Seq<char>> {
        match self.failure {
            Some(m) => Some(m@),
            None => None,
        }
    }

    pub closed spec fn delivered(&self) -> nat {
        self.delivered as nat
    }

    pub closed spec fn rejected(&self) -> nat {
        self.rejected as nat
    }

    pub closed spec fn title(&self) -> Seq<char> {
        self.issue.title@
    }

    pub closed spec fn html(&self) -> Seq<char> {
        self.issue.content.html@
    }

    pub closed spec fn text(&self) -> Seq<char> {
        self.issue.content.text@
    }

    /// The dispatch has nothing more to hand out.
    pub open spec fn finished(&self) -> bool {
        !self.awaiting() && (self.aborted() || self.position() == self.rows().len())
    }

    pub closed spec fn wf(&self) -> bool {
        &&& self.position <= self.rows@.len()
        &&& self.sent@ == recipients_among(self.rows@, self.position as nat)
        &&& self.sent@.len() <= self.position
        &&& self.delivered + self.rejected + (if self.awaiting { 1int } else { 0 }) + (
        if self.failure is Some {
            1int
        } else {
            0
        }) == self.sent@.len()
        &&& self.awaiting ==> self.position > 0 && self.failure is None
    }

    /// A dispatch of `issue` over the stored subscribers `rows`, none seen yet.
    pub fn new(rows: Vec<StoredSubscriber>, issue: BodyData) -> (d: Dispatch)
        ensures
            d.wf(),
            d.rows() == rows@,
            d.position() == 0,
            d.sent() == Seq::<int>::empty(),
            !d.awaiting(),
            !d.aborted(),
            d.delivered() == 0 && d.rejected() == 0,
            d.title() == issue.title@,
            d.html() == issue.content.html@,
            d.text() == issue.content.text@,
    {
        Dispatch {
            rows,
            issue,
            position: 0,
            sent: Ghost(Seq::empty()),
            awaiting: false,
            delivered: 0,
            rejected: 0,
            failure: None,
        }
    }

    /// Moves past subscribers that are not confirmed and stops at the next confirmed
    /// one: `Send` its message when its address is accepted, `Skip` it otherwise;
    /// `Done` at the end or once the batch was aborted.
    pub fn next_step(&mut self) -> (r: DispatchStep)
        requires
            old(self).wf(),
            !old(self).awaiting(),
        ensures
            final(self).wf(),
            final(self).rows() == old(self).rows(),
            final(self).title() == old(self).title(),
            final(self).html() == old(self).html(),
            final(self).text() == old(self).text(),
            final(self).failure_message() == old(self).failure_message(),
            final(self).delivered() == old(self).delivered(),
            final(self).rejected() == old(self).rejected(),
            final(self).position() >= old(self).position(),
            final(self).position() <= final(self).rows().len(),
            forall|i: int|
                old(self).position() <= i < final(self).position() - 1 ==> !is_confirmed(
                    #[trigger] old(self).rows()[i],
                ),
            !(r is Done) ==> final(self).position() > old(self).position(),
            r is Done ==> {
                &&& final(self).finished()
                &&& final(self).sent() == old(self).sent()
                &&& forall|i: int|
                    old(self).position() <= i < final(self).position() ==> !is_confirmed(
                        #[trigger] old(self).rows()[i],
                    )
            },
            r is Done ==> final(self).position() == old(self).position() || !old(self).aborted(),
            r matches DispatchStep::Send(m) ==> {
                let i = final(self).position() - 1;
                &&& final(self).awaiting()
                &&& receives_issue(final(self).rows()[i])
                &&& final(self).sent() == old(self).sent().push(i)
                &&& m.recipient@ == final(self).rows()[i].email@
                &&& m.subject@ == final(self).title()
                &&& m.html_body@ == final(self).html()
                &&& m.text_body@ == final(self).text()
            },
            r matches DispatchStep::Skip(w) ==> {
                let i = final(self).position() - 1;
                &&& !final(self).awaiting()
                &&& is_confirmed(final(self).rows()[i])
                &&& !email_accepted(final(self).rows()[i].email@)
                &&& final(self).sent() == old(self).sent()
                &&& w@ == email_rejection(final(self).rows()[i].email@)
            },
    {
        if self.failure.is_some() {
            return DispatchStep::Done;
        }
        let n = self.rows.len();
        while self.position < n
            invariant
                n == self.rows@.len(),
                self.rows@ == old(self).rows@,
                self.issue == old(self).issue,
                self.failure is None,
                old(self).failure is None,
                !self.awaiting,
                self.sent@.len() <= old(self).position,
                self.delivered + self.rejected == self.sent@.len(),
                self.delivered == old(self).delivered,
                self.rejected == old(self).rejected,
                old(self).position <= self.position <= n,
                self.sent@ == old(self).sent@,
                self.sent@ == recipients_among(self.rows@, self.position as nat),
                forall|i: int|
                    old(self).position <= i < self.position ==> !is_confirmed(
                        #[trigger] self.rows@[i],
                    ),
            decreases n - self.position,
        {
            let i = self.position;
            let confirmed = str_eq(self.rows[i].status.as_str(), "confirmed");
            self.position = i + 1;
            assert(recipients_among(self.rows@, (i + 1) as nat) == if receives_issue(
                self.rows@[i as int],
            ) {
                recipients_among(self.rows@, i as nat).push(i as int)
            } else {
                recipients_among(self.rows@, i as nat)
            });
            if confirmed {
                let parsed = SubscriberEmail::parse(self.rows[i].email.clone());
                match parsed {
                    Ok(email) => {
                        self.sent = Ghost(self.sent@.push(i as int));
                        self.awaiting = true;
                        let m = EmailMessage {
                            recipient: email,
                            subject: self.issue.title.clone(),
                            html_body: self.issue.content.html.clone(),
                            text_body: self.issue.content.text.clone(),
                        };
                        return DispatchStep::Send(m);
                    },
                    Err(w) => {
                        return DispatchStep::Skip(w);
                    },
                }
            }
        }
        DispatchStep::Done
    }

    /// Records the gateway's answer to the message last handed out: a delivery or a
    /// refusal is counted and the batch goes on; an unreachable gateway aborts it,
    /// with `cause` kept for the report.
    pub fn record(&mut self, outcome: DeliveryOutcome, cause: String)
        requires
            old(self).wf(),
            old(self).awaiting(),
        ensures
            final(self).wf(),
            !final(self).awaiting(),
            final(self).rows() == old(self).rows(),
            final(self).position() == old(self).position(),
            final(self).position() <= final(self).rows().len(),
            final(self).sent() == old(self).sent(),
            final(self).title() == old(self).title(),
            final(self).html() == old(self).html(),
            final(self).text() == old(self).text(),
            outcome == DeliveryOutcome::Delivered ==> {
                &&& final(self).delivered() == old(self).delivered() + 1
                &&& final(self).rejected() == old(self).rejected()
                &&& !final(self).aborted()
            },
            outcome == DeliveryOutcome::Rejected ==> {
                &&& final(self).rejected() == old(self).rejected() + 1
                &&& final(self).delivered() == old(self).delivered()
                &&& !final(self).aborted()
            },
            outcome != DeliveryOutcome::Unreachable ==> final(self).failure_message()
                == old(self).failure_message(),
            outcome == DeliveryOutcome::Unreachable ==> {
                &&& final(self).failure_message() == Some(
                    unreachable_message(
                        old(self).rows()[old(self).position() - 1].email@,
                        cause@,
                    ),
                )
                &&& final(self).delivered() == old(self).delivered()
                &&& final(self).rejected() == old(self).rejected()
            },
    {
        self.awaiting = false;
        match outcome {
            DeliveryOutcome::Delivered => {
                self.delivered = self.delivered + 1;
            },
            DeliveryOutcome::Rejected => {
                self.rejected = self.rejected + 1;
            },
            DeliveryOutcome::Unreachable => {
                let mut m = String::from_str("Failed to send newsletter issue to ");
                m.append(self.rows[self.position - 1].email.as_str());
                m.append(": ");
                m.append(cause.as_str());
                self.failure = Some(m);
            },
        }
    }

    /// The result of a finished dispatch: its counts, or `UnexpectedError` when the
    /// gateway could not be reached. A refused recipient does not fail the call.
    pub fn finish(self) -> (r: Result<DispatchReport, PublishError>)
        requires
            self.wf(),
            self.finished(),
        ensures
            r is Ok <==> !self.aborted(),
            r matches Ok(rep) ==> {
                &&& self.sent() == recipients_among(self.rows(), self.rows().len())
                &&& rep.delivered == self.delivered()
                &&& rep.rejected == self.rejected()
                &&& rep.delivered + rep.rejected == self.sent().len()
            },
            r matches Err(e) ==> (e matches PublishError::UnexpectedError(m) && self.failure_message()
                == Some(m@)),
    {
        match self.failure {
            Some(m) => Err(PublishError::UnexpectedError(m)),
            None => Ok(DispatchReport { delivered: self.delivered, rejected: self.rejected }),
        }
    }
}

/// A dispatch that ran to its end handed out exactly one message for each confirmed
/// subscriber whose address is accepted, in the stored order, and none for a
/// subscriber that is not confirmed.
pub proof fn lemma_dispatch_reaches_each_confirmed_once(d: &Dispatch)
    requires
        d.wf(),
        d.position() == d.rows().len(),
    ensures
        forall|i: int|
            0 <= i < d.rows().len() && receives_issue(#[trigger] d.rows()[i]) ==> (exists|j: int|
                0 <= j < d.sent().len() && d.sent()[j] == i),
        forall|j1: int, j2: int|
            0 <= j1 < j2 < d.sent().len() ==> #[trigger] d.sent()[j1] != #[trigger] d.sent()[j2],
        forall|i: int|
            0 <= i < d.rows().len() && !is_confirmed(#[trigger] d.rows()[i]) ==> !d.sent().contains(
                i,
            ),
        forall|j: int|
            0 <= j < d.sent().len() ==> 0 <= #[trigger] d.sent()[j] < d.rows().len() && receives_issue(
                d.rows()[d.sent()[j]],
            ),
{
    lemma_recipients_among(d.rows(), d.rows().len());
    let s = d.sent();
    assert forall|i: int| 0 <= i < d.rows().len() && receives_issue(#[trigger] d.rows()[i]) implies (exists|j: int|
                0 <= j < s.len() && s[j] == i) by {
        assert(s.contains(i));
    }
    assert forall|j: int| 0 <= j < s.len() implies 0 <= #[trigger] s[j] < d.rows().len()
        && receives_issue(d.rows()[s[j]]) by {
        assert(s.contains(s[j]));
    }
}

/// A publication with an unknown username and one with a known username and a
/// wrong password are answered alike: both checks are refused, and every refusal
/// gets the same status, challenge and body, whatever its cause.
pub proof fn lemma_auth_failures_answer_alike(stored: StoredCredentials, password: Seq<char>)
    requires
        phc_well_formed(stored.password_hash@),
        !argon2_verifies(stored.password_hash@, password),
    ensures
        auth_outcome(None, password) is Rejected,
        auth_outcome(Some(stored), password) is Rejected,
        forall|e1: AuthError, e2: AuthError|
            e1 is InvalidCredentials && e2 is InvalidCredentials ==> {
                &&& #[trigger] publish_error_of(e1) is AuthError
                &&& #[trigger] publish_error_of(e2) is AuthError
                &&& publish_status(publish_error_of(e1)) == 401
                &&& publish_status(publish_error_of(e1)) == publish_status(publish_error_of(e2))
                &&& publish_body(publish_error_of(e1)) == publish_body(publish_error_of(e2))
            },
{
}

} // verus!
