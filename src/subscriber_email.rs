use vstd::prelude::*;

verus! {

/// What `validator::validate_email` decides of a string (the HTML5 address grammar,
/// with length limits and internationalised domains).
pub uninterp spec fn validator_accepts(s: Seq<char>) -> bool;

/// Relies on validator::validate_email: whether the string is an email address
/// under the HTML5 grammar that the crate implements.
#[verifier::external_body]
fn validate_email(s: &str) -> (r: bool)
    ensures
        r == validator_accepts(s@),
{
    validator::validate_email(s)
}

/// The address splits at `a`: its only `@`, with a non-empty local part before it
/// and a domain after it that holds a `.` (which also makes the domain non-empty).
pub open spec fn splits_at(s: Seq<char>, a: int) -> bool {
    &&& 0 < a < s.len()
    &&& s[a] == '@'
    &&& forall|j: int| 0 <= j < s.len() && j != a ==> #[trigger] s[j] != '@'
    &&& exists|k: int| a < k < s.len() && #[trigger] s[k] == '.'
}

/// The structural rule on addresses: exactly one `@`, a non-empty local part, and a
/// domain that contains at least one `.`.
pub open spec fn has_email_shape(s: Seq<char>) -> bool {
    exists|a: int| splits_at(s, a)
}

/// An address is accepted when it has the structural shape and the email grammar
/// of `validator` accepts it.
pub open spec fn email_accepted(s: Seq<char>) -> bool {
    has_email_shape(s) && validator_accepts(s)
}

/// The message of a rejected address.
pub open spec fn email_rejection(s: Seq<char>) -> Seq<char> {
    s + " is not a valid subscriber email"@
}

/// Checks the structural rule of `has_email_shape`.
pub fn check_email_shape(s: &str) -> (r: bool)
    ensures
        r == has_email_shape(s@),
{
    let n = s.unicode_len();
    let mut a: usize = 0;
    let mut found = false;
    while a < n && !found
        invariant
            n == s@.len(),
            a <= n,
            found ==> a < n && s@[a as int] == '@',
            forall|j: int| 0 <= j < a ==> #[trigger] s@[j] != '@',
        decreases n - a + (if found { 0int } else { 1int }),
    {
        if s.get_char(a) == '@' {
            found = true;
        } else {
            a = a + 1;
        }
    }
    if !found {
        assert forall|x: int| !splits_at(s@, x) by {
            if 0 <= x < s@.len() {
                assert(s@[x] != '@');
            }
        }
        return false;
    }
    let mut i: usize = a + 1;
    let mut dot = false;
    let mut second_at = false;
    while i < n
        invariant
            n == s@.len(),
            a < i <= n,
            s@[a as int] == '@',
            forall|j: int| 0 <= j < a ==> #[trigger] s@[j] != '@',
            !second_at ==> forall|j: int| a < j < i ==> #[trigger] s@[j] != '@',
            second_at ==> exists|j: int| a < j < i && #[trigger] s@[j] == '@',
            dot <==> exists|k: int| a < k < i && #[trigger] s@[k] == '.',
        decreases n - i,
    {
        let c = s.get_char(i);
        if c == '@' {
            second_at = true;
        }
        if c == '.' {
            dot = true;
        }
        i = i + 1;
    }
    let r = a > 0 && !second_at && dot;
    if r {
        assert(splits_at(s@, a as int));
    } else {
        assert forall|x: int| !splits_at(s@, x) by {
            if splits_at(s@, x) {
                if x != a {
                    assert(s@[a as int] != '@');
                }
                if second_at {
                    let j = choose|j: int| a < j < n && #[trigger] s@[j] == '@';
                    assert(s@[j] != '@');
                }
            }
        }
    }
    r
}

/// An email address of a subscriber, valid by construction.
#[derive(Debug, Clone)]
pub struct SubscriberEmail(String);

impl View for SubscriberEmail {
    type V = Seq<char>;

    closed spec fn view(&self) -> Seq<char> {
        self.0@
    }
}

impl SubscriberEmail {
    /// The type's invariant: the address is accepted.
    pub open spec fn wf(&self) -> bool {
        email_accepted(self@)
    }

    /// Accepts `s` exactly when it has the structural shape of an address and the
    /// email grammar accepts it; otherwise returns the rejection message.
    pub fn parse(s: String) -> (r: Result<SubscriberEmail, String>)
        ensures
            r is Ok <==> email_accepted(s@),
            r matches Ok(e) ==> e@ == s@ && e.wf(),
            r matches Err(m) ==> m@ == email_rejection(s@),
    {
        if check_email_shape(s.as_str()) && validate_email(s.as_str()) {
            Ok(SubscriberEmail(s))
        } else {
            let mut m = s.clone();
            m.append(" is not a valid subscriber email");
            Err(m)
        }
    }

    /// A copy of the address.
    pub fn clone_email(&self) -> (r: SubscriberEmail)
        ensures
            r@ == self@,
    {
        SubscriberEmail(self.0.clone())
    }

    /// The address as text.
    pub fn as_str(&self) -> (r: &str)
        ensures
            r@ == self@,
    {
        self.0.as_str()
    }
}

/// An empty string, a string without `@`, and a string with nothing before its
/// first `@` are never accepted as addresses.
pub proof fn lemma_malformed_addresses_rejected(s: Seq<char>)
    ensures
        s.len() == 0 ==> !email_accepted(s),
        (forall|i: int| 0 <= i < s.len() ==> s[i] != '@') ==> !email_accepted(s),
        s.len() > 0 && s[0] == '@' ==> !email_accepted(s),
{
    assert forall|a: int| splits_at(s, a) implies s.len() > 0 && s[0] != '@' && s[a] == '@' by {
        assert(s[0] != '@');
    }
}

} // verus!
