use vstd::prelude::*;

verus! {

/// The number of extended grapheme clusters of a string, as `unicode-segmentation`
/// counts them.
pub uninterp spec fn grapheme_count_of(s: Seq<char>) -> nat;

/// Relies on unicode_segmentation::UnicodeSegmentation::graphemes (extended clusters):
/// the number of user-perceived characters of the string.
#[verifier::external_body]
fn grapheme_count(s: &str) -> (r: usize)
    ensures
        r as nat == grapheme_count_of(s@),
{
    unicode_segmentation::UnicodeSegmentation::graphemes(s, true).count()
}

/// The longest accepted name, in graphemes.
pub const MAX_NAME_GRAPHEMES: usize = 256;

/// The characters that a name may not hold.
pub open spec fn is_forbidden_name_char(c: char) -> bool {
    c == '/' || c == '(' || c == ')' || c == '"' || c == '<' || c == '>' || c == '\\' || c
        == '{' || c == '}'
}

/// A name is accepted when it is not empty, has at most 256 graphemes and holds no
/// forbidden character.
pub open spec fn name_accepted(s: Seq<char>) -> bool {
    &&& s.len() > 0
    &&& grapheme_count_of(s) <= MAX_NAME_GRAPHEMES
    &&& forall|i: int| 0 <= i < s.len() ==> !is_forbidden_name_char(#[trigger] s[i])
}

/// The message of a rejected name.
pub open spec fn name_rejection(s: Seq<char>) -> Seq<char> {
    s + " is not a valid subscriber name"@
}

fn is_forbidden_char(c: char) -> (r: bool)
    ensures
        r == is_forbidden_name_char(c),
{
    c == '/' || c == '(' || c == ')' || c == '"' || c == '<' || c == '>' || c == '\\' || c
        == '{' || c == '}'
}

fn has_forbidden_char(s: &str) -> (r: bool)
    ensures
        r == exists|i: int| 0 <= i < s@.len() && is_forbidden_name_char(#[trigger] s@[i]),
{
    let n = s.unicode_len();
    let mut i: usize = 0;
    while i < n
        invariant
            n == s@.len(),
            i <= n,
            forall|j: int| 0 <= j < i ==> !is_forbidden_name_char(#[trigger] s@[j]),
        decreases n - i,
    {
        if is_forbidden_char(s.get_char(i)) {
            return true;
        }
        i = i + 1;
    }
    false
}

/// The display name of a subscriber, valid by construction.
#[derive(Debug, Clone)]
pub struct SubscriberName(String);

impl View for SubscriberName {
    type V = Seq<char>;

    closed spec fn view(&self) -> Seq<char> {
        self.0@
    }
}

impl SubscriberName {
    /// The type's invariant: the name is accepted.
    pub open spec fn wf(&self) -> bool {
        name_accepted(self@)
    }

    /// Accepts `s` exactly when `name_accepted` holds of it; otherwise returns the
    /// rejection message.
    pub fn parse(s: String) -> (r: Result<SubscriberName, String>)
        ensures
            r is Ok <==> name_accepted(s@),
            r matches Ok(n) ==> n@ == s@ && n.wf(),
            r matches Err(m) ==> m@ == name_rejection(s@),
    {
        let empty = s.as_str().unicode_len() == 0;
        let accepted = !empty && grapheme_count(s.as_str()) <= MAX_NAME_GRAPHEMES
            && !has_forbidden_char(s.as_str());
        if accepted {
            Ok(SubscriberName(s))
        } else {
            let mut m = s.clone();
            m.append(" is not a valid subscriber name");
            Err(m)
        }
    }

    /// The name as text.
    pub fn as_str(&self) -> (r: &str)
        ensures
            r@ == self@,
    {
        self.0.as_str()
    }
}

} // verus!
