//! Domain types: subscriber names and subscriber email addresses.

use vstd::prelude::*;

verus! {

use crate::encoding::push_str;

/// How many extended grapheme clusters the string holds, as
/// unicode-segmentation counts them: a function of the characters alone.
pub uninterp spec fn grapheme_count(s: Seq<char>) -> nat;

/// Relies on unicode-segmentation's `graphemes(s, true).count()`.
#[verifier::external_body]
fn count_graphemes(s: &str) -> (n: usize)
    ensures
        n as nat == grapheme_count(s@),
{
    unicode_segmentation::UnicodeSegmentation::graphemes(s, true).count()
}

/// The Unicode `White_Space` code points, the set that std's
/// `char::is_whitespace` documents.
pub open spec fn is_unicode_whitespace(c: char) -> bool {
    let u = c as u32;
    (0x09 <= u && u <= 0x0D) || u == 0x20 || u == 0x85 || u == 0xA0 || u == 0x1680 || (0x2000
        <= u && u <= 0x200A) || u == 0x2028 || u == 0x2029 || u == 0x202F || u == 0x205F || u
        == 0x3000
}

fn is_whitespace_char(c: char) -> (r: bool)
    ensures
        r == is_unicode_whitespace(c),
{
    let u: u32 = c as u32;
    (0x09 <= u && u <= 0x0D) || u == 0x20 || u == 0x85 || u == 0xA0 || u == 0x1680 || (0x2000
        <= u && u <= 0x200A) || u == 0x2028 || u == 0x2029 || u == 0x202F || u == 0x205F || u
        == 0x3000
}

/// Characters a subscriber name may not contain.
pub open spec fn is_forbidden_character(c: char) -> bool {
    c == '/' || c == '(' || c == ')' || c == '"' || c == '<' || c == '>' || c == '\\' || c == '{'
        || c == '}'
}

fn is_forbidden_char(c: char) -> (r: bool)
    ensures
        r == is_forbidden_character(c),
{
    c == '/' || c == '(' || c == ')' || c == '"' || c == '<' || c == '>' || c == '\\' || c == '{'
        || c == '}'
}

/// A valid subscriber name: not empty and not whitespace alone, at most 256
/// grapheme clusters, and free of the forbidden characters.
pub open spec fn subscriber_name_valid(s: Seq<char>) -> bool {
    &&& !(forall|i: int| 0 <= i < s.len() ==> is_unicode_whitespace(s[i]))
    &&& grapheme_count(s) <= 256
    &&& forall|i: int| 0 <= i < s.len() ==> !is_forbidden_character(s[i])
}

/// A subscriber's display name; values exist only for valid names.
pub struct SubscriberName {
    name: String,
}

impl View for SubscriberName {
    type V = Seq<char>;

    closed spec fn view(&self) -> Seq<char> {
        self.name@
    }
}

impl SubscriberName {
    /// The wrapped name.
    pub fn inner_ref(&self) -> (r: &str)
        ensures
            r@ == self@,
    {
        self.name.as_str()
    }

    /// Accepts exactly the valid names and wraps them unchanged.
    pub fn parse(s: String) -> (r: Result<SubscriberName, String>)
        ensures
            r is Ok <==> subscriber_name_valid(s@),
            r matches Ok(n) ==> n@ == s@,
            r matches Err(e) ==> e@ == "Invalid subscriber name."@,
    {
        let len: usize = s.as_str().unicode_len();
        let mut all_whitespace: bool = true;
        let mut has_forbidden: bool = false;
        let mut i: usize = 0;
        while i < len
            invariant
                len as nat == s@.len(),
                i <= len,
                all_whitespace == (forall|j: int| 0 <= j < i ==> is_unicode_whitespace(s@[j])),
                has_forbidden == (exists|j: int| 0 <= j < i && is_forbidden_character(s@[j])),
            decreases len - i,
        {
            let c = s.as_str().get_char(i);
            if !is_whitespace_char(c) {
                all_whitespace = false;
            }
            if is_forbidden_char(c) {
                has_forbidden = true;
            }
            i += 1;
        }
        let too_long = count_graphemes(s.as_str()) > 256;
        if all_whitespace || too_long || has_forbidden {
            Err("Invalid subscriber name.".to_owned())
        } else {
            Ok(SubscriberName { name: s })
        }
    }
}

/// A new subscription request: the email as given, the name already parsed.
pub struct NewSubscriber {
    pub email: String,
    pub name: SubscriberName,
}

/// A valid subscriber email: it has an `'@'` that is neither the first nor
/// the last character.
pub open spec fn subscriber_email_valid(s: Seq<char>) -> bool {
    exists|i: int| 0 < i && i + 1 < s.len() && s[i] == '@'
}

/// A confirmed subscriber's email address; values exist only for addresses
/// that passed validation.
pub struct SubscriberEmail {
    email: String,
}

impl View for SubscriberEmail {
    type V = Seq<char>;

    closed spec fn view(&self) -> Seq<char> {
        self.email@
    }
}

impl SubscriberEmail {
    /// The wrapped address.
    pub fn inner_ref(&self) -> (r: &str)
        ensures
            r@ == self@,
    {
        self.email.as_str()
    }

    /// Accepts exactly the valid addresses and wraps them unchanged.
    pub fn parse(s: String) -> (r: Result<SubscriberEmail, String>)
        ensures
            r is Ok <==> subscriber_email_valid(s@),
            r matches Ok(m) ==> m@ == s@,
            r matches Err(e) ==> e@ == s@ + " is not a valid subscriber email."@,
    {
        let len: usize = s.as_str().unicode_len();
        let mut found: bool = false;
        let mut i: usize = 0;
        while i < len
            invariant
                len as nat == s@.len(),
                i <= len,
                found == (exists|j: int| 0 < j && j + 1 < s@.len() && j < i && s@[j] == '@'),
            decreases len - i,
        {
            let c = s.as_str().get_char(i);
            if i > 0 && i + 1 < len && c == '@' {
                found = true;
            }
            i += 1;
        }
        if found {
            Ok(SubscriberEmail { email: s })
        } else {
            let mut message = s;
            push_str(&mut message, " is not a valid subscriber email.");
            Err(message)
        }
    }
}

} // verus!
