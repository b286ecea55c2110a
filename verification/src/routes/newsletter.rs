//! The publish endpoint's logic: extracting HTTP Basic credentials and
//! planning the fan-out to confirmed subscribers.

use vstd::prelude::*;

verus! {

use crate::authentication::AuthError;
use crate::authentication::Credentials;
use crate::domain::SubscriberEmail;
use crate::domain::subscriber_email_valid;
use crate::encoding::b64_decode;
use crate::encoding::base64_decode;
use crate::encoding::base64_encode;
use crate::encoding::push_str;
use crate::encoding::string_from_utf8;
use crate::secret::SecretString;
use vstd::slice::slice_subrange;
use vstd::slice::slice_to_vec;
use vstd::utf8::decode_utf8;
use vstd::utf8::encode_utf8;
use vstd::utf8::encode_utf8_decode_utf8;
use vstd::utf8::encode_utf8_valid_utf8;
use vstd::utf8::valid_utf8;

/// The publish request payload, handed over already parsed from JSON.
pub struct BodyData {
    pub title: String,
    pub content: Content,
}

/// The two bodies of a newsletter issue.
pub struct Content {
    pub text: String,
    pub html: String,
}

/// Why an `Authorization` header could not be turned into credentials.
/// Every variant maps to the same uniform 401.
#[derive(Debug, PartialEq, Eq, Structural)]
pub enum MalformedAuthHeader {
    /// The header was absent.
    Missing,
    /// The header does not start with the literal `"Basic "`.
    SchemeNotBasic,
    /// The remainder is not a well-formed standard-alphabet base64 token.
    InvalidBase64,
    /// The decoded bytes are not valid UTF-8.
    NotUtf8,
    /// The decoded text has no `':'`, so no password was provided.
    MissingPassword,
}

impl MalformedAuthHeader {
    /// The publish route treats every malformed header as a credential
    /// failure, indistinguishable from a wrong password.
    pub fn into_auth_error(self) -> (e: AuthError)
        ensures
            e is InvalidCredentials,
    {
        AuthError::InvalidCredentials("The 'Authorization' header was malformed.".to_owned())
    }
}

/// The bytes of the literal `"Basic "`.
pub open spec fn basic_prefix() -> Seq<u8> {
    seq![66u8, 97u8, 115u8, 105u8, 99u8, 32u8]
}

/// Whether the header value starts with `"Basic "`.
pub open spec fn is_basic_prefixed(h: Seq<u8>) -> bool {
    h.len() >= 6 && h.take(6) == basic_prefix()
}

/// The position of the first `':'` byte, if any.
pub open spec fn find_colon(bytes: Seq<u8>) -> Option<int>
    decreases bytes.len(),
{
    if bytes.len() == 0 {
        None
    } else if bytes[0] == 58 {
        Some(0int)
    } else {
        match find_colon(bytes.drop_first()) {
            Some(i) => Some(i + 1),
            None => None,
        }
    }
}

proof fn lemma_find_colon_at(bytes: Seq<u8>, i: int)
    requires
        0 <= i < bytes.len(),
        bytes[i] == 58,
        forall|j: int| 0 <= j < i ==> bytes[j] != 58,
    ensures
        find_colon(bytes) == Some(i),
    decreases i,
{
    if i > 0 {
        lemma_find_colon_at(bytes.drop_first(), i - 1);
    }
}

/// Splitting at the first `':'` recovers exactly the two halves a payload
/// was built from: a colon-free username and any password, its own colons
/// included. This is the heart of the credential round trip.
pub proof fn lemma_first_colon_split(user: Seq<u8>, pass: Seq<u8>)
    requires
        !user.contains(58u8),
    ensures
        find_colon(user + seq![58u8] + pass) == Some(user.len() as int),
        (user + seq![58u8] + pass).take(user.len() as int) =~= user,
        (user + seq![58u8] + pass).skip(user.len() as int + 1) =~= pass,
{
    let payload = user + seq![58u8] + pass;
    assert(payload[user.len() as int] == 58);
    assert forall|j: int| 0 <= j < user.len() implies payload[j] != 58 by {
        assert(payload[j] == user[j]);
        if user[j] == 58 {
            assert(user.contains(58u8));
        }
    }
    lemma_find_colon_at(payload, user.len() as int);
}

proof fn lemma_find_colon_none(bytes: Seq<u8>)
    requires
        forall|j: int| 0 <= j < bytes.len() ==> bytes[j] != 58,
    ensures
        find_colon(bytes) is None,
    decreases bytes.len(),
{
    if bytes.len() > 0 {
        lemma_find_colon_none(bytes.drop_first());
    }
}

/// What credential extraction yields on a header value: strip `"Basic "`,
/// base64-decode the token, split the result at the first `':'`, and decode
/// each half as UTF-8; or the exact reason one of those steps fails.
pub open spec fn basic_credentials_of(header: Option<Seq<u8>>) -> Result<
    (Seq<char>, Seq<char>),
    MalformedAuthHeader,
> {
    match header {
        None => Err(MalformedAuthHeader::Missing),
        Some(h) => if !is_basic_prefixed(h) {
            Err(MalformedAuthHeader::SchemeNotBasic)
        } else {
            match b64_decode(h.skip(6)) {
                None => Err(MalformedAuthHeader::InvalidBase64),
                Some(payload) => match find_colon(payload) {
                    None => Err(MalformedAuthHeader::MissingPassword),
                    Some(i) => {
                        let user = payload.take(i);
                        let pass = payload.skip(i + 1);
                        if valid_utf8(user) && valid_utf8(pass) {
                            Ok((decode_utf8(user), decode_utf8(pass)))
                        } else {
                            Err(MalformedAuthHeader::NotUtf8)
                        }
                    },
                },
            }
        },
    }
}

/// The header value as the specification sees it.
pub open spec fn header_view(header: Option<&Vec<u8>>) -> Option<Seq<u8>> {
    match header {
        Some(h) => Some(h@),
        None => None,
    }
}

fn has_basic_prefix(h: &Vec<u8>) -> (r: bool)
    ensures
        r == is_basic_prefixed(h@),
{
    if h.len() < 6 {
        return false;
    }
    let r = h[0] == 66 && h[1] == 97 && h[2] == 115 && h[3] == 105 && h[4] == 99 && h[5] == 32;
    proof {
        if h@.take(6) == basic_prefix() {
            assert(h@[0] == h@.take(6)[0]);
            assert(h@[1] == h@.take(6)[1]);
            assert(h@[2] == h@.take(6)[2]);
            assert(h@[3] == h@.take(6)[3]);
            assert(h@[4] == h@.take(6)[4]);
            assert(h@[5] == h@.take(6)[5]);
        }
        if r {
            assert(h@.take(6) =~= basic_prefix());
        }
    }
    r
}

/// Extract HTTP Basic credentials from the raw `Authorization` header value,
/// or say exactly why the header is malformed.
pub fn basic_authentication(header: Option<&Vec<u8>>) -> (r: Result<
    Credentials,
    MalformedAuthHeader,
>)
    ensures
        r matches Ok(c) ==> basic_credentials_of(header_view(header)) == Ok::<
            (Seq<char>, Seq<char>),
            MalformedAuthHeader,
        >((c.username@, c.password@)),
        r matches Err(e) ==> basic_credentials_of(header_view(header)) == Err::<
            (Seq<char>, Seq<char>),
            MalformedAuthHeader,
        >(e),
{
    let h = match header {
        None => {
            return Err(MalformedAuthHeader::Missing);
        },
        Some(h) => h,
    };
    if !has_basic_prefix(h) {
        return Err(MalformedAuthHeader::SchemeNotBasic);
    }
    let token = slice_subrange(h.as_slice(), 6, h.len());
    proof {
        assert(token@ =~= h@.skip(6));
    }
    let payload = match base64_decode(token) {
        None => {
            return Err(MalformedAuthHeader::InvalidBase64);
        },
        Some(p) => p,
    };
    let mut found: bool = false;
    let mut colon: usize = 0;
    let mut i: usize = 0;
    while i < payload.len()
        invariant
            i <= payload@.len(),
            !found ==> forall|j: int| 0 <= j < i ==> payload@[j] != 58,
            found ==> colon < i && payload@[colon as int] == 58 && forall|j: int|
                0 <= j < colon ==> payload@[j] != 58,
        decreases payload@.len() - i,
    {
        if !found && payload[i] == 58 {
            found = true;
            colon = i;
        }
        i += 1;
    }
    if !found {
        proof {
            lemma_find_colon_none(payload@);
        }
        return Err(MalformedAuthHeader::MissingPassword);
    }
    proof {
        lemma_find_colon_at(payload@, colon as int);
    }
    let user_bytes = slice_to_vec(slice_subrange(payload.as_slice(), 0, colon));
    let pass_bytes = slice_to_vec(slice_subrange(payload.as_slice(), colon + 1, payload.len()));
    proof {
        assert(user_bytes@ =~= payload@.take(colon as int));
        assert(pass_bytes@ =~= payload@.skip(colon as int + 1));
    }
    let username = match string_from_utf8(user_bytes) {
        None => {
            return Err(MalformedAuthHeader::NotUtf8);
        },
        Some(u) => u,
    };
    let password = match string_from_utf8(pass_bytes) {
        None => {
            return Err(MalformedAuthHeader::NotUtf8);
        },
        Some(p) => p,
    };
    Ok(Credentials { username, password: SecretString::new(password) })
}

/// Build the header value that `basic_authentication` parses back:
/// `"Basic "` followed by the base64 encoding of `username:password`.
///
/// The round trip holds for every username free of `':'` and every password:
/// extraction returns exactly the two strings given here. A username with a
/// `':'` cannot be carried by the scheme, and is refused.
pub fn build_basic_header(username: &str, password: &str) -> (r: Option<Vec<u8>>)
    ensures
        r matches Some(h) ==> basic_credentials_of(Some(h@)) == Ok::<
            (Seq<char>, Seq<char>),
            MalformedAuthHeader,
        >((username@, password@)),
        r is None <==> encode_utf8(username@).contains(58u8),
{
    let u_bytes = username.as_bytes();
    let mut i: usize = 0;
    while i < u_bytes.len()
        invariant
            i <= u_bytes@.len(),
            u_bytes@ == encode_utf8(username@),
            forall|j: int| 0 <= j < i ==> u_bytes@[j] != 58,
        decreases u_bytes@.len() - i,
    {
        if u_bytes[i] == 58 {
            proof {
                assert(encode_utf8(username@).contains(58u8));
            }
            return None;
        }
        i += 1;
    }
    let p_bytes = password.as_bytes();
    let u_len = u_bytes.len();
    let mut payload: Vec<u8> = slice_to_vec(u_bytes);
    payload.push(58);
    let mut k: usize = 0;
    while k < p_bytes.len()
        invariant
            k <= p_bytes@.len(),
            p_bytes@ == encode_utf8(password@),
            payload@ =~= encode_utf8(username@) + seq![58u8] + p_bytes@.take(k as int),
        decreases p_bytes@.len() - k,
    {
        payload.push(p_bytes[k]);
        k += 1;
    }
    let token = base64_encode(payload.as_slice());
    let mut head: Vec<u8> = Vec::new();
    head.push(66);
    head.push(97);
    head.push(115);
    head.push(105);
    head.push(99);
    head.push(32);
    let mut t: usize = 0;
    while t < token.len()
        invariant
            t <= token@.len(),
            head@ =~= basic_prefix() + token@.take(t as int),
            b64_decode(token@) == Some(payload@),
        decreases token@.len() - t,
    {
        head.push(token[t]);
        t += 1;
    }
    proof {
        assert(head@.take(6) =~= basic_prefix());
        assert(head@.skip(6) =~= token@);
        assert(!encode_utf8(username@).contains(58u8));
        assert(payload@ =~= encode_utf8(username@) + seq![58u8] + encode_utf8(password@));
        lemma_first_colon_split(encode_utf8(username@), encode_utf8(password@));
        encode_utf8_valid_utf8(username@);
        encode_utf8_valid_utf8(password@);
        encode_utf8_decode_utf8(username@);
        encode_utf8_decode_utf8(password@);
    }
    Some(head)
}

/// A subscriber whose stored email passed address validation.
pub struct ConfirmedSubscriber {
    pub email: SubscriberEmail,
}

/// Validate the stored email of every confirmed-subscriber row, keeping the
/// row order. Rows that fail validation become per-row errors; they are
/// never fatal.
pub fn get_confirmed_subscribers(rows: Vec<String>) -> (r: Vec<
    Result<ConfirmedSubscriber, String>,
>)
    ensures
        r@.len() == rows@.len(),
        forall|i: int|
            0 <= i < rows@.len() ==> ((#[trigger] r@[i]) matches Ok(c) <==> subscriber_email_valid(
                rows@[i]@,
            )),
        forall|i: int|
            0 <= i < rows@.len() ==> ((#[trigger] r@[i]) matches Ok(c) ==> c.email@ == rows@[i]@),
        forall|i: int|
            0 <= i < rows@.len() ==> ((#[trigger] r@[i]) matches Err(e) ==> e@ == rows@[i]@
                + " is not a valid subscriber email."@),
{
    let mut remaining = rows;
    let ghost all = remaining@;
    let mut out: Vec<Result<ConfirmedSubscriber, String>> = Vec::new();
    while remaining.len() > 0
        invariant
            out@.len() + remaining@.len() == all.len(),
            remaining@ =~= all.skip(out@.len() as int),
            forall|i: int|
                0 <= i < out@.len() ==> ((#[trigger] out@[i]) matches Ok(c)
                    <==> subscriber_email_valid(all[i]@)),
            forall|i: int|
                0 <= i < out@.len() ==> ((#[trigger] out@[i]) matches Ok(c) ==> c.email@
                    == all[i]@),
            forall|i: int|
                0 <= i < out@.len() ==> ((#[trigger] out@[i]) matches Err(e) ==> e@ == all[i]@
                    + " is not a valid subscriber email."@),
        decreases remaining@.len(),
    {
        let row = remaining.remove(0);
        proof {
            assert(row == all[out@.len() as int]);
        }
        match SubscriberEmail::parse(row) {
            Ok(email) => out.push(Ok(ConfirmedSubscriber { email })),
            Err(e) => out.push(Err(e)),
        }
    }
    out
}

/// The emails of the rows that parsed, in row order.
pub open spec fn ok_emails(subs: Seq<Result<ConfirmedSubscriber, String>>) -> Seq<Seq<char>>
    decreases subs.len(),
{
    if subs.len() == 0 {
        Seq::empty()
    } else {
        ok_emails(subs.drop_last()) + (match subs.last() {
            Ok(c) => seq![c.email@],
            Err(_) => Seq::<Seq<char>>::empty(),
        })
    }
}

/// How many rows failed address validation.
pub open spec fn invalid_count(subs: Seq<Result<ConfirmedSubscriber, String>>) -> nat
    decreases subs.len(),
{
    if subs.len() == 0 {
        0
    } else {
        invalid_count(subs.drop_last()) + (if subs.last() is Err {
            1nat
        } else {
            0nat
        })
    }
}

/// The views of a recipient list.
pub open spec fn emails_of(recipients: Seq<SubscriberEmail>) -> Seq<Seq<char>> {
    Seq::new(recipients.len(), |i: int| recipients[i]@)
}

/// The fan-out over the confirmed subscribers: who is to be mailed, in what
/// order, and how far the dispatch has come. Rows with an invalid stored
/// email are counted as skipped, never mailed and never fatal. The shell
/// performs one send per recipient, in order, and stops at the first
/// transport failure.
pub struct FanoutPlan {
    recipients: Vec<SubscriberEmail>,
    skipped: usize,
    sent: usize,
}

impl FanoutPlan {
    /// The emails still owed a send come after `sent_so_far()`.
    pub closed spec fn recipient_emails(&self) -> Seq<Seq<char>> {
        emails_of(self.recipients@)
    }

    pub closed spec fn sent_so_far(&self) -> int {
        self.sent as int
    }

    pub closed spec fn skipped_rows(&self) -> int {
        self.skipped as int
    }

    pub closed spec fn wf(&self) -> bool {
        self.sent <= self.recipients@.len()
    }

    /// Plan the fan-out for the given subscriber rows: the valid emails in
    /// row order, a skip count for the invalid rows, nothing sent yet.
    pub fn new(subs: Vec<Result<ConfirmedSubscriber, String>>) -> (p: FanoutPlan)
        ensures
            p.recipient_emails() == ok_emails(subs@),
            p.skipped_rows() == invalid_count(subs@),
            p.sent_so_far() == 0,
            p.wf(),
    {
        let mut remaining = subs;
        let ghost all = remaining@;
        let ghost mut done: int = 0;
        proof {
            assert(all.len() == remaining.len());
        }
        let mut recipients: Vec<SubscriberEmail> = Vec::new();
        let mut skipped: usize = 0;
        while remaining.len() > 0
            invariant
                done == all.len() - remaining@.len(),
                0 <= done <= all.len() <= usize::MAX,
                remaining@ =~= all.skip(done),
                emails_of(recipients@) =~= ok_emails(all.take(done)),
                skipped as nat == invalid_count(all.take(done)),
                skipped <= done,
            decreases remaining@.len(),
        {
            let item = remaining.remove(0);
            proof {
                assert(item == all[done]);
                assert(all.take(done + 1).drop_last() =~= all.take(done));
                assert(all.take(done + 1).last() == all[done]);
            }
            match item {
                Ok(c) => {
                    recipients.push(c.email);
                    proof {
                        assert(emails_of(recipients@) =~= ok_emails(all.take(done + 1)));
                    }
                },
                Err(_) => {
                    skipped += 1;
                },
            }
            proof {
                done = done + 1;
            }
        }
        proof {
            assert(all.take(done) =~= all);
        }
        FanoutPlan { recipients, skipped, sent: 0 }
    }

    /// The next email owed a send, or nothing when the fan-out is complete.
    pub fn next_recipient(&self) -> (r: Option<&SubscriberEmail>)
        requires
            self.wf(),
        ensures
            self.sent_so_far() < self.recipient_emails().len() ==> (r matches Some(e) && e@
                == self.recipient_emails()[self.sent_so_far()]),
            self.sent_so_far() >= self.recipient_emails().len() ==> r is None,
    {
        if self.sent < self.recipients.len() {
            Some(&self.recipients[self.sent])
        } else {
            None
        }
    }

    /// Record that the current recipient's send succeeded.
    pub fn record_sent(&mut self)
        requires
            old(self).wf(),
            old(self).sent_so_far() < old(self).recipient_emails().len(),
        ensures
            final(self).wf(),
            final(self).recipient_emails() == old(self).recipient_emails(),
            final(self).skipped_rows() == old(self).skipped_rows(),
            final(self).sent_so_far() == old(self).sent_so_far() + 1,
    {
        let n = self.recipients.len();
        if self.sent < n {
            self.sent = self.sent + 1;
        }
    }

    /// Whether every valid recipient has been mailed.
    pub fn is_complete(&self) -> (r: bool)
        ensures
            r == (self.sent_so_far() == self.recipient_emails().len()),
    {
        self.sent == self.recipients.len()
    }

    pub fn sent_count(&self) -> (n: usize)
        ensures
            n as int == self.sent_so_far(),
    {
        self.sent
    }

    pub fn skipped_count(&self) -> (n: usize)
        ensures
            n as int == self.skipped_rows(),
    {
        self.skipped
    }

    pub fn recipient_count(&self) -> (n: usize)
        ensures
            n as int == self.recipient_emails().len(),
    {
        self.recipients.len()
    }
}

/// One outbound send, ready for the mail transport.
pub struct EmailRequest {
    pub recipient: String,
    pub subject: String,
    pub html_body: String,
    pub text_body: String,
}

/// What the transport is asked to send to one recipient: the issue's title
/// as the subject and both of its bodies, unchanged.
pub fn email_request(body: &BodyData, recipient: &SubscriberEmail) -> (r: EmailRequest)
    ensures
        r.recipient@ == recipient@,
        r.subject@ == body.title@,
        r.html_body@ == body.content.html@,
        r.text_body@ == body.content.text@,
{
    EmailRequest {
        recipient: recipient.inner_ref().to_owned(),
        subject: body.title.clone(),
        html_body: body.content.html.clone(),
        text_body: body.content.text.clone(),
    }
}

/// The error a transport failure turns into: the whole publish aborts with
/// an unexpected error naming the recipient whose send failed.
pub fn transport_failure(recipient: &SubscriberEmail) -> (e: AuthError)
    ensures
        e matches AuthError::UnexpectedError(m) && m@ == "Failed to send email to subscriber "@
            + recipient@,
{
    let mut message = "Failed to send email to subscriber ".to_owned();
    push_str(&mut message, recipient.inner_ref());
    AuthError::UnexpectedError(message)
}

} // verus!
