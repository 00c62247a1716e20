use vstd::prelude::*;
use vstd::utf8::is_ascii_chars;
use crate::files::FileDescription;

verus! {

/// The reply of the authentication service. A reply without a submission id
/// is a refusal, explained by `message`; any other reply is a credential
/// bundle, which carries every other field.
#[derive(Debug, Clone, Default)]
pub struct AuthResp {
    pub message: Option<String>,
    pub submission_id: Option<String>,
    pub bucket: Option<String>,
    pub dir: Option<String>,
    pub oss_access_key_id: Option<String>,
    pub policy: Option<String>,
    pub signature: Option<String>,
    pub runner_location: Option<String>,
    pub test_entry: Option<String>,
    pub test_env: Option<Vec<FileDescription>>,
}

impl AuthResp {
    /// The service accepted the submission and sent every field of a
    /// credential bundle.
    pub open spec fn granted(&self) -> bool {
        &&& self.submission_id is Some
        &&& self.bucket is Some
        &&& self.dir is Some
        &&& self.oss_access_key_id is Some
        &&& self.policy is Some
        &&& self.signature is Some
        &&& self.runner_location is Some
        &&& self.test_entry is Some
        &&& self.test_env is Some
    }

    /// Whether the service refused the submission.
    pub fn failed(&self) -> (r: bool)
        ensures
            r == (self.submission_id is None),
    {
        if self.submission_id.is_some() {
            return false;
        }
        true
    }

    /// Whether every field of a credential bundle is present.
    pub fn is_granted(&self) -> (r: bool)
        ensures
            r == self.granted(),
    {
        self.submission_id.is_some() && self.bucket.is_some() && self.dir.is_some()
            && self.oss_access_key_id.is_some() && self.policy.is_some()
            && self.signature.is_some() && self.runner_location.is_some()
            && self.test_entry.is_some() && self.test_env.is_some()
    }

    pub fn message(&self) -> (r: &String)
        requires
            self.message is Some,
        ensures
            *r == self.message.unwrap(),
    {
        self.message.as_ref().unwrap()
    }

    pub fn submission_id(&self) -> (r: &String)
        requires
            self.submission_id is Some,
        ensures
            *r == self.submission_id.unwrap(),
    {
        self.submission_id.as_ref().unwrap()
    }

    pub fn bucket(&self) -> (r: &String)
        requires
            self.bucket is Some,
        ensures
            *r == self.bucket.unwrap(),
    {
        self.bucket.as_ref().unwrap()
    }

    pub fn dir(&self) -> (r: &String)
        requires
            self.dir is Some,
        ensures
            *r == self.dir.unwrap(),
    {
        self.dir.as_ref().unwrap()
    }

    pub fn oss_access_key_id(&self) -> (r: &String)
        requires
            self.oss_access_key_id is Some,
        ensures
            *r == self.oss_access_key_id.unwrap(),
    {
        self.oss_access_key_id.as_ref().unwrap()
    }

    pub fn policy(&self) -> (r: &String)
        requires
            self.policy is Some,
        ensures
            *r == self.policy.unwrap(),
    {
        self.policy.as_ref().unwrap()
    }

    pub fn signature(&self) -> (r: &String)
        requires
            self.signature is Some,
        ensures
            *r == self.signature.unwrap(),
    {
        self.signature.as_ref().unwrap()
    }

    pub fn runner_location(&self) -> (r: &String)
        requires
            self.runner_location is Some,
        ensures
            *r == self.runner_location.unwrap(),
    {
        self.runner_location.as_ref().unwrap()
    }

    pub fn test_entry(&self) -> (r: &String)
        requires
            self.test_entry is Some,
        ensures
            *r == self.test_entry.unwrap(),
    {
        self.test_entry.as_ref().unwrap()
    }

    pub fn test_env(&self) -> (r: &Vec<FileDescription>)
        requires
            self.test_env is Some,
        ensures
            *r == self.test_env.unwrap(),
    {
        self.test_env.as_ref().unwrap()
    }
}

/// A refusal by the authentication service, with its explanation.
#[derive(Debug, Clone)]
pub struct AuthError {
    pub reason: String,
}

impl AuthError {
    pub fn new(reason: String) -> (r: Self)
        ensures
            r.reason == reason,
    {
        Self { reason }
    }

    /// The explanation, as the service worded it.
    pub fn reason(&self) -> (r: &String)
        ensures
            *r == self.reason,
    {
        &self.reason
    }
}

/// The fingerprint sent when the machine's hardware address is not known.
pub open spec fn unknown_device() -> Seq<char> {
    "unknown"@
}

/// Characters that percent-encoding leaves as they are.
pub open spec fn unreserved(c: char) -> bool {
    ('0' <= c && c <= '9') || ('A' <= c && c <= 'Z') || ('a' <= c && c <= 'z') || c == '-'
        || c == '.' || c == '_' || c == '~'
}

/// Upper-case hexadecimal digit of a value below sixteen.
pub open spec fn hex_digit(n: u32) -> char {
    if n < 10 {
        ((n + 48) as u8) as char
    } else {
        ((n + 55) as u8) as char
    }
}

/// Percent-encoding of a text made of ASCII characters.
pub open spec fn percent_encoded_ascii(s: Seq<char>) -> Seq<char>
    decreases s.len(),
{
    if s.len() == 0 {
        Seq::empty()
    } else {
        let c = s[0];
        let head = if unreserved(c) {
            seq![c]
        } else {
            seq!['%', hex_digit((c as u32) / 16), hex_digit((c as u32) % 16)]
        };
        head + percent_encoded_ascii(s.drop_first())
    }
}

/// Percent-encoding of the UTF-8 bytes of a text.
pub uninterp spec fn url_encoded(s: Seq<char>) -> Seq<char>;

/// Relies on urlencoding::encode: every UTF-8 byte but the unreserved ASCII
/// characters becomes `%` and two upper-case hexadecimal digits.
#[verifier::external_body]
fn url_encode(s: &str) -> (r: String)
    ensures
        r@ == url_encoded(s@),
        is_ascii_chars(s@) ==> r@ == percent_encoded_ascii(s@),
{
    urlencoding::encode(s).into_owned()
}

/// The hardware address as text, or `unknown` where none could be read.
pub open spec fn fingerprint_text(mac: Option<String>) -> Seq<char> {
    match mac {
        Some(m) => m@,
        None => unknown_device(),
    }
}

/// The device fingerprint as it is sent: the hardware address, or the word
/// `unknown`, percent-encoded.
pub fn device_fingerprint(mac: Option<String>) -> (r: String)
    ensures
        r@ == url_encoded(fingerprint_text(mac)),
{
    match mac {
        Some(m) => url_encode(m.as_str()),
        None => url_encode("unknown"),
    }
}

/// The query parameters of a credential request.
#[derive(Debug, Clone)]
pub struct AuthQuery {
    pub set_id: String,
    pub phone: String,
    pub mac: String,
}

impl AuthQuery {
    /// The credential request of a student for a test set, from the machine's
    /// hardware address if one was read.
    pub fn build(test_set_id: &String, phone: &String, mac: Option<String>) -> (r: AuthQuery)
        ensures
            r.set_id == *test_set_id,
            r.phone == *phone,
            r.mac@ == url_encoded(fingerprint_text(mac)),
    {
        AuthQuery { set_id: test_set_id.clone(), phone: phone.clone(), mac: device_fingerprint(mac) }
    }
}

} // verus!
