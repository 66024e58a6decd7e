use vstd::prelude::*;
use vstd::string::StringSliceAdditionalSpecFns;

verus! {

/// The bytes that standard base64 (with padding) decodes `input` to, or none
/// where `input` is not valid base64 of that alphabet.
pub uninterp spec fn base64_standard(input: Seq<u8>) -> Option<Seq<u8>>;

/// Relies on `base64::decode`, which decodes with the standard alphabet and
/// padding, and returns an error for input that is not such base64.
#[verifier::external_body]
#[allow(deprecated)]
fn decode_base64(input: &Vec<u8>) -> (r: Option<Vec<u8>>)
    ensures
        match r {
            Some(v) => base64_standard(input@) == Some(v@),
            None => base64_standard(input@) is None,
        },
{
    base64::decode(input).ok()
}

/// The scheme prefix of a basic credential, `Basic ` with its space.
pub open spec fn basic_prefix() -> Seq<u8> {
    seq![66u8, 97u8, 115u8, 105u8, 99u8, 32u8]
}

/// The one credential that opens the statistics page: `forecast:forecast`.
pub open spec fn credential() -> Seq<u8> {
    seq![
        102u8, 111u8, 114u8, 101u8, 99u8, 97u8, 115u8, 116u8, 58u8,
        102u8, 111u8, 114u8, 101u8, 99u8, 97u8, 115u8, 116u8,
    ]
}

/// Whether `s` begins with the basic scheme prefix at index `at`.
pub open spec fn prefixed_at(s: Seq<u8>, at: int) -> bool {
    0 <= at && at + 6 <= s.len() && s.subrange(at, at + 6) == basic_prefix()
}

/// Whether an `Authorization` header value grants access: it carries the
/// basic scheme, and what follows the scheme decodes to the credential.
/// A missing header, another scheme, bad base64 and a wrong credential all
/// deny.
pub open spec fn grants(header: Option<Seq<u8>>) -> bool {
    match header {
        Some(h) => prefixed_at(h, 0) && base64_standard(h.subrange(6, h.len() as int)) == Some(credential()),
        None => false,
    }
}

/// The answer that refuses a request: status 401, the challenge header
/// asking for basic credentials, and a short body.
pub struct Rejection {
    pub status: u16,
    pub header_name: String,
    pub header_value: String,
    pub body: String,
}

/// Whether `r` is the one refusal of this gate.
pub open spec fn is_challenge(r: Rejection) -> bool {
    &&& r.status == 401
    &&& r.header_name@ == "WWW-Authenticate"@
    &&& r.header_value@ == "Basic realm=\"Please enter your credentials\""@
    &&& r.body@ == "Unauthorized"@
}

impl Rejection {
    /// The refusal that asks the client for basic credentials.
    pub fn challenge() -> (r: Rejection)
        ensures
            is_challenge(r),
    {
        Rejection {
            status: 401,
            header_name: "WWW-Authenticate".to_owned(),
            header_value: "Basic realm=\"Please enter your credentials\"".to_owned(),
            body: "Unauthorized".to_owned(),
        }
    }
}

/// The outcome of the credential check.
pub enum AuthDecision {
    Authorized,
    Unauthorized(Rejection),
}

/// The decision on a credential that has been decoded, or that failed to
/// decode: access exactly for the expected credential, and the challenge
/// otherwise.
pub fn decide(decoded: Option<Vec<u8>>) -> (r: AuthDecision)
    ensures
        (r is Authorized) == (decoded is Some && decoded->0@ == credential()),
        r matches AuthDecision::Unauthorized(j) ==> is_challenge(j),
{
    let granted = match &decoded {
        Some(v) => is_credential(v),
        None => false,
    };
    if granted {
        AuthDecision::Authorized
    } else {
        AuthDecision::Unauthorized(Rejection::challenge())
    }
}

fn is_credential(v: &Vec<u8>) -> (r: bool)
    ensures
        r == (v@ == credential()),
{
    let expected: Vec<u8> = vec![
        102u8, 111u8, 114u8, 101u8, 99u8, 97u8, 115u8, 116u8, 58u8,
        102u8, 111u8, 114u8, 101u8, 99u8, 97u8, 115u8, 116u8,
    ];
    assert(expected@ == credential());
    if v.len() != expected.len() {
        return false;
    }
    let mut i: usize = 0;
    while i < v.len()
        invariant
            v.len() == expected.len(),
            expected@ == credential(),
            i <= v.len(),
            v@.subrange(0, i as int) == expected@.subrange(0, i as int),
        decreases v.len() - i,
    {
        if v[i] != expected[i] {
            assert(v@[i as int] != credential()[i as int]);
            return false;
        }
        assert(v@.subrange(0, i + 1) == v@.subrange(0, i as int).push(v@[i as int]));
        assert(expected@.subrange(0, i + 1) == expected@.subrange(0, i as int).push(
            expected@[i as int],
        ));
        i = i + 1;
    }
    assert(v@ == v@.subrange(0, v.len() as int));
    assert(expected@ == expected@.subrange(0, expected.len() as int));
    true
}

/// Whether `b` holds the basic scheme prefix at index `at`.
fn has_prefix_at(b: &[u8], at: usize) -> (r: bool)
    ensures
        r == prefixed_at(b@, at as int),
{
    if b.len() < 6 || at > b.len() - 6 {
        return false;
    }
    let found = b[at] == 66u8 && b[at + 1] == 97u8 && b[at + 2] == 115u8 && b[at + 3] == 105u8
        && b[at + 4] == 99u8 && b[at + 5] == 32u8;
    assert(found ==> b@.subrange(at as int, at + 6) =~= basic_prefix());
    assert(b@.subrange(at as int, at + 6) == basic_prefix() ==> found) by {
        if b@.subrange(at as int, at + 6) == basic_prefix() {
            assert(b@.subrange(at as int, at + 6)[0] == b@[at as int]);
            assert(b@.subrange(at as int, at + 6)[1] == b@[at + 1]);
            assert(b@.subrange(at as int, at + 6)[2] == b@[at + 2]);
            assert(b@.subrange(at as int, at + 6)[3] == b@[at + 3]);
            assert(b@.subrange(at as int, at + 6)[4] == b@[at + 4]);
            assert(b@.subrange(at as int, at + 6)[5] == b@[at + 5]);
        }
    }
    found
}

/// The credential carried after the scheme prefix.
fn after_scheme(b: &[u8]) -> (r: Vec<u8>)
    requires
        prefixed_at(b@, 0),
    ensures
        r@ == b@.subrange(6, b@.len() as int),
{
    let mut out: Vec<u8> = Vec::new();
    let mut k: usize = 6;
    assert(b@.subrange(6, 6) =~= Seq::<u8>::empty());
    while k < b.len()
        invariant
            6 <= k <= b.len(),
            out@ == b@.subrange(6, k as int),
        decreases b.len() - k,
    {
        out.push(b[k]);
        assert(b@.subrange(6, k + 1) =~= b@.subrange(6, k as int).push(b@[k as int]));
        k = k + 1;
    }
    out
}

/// The credential gate of the statistics page, on the value of the
/// `Authorization` header if the request has one.
pub fn authorize(header: Option<&str>) -> (r: AuthDecision)
    ensures
        (r is Authorized) == grants(
            match header {
                Some(h) => Some(h.spec_bytes()),
                None => None,
            },
        ),
        r matches AuthDecision::Unauthorized(j) ==> is_challenge(j),
{
    match header {
        None => AuthDecision::Unauthorized(Rejection::challenge()),
        Some(h) => {
            let b = h.as_bytes();
            if !has_prefix_at(b, 0) {
                return AuthDecision::Unauthorized(Rejection::challenge());
            }
            let encoded = after_scheme(b);
            decide(decode_base64(&encoded))
        },
    }
}

} // verus!
