//! Construction of the Basic-Authentication header value.

use vstd::prelude::*;
use vstd::string::StringExecFns;

verus! {

/// The standard base64 encoding (with padding) of the UTF-8 bytes of a
/// string, as a character sequence. The encoding is a function of the
/// input alone.
pub uninterp spec fn base64_standard(s: Seq<char>) -> Seq<char>;

/// Relies on base64's `STANDARD` engine: `Engine::encode` returns the
/// standard padded base64 encoding of the input's bytes, a function of the
/// input alone, and of an empty input it returns the empty string. It
/// cannot panic: its only panic is on an encoded length overflowing
/// `usize`, and a string's byte length is bounded by `isize::MAX`, whose
/// padded encoding still fits.
#[verifier::external_body]
fn encode_base64(s: &str) -> (r: String)
    ensures
        r@ == base64_standard(s@),
        s@.len() == 0 ==> r@.len() == 0,
{
    base64::Engine::encode(&base64::engine::general_purpose::STANDARD, s)
}

/// The credential string carried by a Basic-Authentication header:
/// username and password joined by a colon, an absent password standing
/// for the empty one.
pub open spec fn spec_credentials(username: Seq<char>, password: Option<Seq<char>>) -> Seq<char> {
    match password {
        Some(p) => username + ":"@ + p,
        None => username + ":"@,
    }
}

/// Builds the value of the `Authorization` header for the given
/// construction parameters.
///
/// With no username configured no header is sent at all; otherwise the
/// value is `Basic` followed by the base64 encoding of
/// `username:password`, an absent password read as empty.
pub fn basic_auth_header(username: Option<&str>, password: Option<&str>) -> (r: Option<String>)
    ensures
        username is None ==> r is None,
        username matches Some(u) ==> (r matches Some(h) && h@ == "Basic "@ + base64_standard(
            spec_credentials(u@, match password {
                Some(p) => Some(p@),
                None => None,
            }),
        )),
{
    match username {
        None => None,
        Some(user) => {
            let mut credentials = String::from_str(user);
            credentials.append(":");
            match password {
                Some(pass) => credentials.append(pass),
                None => (),
            }
            let encoded = encode_base64(credentials.as_str());
            let header = String::from_str("Basic ").concat(encoded.as_str());
            Some(header)
        },
    }
}

} // verus!
