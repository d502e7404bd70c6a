//! The trusted boundary of the crate: thin wrappers around the outside
//! routines the envelope codec needs.  Everything else in the crate is
//! verified against the contracts stated here.

use vstd::prelude::*;

use base64::Engine;

verus! {

/// The standard-alphabet, padded base64 encoding of a byte string, as
/// `base64::engine::general_purpose::STANDARD` produces it.
pub uninterp spec fn b64_of(b: Seq<u8>) -> Seq<char>;

/// What decoding with the standard padded base64 engine yields: `Some`
/// exactly on the strings that engine accepts.
pub uninterp spec fn b64_decode_of(s: Seq<char>) -> Option<Seq<u8>>;

/// Relies on `base64::Engine::encode` with the `STANDARD` engine: the
/// output is the padded standard-alphabet encoding, four characters per
/// three input bytes, and decoding it with the same engine gives the
/// input back.  The length bound rules out the overflow panic inside
/// `encode` when the encoded length is computed.
#[verifier::external_body]
pub fn b64_encode(b: &Vec<u8>) -> (r: String)
    requires
        b@.len() <= usize::MAX as int / 2,
    ensures
        r@ == b64_of(b@),
        r@.len() == 4 * ((b@.len() + 2) as int / 3),
        b64_decode_of(r@) == Some(b@),
{
    base64::engine::general_purpose::STANDARD.encode(b)
}

#[verifier::external_type_specification]
#[verifier::external_body]
pub struct ExDecodeError(base64::DecodeError);

/// Relies on `base64::Engine::decode` with the `STANDARD` engine: it
/// accepts exactly the strings named by [`b64_decode_of`], and on those
/// returns the named bytes; in particular it inverts [`b64_encode`].
#[verifier::external_body]
pub fn b64_decode(s: &str) -> (r: Result<Vec<u8>, base64::DecodeError>)
    ensures
        r is Ok <==> b64_decode_of(s@) is Some,
        r matches Ok(v) ==> b64_decode_of(s@) == Some(v@),
{
    base64::engine::general_purpose::STANDARD.decode(s)
}

#[verifier::external_type_specification]
#[verifier::external_body]
pub struct ExUri(http::Uri);

#[verifier::external_type_specification]
#[verifier::external_body]
pub struct ExInvalidUri(http::uri::InvalidUri);

/// Whether a string parses as a URI, in the sense of `http::Uri`'s
/// `FromStr` implementation.
pub uninterp spec fn uri_ok(s: Seq<char>) -> bool;

/// Relies on `http::Uri`'s `FromStr` implementation: parsing is a pure
/// function of the string, succeeding exactly on the strings named by
/// [`uri_ok`].
#[verifier::external_body]
pub fn parse_uri(s: &str) -> (r: Result<http::Uri, http::uri::InvalidUri>)
    ensures
        r is Ok <==> uri_ok(s@),
{
    s.parse::<http::Uri>()
}

#[verifier::external_type_specification]
#[verifier::external_body]
pub struct ExMethod(http::Method);

#[verifier::external_type_specification]
#[verifier::external_body]
pub struct ExInvalidMethod(http::method::InvalidMethod);

/// The characters allowed in an HTTP method token (RFC 9110 `tchar`),
/// as `http::Method` accepts them.
pub open spec fn is_method_char(c: char) -> bool {
    ||| c == '!' || c == '#' || c == '$' || c == '%' || c == '&' || c == '\''
    ||| c == '*' || c == '+' || c == '-' || c == '.' || c == '^' || c == '_'
    ||| c == '`' || c == '|' || c == '~'
    ||| '0' <= c <= '9'
    ||| 'A' <= c <= 'Z'
    ||| 'a' <= c <= 'z'
}

/// A non-empty string of method-token characters.
pub open spec fn method_token_ok(s: Seq<char>) -> bool {
    s.len() > 0 && (forall|i: int| 0 <= i < s.len() ==> is_method_char(#[trigger] s[i]))
}

/// Relies on `http::Method`'s `FromStr` implementation: it accepts
/// exactly the non-empty strings of method-token characters (known
/// method names are themselves such strings, and extension methods are
/// checked character by character against that set).
#[verifier::external_body]
pub fn parse_method(s: &str) -> (r: Result<http::Method, http::method::InvalidMethod>)
    ensures
        r is Ok <==> method_token_ok(s@),
{
    s.parse::<http::Method>()
}

/// Relies on `uuid::Uuid::new_v4` and its `Display` form: a fresh random
/// identifier, rendered hyphenated as 36 characters.  Nothing is assumed
/// about which identifier comes back.
#[verifier::external_body]
pub fn fresh_tunnel_id() -> (id: String)
    ensures
        id@.len() == 36,
{
    uuid::Uuid::new_v4().to_string()
}

/// Base64 round trip: decoding an encoded byte string reproduces it
/// byte for byte, stated here as a verified fact about the two trusted
/// wrappers.
pub fn base64_round_trip(b: &Vec<u8>) -> (r: Vec<u8>)
    requires
        b@.len() <= usize::MAX as int / 2,
    ensures
        r@ == b@,
{
    let encoded = b64_encode(b);
    match b64_decode(encoded.as_str()) {
        Ok(v) => v,
        Err(_) => {
            proof {
                assert(false);
            }
            Vec::new()
        },
    }
}

} // verus!
