//! The response envelope: the serializable form of an HTTP response
//! travelling agent-to-frontend, and its codec.

use vstd::prelude::*;

use crate::TunnelError;
use crate::codec::{b64_decode, b64_decode_of, b64_encode, b64_of};
use crate::headers::clone_headers;

verus! {

/// The wire form of a tunnelled HTTP response.  `tunnel_id` must carry
/// the identifier the dispatching request was stamped with.
pub struct ResponseWarpper {
    pub request_id: String,
    pub tunnel_id: Option<String>,
    pub status: u16,
    pub headers: Vec<(String, String)>,
    pub body: Option<String>,
}

/// A decoded response envelope: the plain parts the frontend hands back
/// to the public caller.
pub struct DecodedResponse {
    pub status: u16,
    pub headers: Vec<(String, String)>,
    pub body: Vec<u8>,
}

impl ResponseWarpper {
    /// The correlation identifier, if the agent echoed one.
    pub fn tunnel_id(&self) -> (r: Option<&str>)
        ensures
            match r {
                Some(t) => self.tunnel_id matches Some(u) && t@ == u@,
                None => self.tunnel_id is None,
            },
    {
        match &self.tunnel_id {
            Some(t) => Some(t.as_str()),
            None => None,
        }
    }

    /// Encodes the plain parts of an executed HTTP response into an
    /// envelope, carrying the body as standard base64.
    pub fn from_response(
        request_id: String,
        tunnel_id: Option<String>,
        status: u16,
        headers: Vec<(String, String)>,
        body: Vec<u8>,
    ) -> (r: ResponseWarpper)
        requires
            body@.len() <= usize::MAX as int / 2,
        ensures
            r.request_id == request_id,
            r.tunnel_id == tunnel_id,
            r.status == status,
            r.headers == headers,
            r.body matches Some(bs) && bs@ == b64_of(body@) && b64_decode_of(bs@) == Some(body@),
    {
        let encoded = b64_encode(&body);
        ResponseWarpper { request_id, tunnel_id, status, headers, body: Some(encoded) }
    }

    /// The synthetic `400` envelope an agent sends when its local
    /// execution fails: empty headers, no body, correlation kept.
    pub fn new_bad_response(request_id: String, tunnel_id: Option<String>) -> (r: ResponseWarpper)
        ensures
            r.request_id == request_id,
            r.tunnel_id == tunnel_id,
            r.status == 400,
            r.headers@ == Seq::<(String, String)>::empty(),
            r.body is None,
    {
        ResponseWarpper { request_id, tunnel_id, status: 400, headers: Vec::new(), body: None }
    }

    /// Decodes the envelope back into the plain parts of an HTTP
    /// response.  Fails only when the body is not base64.
    pub fn to_response(&self) -> (r: Result<DecodedResponse, TunnelError>)
        ensures
            (self.body matches Some(bs) && b64_decode_of(bs@) is None) ==> r == Err::<
                DecodedResponse,
                TunnelError,
            >(TunnelError::CorruptBody),
            (match self.body {
                Some(bs) => b64_decode_of(bs@) is Some,
                None => true,
            }) ==> {
                &&& r matches Ok(d)
                &&& d.status == self.status
                &&& d.headers@ == self.headers@
                &&& match self.body {
                    Some(bs) => b64_decode_of(bs@) == Some(d.body@),
                    None => d.body@ == Seq::<u8>::empty(),
                }
            },
    {
        let body = match &self.body {
            Some(bs) => match b64_decode(bs.as_str()) {
                Ok(v) => v,
                Err(_) => {
                    return Err(TunnelError::CorruptBody);
                },
            },
            None => Vec::new(),
        };
        let headers = clone_headers(&self.headers);
        Ok(DecodedResponse { status: self.status, headers, body })
    }
}

/// Round trip for response envelopes: decoding an encoded response
/// yields the original status, the original headers verbatim, and the
/// original body byte for byte.
pub fn response_round_trip(
    request_id: String,
    tunnel_id: Option<String>,
    status: u16,
    headers: Vec<(String, String)>,
    body: Vec<u8>,
) -> (r: DecodedResponse)
    requires
        body@.len() <= usize::MAX as int / 2,
    ensures
        r.status == status,
        r.headers@ == headers@,
        r.body@ == body@,
{
    let w = ResponseWarpper::from_response(request_id, tunnel_id, status, headers, body);
    match w.to_response() {
        Ok(d) => d,
        Err(_) => {
            proof {
                assert(false);
            }
            DecodedResponse { status: 0, headers: Vec::new(), body: Vec::new() }
        },
    }
}

} // verus!
