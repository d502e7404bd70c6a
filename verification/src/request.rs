//! The request envelope: the serializable form of a public HTTP request
//! travelling frontend-to-agent, and its codec.
//!
//! Encoding reads the control headers `X-CONNECT-ID` (the routing key,
//! required), `X-CONNECT-HOST` (the target authority, required) and
//! `X-CONNECT-SCHEME` (optional, `"http"` by default), copies all
//! headers verbatim, and carries the body as standard base64.  Decoding
//! recombines the absolute target `scheme "://" host url`, validates it
//! and the method token, and decodes the body.

use vstd::prelude::*;
use vstd::string::StringExecFns;

use crate::TunnelError;
use crate::codec::{b64_decode, b64_decode_of, b64_encode, b64_of, method_token_ok, parse_method,
    parse_uri, uri_ok};
use crate::headers::{clone_headers, find_header, header_lookup, headers_view};

verus! {

/// The wire form of a tunnelled HTTP request.
///
/// `request_id` carries the connect identifier that routes to an agent
/// (the name is historical); `tunnel_id` is stamped by the frontend
/// when the request is dispatched and correlates the response.
pub struct RequestWarpper {
    pub request_id: String,
    pub tunnel_id: Option<String>,
    /// target scheme
    pub scheme: String,
    /// target host
    pub host: String,
    /// url path
    pub url: String,
    pub headers: Vec<(String, String)>,
    pub body: Option<String>,
    pub method: String,
}

/// A decoded request envelope: the plain parts an executor needs to
/// issue the HTTP request against the target origin.
pub struct DecodedRequest {
    /// The absolute target, `scheme "://" host url`, already validated
    /// as a URI.
    pub target: String,
    /// The method token, already validated.
    pub method: String,
    pub headers: Vec<(String, String)>,
    pub body: Vec<u8>,
}

impl RequestWarpper {
    /// The absolute target this envelope points at.
    pub open spec fn target_view(self) -> Seq<char> {
        self.scheme@ + "://"@ + self.host@ + self.url@
    }

    /// Stamps the correlation identifier; every other field stays.
    pub fn set_tunnel_id(&mut self, tunnel_id: &str)
        ensures
            final(self).tunnel_id matches Some(t) && t@ == tunnel_id@,
            final(self).request_id == old(self).request_id,
            final(self).scheme == old(self).scheme,
            final(self).host == old(self).host,
            final(self).url == old(self).url,
            final(self).headers == old(self).headers,
            final(self).body == old(self).body,
            final(self).method == old(self).method,
    {
        self.tunnel_id = Some(tunnel_id.to_owned());
    }

    /// The connect identifier that selects the destination agent.
    pub fn connect_id(&self) -> (r: &str)
        ensures
            r@ == self.request_id@,
    {
        self.request_id.as_str()
    }

    /// The correlation identifier, if one has been stamped.
    pub fn tunnel_id(&self) -> (r: Option<&str>)
        ensures
            match r {
                Some(t) => self.tunnel_id matches Some(u) && t@ == u@,
                None => self.tunnel_id is None,
            },
    {
        match &self.tunnel_id {
            Some(t) => Some(t.as_str()),
            None => None,
        }
    }

    /// Encodes the plain parts of a public HTTP request into an
    /// envelope.  Fails when the routing or target-host header is
    /// missing, or when the body exceeds the given cap.
    pub fn from_request(
        method: String,
        url: String,
        headers: Vec<(String, String)>,
        body: Vec<u8>,
        body_cap: Option<usize>,
    ) -> (r: Result<RequestWarpper, TunnelError>)
        requires
            body@.len() <= usize::MAX as int / 2,
        ensures
            ({
                let hs = headers_view(headers@);
                let id = header_lookup(hs, "X-CONNECT-ID"@);
                let host = header_lookup(hs, "X-CONNECT-HOST"@);
                let scheme = header_lookup(hs, "X-CONNECT-SCHEME"@);
                &&& id is None ==> r == Err::<RequestWarpper, TunnelError>(
                    TunnelError::MissingRoutingHeader,
                )
                &&& id is Some && host is None ==> r == Err::<RequestWarpper, TunnelError>(
                    TunnelError::MissingTargetHost,
                )
                &&& id is Some && host is Some && (body_cap matches Some(c) && body@.len() > c)
                    ==> r == Err::<RequestWarpper, TunnelError>(TunnelError::BodyTooLarge)
                &&& id is Some && host is Some && (body_cap matches Some(c) ==> body@.len() <= c)
                    ==> {
                    &&& r matches Ok(w)
                    &&& id == Some(w.request_id@)
                    &&& host == Some(w.host@)
                    &&& match scheme {
                        Some(s) => w.scheme@ == s,
                        None => w.scheme@ == "http"@,
                    }
                    &&& w.url == url
                    &&& w.method == method
                    &&& w.headers == headers
                    &&& w.tunnel_id is None
                    &&& w.body matches Some(bs) && bs@ == b64_of(body@) && b64_decode_of(bs@)
                        == Some(body@)
                }
            }),
    {
        let request_id = match find_header(&headers, "X-CONNECT-ID") {
            Some(v) => v.clone(),
            None => {
                return Err(TunnelError::MissingRoutingHeader);
            },
        };
        let host = match find_header(&headers, "X-CONNECT-HOST") {
            Some(v) => v.clone(),
            None => {
                return Err(TunnelError::MissingTargetHost);
            },
        };
        let scheme = match find_header(&headers, "X-CONNECT-SCHEME") {
            Some(v) => v.clone(),
            None => String::from_str("http"),
        };
        if let Some(c) = body_cap {
            if body.len() > c {
                return Err(TunnelError::BodyTooLarge);
            }
        }
        let encoded = b64_encode(&body);
        Ok(
            RequestWarpper {
                request_id,
                tunnel_id: None,
                scheme,
                host,
                url,
                headers,
                body: Some(encoded),
                method,
            },
        )
    }

    /// The absolute target `scheme "://" host url` as one string.
    pub fn target(&self) -> (t: String)
        ensures
            t@ == self.target_view(),
    {
        let mut t = self.scheme.clone();
        t.append("://");
        t.append(self.host.as_str());
        t.append(self.url.as_str());
        t
    }

    /// Decodes the envelope back into the plain parts of an HTTP
    /// request.  Fails when the recombined target is no URI, the method
    /// token is invalid, or the body is not base64.
    pub fn to_request(&self) -> (r: Result<DecodedRequest, TunnelError>)
        ensures
            !uri_ok(self.target_view()) ==> r == Err::<DecodedRequest, TunnelError>(
                TunnelError::MalformedTarget,
            ),
            uri_ok(self.target_view()) && !method_token_ok(self.method@) ==> r == Err::<
                DecodedRequest,
                TunnelError,
            >(TunnelError::UnknownMethod),
            uri_ok(self.target_view()) && method_token_ok(self.method@) && (self.body matches Some(
                bs,
            ) && b64_decode_of(bs@) is None) ==> r == Err::<DecodedRequest, TunnelError>(
                TunnelError::CorruptBody,
            ),
            uri_ok(self.target_view()) && method_token_ok(self.method@) && (match self.body {
                Some(bs) => b64_decode_of(bs@) is Some,
                None => true,
            }) ==> {
                &&& r matches Ok(d)
                &&& d.target@ == self.target_view()
                &&& d.method == self.method
                &&& d.headers@ == self.headers@
                &&& match self.body {
                    Some(bs) => b64_decode_of(bs@) == Some(d.body@),
                    None => d.body@ == Seq::<u8>::empty(),
                }
            },
    {
        let target = self.target();
        let _uri = match parse_uri(target.as_str()) {
            Ok(u) => u,
            Err(_) => {
                return Err(TunnelError::MalformedTarget);
            },
        };
        let _method = match parse_method(self.method.as_str()) {
            Ok(m) => m,
            Err(_) => {
                return Err(TunnelError::UnknownMethod);
            },
        };
        let body = match &self.body {
            Some(bs) => match b64_decode(bs.as_str()) {
                Ok(v) => v,
                Err(_) => {
                    return Err(TunnelError::CorruptBody);
                },
            },
            None => Vec::new(),
        };
        let headers = clone_headers(&self.headers);
        let method = self.method.clone();
        Ok(DecodedRequest { target, method, headers, body })
    }
}

/// The target that decoding recombines from an encoded request's
/// control headers and url.
pub open spec fn recombined_target(hs: Seq<(Seq<char>, Seq<char>)>, url: Seq<char>) -> Seq<char> {
    let scheme = match header_lookup(hs, "X-CONNECT-SCHEME"@) {
        Some(s) => s,
        None => "http"@,
    };
    let host = match header_lookup(hs, "X-CONNECT-HOST"@) {
        Some(h) => h,
        None => Seq::empty(),
    };
    scheme + "://"@ + host + url
}

/// Round trip for request envelopes: decoding an encoded request yields
/// the original method, the original headers verbatim, the original
/// body byte for byte, and the recombined absolute target.
pub fn request_round_trip(
    method: String,
    url: String,
    headers: Vec<(String, String)>,
    body: Vec<u8>,
) -> (r: Option<DecodedRequest>)
    requires
        body@.len() <= usize::MAX as int / 2,
    ensures
        r matches Some(d) ==> {
            &&& d.method == method
            &&& d.headers@ == headers@
            &&& d.body@ == body@
            &&& d.target@ == recombined_target(headers_view(headers@), url@)
        },
        ({
            let hs = headers_view(headers@);
            &&& header_lookup(hs, "X-CONNECT-ID"@) is Some
            &&& header_lookup(hs, "X-CONNECT-HOST"@) is Some
            &&& method_token_ok(method@)
            &&& uri_ok(recombined_target(hs, url@))
        }) ==> r is Some,
{
    let ghost hs = headers_view(headers@);
    match RequestWarpper::from_request(method, url, headers, body, None) {
        Ok(w) => {
            proof {
                assert(w.target_view() == recombined_target(hs, w.url@));
            }
            match w.to_request() {
                Ok(d) => Some(d),
                Err(_) => None,
            }
        },
        Err(_) => None,
    }
}

} // verus!
