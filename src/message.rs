use vstd::prelude::*;

use crate::error::TransportError;

verus! {

/// A header as name and value.
pub type Header = (String, String);

/// The view of a header list: names and values as text.
pub open spec fn headers_view(h: Seq<Header>) -> Seq<(Seq<char>, Seq<char>)> {
    h.map_values(|p: Header| (p.0@, p.1@))
}

/// An HTTP request as the signing pipeline reads it.
#[derive(Debug, Clone)]
pub struct Request<B> {
    pub method: String,
    /// The URI the request is sent to.
    pub target: String,
    pub headers: Vec<Header>,
    pub body: B,
}

/// An HTTP response as the verification pipeline reads it.
#[derive(Debug, Clone)]
pub struct Response<B> {
    pub status: u16,
    pub headers: Vec<Header>,
    pub body: B,
}

/// A request or a response: the one shape that digest and signature
/// checks work on.
#[derive(Debug, Clone)]
pub enum ReqOrRes<B> {
    Request(Request<B>),
    Response(Response<B>),
}

impl<B> ReqOrRes<B> {
    pub open spec fn spec_body(&self) -> B {
        match self {
            ReqOrRes::Request(r) => r.body,
            ReqOrRes::Response(r) => r.body,
        }
    }

    pub open spec fn spec_headers(&self) -> Seq<Header> {
        match self {
            ReqOrRes::Request(r) => r.headers@,
            ReqOrRes::Response(r) => r.headers@,
        }
    }

    /// Replaces the body by `f` of it, keeping everything else.
    pub fn map<C, F: FnOnce(B) -> C>(self, f: F) -> (r: ReqOrRes<C>)
        requires
            f.requires((self.spec_body(),)),
        ensures
            f.ensures((self.spec_body(),), r.spec_body()),
            r.spec_headers() == self.spec_headers(),
            self is Request <==> r is Request,
            r matches ReqOrRes::Request(q) ==> self matches ReqOrRes::Request(p) && q.method == p.method
                && q.target == p.target,
            r matches ReqOrRes::Response(q) ==> self matches ReqOrRes::Response(p) && q.status
                == p.status,
    {
        match self {
            ReqOrRes::Request(req) => {
                let Request { method, target, headers, body } = req;
                ReqOrRes::Request(Request { method, target, headers, body: f(body) })
            },
            ReqOrRes::Response(res) => {
                let Response { status, headers, body } = res;
                ReqOrRes::Response(Response { status, headers, body: f(body) })
            },
        }
    }

    pub fn headers(&self) -> (r: &Vec<Header>)
        ensures
            r@ == self.spec_headers(),
    {
        match self {
            ReqOrRes::Request(r) => &r.headers,
            ReqOrRes::Response(r) => &r.headers,
        }
    }

    pub fn body(&self) -> (r: &B)
        ensures
            *r == self.spec_body(),
    {
        match self {
            ReqOrRes::Request(r) => &r.body,
            ReqOrRes::Response(r) => &r.body,
        }
    }
}

/// What parsing a text as an `http::Uri` gives: `None` when it is no URI,
/// else its authority, if it has one.
pub uninterp spec fn uri_authority(s: Seq<char>) -> Option<Option<Seq<char>>>;

/// Relies on `str::parse::<http::Uri>` and on `http::Uri::authority`.
#[verifier::external_body]
fn parse_uri_authority(s: &str) -> (r: Option<Option<String>>)
    ensures
        r is None <==> uri_authority(s@) is None,
        r matches Some(None) ==> uri_authority(s@) == Some(None::<Seq<char>>),
        r matches Some(Some(a)) ==> uri_authority(s@) == Some(Some(a@)),
{
    match s.parse::<http::Uri>() {
        Ok(uri) => Some(uri.authority().map(|a| a.as_str().to_string())),
        Err(_) => None,
    }
}

/// The content type of every outbound activity.
pub open spec fn activity_content_type() -> Seq<char> {
    "application/activity+json"@
}

/// The headers of an outbound activity, in this order: date, host, content type.
pub open spec fn outbound_headers(date: Seq<char>, host: Seq<char>) -> Seq<(Seq<char>, Seq<char>)> {
    seq![("date"@, date), ("host"@, host), ("content-type"@, activity_content_type())]
}

/// Whether `destination` is a URI with an authority.
pub open spec fn deliverable(destination: Seq<char>) -> bool {
    uri_authority(destination) matches Some(Some(_))
}

/// The authority of a deliverable destination.
pub open spec fn destination_host(destination: Seq<char>) -> Seq<char> {
    uri_authority(destination).unwrap().unwrap()
}

/// Builds the POST that carries `body` to `destination`, stamped with
/// `date`; its `host` header is the destination's authority. A destination
/// that is no URI, or has no authority, is refused.
pub fn outbound_request(destination: &str, date: &str, body: Vec<u8>) -> (r: Result<
    Request<Vec<u8>>,
    TransportError,
>)
    ensures
        r is Ok <==> deliverable(destination@),
        r matches Ok(q) ==> q.method@ == "POST"@ && q.target@ == destination@ && headers_view(
            q.headers@,
        ) == outbound_headers(date@, destination_host(destination@)) && q.body == body,
        r matches Err(e) ==> e == TransportError::Request,
{
    match parse_uri_authority(destination) {
        Some(Some(host)) => {
            let headers: Vec<Header> = vec![
                (String::from_str("date"), String::from_str(date)),
                (String::from_str("host"), host),
                (String::from_str("content-type"), String::from_str("application/activity+json")),
            ];
            let ghost want = outbound_headers(date@, destination_host(destination@));
            assert(headers_view(headers@) =~= want);
            Ok(Request {
                method: String::from_str("POST"),
                target: String::from_str(destination),
                headers,
                body,
            })
        },
        _ => Err(TransportError::Request),
    }
}

/// One entry of the signing string's header selection.
#[derive(Debug, Clone, Copy)]
pub enum SignatureTarget {
    /// The pseudo-header `(request-target)`: method and path.
    RequestTarget,
    /// A header, by its lower-case name.
    Header(&'static str),
}

/// The name under which a target appears in the signing string.
pub open spec fn target_name(t: SignatureTarget) -> Seq<char> {
    match t {
        SignatureTarget::RequestTarget => "(request-target)"@,
        SignatureTarget::Header(h) => h@,
    }
}

/// The header selection of every outbound signature, in order.
pub open spec fn signed_header_names() -> Seq<Seq<char>> {
    seq!["(request-target)"@, "host"@, "date"@, "digest"@, "content-type"@]
}

/// The fixed, ordered header selection of every outbound signature:
/// `(request-target)`, `host`, `date`, `digest`, `content-type`.
pub fn signature_targets() -> (r: Vec<SignatureTarget>)
    ensures
        r@.len() == signed_header_names().len(),
        forall|i: int| 0 <= i < r@.len() ==> #[trigger] target_name(r@[i]) == signed_header_names()[i],
        r@[0] == SignatureTarget::RequestTarget,
{
    vec![
        SignatureTarget::RequestTarget,
        SignatureTarget::Header("host"),
        SignatureTarget::Header("date"),
        SignatureTarget::Header("digest"),
        SignatureTarget::Header("content-type"),
    ]
}

} // verus!
