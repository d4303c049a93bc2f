//! Requests under construction: verb constructors, the fluent header
//! builder, and the build step that yields a finished request or the first
//! conversion error.

use vstd::prelude::*;

use crate::header::{check_header_name, check_header_value, valid_header_name, valid_header_value};
use crate::method::Method;
use crate::url::{check_url, url_well_formed};

verus! {

/// One header of a request: a name and a value, both as raw bytes.
#[derive(Debug)]
pub struct HeaderPair {
    pub name: Vec<u8>,
    pub value: Vec<u8>,
}

impl HeaderPair {
    /// The pair as a mathematical value: its two byte sequences.
    pub open spec fn model(self) -> (Seq<u8>, Seq<u8>) {
        (self.name@, self.value@)
    }

    /// The name is a token and the value is visible ASCII plus space.
    pub open spec fn wf(self) -> bool {
        valid_header_name(self.name@) && valid_header_value(self.value@)
    }
}

/// Why a request under construction cannot be built.
#[derive(Clone, Copy, Debug, PartialEq, Eq, Structural)]
pub enum BuildError {
    /// The URL handed to the verb constructor is not a well-formed absolute
    /// URL.
    InvalidUrl,
    /// A header name fell outside the token grammar.
    InvalidHeaderName,
    /// A header value fell outside visible ASCII plus space.
    InvalidHeaderValue,
}

/// A finished request: method, absolute URL, and header list, in the order
/// the headers were attached.
#[derive(Debug)]
pub struct Request {
    pub method: Method,
    pub url: String,
    pub headers: Vec<HeaderPair>,
}

impl Request {
    /// The header list as a sequence of (name, value) byte-sequence pairs.
    pub open spec fn headers_model(self) -> Seq<(Seq<u8>, Seq<u8>)> {
        self.headers@.map_values(|h: HeaderPair| h.model())
    }

    /// Well-formedness: the URL parses as an absolute URL and every header
    /// obeys the header grammars.
    pub open spec fn wf(self) -> bool {
        &&& url_well_formed(self.url@)
        &&& forall|i: int| 0 <= i < self.headers@.len() ==> self.headers@[i].wf()
    }
}

/// A request under construction. Every fluent operation consumes the builder
/// and returns a new one; the first conversion failure is latched, later
/// operations return a failed builder unchanged, and the latched error
/// surfaces from [`RequestBuilder::build`].
#[derive(Debug)]
pub struct RequestBuilder {
    request: Request,
    error: Option<BuildError>,
}

impl RequestBuilder {
    /// The method the builder was constructed with.
    pub closed spec fn method_of(self) -> Method {
        self.request.method
    }

    /// The URL the builder was constructed with.
    pub closed spec fn url_of(self) -> Seq<char> {
        self.request.url@
    }

    /// The headers attached so far, in order, as byte-sequence pairs.
    pub closed spec fn headers_of(self) -> Seq<(Seq<u8>, Seq<u8>)> {
        self.request.headers_model()
    }

    /// The latched error, if a conversion has failed.
    pub closed spec fn error_of(self) -> Option<BuildError> {
        self.error
    }

    /// Invariant: while no error is latched, the accumulated request is well
    /// formed.
    pub closed spec fn wf(self) -> bool {
        self.error is None ==> self.request.wf()
    }

    /// What every verb constructor returns: a builder for `method` and `url`
    /// with no headers, whose error is `InvalidUrl` exactly when `url` is not
    /// a well-formed absolute URL.
    pub open spec fn is_fresh(self, method: Method, url: Seq<char>) -> bool {
        &&& self.method_of() == method
        &&& self.url_of() == url
        &&& self.headers_of() == Seq::<(Seq<u8>, Seq<u8>)>::empty()
        &&& self.error_of() == (if url_well_formed(url) {
            Option::<BuildError>::None
        } else {
            Option::Some(BuildError::InvalidUrl)
        })
        &&& self.wf()
    }

    /// Attaches one header to the request under construction, consuming the
    /// builder. A valid pair is appended unmodified; a name outside the token
    /// grammar latches `InvalidHeaderName`; a value outside visible ASCII
    /// plus space latches `InvalidHeaderValue`; a builder that has already
    /// failed is returned unchanged.
    pub fn header(self, name: Vec<u8>, value: Vec<u8>) -> (r: RequestBuilder)
        ensures
            r.method_of() == self.method_of(),
            r.url_of() == self.url_of(),
            self.error_of() is Some ==> r.error_of() == self.error_of()
                && r.headers_of() == self.headers_of(),
            self.error_of() is None && valid_header_name(name@) && valid_header_value(value@)
                ==> r.error_of() is None
                && r.headers_of() == self.headers_of().push((name@, value@)),
            self.error_of() is None && !valid_header_name(name@)
                ==> r.error_of() == Option::Some(BuildError::InvalidHeaderName)
                && r.headers_of() == self.headers_of(),
            self.error_of() is None && valid_header_name(name@) && !valid_header_value(value@)
                ==> r.error_of() == Option::Some(BuildError::InvalidHeaderValue)
                && r.headers_of() == self.headers_of(),
            self.wf() ==> r.wf(),
    {
        if self.error.is_some() {
            return self;
        }
        if !check_header_name(name.as_slice()) {
            return RequestBuilder { error: Some(BuildError::InvalidHeaderName), ..self };
        }
        if !check_header_value(value.as_slice()) {
            return RequestBuilder { error: Some(BuildError::InvalidHeaderValue), ..self };
        }
        let ghost n = name@;
        let ghost v = value@;
        let RequestBuilder { mut request, .. } = self;
        let ghost old_headers = request.headers_model();
        request.headers.push(HeaderPair { name, value });
        proof {
            assert(request.headers_model() =~= old_headers.push((n, v)));
        }
        RequestBuilder { request, error: None }
    }

    /// Finalizes the builder: returns the latched error if any conversion
    /// failed, otherwise the request exactly as accumulated — which is then
    /// well formed.
    pub fn build(self) -> (r: Result<Request, BuildError>)
        ensures
            r is Ok <==> self.error_of() is None,
            r is Ok ==> r->Ok_0.method == self.method_of()
                && r->Ok_0.url@ == self.url_of()
                && r->Ok_0.headers_model() == self.headers_of(),
            self.wf() && r is Ok ==> r->Ok_0.wf(),
            r is Err ==> r->Err_0 == self.error_of()->0,
    {
        match self.error {
            Some(e) => Err(e),
            None => Ok(self.request),
        }
    }
}

/// A handle that originates requests: one constructor per standard verb and
/// a generic one taking the method. Constructing a builder performs no
/// network activity; URL conversion happens here and a failure is latched in
/// the returned builder.
pub struct Client {}

impl Client {
    /// Creates a client handle.
    pub fn new() -> (c: Client) {
        Client {}
    }

    /// Starts a request with an arbitrary standard method.
    pub fn request(&self, method: Method, url: String) -> (b: RequestBuilder)
        ensures
            b.is_fresh(method, url@),
    {
        let ok = check_url(url.as_str());
        let error = if ok {
            None
        } else {
            Some(BuildError::InvalidUrl)
        };
        let b = RequestBuilder { request: Request { method, url, headers: Vec::new() }, error };
        proof {
            assert(b.headers_of() =~= Seq::<(Seq<u8>, Seq<u8>)>::empty());
        }
        b
    }

    /// Starts a `GET` request.
    pub fn get(&self, url: String) -> (b: RequestBuilder)
        ensures
            b.is_fresh(Method::Get, url@),
    {
        self.request(Method::Get, url)
    }

    /// Starts a `POST` request.
    pub fn post(&self, url: String) -> (b: RequestBuilder)
        ensures
            b.is_fresh(Method::Post, url@),
    {
        self.request(Method::Post, url)
    }

    /// Starts a `PUT` request.
    pub fn put(&self, url: String) -> (b: RequestBuilder)
        ensures
            b.is_fresh(Method::Put, url@),
    {
        self.request(Method::Put, url)
    }

    /// Starts a `PATCH` request.
    pub fn patch(&self, url: String) -> (b: RequestBuilder)
        ensures
            b.is_fresh(Method::Patch, url@),
    {
        self.request(Method::Patch, url)
    }

    /// Starts a `DELETE` request.
    pub fn delete(&self, url: String) -> (b: RequestBuilder)
        ensures
            b.is_fresh(Method::Delete, url@),
    {
        self.request(Method::Delete, url)
    }

    /// Starts a `HEAD` request.
    pub fn head(&self, url: String) -> (b: RequestBuilder)
        ensures
            b.is_fresh(Method::Head, url@),
    {
        self.request(Method::Head, url)
    }
}

} // verus!
