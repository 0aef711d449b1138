//! Metadata for an individual HTTP request: method, path, headers and query
//! parameters.

use vstd::prelude::*;

verus! {

use crate::error::Error;
use crate::headers::{
    Headers,
    spec_lookup,
    spec_str_eq_ic,
    header_name_parse,
    spec_header_value_ok,
    parse_header_name_str,
    check_header_value_str,
};
use vstd::string::StringExecFns;

/// Everything needed to make a single HTTP request: method, path relative to
/// the base URL, additional headers, and query parameters.
#[derive(Debug, Clone)]
pub struct RequestMetadata {
    /// The HTTP method, upper case ("GET", "POST", ...).
    pub method: String,
    /// The request path, relative to the base URL.
    pub path: String,
    /// Additional headers for this request.
    pub headers: Headers,
    /// Query parameters for this request, appended to the URL in order.
    pub query_params: Vec<(String, String)>,
}

impl RequestMetadata {
    /// Creates a new `RequestMetadata` with the given method and path, no
    /// headers and no query parameters.
    pub fn new(method: String, path: String) -> (r: Self)
        ensures
            r.method == method,
            r.path == path,
            r.headers@ == Seq::<(Seq<char>, Seq<char>)>::empty(),
            r.query_params@ == Seq::<(String, String)>::empty(),
    {
        let r = RequestMetadata {
            method,
            path,
            headers: Headers::new(),
            query_params: Vec::new(),
        };
        proof {
            assert(r.query_params@ =~= Seq::<(String, String)>::empty());
        }
        r
    }

    /// Adds a header to the request.  An invalid name or value is a
    /// `ConfigurationError`; the name is checked first.
    pub fn with_header(self, name: &str, value: &str) -> (r: Result<Self, Error>)
        ensures
            (match header_name_parse(name@) {
                Err(e) => r matches Err(Error::ConfigurationError(m)) && m@ == "Invalid header name: "@
                    + e,
                Ok(n) => if !spec_header_value_ok(value@) {
                    r matches Err(Error::ConfigurationError(m)) && m@ == "Invalid header value: "@
                        + "failed to parse header value"@
                } else {
                    r matches Ok(m) && m.method == self.method && m.path == self.path
                        && m.query_params == self.query_params && (forall|q: Seq<char>|
                        #[trigger] spec_lookup(m.headers@, q) == (if spec_str_eq_ic(n, q) {
                            Some(value@)
                        } else {
                            spec_lookup(self.headers@, q)
                        }))
                },
            }),
    {
        let name_norm = match parse_header_name_str(name) {
            Ok(n) => n,
            Err(e) => {
                let msg = String::from_str("Invalid header name: ").concat(e.as_str());
                return Err(Error::ConfigurationError(msg));
            },
        };
        match check_header_value_str(value) {
            Some(e) => {
                let msg = String::from_str("Invalid header value: ").concat(e.as_str());
                Err(Error::ConfigurationError(msg))
            },
            None => {
                let mut m = self;
                m.headers.insert(name_norm, String::from_str(value));
                Ok(m)
            },
        }
    }

    /// Adds a query parameter to the request.
    pub fn with_query_param(self, key: String, value: String) -> (r: Self)
        ensures
            r.method == self.method,
            r.path == self.path,
            r.headers == self.headers,
            r.query_params@ == self.query_params@.push((key, value)),
    {
        let mut m = self;
        m.query_params.push((key, value));
        m
    }

    /// Adds multiple query parameters to the request, in order.
    pub fn with_query_params(self, params: Vec<(String, String)>) -> (r: Self)
        ensures
            r.method == self.method,
            r.path == self.path,
            r.headers == self.headers,
            r.query_params@ == self.query_params@ + params@,
    {
        let mut m = self;
        let mut params = params;
        m.query_params.append(&mut params);
        m
    }
}

impl Default for RequestMetadata {
    /// A GET of the empty path.
    fn default() -> (r: Self)
        ensures
            r.method@ == "GET"@,
            r.path@ == Seq::<char>::empty(),
            r.headers@ == Seq::<(Seq<char>, Seq<char>)>::empty(),
            r.query_params@ == Seq::<(String, String)>::empty(),
    {
        RequestMetadata::new(String::from_str("GET"), String::new())
    }
}

} // verus!
