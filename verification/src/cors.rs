//! The cross-origin policy of the service: which origin may read its
//! replies, with which methods and request headers.

use vstd::prelude::*;
use crate::api::Method;
use crate::text::text_eq;

verus! {

/// A cross-origin policy with one allowed origin.
#[derive(Debug, PartialEq, Eq)]
pub struct CorsPolicy {
    /// The origin whose requests are permitted.
    pub allowed_origin: String,
    /// The methods that a cross-origin request may use.
    pub allowed_methods: Vec<Method>,
    /// The request headers that a cross-origin request may carry.
    pub allowed_headers: Vec<String>,
    /// Whether credentials may accompany a cross-origin request.
    pub supports_credentials: bool,
    /// For how many seconds the answer to a pre-flight request may be kept.
    pub max_age: u32,
}

/// A cross-origin policy as a mathematical value.
#[verifier::ext_equal]
pub struct CorsPolicyView {
    pub allowed_origin: Seq<char>,
    pub allowed_methods: Seq<Method>,
    pub allowed_headers: Seq<Seq<char>>,
    pub supports_credentials: bool,
    pub max_age: u32,
}

/// The texts of a sequence as mathematical values, in the same order.
pub open spec fn texts(names: Seq<String>) -> Seq<Seq<char>> {
    Seq::new(names.len(), |i: int| names[i]@)
}

impl View for CorsPolicy {
    type V = CorsPolicyView;

    open spec fn view(&self) -> CorsPolicyView {
        CorsPolicyView {
            allowed_origin: self.allowed_origin@,
            allowed_methods: self.allowed_methods@,
            allowed_headers: texts(self.allowed_headers@),
            supports_credentials: self.supports_credentials,
            max_age: self.max_age,
        }
    }
}

impl CorsPolicyView {
    /// The policy of the service: requests from `http://localhost:5173`, with
    /// GET, POST or DELETE, with the headers `Authorization`, `Accept` and
    /// `Content-Type`, with credentials, kept for an hour.
    pub open spec fn service() -> CorsPolicyView {
        CorsPolicyView {
            allowed_origin: "http://localhost:5173"@,
            allowed_methods: seq![Method::Get, Method::Post, Method::Delete],
            allowed_headers: seq!["Authorization"@, "Accept"@, "Content-Type"@],
            supports_credentials: true,
            max_age: 3600,
        }
    }

    /// Whether a request that declares the origin is permitted: the origin
    /// is the allowed one, character for character.
    pub open spec fn permits_origin(self, origin: Seq<char>) -> bool {
        origin == self.allowed_origin
    }

    /// Whether a cross-origin request may use the method.
    pub open spec fn permits_method(self, method: Method) -> bool {
        self.allowed_methods.contains(method)
    }

    /// Only requests that declare `http://localhost:5173` are permitted by
    /// the policy of the service; a request with any other origin gets no
    /// cross-origin headers.
    pub proof fn lemma_service_permits_one_origin(origin: Seq<char>)
        ensures
            Self::service().permits_origin(origin) <==> origin == "http://localhost:5173"@,
            Self::service().permits_method(Method::Get),
            Self::service().permits_method(Method::Post),
    {
        assert(Self::service().allowed_methods[0] == Method::Get);
        assert(Self::service().allowed_methods[1] == Method::Post);
    }
}

impl CorsPolicy {
    /// The policy of the service.
    pub fn service() -> (policy: CorsPolicy)
        ensures
            policy@ == CorsPolicyView::service(),
    {
        let mut allowed_methods: Vec<Method> = Vec::new();
        allowed_methods.push(Method::Get);
        allowed_methods.push(Method::Post);
        allowed_methods.push(Method::Delete);
        let mut allowed_headers: Vec<String> = Vec::new();
        allowed_headers.push("Authorization".to_owned());
        allowed_headers.push("Accept".to_owned());
        allowed_headers.push("Content-Type".to_owned());
        let policy = CorsPolicy {
            allowed_origin: "http://localhost:5173".to_owned(),
            allowed_methods,
            allowed_headers,
            supports_credentials: true,
            max_age: 3600,
        };
        assert(policy@.allowed_methods =~= CorsPolicyView::service().allowed_methods);
        assert(policy@.allowed_headers =~= CorsPolicyView::service().allowed_headers);
        policy
    }

    /// Whether a request that declares the origin is permitted. A response
    /// carries the cross-origin headers only where this holds.
    pub fn permits_origin(&self, origin: &str) -> (permitted: bool)
        ensures
            permitted == self@.permits_origin(origin@),
    {
        text_eq(origin, self.allowed_origin.as_str())
    }

    /// Whether a cross-origin request may use the method.
    pub fn permits_method(&self, method: Method) -> (permitted: bool)
        ensures
            permitted == self@.permits_method(method),
    {
        let mut i: usize = 0;
        while i < self.allowed_methods.len()
            invariant
                i <= self.allowed_methods.len(),
                forall|k: int| 0 <= k < i ==> self.allowed_methods@[k] != method,
            decreases self.allowed_methods.len() - i,
        {
            if self.allowed_methods[i] == method {
                return true;
            }
            i += 1;
        }
        false
    }
}

} // verus!
