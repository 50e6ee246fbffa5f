//! The middleware that come with the framework.
use vstd::prelude::*;
use vstd::string::*;

verus! {

/// What a CORS middleware sends in its three `Access-Control-Allow-*` headers.
pub struct CorsView {
    pub allow_origin: Seq<char>,
    pub allow_methods: Seq<char>,
    pub allow_headers: Seq<char>,
}

/// Adds CORS headers to every response.
pub struct Cors {
    allow_origin: String,
    allow_methods: String,
    allow_headers: String,
}

impl View for Cors {
    type V = CorsView;

    closed spec fn view(&self) -> CorsView {
        CorsView {
            allow_origin: self.allow_origin@,
            allow_methods: self.allow_methods@,
            allow_headers: self.allow_headers@,
        }
    }
}

impl Clone for Cors {
    fn clone(&self) -> (c: Self)
        ensures
            c@ == self@,
    {
        Cors {
            allow_origin: self.allow_origin.clone(),
            allow_methods: self.allow_methods.clone(),
            allow_headers: self.allow_headers.clone(),
        }
    }
}

impl Cors {
    /// The headers set on every response, in the order they are set: the allowed
    /// origin, methods and request headers.
    pub fn response_headers(&self) -> (h: Vec<(&'static str, String)>)
        ensures
            h@.len() == 3,
            h@[0].0@ == "access-control-allow-origin"@ && h@[0].1@ == self@.allow_origin,
            h@[1].0@ == "access-control-allow-methods"@ && h@[1].1@ == self@.allow_methods,
            h@[2].0@ == "access-control-allow-headers"@ && h@[2].1@ == self@.allow_headers,
    {
        let mut h: Vec<(&'static str, String)> = Vec::new();
        h.push(("access-control-allow-origin", self.allow_origin.clone()));
        h.push(("access-control-allow-methods", self.allow_methods.clone()));
        h.push(("access-control-allow-headers", self.allow_headers.clone()));
        h
    }

    /// Allows `allow_origin`, the usual methods and the `Content-Type` and
    /// `Authorization` headers.
    pub fn new(allow_origin: &str) -> (c: Self)
        ensures
            c@ == (CorsView {
                allow_origin: allow_origin@,
                allow_methods: "GET, POST, PUT, DELETE, OPTIONS"@,
                allow_headers: "Content-Type, Authorization"@,
            }),
    {
        Cors {
            allow_origin: String::from_str(allow_origin),
            allow_methods: String::from_str("GET, POST, PUT, DELETE, OPTIONS"),
            allow_headers: String::from_str("Content-Type, Authorization"),
        }
    }

    /// Replaces the allowed methods.
    pub fn with_methods(self, methods: &str) -> (c: Self)
        ensures
            c@ == (CorsView { allow_methods: methods@, ..self@ }),
    {
        let mut c = self;
        c.allow_methods = String::from_str(methods);
        c
    }

    /// Replaces the allowed headers.
    pub fn with_headers(self, headers: &str) -> (c: Self)
        ensures
            c@ == (CorsView { allow_headers: headers@, ..self@ }),
    {
        let mut c = self;
        c.allow_headers = String::from_str(headers);
        c
    }

    /// The value of `Access-Control-Allow-Origin`.
    pub fn allow_origin(&self) -> (s: &str)
        ensures
            s@ == self@.allow_origin,
    {
        self.allow_origin.as_str()
    }

    /// The value of `Access-Control-Allow-Methods`.
    pub fn allow_methods(&self) -> (s: &str)
        ensures
            s@ == self@.allow_methods,
    {
        self.allow_methods.as_str()
    }

    /// The value of `Access-Control-Allow-Headers`.
    pub fn allow_headers(&self) -> (s: &str)
        ensures
            s@ == self@.allow_headers,
    {
        self.allow_headers.as_str()
    }
}

/// Passes requests through unchanged (trimming request strings is not done).
#[derive(Clone, Copy)]
pub struct TrimStrings;

impl TrimStrings {
    /// The middleware.
    pub fn new() -> (t: Self)
        ensures
            t == TrimStrings,
    {
        TrimStrings
    }
}

} // verus!
