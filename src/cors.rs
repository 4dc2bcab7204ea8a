//! Cross-origin headers added to every response.

use vstd::string::*;
use crate::token::{decimal, push_decimal};
use vstd::prelude::*;

verus! {

/// The texts joined, with `sep` between each two.
pub open spec fn joined(items: Seq<Seq<char>>, sep: Seq<char>) -> Seq<char>
    decreases items.len(),
{
    if items.len() == 0 {
        Seq::empty()
    } else if items.len() == 1 {
        items[0]
    } else {
        joined(items.drop_last(), sep) + sep + items.last()
    }
}

pub fn join(items: &Vec<String>, sep: &str) -> (r: String)
    ensures
        r@ == joined(items@.map_values(|s: String| s@), sep@),
{
    let ghost view = items@.map_values(|s: String| s@);
    let mut out = String::new();
    let mut i: usize = 0;
    while i < items.len()
        invariant
            i <= items@.len(),
            view == items@.map_values(|s: String| s@),
            out@ == joined(view.subrange(0, i as int), sep@),
        decreases items@.len() - i,
    {
        if i > 0 {
            out.append(sep);
        }
        out.append(items[i].as_str());
        assert(view.subrange(0, i + 1).drop_last() =~= view.subrange(0, i as int));
        assert(view[i as int] == items@[i as int]@);
        i = i + 1;
    }
    assert(view.subrange(0, items@.len() as int) =~= view);
    out
}

/// The methods, origin and cache time a browser is told it may use.
#[derive(Debug, Clone, PartialEq)]
pub struct CorsMiddleware {
    pub methods: Vec<String>,
    pub origin: Option<String>,
    pub max_age: u32,
}

/// The request headers a cross-origin request may carry.
pub open spec fn allowed_headers_view() -> Seq<Seq<char>> {
    seq!["authorization"@, "content-type"@]
}

/// The origin allowed: the configured one, else the request's own, else any.
pub open spec fn allowed_origin(configured: Option<String>, requested: Option<String>) -> Seq<
    char,
> {
    match (configured, requested) {
        (Some(o), _) => o@,
        (None, Some(h)) => h@,
        (None, None) => "*"@,
    }
}

/// The headers added to a response, as name and value.
pub open spec fn cors_headers(c: CorsMiddleware, requested: Option<String>) -> Seq<
    (Seq<char>, Seq<char>),
> {
    seq![
        ("access-control-allow-credentials"@, "true"@),
        ("access-control-allow-headers"@, joined(allowed_headers_view(), ", "@)),
        ("access-control-allow-origin"@, allowed_origin(c.origin, requested)),
        ("access-control-allow-methods"@, joined(c.methods@.map_values(|s: String| s@), ", "@)),
        ("access-control-max-age"@, decimal(c.max_age as nat)),
    ]
}

impl CorsMiddleware {
    pub fn new(methods: Vec<String>, origin: Option<String>, max_age: u32) -> (r: CorsMiddleware)
        ensures
            r.methods == methods,
            r.origin == origin,
            r.max_age == max_age,
    {
        CorsMiddleware { methods, origin, max_age }
    }

    /// Every method, any origin, and a day of caching.
    pub fn default() -> (r: CorsMiddleware)
        ensures
            r.methods@.map_values(|s: String| s@) == seq![
                "DELETE"@,
                "GET"@,
                "HEAD"@,
                "OPTIONS"@,
                "PATCH"@,
                "POST"@,
                "PUT"@,
            ],
            r.origin is None,
            r.max_age == 86400,
    {
        let methods = vec![
            String::from_str("DELETE"),
            String::from_str("GET"),
            String::from_str("HEAD"),
            String::from_str("OPTIONS"),
            String::from_str("PATCH"),
            String::from_str("POST"),
            String::from_str("PUT"),
        ];
        let r = CorsMiddleware::new(methods, None, 86400);
        assert(r.methods@.map_values(|s: String| s@) =~= seq![
            "DELETE"@,
            "GET"@,
            "HEAD"@,
            "OPTIONS"@,
            "PATCH"@,
            "POST"@,
            "PUT"@,
        ]);
        r
    }

    /// The headers to add to a response to a request from `requested`, the
    /// request's `Origin` header if it has one.
    pub fn response_headers(&self, requested: Option<String>) -> (r: Vec<(String, String)>)
        ensures
            r@.map_values(|p: (String, String)| (p.0@, p.1@)) == cors_headers(*self, requested),
    {
        let ghost req = requested;
        let origin = match &self.origin {
            Some(o) => o.clone(),
            None => match requested {
                Some(h) => h,
                None => String::from_str("*"),
            },
        };
        let names = vec![String::from_str("authorization"), String::from_str("content-type")];
        assert(names@.map_values(|s: String| s@) =~= allowed_headers_view());
        let headers = join(&names, ", ");
        let methods = join(&self.methods, ", ");
        let mut max_age = String::new();
        push_decimal(&mut max_age, self.max_age as u64);
        let r = vec![
            (String::from_str("access-control-allow-credentials"), String::from_str("true")),
            (String::from_str("access-control-allow-headers"), headers),
            (String::from_str("access-control-allow-origin"), origin),
            (String::from_str("access-control-allow-methods"), methods),
            (String::from_str("access-control-max-age"), max_age),
        ];
        assert(r@.map_values(|p: (String, String)| (p.0@, p.1@)) =~= cors_headers(*self, req));
        r
    }
}

} // verus!
