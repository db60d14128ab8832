//! The endpoint definitions read once at startup.

use vstd::prelude::*;

verus! {

/// Name/value pairs in declaration order: request headers, or the members
/// of a JSON request body.
pub type ReqHash = Vec<(String, String)>;

/// The HTTP method of a request.
#[allow(non_camel_case_types, clippy::upper_case_acronyms)]
#[derive(PartialEq, Eq, Structural, Clone, Copy, Debug)]
pub enum ConfigMethod {
    GET,
    POST,
}

/// The method's name as sent on the wire.
pub open spec fn method_text(m: ConfigMethod) -> Seq<char> {
    match m {
        ConfigMethod::GET => seq!['G', 'E', 'T'],
        ConfigMethod::POST => seq!['P', 'O', 'S', 'T'],
    }
}

impl ConfigMethod {
    pub fn to_string(&self) -> (r: String)
        ensures
            r@ == method_text(*self),
    {
        proof {
            reveal_strlit("GET");
            reveal_strlit("POST");
        }
        match self {
            ConfigMethod::GET => "GET".to_owned(),
            ConfigMethod::POST => "POST".to_owned(),
        }
    }
}

/// One HTTP call: header and body values may hold `{field}` placeholders.
#[derive(Clone, Debug)]
pub struct Request {
    pub url: String,
    pub headers: Option<ReqHash>,
    pub method: ConfigMethod,
    pub body: Option<ReqHash>,
}

/// A prerequisite call whose JSON response supplies placeholder values.
#[derive(Clone, Debug)]
pub struct Depends {
    pub name: String,
    /// Dotted paths whose values fill header placeholders.
    pub header_fields: Vec<String>,
    /// Dotted paths whose values fill body placeholders.
    pub body_fields: Vec<String>,
    pub request: Request,
}

/// One monitored endpoint.
#[derive(Clone, Debug)]
pub struct Api {
    pub name: String,
    pub depends_on: Option<Depends>,
    pub request: Request,
    pub expected_status: u16,
    /// Seconds between two verifications.
    pub interval: u64,
    pub system_notify: bool,
    /// `"ERROR"` keeps successes from being notified.
    pub notify_type: String,
}

/// The endpoint set, keyed by name, in a fixed order.
#[derive(Clone, Debug)]
pub struct ApisConfig {
    pub requests: Vec<(String, Api)>,
}

/// No two entries of `pairs` share a key.
pub open spec fn unique_keys<T>(pairs: Seq<(String, T)>) -> bool {
    forall|i: int, j: int|
        0 <= i < j < pairs.len() ==> (#[trigger] pairs[i]).0@ != (#[trigger] pairs[j]).0@
}

/// An optional list of pairs with no key twice.
pub open spec fn opt_unique_keys(o: Option<ReqHash>) -> bool {
    match o {
        Some(v) => unique_keys(v@),
        None => true,
    }
}

/// A request names each header and each body member once.
pub open spec fn request_wf(r: Request) -> bool {
    opt_unique_keys(r.headers) && opt_unique_keys(r.body)
}

/// An endpoint's requests, and its dependency's, are well formed.
pub open spec fn api_wf(a: Api) -> bool {
    &&& request_wf(a.request)
    &&& a.depends_on is Some ==> request_wf(a.depends_on->0.request)
}

impl ApisConfig {
    /// Endpoint names are unique and every endpoint is well formed.
    pub open spec fn wf(&self) -> bool {
        &&& unique_keys(self.requests@)
        &&& forall|i: int| 0 <= i < self.requests@.len() ==> api_wf(#[trigger] self.requests@[i].1)
    }

    /// Whether the configuration is well formed.
    pub fn is_wf(&self) -> (r: bool)
        ensures
            r == self.wf(),
    {
        if !keys_unique(&self.requests) {
            return false;
        }
        let mut i: usize = 0;
        while i < self.requests.len()
            invariant
                i <= self.requests@.len(),
                forall|j: int| 0 <= j < i ==> api_wf(#[trigger] self.requests@[j].1),
            decreases self.requests.len() - i,
        {
            let api = &self.requests[i].1;
            let dep_ok = match &api.depends_on {
                Some(d) => request_is_wf(&d.request),
                None => true,
            };
            if !(request_is_wf(&api.request) && dep_ok) {
                return false;
            }
            i = i + 1;
        }
        true
    }
}

/// Whether no two entries of `pairs` share a key.
pub fn keys_unique<T>(pairs: &Vec<(String, T)>) -> (r: bool)
    ensures
        r == unique_keys(pairs@),
{
    let mut j: usize = 0;
    while j < pairs.len()
        invariant
            j <= pairs@.len(),
            forall|a: int, b: int|
                0 <= a < b < j ==> (#[trigger] pairs@[a]).0@ != (#[trigger] pairs@[b]).0@,
        decreases pairs.len() - j,
    {
        let mut i: usize = 0;
        while i < j
            invariant
                i <= j < pairs@.len(),
                forall|a: int, b: int|
                    0 <= a < b < j ==> (#[trigger] pairs@[a]).0@ != (#[trigger] pairs@[b]).0@,
                forall|a: int| 0 <= a < i ==> (#[trigger] pairs@[a]).0@ != pairs@[j as int].0@,
            decreases j - i,
        {
            if pairs[i].0 == pairs[j].0 {
                return false;
            }
            i = i + 1;
        }
        j = j + 1;
    }
    true
}

/// Whether `r` names each header and each body member once.
pub fn request_is_wf(r: &Request) -> (b: bool)
    ensures
        b == request_wf(*r),
{
    let h = match &r.headers {
        Some(v) => keys_unique(v),
        None => true,
    };
    let m = match &r.body {
        Some(v) => keys_unique(v),
        None => true,
    };
    h && m
}

/// The views of name/value pairs.
pub open spec fn pair_views(p: Seq<(String, String)>) -> Seq<(Seq<char>, Seq<char>)> {
    p.map_values(|e: (String, String)| (e.0@, e.1@))
}

/// The pairs of an optional list, as views.
pub open spec fn opt_pairs(o: Option<ReqHash>) -> Option<Seq<(Seq<char>, Seq<char>)>> {
    match o {
        Some(v) => Some(pair_views(v@)),
        None => None,
    }
}

/// Two requests carry the same URL, method, headers and body.
pub open spec fn same_request(a: Request, b: Request) -> bool {
    &&& a.url@ == b.url@
    &&& a.method == b.method
    &&& opt_pairs(a.headers) == opt_pairs(b.headers)
    &&& opt_pairs(a.body) == opt_pairs(b.body)
}

/// A copy of `pairs`, equal to it.
pub fn copy_pairs(pairs: &ReqHash) -> (r: ReqHash)
    ensures
        r@ == pairs@,
{
    let mut r: ReqHash = Vec::new();
    let mut i: usize = 0;
    while i < pairs.len()
        invariant
            i <= pairs.len(),
            r@ == pairs@.take(i as int),
        decreases pairs.len() - i,
    {
        r.push((pairs[i].0.clone(), pairs[i].1.clone()));
        i = i + 1;
        assert(r@ =~= pairs@.take(i as int));
    }
    assert(pairs@.take(i as int) =~= pairs@);
    r
}

/// A copy of an optional list of pairs, equal to it.
pub fn copy_opt_pairs(pairs: &Option<ReqHash>) -> (r: Option<ReqHash>)
    ensures
        opt_pairs(r) == opt_pairs(*pairs),
{
    match pairs {
        Some(p) => {
            let c = copy_pairs(p);
            assert(pair_views(c@) =~= pair_views(p@));
            Some(c)
        },
        None => None,
    }
}

impl Request {
    /// A copy of the request, field by field.
    pub fn copy(&self) -> (r: Request)
        ensures
            same_request(r, *self),
    {
        Request {
            url: self.url.clone(),
            headers: copy_opt_pairs(&self.headers),
            method: self.method,
            body: copy_opt_pairs(&self.body),
        }
    }
}

} // verus!
