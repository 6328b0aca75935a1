//! The requests the list shows and the panes edit, kept in memory. Saving
//! them and reading them back is left to the caller.

use vstd::prelude::*;

verus! {

pub struct RequestView {
    pub method: Seq<char>,
    pub title: Seq<char>,
    pub url: Seq<char>,
    pub body: Seq<char>,
    pub query_params: Seq<Seq<char>>,
}

impl RequestView {
    /// The same request without its query parameters.
    pub open spec fn stripped(self) -> RequestView {
        RequestView { query_params: Seq::empty(), ..self }
    }
}

/// One HTTP request definition.
pub struct Request {
    pub method: String,
    pub title: String,
    pub url: String,
    pub body: String,
    pub query_params: Vec<String>,
}

impl View for Request {
    type V = RequestView;

    open spec fn view(&self) -> RequestView {
        RequestView {
            method: self.method@,
            title: self.title@,
            url: self.url@,
            body: self.body@,
            query_params: self.query_params@.map_values(|q: String| q@),
        }
    }
}

impl Request {
    /// A copy of `v` without its query parameters.
    pub fn from(v: &Request) -> (r: Request)
        ensures
            r@ == v@.stripped(),
    {
        let r = Request {
            method: v.method.clone(),
            title: v.title.clone(),
            url: v.url.clone(),
            body: v.body.clone(),
            query_params: Vec::new(),
        };
        assert(r@.query_params =~= Seq::<Seq<char>>::empty());
        r
    }
}

/// One path of an API description, as the import reads it: the path, the
/// names of the GET operation's parameters if there is a GET operation, and
/// whether there are POST and PUT operations.
pub struct ApiPath {
    pub path: String,
    pub get_params: Option<Vec<String>>,
    pub has_post: bool,
    pub has_put: bool,
}

/// The server URL requests are built on: the last one listed, or none.
pub open spec fn base_url(servers: Seq<Seq<char>>) -> Seq<char> {
    if servers.len() == 0 {
        Seq::empty()
    } else {
        servers.last()
    }
}

/// The request an API path becomes: named by its last listed operation
/// among GET, POST and PUT. Like every request the model takes in, it keeps
/// no query parameters.
pub open spec fn request_of(base: Seq<char>, p: ApiPath) -> RequestView {
    RequestView {
        method: if p.has_put {
            "PUT"@
        } else if p.has_post {
            "POST"@
        } else if p.get_params is Some {
            "GET"@
        } else {
            Seq::empty()
        },
        title: Seq::empty(),
        url: base + p.path@,
        body: Seq::empty(),
        query_params: Seq::empty(),
    }
}

/// The example request a fresh configuration starts with.
pub open spec fn example_view(body: Seq<char>) -> RequestView {
    RequestView {
        method: "POST"@,
        title: "Create request"@,
        url: "http://google.com"@,
        body,
        query_params: Seq::empty(),
    }
}

/// The example request a fresh configuration starts with, with `body`.
pub fn example_request(body: &str) -> (r: Request)
    ensures
        r@ == example_view(body@),
{
    let r = Request {
        method: "POST".to_owned(),
        title: "Create request".to_owned(),
        url: "http://google.com".to_owned(),
        body: body.to_owned(),
        query_params: Vec::new(),
    };
    assert(r@.query_params =~= Seq::<Seq<char>>::empty());
    r
}

fn copy_strings(v: &Vec<String>) -> (r: Vec<String>)
    ensures
        r@.map_values(|q: String| q@) == v@.map_values(|q: String| q@),
{
    let mut r: Vec<String> = Vec::new();
    let mut i: usize = 0;
    while i < v.len()
        invariant
            0 <= i <= v@.len(),
            r@.len() == i,
            forall|j: int| 0 <= j < i ==> #[trigger] r@[j]@ == v@[j]@,
        decreases v.len() - i,
    {
        r.push(v[i].as_str().to_owned());
        i = i + 1;
    }
    assert(r@.map_values(|q: String| q@) =~= v@.map_values(|q: String| q@));
    r
}

/// The ordered requests.
pub struct Model {
    pub requests: Vec<Request>,
}

impl View for Model {
    type V = Seq<RequestView>;

    open spec fn view(&self) -> Seq<RequestView> {
        self.requests@.map_values(|r: Request| r@)
    }
}

impl Model {
    /// A model of copies of `requests`, query parameters left out.
    pub fn new(requests: Vec<Request>) -> (r: Self)
        ensures
            r@.len() == requests@.len(),
            forall|j: int| 0 <= j < requests@.len() ==> #[trigger] r@[j] == requests@[j]@.stripped(),
    {
        let mut arc_r: Vec<Request> = Vec::new();
        let mut i: usize = 0;
        while i < requests.len()
            invariant
                0 <= i <= requests@.len(),
                arc_r@.len() == i,
                forall|j: int| 0 <= j < i ==> #[trigger] arc_r@[j]@ == requests@[j]@.stripped(),
            decreases requests.len() - i,
        {
            let c = Request::from(&requests[i]);
            arc_r.push(c);
            i = i + 1;
        }
        Model { requests: arc_r }
    }

    /// Appends a request.
    pub fn add_request(&mut self, r: Request)
        ensures
            final(self)@ == old(self)@.push(r@),
    {
        self.requests.push(r);
        assert(self@ =~= old(self)@.push(r@));
    }

    /// Replaces request `i` with a copy of `r`, query parameters left out.
    pub fn update_request(&mut self, i: usize, r: &Request)
        requires
            i < old(self)@.len(),
        ensures
            final(self)@ == old(self)@.update(i as int, r@.stripped()),
    {
        let c = Request::from(r);
        self.requests.set(i, c);
        assert(self@ =~= old(self)@.update(i as int, r@.stripped()));
    }

    /// The requests of an API description: one per path, on the last
    /// server's URL, taken in as `new` takes requests in.
    pub fn import_from_openapi(servers: &Vec<String>, paths: &Vec<ApiPath>) -> (r: Self)
        ensures
            r@.len() == paths@.len(),
            forall|j: int|
                0 <= j < paths@.len() ==> #[trigger] r@[j] == request_of(
                    base_url(servers@.map_values(|q: String| q@)),
                    paths@[j],
                ),
    {
        let ghost sv = servers@.map_values(|q: String| q@);
        let mut base = String::new();
        let mut k: usize = 0;
        while k < servers.len()
            invariant
                0 <= k <= servers@.len(),
                sv == servers@.map_values(|q: String| q@),
                base@ == base_url(sv.subrange(0, k as int)),
            decreases servers.len() - k,
        {
            base = servers[k].as_str().to_owned();
            k = k + 1;
        }
        assert(sv.subrange(0, servers@.len() as int) =~= sv);
        let mut ret: Vec<Request> = Vec::new();
        let mut i: usize = 0;
        while i < paths.len()
            invariant
                0 <= i <= paths@.len(),
                base@ == base_url(sv),
                sv == servers@.map_values(|q: String| q@),
                ret@.len() == i,
                forall|j: int|
                    0 <= j < i ==> #[trigger] ret@[j]@.stripped() == request_of(base@, paths@[j]),
            decreases paths.len() - i,
        {
            let p = &paths[i];
            let mut url = base.as_str().to_owned();
            url.append(p.path.as_str());
            let mut request = Request {
                method: String::new(),
                title: String::new(),
                url,
                body: String::new(),
                query_params: Vec::new(),
            };
            match &p.get_params {
                Some(params) => {
                    request.method = "GET".to_owned();
                    request.query_params = copy_strings(params);
                },
                None => {},
            }
            if p.has_post {
                request.method = "POST".to_owned();
            }
            if p.has_put {
                request.method = "PUT".to_owned();
            }
            ret.push(request);
            i = i + 1;
        }
        Model::new(ret)
    }

    /// Sending a request is not done by the model.
    pub fn make_request(&self, request: &Request) {
    }

    /// Copies of all requests, query parameters left out.
    pub fn snapshot(&self) -> (r: Vec<Request>)
        ensures
            r@.len() == self@.len(),
            forall|j: int| 0 <= j < self@.len() ==> #[trigger] r@[j]@ == self@[j].stripped(),
    {
        let mut out: Vec<Request> = Vec::new();
        let mut i: usize = 0;
        while i < self.requests.len()
            invariant
                0 <= i <= self.requests@.len(),
                out@.len() == i,
                forall|j: int| 0 <= j < i ==> #[trigger] out@[j]@ == self@[j].stripped(),
            decreases self.requests.len() - i,
        {
            let c = Request::from(&self.requests[i]);
            out.push(c);
            i = i + 1;
        }
        out
    }
}

} // verus!
