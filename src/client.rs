//! The client: one logical request, carried out as a chain of exchanges
//! that follows redirects as the client's policy allows.

use vstd::prelude::*;

use crate::body::{Body, IntoBody};
use crate::headers::{lookup, Headers};
use crate::status::{class_of, StatusClass, StatusCode};
use crate::uri::{get_host_and_port, host_of, joined_url, port_of, UriError, Url};

verus! {

/// The most redirects that one call follows before it gives up.
pub const REDIRECT_LIMIT: usize = 20;

/// A request method.
#[derive(Clone, Debug)]
pub enum Method {
    Get,
    Head,
    Post,
    Put,
    Delete,
    Options,
    Connect,
    Patch,
    Trace,
    /// A method known by its name alone.
    Extension(String),
}

impl Method {
    /// Whether a request with this method may carry a body: all but GET
    /// and HEAD.
    pub open spec fn allows_body(&self) -> bool {
        !(self is Get || self is Head)
    }

    /// A second value of the same method.
    pub fn duplicate(&self) -> (r: Method)
        ensures
            r == *self,
    {
        match self {
            Method::Get => Method::Get,
            Method::Head => Method::Head,
            Method::Post => Method::Post,
            Method::Put => Method::Put,
            Method::Delete => Method::Delete,
            Method::Options => Method::Options,
            Method::Connect => Method::Connect,
            Method::Patch => Method::Patch,
            Method::Trace => Method::Trace,
            Method::Extension(name) => Method::Extension(name.clone()),
        }
    }

    /// Whether a request with this method may carry a body.
    pub fn can_have_body(&self) -> (r: bool)
        ensures
            r == self.allows_body(),
    {
        match self {
            Method::Get | Method::Head => false,
            _ => true,
        }
    }
}

/// How a client treats a redirection.
pub enum RedirectPolicy<F> {
    /// Follow no redirect.
    FollowNone,
    /// Follow every redirect that names where to go.
    FollowAll,
    /// Follow a redirect where the predicate holds of the URL it leads to.
    FollowIf(F),
}

/// Whether the predicate of a policy may be called on every URL.
pub open spec fn policy_ready<F: Fn(&Url) -> bool>(policy: RedirectPolicy<F>) -> bool {
    match policy {
        RedirectPolicy::FollowIf(f) => forall|u: &Url| #[trigger] f.requires((u,)),
        _ => true,
    }
}

/// Whether a policy may give `verdict` on the URL that a redirect leads to.
pub open spec fn accepts<F: Fn(&Url) -> bool>(
    policy: RedirectPolicy<F>,
    candidate: Url,
    verdict: bool,
) -> bool {
    match policy {
        RedirectPolicy::FollowNone => !verdict,
        RedirectPolicy::FollowAll => verdict,
        RedirectPolicy::FollowIf(f) => f.ensures((&candidate,), verdict),
    }
}

/// Options for one call.
pub struct RequestOptions<B> {
    /// The URL of the first exchange.
    pub url: Url,
    /// Fields to add to those of each request.
    pub headers: Option<Headers>,
    /// The request method, such as GET or POST.
    pub method: Method,
    /// The body, if one is to be sent.
    pub body: Option<B>,
}

/// What came back from one exchange.
#[derive(Debug)]
pub struct Response {
    /// The status of the response.
    pub status: StatusCode,
    /// The header fields of the response.
    pub headers: Headers,
}

/// The value of the response's `Location` field, if it has one.
pub open spec fn location_of(res: Response) -> Option<Seq<char>> {
    lookup(res.headers@, "Location"@)
}

/// The URL that a response redirects to from `url`: `None` where it is no
/// redirection, has no `Location`, or its `Location` cannot be resolved
/// against `url`.
pub open spec fn redirect_target(url: Seq<char>, res: Response) -> Option<Seq<char>> {
    if class_of(res.status.value()) != StatusClass::Redirection {
        None
    } else {
        match location_of(res) {
            None => None,
            Some(loc) => joined_url(url, loc),
        }
    }
}

/// Whether a response to `url` leads on to `next` under the policy.
pub open spec fn follows<F: Fn(&Url) -> bool>(
    policy: RedirectPolicy<F>,
    url: Url,
    res: Response,
    next: Url,
) -> bool {
    redirect_target(url@, res) == Some(next@) && accepts(policy, next, true)
}

/// Whether a response to `url` ends the call under the policy.
pub open spec fn stops<F: Fn(&Url) -> bool>(policy: RedirectPolicy<F>, url: Url, res: Response) -> bool {
    match redirect_target(url@, res) {
        None => true,
        Some(t) => exists|c: Url| c@ == t && #[trigger] accepts(policy, c, false),
    }
}

/// One exchange as a connector saw it: the request it was handed and what
/// came of it.
pub struct Exchange<R> {
    /// The request handed to the connector.
    pub request: Request<R>,
    /// The response, or how the transport failed.
    pub outcome: Result<Response, String>,
}

/// The fields of optional headers.
pub open spec fn headers_view(h: Option<Headers>) -> Option<Seq<(Seq<char>, Seq<char>)>> {
    match h {
        Some(x) => Some(x@),
        None => None,
    }
}

/// Why a URL cannot be connected to, if it cannot.
pub open spec fn uri_error_of(url: Seq<char>) -> Option<UriError> {
    if host_of(url) is None {
        Some(UriError::EmptyHost)
    } else if port_of(url) is None {
        Some(UriError::InvalidPort)
    } else {
        None
    }
}

/// The exchanges added to a log that grew from `before` to `after`.
pub open spec fn new_entries<R>(before: Seq<Exchange<R>>, after: Seq<Exchange<R>>) -> Seq<
    Exchange<R>,
> {
    after.subrange(before.len() as int, after.len() as int)
}

/// The `Content-Length` that exchange `i` of a call declares: none for GET
/// and HEAD, the body's own for the first exchange, zero once no body is
/// left.
pub open spec fn planned_length<R, B: IntoBody<R>>(method: Method, body: Option<B>, i: int) -> Option<
    usize,
> {
    if !method.allows_body() {
        None
    } else if i == 0 {
        match body {
            Some(b) => b.declared_size(),
            None => Some(0),
        }
    } else {
        Some(0)
    }
}

/// Request `i` of a call with these options is the one planned: same
/// method and headers, the host and port of its URL, the body made of the
/// given one on the first request only, where the method allows a body, and
/// the `Content-Length` planned.
pub open spec fn sent_as_planned<R, B: IntoBody<R>>(options: RequestOptions<B>, i: int, req: Request<R>) -> bool {
    &&& req.method == options.method
    &&& headers_view(req.headers) == headers_view(options.headers)
    &&& host_of(req.url@) == Some(req.host@)
    &&& port_of(req.url@) == Some(req.port)
    &&& (req.body is Some <==> (options.method.allows_body() && i == 0 && options.body is Some))
    &&& (req.body matches Some(b) ==> options.body->0.becomes(b))
    &&& req.content_length == planned_length::<R, B>(options.method, options.body, i)
}

/// A call with these options under the policy made exactly the exchanges
/// `sent` and returned `r`: the first request goes to the options' URL, each
/// response but the last redirects to the next request's URL, and `r` is
/// the last response where it ends the call, the transport's failure on the
/// last request, the refusal of a URL that cannot be connected to, or the
/// giving up after `REDIRECT_LIMIT` redirects.
pub open spec fn is_call<R, B: IntoBody<R>, F: Fn(&Url) -> bool>(
    policy: RedirectPolicy<F>,
    options: RequestOptions<B>,
    sent: Seq<Exchange<R>>,
    r: Result<Response, HttpError>,
) -> bool {
    &&& sent.len() <= REDIRECT_LIMIT + 1
    &&& forall|i: int| 0 <= i < sent.len() ==> sent_as_planned(options, i, #[trigger] sent[i].request)
    &&& sent.len() > 0 ==> sent[0].request.url == options.url
    &&& forall|i: int|
        0 <= i < sent.len() - 1 ==> (#[trigger] sent[i]).outcome is Ok && follows(
            policy,
            sent[i].request.url,
            sent[i].outcome->Ok_0,
            sent[i + 1].request.url,
        )
    &&& match r {
        Ok(res) => sent.len() > 0 && sent.last().outcome == Ok::<Response, String>(res) && stops(
            policy,
            sent.last().request.url,
            res,
        ),
        Err(HttpError::Io(e)) => sent.len() > 0 && sent.last().outcome == Err::<Response, String>(e),
        Err(HttpError::TooManyRedirects) => sent.len() == REDIRECT_LIMIT + 1
            && sent.last().outcome is Ok && exists|n: Url|
            #[trigger] follows(policy, sent.last().request.url, sent.last().outcome->Ok_0, n),
        Err(HttpError::Uri(e)) => sent.len() <= REDIRECT_LIMIT && if sent.len() == 0 {
            uri_error_of(options.url@) == Some(e)
        } else {
            sent.last().outcome is Ok && exists|n: Url|
                #[trigger] follows(policy, sent.last().request.url, sent.last().outcome->Ok_0, n)
                    && uri_error_of(n@) == Some(e)
        },
    }
}

impl Response {
    /// A second response with the same status and the same fields.
    pub fn duplicate(&self) -> (r: Response)
        ensures
            r.status == self.status,
            r.headers@ == self.headers@,
    {
        Response { status: self.status, headers: self.headers.duplicate() }
    }

    /// The value of the `Location` field, if any.
    pub fn location(&self) -> (r: Option<String>)
        ensures
            r is Some <==> location_of(*self) is Some,
            r matches Some(v) ==> location_of(*self) == Some(v@),
    {
        self.headers.get("Location")
    }
}

/// The `Content-Length` to declare for one exchange: none where the method
/// allows no body or the body is chunked, the length of a sized body, and
/// zero where no body is left to send.
pub open spec fn length_to_declare<R>(allows_body: bool, body: Option<Body<R>>) -> Option<usize> {
    if !allows_body {
        None
    } else {
        match body {
            Some(b) => b.spec_size(),
            None => Some(0),
        }
    }
}

/// The `Content-Length` to declare for one exchange.
pub fn declared_length<R>(can_have_body: bool, body: &Option<Body<R>>) -> (r: Option<usize>)
    ensures
        r == length_to_declare(can_have_body, *body),
{
    if !can_have_body {
        None
    } else {
        match body {
            Some(b) => b.size(),
            None => Some(0),
        }
    }
}

/// One exchange as a connector is to carry it out.
pub struct Request<R> {
    /// The request method.
    pub method: Method,
    /// The URL requested.
    pub url: Url,
    /// The host to connect to.
    pub host: String,
    /// The port to connect to.
    pub port: u16,
    /// Fields that the caller asked to add.
    pub headers: Option<Headers>,
    /// The `Content-Length` to send, if any.
    pub content_length: Option<usize>,
    /// The body to send, if any.
    pub body: Option<Body<R>>,
}

/// Why a call failed.
#[derive(Debug)]
pub enum HttpError {
    /// The URL cannot be connected to.
    Uri(UriError),
    /// The transport failed; the text says how.
    Io(String),
    /// The chain of redirects went on past the limit.
    TooManyRedirects,
}

/// A transport: carries out one exchange, over a fresh connection, and
/// keeps a log of the exchanges it carried out.
pub trait Connector<R> {
    /// The exchanges carried out so far, oldest first.
    spec fn log(&self) -> Seq<Exchange<R>>;

    /// Sends the request and reads the response; on failure, says how it
    /// failed. Either way the exchange is added to the log.
    fn send(&mut self, request: Request<R>) -> (r: Result<Response, String>)
        ensures
            final(self).log() == old(self).log().push(Exchange { request, outcome: r }),
    ;
}

/// A client, which holds its redirect policy and nothing else.
pub struct Client<F> {
    redirect_policy: RedirectPolicy<F>,
}

impl<F: Fn(&Url) -> bool> Client<F> {
    /// The client's redirect policy.
    pub closed spec fn policy(&self) -> RedirectPolicy<F> {
        self.redirect_policy
    }

    /// A client with the given redirect policy.
    pub fn new(redirect_policy: RedirectPolicy<F>) -> (r: Client<F>)
        ensures
            r.policy() == redirect_policy,
    {
        Client { redirect_policy }
    }

    /// Carries out a GET request, with no body.
    pub fn get<R, C: Connector<R>>(&mut self, connector: &mut C, url: Url) -> (r: Result<
        Response,
        HttpError,
    >)
        requires
            policy_ready(old(self).policy()),
        ensures
            final(self).policy() == old(self).policy(),
            final(connector).log().subrange(0, old(connector).log().len() as int) == old(
                connector,
            ).log(),
            old(connector).log().len() <= final(connector).log().len(),
            is_call(
                old(self).policy(),
                (RequestOptions { method: Method::Get, url, headers: None, body: None::<&str> }),
                new_entries(old(connector).log(), final(connector).log()),
                r,
            ),
    {
        self.request(connector, RequestOptions { method: Method::Get, url, headers: None, body: None::<&str> })
    }

    /// Carries out a POST request with the given body.
    pub fn post<R, B: IntoBody<R>, C: Connector<R>>(
        &mut self,
        connector: &mut C,
        url: Url,
        body: B,
    ) -> (r: Result<Response, HttpError>)
        requires
            policy_ready(old(self).policy()),
        ensures
            final(self).policy() == old(self).policy(),
            final(connector).log().subrange(0, old(connector).log().len() as int) == old(
                connector,
            ).log(),
            old(connector).log().len() <= final(connector).log().len(),
            is_call(
                old(self).policy(),
                (RequestOptions { method: Method::Post, url, headers: None, body: Some(body) }),
                new_entries(old(connector).log(), final(connector).log()),
                r,
            ),
    {
        self.request(connector, RequestOptions { method: Method::Post, url, headers: None, body: Some(body) })
    }

    /// Carries out a call: sends the request, follows redirects as the
    /// policy allows, and returns the response that ends the call.
    ///
    /// A body is materialized once and goes with the first exchange only;
    /// GET and HEAD requests carry neither a body nor a `Content-Length`.
    /// A `Location` that is missing or cannot be resolved ends the call with
    /// the redirection in hand. After `REDIRECT_LIMIT` redirects the call
    /// fails with `TooManyRedirects`.
    pub fn request<R, B: IntoBody<R>, C: Connector<R>>(
        &mut self,
        connector: &mut C,
        options: RequestOptions<B>,
    ) -> (r: Result<Response, HttpError>)
        requires
            policy_ready(old(self).policy()),
        ensures
            final(self).policy() == old(self).policy(),
            final(connector).log().subrange(0, old(connector).log().len() as int) == old(
                connector,
            ).log(),
            old(connector).log().len() <= final(connector).log().len(),
            is_call(
                old(self).policy(),
                options,
                new_entries(old(connector).log(), final(connector).log()),
                r,
            ),
            host_of(options.url@) is None ==> r matches Err(HttpError::Uri(UriError::EmptyHost)),
            host_of(options.url@) is Some && port_of(options.url@) is None ==> r matches Err(
                HttpError::Uri(UriError::InvalidPort),
            ),
    {
        let ghost given: RequestOptions<B> = options;
        let ghost before: Seq<Exchange<R>> = connector.log();
        let RequestOptions { url, headers, method, body } = options;
        let can_have_body = method.can_have_body();
        let mut body: Option<Body<R>> = if can_have_body {
            match body {
                Some(b) => Some(b.into_body()),
                None => None,
            }
        } else {
            None
        };
        let mut url = url;
        let mut hops: usize = 0;
        loop
            invariant
                self.policy() == old(self).policy(),
                given == options,
                before == old(connector).log(),
                policy_ready(self.policy()),
                method == given.method,
                headers_view(headers) == headers_view(given.headers),
                can_have_body == method.allows_body(),
                hops <= REDIRECT_LIMIT,
                connector.log().len() == before.len() + hops,
                connector.log().subrange(0, before.len() as int) == before,
                hops == 0 ==> url == given.url,
                hops > 0 ==> uri_error_of(given.url@) is None,
                hops == 0 ==> (body is Some <==> (can_have_body && given.body is Some)),
                hops == 0 && body is Some ==> body->0.wf() && body->0.spec_size()
                    == given.body->0.declared_size() && given.body->0.becomes(body->0),
                hops > 0 ==> body is None,
                forall|i: int|
                    0 <= i < hops ==> sent_as_planned(
                        given,
                        i,
                        #[trigger] new_entries(before, connector.log())[i].request,
                    ),
                hops > 0 ==> new_entries(before, connector.log())[0].request.url == given.url,
                forall|i: int|
                    0 <= i < hops - 1 ==> (#[trigger] new_entries(before, connector.log())[i]).outcome is Ok
                        && follows(
                        self.policy(),
                        new_entries(before, connector.log())[i].request.url,
                        new_entries(before, connector.log())[i].outcome->Ok_0,
                        new_entries(before, connector.log())[i + 1].request.url,
                    ),
                hops > 0 ==> new_entries(before, connector.log()).last().outcome is Ok && follows(
                    self.policy(),
                    new_entries(before, connector.log()).last().request.url,
                    new_entries(before, connector.log()).last().outcome->Ok_0,
                    url,
                ),
            decreases REDIRECT_LIMIT - hops,
        {
            let (host, port) = match get_host_and_port(&url) {
                Ok(hp) => hp,
                Err(e) => {
                    proof {
                        assert(new_entries(before, connector.log()).len() == hops);
                    }
                    return Err(HttpError::Uri(e));
                },
            };
            let content_length = declared_length(can_have_body, &body);
            let request = Request {
                method: method.duplicate(),
                url: url.duplicate(),
                host,
                port,
                headers: match &headers {
                    Some(h) => Some(h.duplicate()),
                    None => None,
                },
                content_length,
                body: body.take(),
            };
            let ghost req = request;
            let ghost log_before = connector.log();
            let sent = connector.send(request);
            proof {
                let old_new = new_entries(before, log_before);
                let now = new_entries(before, connector.log());
                assert(now =~= old_new.push(Exchange { request: req, outcome: sent }));
                assert(connector.log().subrange(0, before.len() as int) =~= before);
                assert(sent_as_planned(given, hops as int, req));
                assert forall|i: int| 0 <= i < hops + 1 implies sent_as_planned(
                    given,
                    i,
                    #[trigger] now[i].request,
                ) by {
                    if i < hops {
                        assert(now[i] == old_new[i]);
                    }
                }
                assert forall|i: int|
                    0 <= i < hops implies (#[trigger] now[i]).outcome is Ok && follows(
                    self.policy(),
                    now[i].request.url,
                    now[i].outcome->Ok_0,
                    now[i + 1].request.url,
                ) by {
                    assert(now[i] == old_new[i]);
                    if i < hops - 1 {
                        assert(now[i + 1] == old_new[i + 1]);
                        assert(old_new[i].outcome is Ok);
                    }
                }
            }
            let res = match sent {
                Ok(res) => res,
                Err(e) => return Err(HttpError::Io(e)),
            };
            match self.next_hop(&url, &res) {
                None => {
                    return Ok(res);
                },
                Some(next) => {
                    if hops == REDIRECT_LIMIT {
                        return Err(HttpError::TooManyRedirects);
                    }
                    url = next;
                    hops = hops + 1;
                },
            }
        }
    }

    /// Decides, after a response to `url`, where the call goes next: the URL
    /// of the next exchange, or `None` where this response ends the call.
    pub fn next_hop(&self, url: &Url, res: &Response) -> (r: Option<Url>)
        requires
            policy_ready(self.policy()),
        ensures
            r matches Some(next) ==> follows(self.policy(), *url, *res, next),
            r is None ==> stops(self.policy(), *url, *res),
    {
        if !res.status.is_redirection() {
            return None;
        }
        let loc = match res.location() {
            Some(l) => l,
            None => return None,
        };
        let next = match url.join(loc.as_str()) {
            Some(u) => u,
            None => return None,
        };
        match &self.redirect_policy {
            RedirectPolicy::FollowAll => Some(next),
            RedirectPolicy::FollowNone => {
                assert(accepts(self.policy(), next, false));
                None
            },
            RedirectPolicy::FollowIf(f) => {
                if f(&next) {
                    Some(next)
                } else {
                    assert(accepts(self.policy(), next, false));
                    None
                }
            },
        }
    }
}

impl<F: Fn(&Url) -> bool> Default for Client<F> {
    /// A client that follows every redirect.
    fn default() -> (r: Client<F>)
        ensures
            r.policy() == RedirectPolicy::<F>::FollowAll,
    {
        Client::new(RedirectPolicy::FollowAll)
    }
}

/// Where every URL is answered the same way, the requests of a call that
/// starts on a chain of redirects keep to it.
proof fn lemma_call_keeps_to_chain<R, B: IntoBody<R>, F: Fn(&Url) -> bool>(
    policy: RedirectPolicy<F>,
    options: RequestOptions<B>,
    serve: spec_fn(Seq<char>) -> Response,
    us: Seq<Seq<char>>,
    sent: Seq<Exchange<R>>,
    r: Result<Response, HttpError>,
    k: int,
)
    requires
        is_call(policy, options, sent, r),
        options.url@ == us[0],
        forall|i: int|
            0 <= i < us.len() - 1 ==> redirect_target(us[i], #[trigger] serve(us[i])) == Some(us[i + 1]),
        forall|i: int|
            0 <= i < sent.len() ==> (#[trigger] sent[i]).outcome == Ok::<Response, String>(
                serve(sent[i].request.url@),
            ),
        0 <= k < sent.len(),
        k < us.len(),
    ensures
        sent[k].request.url@ == us[k],
    decreases k,
{
    if k > 0 {
        lemma_call_keeps_to_chain(policy, options, serve, us, sent, r, k - 1);
        assert(sent[k - 1].outcome is Ok);
    }
}

/// Under `FollowAll`, where each URL is always answered the same way, with
/// no transport failure, and the answers to `us[0]`, ..., `us[n - 1]` are
/// redirections, each to the next URL of `us`, while the answer to `us[n]`
/// is no redirection, a call on `us[0]` that can connect to each of them
/// makes exactly `n + 1` exchanges, to `us[0]`, ..., `us[n]` in order, and
/// returns the answer to `us[n]`.
pub proof fn lemma_follow_all_reaches_chain_end<R, B: IntoBody<R>, F: Fn(&Url) -> bool>(
    options: RequestOptions<B>,
    serve: spec_fn(Seq<char>) -> Response,
    us: Seq<Seq<char>>,
    n: int,
    sent: Seq<Exchange<R>>,
    r: Result<Response, HttpError>,
)
    requires
        0 <= n <= REDIRECT_LIMIT,
        us.len() == n + 1,
        options.url@ == us[0],
        forall|i: int| 0 <= i < n ==> redirect_target(us[i], #[trigger] serve(us[i])) == Some(us[i + 1]),
        class_of(serve(us[n]).status.value()) != StatusClass::Redirection,
        forall|i: int| 0 <= i <= n ==> uri_error_of(#[trigger] us[i]) is None,
        is_call(RedirectPolicy::<F>::FollowAll, options, sent, r),
        forall|i: int|
            0 <= i < sent.len() ==> (#[trigger] sent[i]).outcome == Ok::<Response, String>(
                serve(sent[i].request.url@),
            ),
    ensures
        sent.len() == n + 1,
        forall|i: int| 0 <= i <= n ==> (#[trigger] sent[i]).request.url@ == us[i],
        r == Ok::<Response, HttpError>(serve(us[n])),
{
    let policy = RedirectPolicy::<F>::FollowAll;
    assert(uri_error_of(us[0]) is None);
    if sent.len() == 0 {
        assert(r is Err);
    } else {
        let m = sent.len() - 1;
        if m > n {
            lemma_call_keeps_to_chain(policy, options, serve, us, sent, r, n);
            assert(sent[n].outcome is Ok);
        } else {
            lemma_call_keeps_to_chain(policy, options, serve, us, sent, r, m);
            assert(sent[m].outcome == Ok::<Response, String>(serve(us[m])));
            if m < n {
                assert(redirect_target(us[m], serve(us[m])) == Some(us[m + 1]));
                assert(uri_error_of(us[m + 1]) is None);
                match r {
                    Ok(res) => {
                        assert(stops(policy, sent.last().request.url, res));
                    },
                    Err(HttpError::Uri(e)) => {
                        let w = choose|w: Url|
                            #[trigger] follows(policy, sent.last().request.url, sent.last().outcome->Ok_0, w)
                                && uri_error_of(w@) == Some(e);
                        assert(w@ == us[m + 1]);
                    },
                    _ => {},
                }
            } else {
                match r {
                    Err(HttpError::TooManyRedirects) => {
                        let w = choose|w: Url|
                            #[trigger] follows(policy, sent.last().request.url, sent.last().outcome->Ok_0, w);
                    },
                    Err(HttpError::Uri(e)) => {
                        let w = choose|w: Url|
                            #[trigger] follows(policy, sent.last().request.url, sent.last().outcome->Ok_0, w)
                                && uri_error_of(w@) == Some(e);
                    },
                    _ => {},
                }
            }
            assert forall|i: int| 0 <= i <= n implies (#[trigger] sent[i]).request.url@ == us[i] by {
                lemma_call_keeps_to_chain(policy, options, serve, us, sent, r, i);
            }
        }
    }
}

/// Under `FollowNone`, a call on a URL that can be connected to, with no
/// transport failure, makes a single exchange and returns its response
/// unchanged, a redirection or not.
pub proof fn lemma_follow_none_returns_first<R, B: IntoBody<R>, F: Fn(&Url) -> bool>(
    options: RequestOptions<B>,
    sent: Seq<Exchange<R>>,
    r: Result<Response, HttpError>,
)
    requires
        uri_error_of(options.url@) is None,
        is_call(RedirectPolicy::<F>::FollowNone, options, sent, r),
        forall|i: int| 0 <= i < sent.len() ==> (#[trigger] sent[i]).outcome is Ok,
    ensures
        sent.len() == 1,
        r == Ok::<Response, HttpError>(sent[0].outcome->Ok_0),
{
    let policy = RedirectPolicy::<F>::FollowNone;
    if sent.len() > 1 {
        assert(follows(policy, sent[0].request.url, sent[0].outcome->Ok_0, sent[1].request.url));
    }
    match r {
        Err(HttpError::TooManyRedirects) => {
            let w = choose|w: Url|
                #[trigger] follows(policy, sent.last().request.url, sent.last().outcome->Ok_0, w);
        },
        Err(HttpError::Uri(e)) => {
            if sent.len() > 0 {
                let w = choose|w: Url|
                    #[trigger] follows(policy, sent.last().request.url, sent.last().outcome->Ok_0, w)
                        && uri_error_of(w@) == Some(e);
            }
        },
        _ => {},
    }
}

/// Under `FollowIf` with a predicate that always answers as `p` does, every
/// redirect that a call followed led to a URL that `p` accepts; a call that
/// returns a response returns the first one whose redirect target `p`
/// rejects, or one that leads nowhere; and a call that gives up or cannot
/// connect does so on a URL that `p` accepted.
pub proof fn lemma_follow_if_ends_at_rejection<R, B: IntoBody<R>, F: Fn(&Url) -> bool>(
    f: F,
    p: spec_fn(Seq<char>) -> bool,
    options: RequestOptions<B>,
    sent: Seq<Exchange<R>>,
    r: Result<Response, HttpError>,
)
    requires
        forall|u: &Url, b: bool| #[trigger] f.ensures((u,), b) ==> b == p(u@),
        is_call(RedirectPolicy::FollowIf(f), options, sent, r),
    ensures
        forall|i: int|
            0 <= i < sent.len() - 1 ==> redirect_target(
                #[trigger] sent[i].request.url@,
                sent[i].outcome->Ok_0,
            ) == Some(sent[i + 1].request.url@) && p(sent[i + 1].request.url@),
        r matches Ok(res) ==> match redirect_target(sent.last().request.url@, res) {
            Some(c) => !p(c),
            None => true,
        },
        (r matches Err(HttpError::TooManyRedirects) || (r matches Err(HttpError::Uri(_)) && sent.len()
            > 0)) ==> match redirect_target(sent.last().request.url@, sent.last().outcome->Ok_0) {
            Some(c) => p(c),
            None => false,
        },
{
    let policy = RedirectPolicy::FollowIf(f);
    assert forall|i: int| 0 <= i < sent.len() - 1 implies redirect_target(
        #[trigger] sent[i].request.url@,
        sent[i].outcome->Ok_0,
    ) == Some(sent[i + 1].request.url@) && p(sent[i + 1].request.url@) by {
        assert(sent[i].outcome is Ok);
        assert(f.ensures((&sent[i + 1].request.url,), true));
    }
    match r {
        Ok(res) => {
            if let Some(c) = redirect_target(sent.last().request.url@, res) {
                let w = choose|w: Url| w@ == c && #[trigger] accepts(policy, w, false);
                assert(f.ensures((&w,), false));
            }
        },
        Err(HttpError::TooManyRedirects) => {
            let w = choose|w: Url|
                #[trigger] follows(policy, sent.last().request.url, sent.last().outcome->Ok_0, w);
            assert(f.ensures((&w,), true));
        },
        Err(HttpError::Uri(e)) => {
            if sent.len() > 0 {
                let w = choose|w: Url|
                    #[trigger] follows(policy, sent.last().request.url, sent.last().outcome->Ok_0, w)
                        && uri_error_of(w@) == Some(e);
                assert(f.ensures((&w,), true));
            }
        },
        _ => {},
    }
}

/// A redirection without a `Location` field ends the call, under every
/// policy: it is the last exchange, and the call returns it.
pub proof fn lemma_missing_location_ends_call<R, B: IntoBody<R>, F: Fn(&Url) -> bool>(
    policy: RedirectPolicy<F>,
    options: RequestOptions<B>,
    sent: Seq<Exchange<R>>,
    r: Result<Response, HttpError>,
    i: int,
    res: Response,
)
    requires
        is_call(policy, options, sent, r),
        0 <= i < sent.len(),
        sent[i].outcome == Ok::<Response, String>(res),
        location_of(res) is None,
    ensures
        i == sent.len() - 1,
        r == Ok::<Response, HttpError>(res),
{
    if i < sent.len() - 1 {
        assert(follows(policy, sent[i].request.url, sent[i].outcome->Ok_0, sent[i + 1].request.url));
    }
    match r {
        Err(HttpError::TooManyRedirects) => {
            let w = choose|w: Url|
                #[trigger] follows(policy, sent.last().request.url, sent.last().outcome->Ok_0, w);
        },
        Err(HttpError::Uri(e)) => {
            let w = choose|w: Url|
                #[trigger] follows(policy, sent.last().request.url, sent.last().outcome->Ok_0, w)
                    && uri_error_of(w@) == Some(e);
        },
        _ => {},
    }
}

/// GET and HEAD requests declare no `Content-Length` and send no body in
/// any exchange, whatever body was given.
pub proof fn lemma_bodyless_methods_send_nothing<R, B: IntoBody<R>, F: Fn(&Url) -> bool>(
    policy: RedirectPolicy<F>,
    options: RequestOptions<B>,
    sent: Seq<Exchange<R>>,
    r: Result<Response, HttpError>,
)
    requires
        options.method is Get || options.method is Head,
        is_call(policy, options, sent, r),
    ensures
        forall|i: int|
            0 <= i < sent.len() ==> (#[trigger] sent[i]).request.content_length is None
                && sent[i].request.body is None,
{
    assert forall|i: int| 0 <= i < sent.len() implies (#[trigger] sent[i]).request.content_length is None
        && sent[i].request.body is None by {
        assert(sent_as_planned(options, i, sent[i].request));
    }
}

/// A request whose method allows a body but that was given none declares
/// a `Content-Length` of zero and sends no body in every exchange.
pub proof fn lemma_no_body_declares_zero<R, B: IntoBody<R>, F: Fn(&Url) -> bool>(
    policy: RedirectPolicy<F>,
    options: RequestOptions<B>,
    sent: Seq<Exchange<R>>,
    r: Result<Response, HttpError>,
)
    requires
        options.method.allows_body(),
        options.body is None,
        is_call(policy, options, sent, r),
    ensures
        forall|i: int|
            0 <= i < sent.len() ==> (#[trigger] sent[i]).request.content_length == Some(0usize)
                && sent[i].request.body is None,
{
    assert forall|i: int| 0 <= i < sent.len() implies (#[trigger] sent[i]).request.content_length
        == Some(0usize) && sent[i].request.body is None by {
        assert(sent_as_planned(options, i, sent[i].request));
    }
}

/// A body goes with the first exchange only: no request after a redirect
/// carries one, and each declares a `Content-Length` of zero where the
/// method allows a body.
pub proof fn lemma_body_not_resent<R, B: IntoBody<R>, F: Fn(&Url) -> bool>(
    policy: RedirectPolicy<F>,
    options: RequestOptions<B>,
    sent: Seq<Exchange<R>>,
    r: Result<Response, HttpError>,
)
    requires
        is_call(policy, options, sent, r),
    ensures
        forall|i: int|
            0 < i < sent.len() ==> (#[trigger] sent[i]).request.body is None && (
            options.method.allows_body() ==> sent[i].request.content_length == Some(0usize)),
{
    assert forall|i: int| 0 < i < sent.len() implies (#[trigger] sent[i]).request.body is None && (
    options.method.allows_body() ==> sent[i].request.content_length == Some(0usize)) by {
        assert(sent_as_planned(options, i, sent[i].request));
    }
}

} // verus!
