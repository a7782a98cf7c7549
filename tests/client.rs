use hyper_client::body::Body;
use hyper_client::client::{
    declared_length, Client, HttpError, Method, RedirectPolicy, RequestOptions, Response,
    REDIRECT_LIMIT,
};
use hyper_client::headers::Headers;
use hyper_client::mock::{ScriptedConnector, NO_ROUTE};
use hyper_client::status::StatusCode;
use hyper_client::uri::{UriError, Url};

fn response(code: u16, location: Option<&str>, server: &str) -> Response {
    let mut headers = Headers::new();
    if let Some(loc) = location {
        headers.append("Location".to_string(), loc.to_string());
    }
    headers.append("Server".to_string(), server.to_string());
    Response { status: StatusCode::from_code(code), headers }
}

/// The three chained answers: a 301 to the second host, a 302 to the third
/// over https, and a 200 there.
fn mock_redirect_policy<R>() -> ScriptedConnector<R> {
    scripted(vec![
        ("http://127.0.0.1/", 301, Some("http://127.0.0.2"), "mock1"),
        ("http://127.0.0.2/", 302, Some("https://127.0.0.3"), "mock2"),
        ("https://127.0.0.3/", 200, None, "mock3"),
    ])
}

fn scripted<R>(routes: Vec<(&str, u16, Option<&str>, &str)>) -> ScriptedConnector<R> {
    let mut c = ScriptedConnector::new();
    for (url, code, location, server) in routes {
        c.add_route(url, response(code, location, server));
    }
    c
}

/// What each request handed to the connector declared: URL, length, and
/// whether a body went with it.
fn seen<R>(c: &ScriptedConnector<R>) -> Vec<(String, Option<usize>, bool)> {
    c.requests
        .iter()
        .map(|r| (r.url.as_str().to_string(), r.content_length, r.body.is_some()))
        .collect()
}

fn server_of(res: &Response) -> Option<String> {
    res.headers.get("Server")
}

type Predicate = fn(&Url) -> bool;

#[test]
fn test_redirect_followall() {
    let mut client: Client<Predicate> = Client::new(RedirectPolicy::FollowAll);
    let mut mock = mock_redirect_policy();
    let res = client
        .get::<(), _>(&mut mock, Url::parse("http://127.0.0.1").unwrap())
        .unwrap();
    assert_eq!(server_of(&res), Some("mock3".to_string()));
}

#[test]
fn test_redirect_dontfollow() {
    let mut client: Client<Predicate> = Client::new(RedirectPolicy::FollowNone);
    let mut mock = mock_redirect_policy();
    let res = client
        .get::<(), _>(&mut mock, Url::parse("http://127.0.0.1").unwrap())
        .unwrap();
    assert_eq!(server_of(&res), Some("mock1".to_string()));
}

#[test]
fn test_redirect_followif() {
    fn follow_if(url: &Url) -> bool {
        !url.as_str().contains("127.0.0.3")
    }
    let mut client: Client<Predicate> = Client::new(RedirectPolicy::FollowIf(follow_if));
    let mut mock = mock_redirect_policy();
    let res = client
        .get::<(), _>(&mut mock, Url::parse("http://127.0.0.1").unwrap())
        .unwrap();
    assert_eq!(server_of(&res), Some("mock2".to_string()));
}

#[test]
fn follow_all_takes_one_exchange_per_redirect() {
    let mut client: Client<Predicate> = Client::new(RedirectPolicy::FollowAll);
    let mut mock = scripted(vec![
        ("http://a.test/", 301, Some("/one"), "a"),
        ("http://a.test/one", 302, Some("http://b.test/two"), "b"),
        ("http://b.test/two", 307, Some("three"), "c"),
        ("http://b.test/three", 404, None, "d"),
    ]);
    let res = client
        .get::<(), _>(&mut mock, Url::parse("http://a.test").unwrap())
        .unwrap();
    assert_eq!(res.status.to_u16(), 404);
    assert_eq!(server_of(&res), Some("d".to_string()));
    assert_eq!(mock.requests.len(), 4);
}

#[test]
fn follow_none_returns_first_redirect_unchanged() {
    let mut client: Client<Predicate> = Client::new(RedirectPolicy::FollowNone);
    let mut mock = mock_redirect_policy();
    let res = client
        .get::<(), _>(&mut mock, Url::parse("http://127.0.0.1").unwrap())
        .unwrap();
    assert_eq!(res.status.to_u16(), 301);
    assert_eq!(res.location(), Some("http://127.0.0.2".to_string()));
    assert_eq!(mock.requests.len(), 1);
}

#[test]
fn follow_if_accepting_everything_reaches_the_end() {
    fn always(_: &Url) -> bool {
        true
    }
    let mut client: Client<Predicate> = Client::new(RedirectPolicy::FollowIf(always));
    let mut mock = mock_redirect_policy();
    let res = client
        .get::<(), _>(&mut mock, Url::parse("http://127.0.0.1").unwrap())
        .unwrap();
    assert_eq!(server_of(&res), Some("mock3".to_string()));
}

#[test]
fn redirect_without_location_is_terminal_under_follow_all() {
    let mut client: Client<Predicate> = Client::new(RedirectPolicy::FollowAll);
    let mut mock = scripted(vec![("http://a.test/", 304, None, "a")]);
    let res = client
        .get::<(), _>(&mut mock, Url::parse("http://a.test").unwrap())
        .unwrap();
    assert_eq!(res.status.to_u16(), 304);
    assert_eq!(mock.requests.len(), 1);
}

#[test]
fn malformed_location_is_terminal() {
    let mut client: Client<Predicate> = Client::new(RedirectPolicy::FollowAll);
    let mut mock = scripted(vec![("http://a.test/", 302, Some("http://[::1"), "a")]);
    let res = client
        .get::<(), _>(&mut mock, Url::parse("http://a.test").unwrap())
        .unwrap();
    assert_eq!(res.status.to_u16(), 302);
    assert_eq!(mock.requests.len(), 1);
}

#[test]
fn endless_redirects_hit_the_limit() {
    let mut client: Client<Predicate> = Client::new(RedirectPolicy::FollowAll);
    let mut mock = scripted(vec![("http://a.test/", 302, Some("http://a.test/"), "a")]);
    let res = client.get::<(), _>(&mut mock, Url::parse("http://a.test").unwrap());
    assert!(matches!(res, Err(HttpError::TooManyRedirects)));
    assert_eq!(mock.requests.len(), REDIRECT_LIMIT + 1);
}

#[test]
fn url_without_host_is_a_uri_error() {
    let mut client: Client<Predicate> = Client::new(RedirectPolicy::FollowAll);
    let mut mock = mock_redirect_policy();
    let res = client.get::<(), _>(&mut mock, Url::parse("data:text/plain,x").unwrap());
    assert!(matches!(res, Err(HttpError::Uri(UriError::EmptyHost))));
    assert_eq!(mock.requests.len(), 0);
}

#[test]
fn transport_failure_is_an_io_error() {
    let mut client: Client<Predicate> = Client::new(RedirectPolicy::FollowAll);
    let mut mock = scripted::<()>(vec![("http://a.test/", 302, Some("http://unknown.test/"), "a")]);
    let res = client.get(&mut mock, Url::parse("http://a.test").unwrap());
    assert!(matches!(res, Err(HttpError::Io(ref m)) if m == NO_ROUTE));
    assert_eq!(mock.requests.len(), 2);
}

#[test]
fn get_and_head_send_no_length_and_no_body() {
    for method in [Method::Get, Method::Head] {
        let mut client: Client<Predicate> = Client::new(RedirectPolicy::FollowAll);
        let mut mock = mock_redirect_policy::<()>();
        let options = RequestOptions {
            url: Url::parse("http://127.0.0.1").unwrap(),
            headers: None,
            method,
            body: Some("ignored body"),
        };
        client.request::<(), _, _>(&mut mock, options).unwrap();
        assert_eq!(mock.requests.len(), 3);
        for (_, length, sent) in seen(&mock).iter() {
            assert_eq!(*length, None);
            assert!(!*sent);
        }
    }
}

#[test]
fn post_without_body_declares_zero_length() {
    let mut client: Client<Predicate> = Client::new(RedirectPolicy::FollowAll);
    let mut mock = mock_redirect_policy();
    let options: RequestOptions<&str> = RequestOptions {
        url: Url::parse("http://127.0.0.1").unwrap(),
        headers: None,
        method: Method::Post,
        body: None,
    };
    client.request::<(), _, _>(&mut mock, options).unwrap();
    assert_eq!(mock.requests.len(), 3);
    for (_, length, sent) in seen(&mock).iter() {
        assert_eq!(*length, Some(0));
        assert!(!*sent);
    }
}

#[test]
fn post_body_goes_with_first_exchange_only() {
    let mut client: Client<Predicate> = Client::new(RedirectPolicy::FollowAll);
    let mut mock = mock_redirect_policy();
    client
        .post::<(), _, _>(&mut mock, Url::parse("http://127.0.0.1").unwrap(), "hello")
        .unwrap();
    assert_eq!(
        seen(&mock),
        vec![
            ("http://127.0.0.1/".to_string(), Some(5), true),
            ("http://127.0.0.2/".to_string(), Some(0), false),
            ("https://127.0.0.3/".to_string(), Some(0), false),
        ]
    );
    assert!(matches!(mock.requests[0].body, Some(Body::SizedBody(ref d, 5)) if d == b"hello"));
}

#[test]
fn reader_body_is_sent_chunked() {
    let mut reader = std::io::Cursor::new(vec![1u8, 2, 3]);
    let mut client: Client<Predicate> = Client::new(RedirectPolicy::FollowAll);
    let mut conn = scripted(vec![("http://a.test/", 200, None, "r")]);
    client
        .post(&mut conn, Url::parse("http://a.test").unwrap(), &mut reader)
        .unwrap();
    assert_eq!(conn.requests.len(), 1);
    assert_eq!(conn.requests[0].content_length, None);
    assert!(matches!(conn.requests[0].body, Some(Body::ChunkedBody(ref r)) if r.position() == 0));
}

#[test]
fn caller_headers_reach_every_exchange() {
    let mut headers = Headers::new();
    headers.append("X-Token".to_string(), "t1".to_string());
    let mut client: Client<Predicate> = Client::new(RedirectPolicy::FollowAll);
    let mut conn = scripted::<()>(vec![
        ("http://a.test/", 302, Some("/next"), "a"),
        ("http://a.test/next", 200, None, "b"),
    ]);
    let options: RequestOptions<&str> = RequestOptions {
        url: Url::parse("http://a.test").unwrap(),
        headers: Some(headers),
        method: Method::Put,
        body: None,
    };
    client.request(&mut conn, options).unwrap();
    assert_eq!(conn.requests.len(), 2);
    for r in conn.requests.iter() {
        assert_eq!(r.headers.as_ref().and_then(|h| h.get("x-token")), Some("t1".to_string()));
        assert!(matches!(r.method, Method::Put));
        assert_eq!(r.host, "a.test");
        assert_eq!(r.port, 80);
    }
}

#[test]
fn next_hop_resolves_relative_location() {
    let client: Client<Predicate> = Client::new(RedirectPolicy::FollowAll);
    let base = Url::parse("http://a.test/dir/page").unwrap();
    let next = client.next_hop(&base, &response(303, Some("other"), "s")).unwrap();
    assert_eq!(next.as_str(), "http://a.test/dir/other");
    assert!(client.next_hop(&base, &response(200, Some("other"), "s")).is_none());
    let none: Client<Predicate> = Client::new(RedirectPolicy::FollowNone);
    assert!(none.next_hop(&base, &response(301, Some("other"), "s")).is_none());
}

#[test]
fn default_client_follows_all() {
    let mut client: Client<Predicate> = Default::default();
    let mut mock = mock_redirect_policy();
    let res = client
        .get::<(), _>(&mut mock, Url::parse("http://127.0.0.1").unwrap())
        .unwrap();
    assert_eq!(server_of(&res), Some("mock3".to_string()));
}

#[test]
fn declared_length_follows_the_body() {
    let sized: Option<Body<()>> = Some(Body::from_bytes(b"abcd"));
    assert_eq!(declared_length(true, &sized), Some(4));
    assert_eq!(declared_length(false, &sized), None);
    let chunked: Option<Body<u8>> = Some(Body::from_reader(7u8));
    assert_eq!(declared_length(true, &chunked), None);
    let none: Option<Body<()>> = None;
    assert_eq!(declared_length(true, &none), Some(0));
    assert_eq!(declared_length(false, &none), None);
}

#[test]
fn method_body_rules() {
    assert!(!Method::Get.can_have_body());
    assert!(!Method::Head.can_have_body());
    assert!(Method::Post.can_have_body());
    assert!(Method::Put.can_have_body());
    assert!(Method::Extension("PROPFIND".to_string()).can_have_body());
}
