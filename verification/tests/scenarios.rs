use http_server::request::{classify, extract_body, extract_cookie, Route};
use http_server::response::encode_response;
use http_server::router::process_request;
use http_server::session::{get_session_id, SessionStore};
use http_server::worker::handle_connection;

const PAGE: &str = "<html><body>Hello</body></html>";

#[test]
fn get_root_without_cookie_serves_the_default_page() {
    let request = "GET / HTTP/1.1\r\n\r\n";
    let mut store = SessionStore::new();
    let cookie = extract_cookie(request);
    assert_eq!(cookie, None);
    let session_id = get_session_id(&cookie, &store);
    assert_eq!(session_id, None);
    let (status, body, cookie_header) = process_request(request, session_id, &mut store, PAGE);
    assert_eq!(status, "HTTP/1.1 200 OK");
    assert_eq!(body, PAGE);
    assert_eq!(cookie_header, None);
    let wire = encode_response(status, body, cookie_header);
    assert!(!wire.contains("Set-Cookie"));
}

#[test]
fn login_sets_the_cookie_and_the_session_is_welcomed_back() {
    let mut store = SessionStore::new();
    let request = "GET /login HTTP/1.1\r\n\r\n";
    let session_id = get_session_id(&extract_cookie(request), &store);
    let (status, body, cookie_header) = process_request(request, session_id, &mut store, PAGE);
    assert_eq!(status, "HTTP/1.1 200 OK");
    assert_eq!(body, "Logged in successfully");
    assert_eq!(cookie_header, Some("Set-Cookie: session_id=12345; HttpOnly".to_string()));

    let request = "GET / HTTP/1.1\r\nCookie: session_id=12345\r\n\r\n";
    let cookie = extract_cookie(request);
    assert_eq!(cookie, Some("12345".to_string()));
    let session_id = get_session_id(&cookie, &store);
    assert_eq!(session_id, Some("12345".to_string()));
    let (status, body, cookie_header) = process_request(request, session_id, &mut store, PAGE);
    assert_eq!(status, "HTTP/1.1 200 OK");
    assert_eq!(body, "Welcome back, user with session: 12345");
    assert_eq!(cookie_header, None);
}

#[test]
fn post_echoes_the_body() {
    let mut store = SessionStore::new();
    let request = "POST /data HTTP/1.1\r\n\r\nhello=world";
    let (status, body, cookie_header) = process_request(request, None, &mut store, PAGE);
    assert_eq!(status, "HTTP/1.1 200 OK");
    assert_eq!(body, "POST data: hello=world");
    assert_eq!(cookie_header, None);
}

#[test]
fn logout_removes_the_session_and_clears_the_cookie() {
    let mut store = SessionStore::new();
    let id = store.create();
    let request = format!("GET /logout HTTP/1.1\r\nCookie: session_id={}\r\n\r\n", id);
    let cookie = extract_cookie(&request);
    assert_eq!(cookie, Some(id.clone()));
    let session_id = get_session_id(&cookie, &store);
    let (status, body, cookie_header) = process_request(&request, session_id, &mut store, PAGE);
    assert_eq!(status, "HTTP/1.1 200 OK");
    assert_eq!(body, "Logged out successfully");
    assert_eq!(cookie_header, Some("Set-Cookie: session_id=deleted; Max-Age=0".to_string()));
    assert_eq!(store.lookup(&Some(id)), None);
    assert_eq!(store.len(), 0);
}

#[test]
fn unknown_request_line_is_not_found() {
    let mut store = SessionStore::new();
    let request = "TRACE / HTTP/1.1\r\n\r\n";
    assert_eq!(classify(request), Route::Unmatched);
    let (status, body, cookie_header) = process_request(request, None, &mut store, PAGE);
    assert_eq!(status, "HTTP/1.1 404 NOT FOUND");
    assert_eq!(body, "Resource not found");
    assert_eq!(cookie_header, None);
    assert_eq!(extract_body(request), "");
}

#[test]
fn a_session_runs_from_login_to_logout() {
    let mut store = SessionStore::new();
    assert_eq!(
        handle_connection(b"GET / HTTP/1.1\r\n\r\n", &mut store, PAGE),
        format!("HTTP/1.1 200 OK\r\nContent-Length: {}\r\n\r\n{}", PAGE.len(), PAGE)
    );
    assert_eq!(
        handle_connection(b"GET /login HTTP/1.1\r\n\r\n", &mut store, PAGE),
        "HTTP/1.1 200 OK\r\nSet-Cookie: session_id=12345; HttpOnly\r\nContent-Length: 22\r\n\r\nLogged in successfully"
    );
    assert_eq!(
        handle_connection(b"GET / HTTP/1.1\r\nCookie: session_id=12345\r\n\r\n", &mut store, PAGE),
        "HTTP/1.1 200 OK\r\nContent-Length: 38\r\n\r\nWelcome back, user with session: 12345"
    );
    assert_eq!(
        handle_connection(b"GET /logout HTTP/1.1\r\nCookie: session_id=12345\r\n\r\n", &mut store, PAGE),
        "HTTP/1.1 200 OK\r\nSet-Cookie: session_id=deleted; Max-Age=0\r\nContent-Length: 23\r\n\r\nLogged out successfully"
    );
    assert_eq!(
        handle_connection(b"GET / HTTP/1.1\r\nCookie: session_id=12345\r\n\r\n", &mut store, PAGE),
        format!("HTTP/1.1 200 OK\r\nContent-Length: {}\r\n\r\n{}", PAGE.len(), PAGE)
    );
    assert_eq!(store.len(), 0);
}
