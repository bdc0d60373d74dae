use http_server::router::{
    handle_delete_request, handle_get_request, handle_login_request, handle_logout_request,
    handle_post_request, handle_put_request, process_request,
};
use http_server::session::SessionStore;

#[test]
fn get_greets_a_live_session() {
    let (status, body, cookie) = handle_get_request(Some("abc".to_string()), "<html></html>");
    assert_eq!(status, "HTTP/1.1 200 OK");
    assert_eq!(body, "Welcome back, user with session: abc");
    assert_eq!(cookie, None);
}

#[test]
fn get_serves_the_default_page_without_a_session() {
    let (status, body, cookie) = handle_get_request(None, "<html></html>");
    assert_eq!(status, "HTTP/1.1 200 OK");
    assert_eq!(body, "<html></html>");
    assert_eq!(cookie, None);
}

#[test]
fn post_echoes_what_follows_the_empty_line() {
    let (status, body, cookie) = handle_post_request("POST /data HTTP/1.1\r\n\r\nhello=world");
    assert_eq!(status, "HTTP/1.1 200 OK");
    assert_eq!(body, "POST data: hello=world");
    assert_eq!(cookie, None);
    let (_, body, _) = handle_post_request("POST /data HTTP/1.1\r\n");
    assert_eq!(body, "POST data: ");
}

#[test]
fn put_echoes_what_follows_the_empty_line() {
    let (status, body, cookie) = handle_put_request("PUT /data HTTP/1.1\r\n\r\n{\"a\": 1}");
    assert_eq!(status, "HTTP/1.1 200 OK");
    assert_eq!(body, "PUT data updated: {\"a\": 1}");
    assert_eq!(cookie, None);
}

#[test]
fn delete_acknowledges() {
    let (status, body, cookie) = handle_delete_request();
    assert_eq!(status, "HTTP/1.1 200 OK");
    assert_eq!(body, "Resource deleted");
    assert_eq!(cookie, None);
}

#[test]
fn login_creates_a_session_and_sets_the_cookie() {
    let mut store = SessionStore::new();
    let (status, body, cookie) = handle_login_request(&mut store);
    assert_eq!(status, "HTTP/1.1 200 OK");
    assert_eq!(body, "Logged in successfully");
    assert_eq!(cookie, Some("Set-Cookie: session_id=12345; HttpOnly".to_string()));
    assert_eq!(store.len(), 1);
    assert_eq!(store.lookup(&Some("12345".to_string())), Some("12345".to_string()));
}

#[test]
fn login_sets_the_cookie_to_the_identifier_created() {
    let mut store = SessionStore::with_sequential_ids();
    let (_, _, first) = handle_login_request(&mut store);
    let (_, _, second) = handle_login_request(&mut store);
    assert_eq!(first, Some("Set-Cookie: session_id=0; HttpOnly".to_string()));
    assert_eq!(second, Some("Set-Cookie: session_id=1; HttpOnly".to_string()));
    assert_eq!(store.len(), 2);
}

#[test]
fn logout_removes_the_resolved_session() {
    let mut store = SessionStore::with_sequential_ids();
    let kept = store.create();
    let closed = store.create();
    let (status, body, cookie) = handle_logout_request(Some(closed.clone()), &mut store);
    assert_eq!(status, "HTTP/1.1 200 OK");
    assert_eq!(body, "Logged out successfully");
    assert_eq!(cookie, Some("Set-Cookie: session_id=deleted; Max-Age=0".to_string()));
    assert_eq!(store.lookup(&Some(closed)), None);
    assert_eq!(store.lookup(&Some(kept.clone())), Some(kept));
}

#[test]
fn logout_without_a_session_leaves_the_store_alone() {
    let mut store = SessionStore::new();
    store.create();
    let (status, body, cookie) = handle_logout_request(None, &mut store);
    assert_eq!(status, "HTTP/1.1 200 OK");
    assert_eq!(body, "Logged out successfully");
    assert_eq!(cookie, Some("Set-Cookie: session_id=deleted; Max-Age=0".to_string()));
    assert_eq!(store.len(), 1);
}

#[test]
fn only_login_and_logout_change_the_store() {
    let requests = [
        "GET / HTTP/1.1\r\n\r\n",
        "POST /data HTTP/1.1\r\n\r\nx",
        "PUT /data HTTP/1.1\r\n\r\nx",
        "DELETE /data HTTP/1.1\r\n\r\n",
        "TRACE / HTTP/1.1\r\n\r\n",
    ];
    let mut store = SessionStore::with_sequential_ids();
    let id = store.create();
    for request in requests {
        process_request(request, Some(id.clone()), &mut store, "page");
        process_request(request, None, &mut store, "page");
        assert_eq!(store.len(), 1);
        assert_eq!(store.lookup(&Some(id.clone())), Some(id.clone()));
    }
    process_request("GET /login HTTP/1.1\r\n\r\n", None, &mut store, "page");
    assert_eq!(store.len(), 2);
    process_request("GET /logout HTTP/1.1\r\n\r\n", Some(id.clone()), &mut store, "page");
    assert_eq!(store.len(), 1);
    assert_eq!(store.lookup(&Some(id)), None);
}

#[test]
fn put_and_delete_are_routed() {
    let mut store = SessionStore::new();
    let (status, body, cookie) =
        process_request("PUT /data HTTP/1.1\r\n\r\nname=x", None, &mut store, "page");
    assert_eq!((status, body.as_str(), cookie), ("HTTP/1.1 200 OK", "PUT data updated: name=x", None));
    let (status, body, cookie) =
        process_request("DELETE /data HTTP/1.1\r\n\r\nname=x", None, &mut store, "page");
    assert_eq!((status, body.as_str(), cookie), ("HTTP/1.1 200 OK", "Resource deleted", None));
}
