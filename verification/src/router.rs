//! The handlers, one for each route, and the router that picks among them.

use vstd::prelude::*;
use vstd::string::*;
use crate::request::{body_of, classify, extract_body, route_of, Route};
use crate::text::starts_with;
use crate::decimal::lemma_decimal_digits;
use crate::response::{
    byte_len, declared_length, law_declared_length_is_byte_length, lemma_header_of_single_lines,
    wire_format, Response, ResponseView, CONTENT_LENGTH, STATUS_NOT_FOUND, STATUS_OK,
};
use crate::session::{IdSource, SessionStore, StoreView};

verus! {

/// What the body that greets a live session begins with.
pub const WELCOME: &'static str = "Welcome back, user with session: ";

/// What the body that echoes submitted data begins with.
pub const POST_ECHO: &'static str = "POST data: ";

/// What the body that echoes replaced data begins with.
pub const PUT_ECHO: &'static str = "PUT data updated: ";

/// Body that acknowledges a deletion.
pub const DELETED: &'static str = "Resource deleted";

/// Body that acknowledges a login.
pub const LOGGED_IN: &'static str = "Logged in successfully";

/// Body that acknowledges a logout.
pub const LOGGED_OUT: &'static str = "Logged out successfully";

/// Body of the answer to a request that matched no route.
pub const NOT_FOUND: &'static str = "Resource not found";

/// What the header line that sets the session cookie begins with.
pub const SET_COOKIE: &'static str = "Set-Cookie: session_id=";

/// What the header line that sets the session cookie ends with.
pub const HTTP_ONLY: &'static str = "; HttpOnly";

/// Header line that clears the session cookie.
pub const CLEAR_COOKIE: &'static str = "Set-Cookie: session_id=deleted; Max-Age=0";

/// The answer to a request for the default page: a greeting that names the
/// session where one is live, the default page where none is.
pub open spec fn get_response(session_id: Option<Seq<char>>, default_page: Seq<char>) -> ResponseView {
    match session_id {
        Some(id) => (STATUS_OK@, WELCOME@ + id, None),
        None => (STATUS_OK@, default_page, None),
    }
}

/// The answer to submitted data: the data, echoed.
pub open spec fn post_response(body: Seq<char>) -> ResponseView {
    (STATUS_OK@, POST_ECHO@ + body, None)
}

/// The answer to replaced data: the data, echoed.
pub open spec fn put_response(body: Seq<char>) -> ResponseView {
    (STATUS_OK@, PUT_ECHO@ + body, None)
}

/// The answer to a deletion.
pub open spec fn delete_response() -> ResponseView {
    (STATUS_OK@, DELETED@, None)
}

/// The answer to a login that opened the session `id`: it sets the cookie.
pub open spec fn login_response(id: Seq<char>) -> ResponseView {
    (STATUS_OK@, LOGGED_IN@, Some(SET_COOKIE@ + id + HTTP_ONLY@))
}

/// The answer to a logout: it clears the cookie.
pub open spec fn logout_response() -> ResponseView {
    (STATUS_OK@, LOGGED_OUT@, Some(CLEAR_COOKIE@))
}

/// The answer to a request that matched no route.
pub open spec fn not_found_response() -> ResponseView {
    (STATUS_NOT_FOUND@, NOT_FOUND@, None)
}

/// The answer to `request`, given the live session that its cookie resolved
/// to, the store at the time the request is processed, and the default page.
pub open spec fn response_to(
    request: Seq<char>,
    session_id: Option<Seq<char>>,
    store: StoreView,
    default_page: Seq<char>,
) -> ResponseView {
    match route_of(request) {
        Route::GetRoot => get_response(session_id, default_page),
        Route::PostData => post_response(body_of(request)),
        Route::PutData => put_response(body_of(request)),
        Route::DeleteData => delete_response(),
        Route::Login => login_response(store.next_id()),
        Route::Logout => logout_response(),
        Route::Unmatched => not_found_response(),
    }
}

/// The store after `request` was processed: a login creates a session, a
/// logout removes the session that the cookie resolved to, and no other
/// request changes the store.
pub open spec fn store_after(
    request: Seq<char>,
    session_id: Option<Seq<char>>,
    store: StoreView,
) -> StoreView {
    match route_of(request) {
        Route::Login => store.create(),
        Route::Logout => match session_id {
            Some(id) => store.remove(id),
            None => store,
        },
        _ => store,
    }
}

/// Whatever the request, the session, the store and the default page: a
/// reader who measures the encoded answer finds the number of bytes of its
/// body.
pub proof fn law_answers_declare_their_length(
    request: Seq<char>,
    session_id: Option<Seq<char>>,
    store: StoreView,
    default_page: Seq<char>,
)
    ensures
        ({
            let answer = response_to(request, session_id, store, default_page);
            declared_length(wire_format(answer.0, answer.1, answer.2)) == Some(byte_len(answer.1))
        }),
{
    reveal_strlit("HTTP/1.1 200 OK");
    reveal_strlit("HTTP/1.1 404 NOT FOUND");
    reveal_strlit("Content-Length: ");
    reveal_strlit("Set-Cookie: session_id=");
    reveal_strlit("; HttpOnly");
    reveal_strlit("Set-Cookie: session_id=deleted; Max-Age=0");
    reveal_strlit("12345");
    let answer = response_to(request, session_id, store, default_page);
    match answer.2 {
        Some(header) => {
            if starts_with(header, CONTENT_LENGTH@) {
                assert(header.subrange(0, CONTENT_LENGTH@.len() as int)[0] == header[0]);
            }
            if let IdSource::Sequential { issued } = store.ids {
                lemma_decimal_digits(issued);
            }
        },
        None => {},
    }
    lemma_header_of_single_lines(answer.0, answer.2);
    law_declared_length_is_byte_length(answer.0, answer.1, answer.2);
}

/// Answers a request for the default page.
pub fn handle_get_request(session_id: Option<String>, default_page: &str) -> (response: Response)
    ensures
        response.deep_view() == get_response(session_id.deep_view(), default_page@),
{
    match session_id {
        Some(id) => {
            let mut contents = String::from_str(WELCOME);
            contents.append(id.as_str());
            (STATUS_OK, contents, None)
        },
        None => (STATUS_OK, String::from_str(default_page), None),
    }
}

/// Answers submitted data.
pub fn handle_post_request(request: &str) -> (response: Response)
    ensures
        response.deep_view() == post_response(body_of(request@)),
{
    let body = extract_body(request);
    let mut contents = String::from_str(POST_ECHO);
    contents.append(body);
    (STATUS_OK, contents, None)
}

/// Answers replaced data.
pub fn handle_put_request(request: &str) -> (response: Response)
    ensures
        response.deep_view() == put_response(body_of(request@)),
{
    let body = extract_body(request);
    let mut contents = String::from_str(PUT_ECHO);
    contents.append(body);
    (STATUS_OK, contents, None)
}

/// Answers a deletion. Nothing is deleted.
pub fn handle_delete_request() -> (response: Response)
    ensures
        response.deep_view() == delete_response(),
{
    (STATUS_OK, String::from_str(DELETED), None)
}

/// The answer to a login that opened the session `id`.
pub fn login_answer(id: &str) -> (response: Response)
    ensures
        response.deep_view() == login_response(id@),
{
    let mut cookie_header = String::from_str(SET_COOKIE);
    cookie_header.append(id);
    cookie_header.append(HTTP_ONLY);
    (STATUS_OK, String::from_str(LOGGED_IN), Some(cookie_header))
}

/// The answer to a logout.
pub fn logout_answer() -> (response: Response)
    ensures
        response.deep_view() == logout_response(),
{
    (STATUS_OK, String::from_str(LOGGED_OUT), Some(String::from_str(CLEAR_COOKIE)))
}

/// The answer to a request that matched no route.
pub fn not_found_answer() -> (response: Response)
    ensures
        response.deep_view() == not_found_response(),
{
    (STATUS_NOT_FOUND, String::from_str(NOT_FOUND), None)
}

/// Answers a login: creates a session and sets the cookie to its identifier.
pub fn handle_login_request(session_store: &mut SessionStore) -> (response: Response)
    requires
        old(session_store).wf(),
    ensures
        final(session_store).wf(),
        final(session_store)@ == old(session_store)@.create(),
        response.deep_view() == login_response(old(session_store)@.next_id()),
{
    let id = session_store.create();
    login_answer(id.as_str())
}

/// Answers a logout: removes the session that the cookie resolved to, if it
/// resolved to one, and clears the cookie.
pub fn handle_logout_request(session_id: Option<String>, session_store: &mut SessionStore) -> (response:
    Response)
    requires
        old(session_store).wf(),
    ensures
        final(session_store).wf(),
        final(session_store)@ == match session_id {
            Some(id) => old(session_store)@.remove(id@),
            None => old(session_store)@,
        },
        response.deep_view() == logout_response(),
{
    match session_id {
        Some(id) => {
            session_store.remove(id.as_str());
        },
        None => {},
    }
    logout_answer()
}

/// Routes a request to its handler and returns the handler's answer.
/// `session_id` is the live session that the request's cookie resolved to.
pub fn process_request(
    request: &str,
    session_id: Option<String>,
    session_store: &mut SessionStore,
    default_page: &str,
) -> (response: Response)
    requires
        old(session_store).wf(),
    ensures
        final(session_store).wf(),
        final(session_store)@ == store_after(
            request@,
            session_id.deep_view(),
            old(session_store)@,
        ),
        response.deep_view() == response_to(
            request@,
            session_id.deep_view(),
            old(session_store)@,
            default_page@,
        ),
{
    match classify(request) {
        Route::GetRoot => handle_get_request(session_id, default_page),
        Route::PostData => handle_post_request(request),
        Route::PutData => handle_put_request(request),
        Route::DeleteData => handle_delete_request(),
        Route::Login => handle_login_request(session_store),
        Route::Logout => handle_logout_request(session_id, session_store),
        Route::Unmatched => not_found_answer(),
    }
}

} // verus!
