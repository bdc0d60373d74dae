//! The request decoder: the text of a request, its classification by request
//! line, the session cookie, and the body.

use vstd::prelude::*;
use vstd::slice::slice_subrange;
use vstd::string::*;
use vstd::utf8::{decode_utf8, encode_utf8, encode_utf8_decode_utf8, valid_utf8};
use crate::text::{
    chars_of, find, find_in, lines, matches_at, range_starts_with, split, starts_with, strip_cr, trim,
    trim_range,
};

verus! {

/// The number of bytes that a request may have. What a client sends beyond
/// them is not looked at, so that a longer request is cut short.
pub const READ_LIMIT: usize = 1024;

/// Request line of the default page.
pub const GET_ROOT: &'static str = "GET / HTTP/1.1";

/// Request line that submits data.
pub const POST_DATA: &'static str = "POST /data HTTP/1.1";

/// Request line that replaces data.
pub const PUT_DATA: &'static str = "PUT /data HTTP/1.1";

/// Request line that deletes data.
pub const DELETE_DATA: &'static str = "DELETE /data HTTP/1.1";

/// Request line that opens a session.
pub const GET_LOGIN: &'static str = "GET /login HTTP/1.1";

/// Request line that closes a session.
pub const GET_LOGOUT: &'static str = "GET /logout HTTP/1.1";

/// What ends the header block: an empty line.
pub const BLANK_LINE: &'static str = "\r\n\r\n";

/// What the header line that carries cookies begins with.
pub const COOKIE_HEADER: &'static str = "Cookie:";

/// What the cookie that names the session begins with.
pub const SESSION_KEY: &'static str = "session_id=";

/// The method and path of a request, as far as the server tells them apart.
#[derive(Clone, Copy, Debug, PartialEq, Eq, Structural)]
pub enum Route {
    GetRoot,
    PostData,
    PutData,
    DeleteData,
    Login,
    Logout,
    Unmatched,
}

/// The text that bytes are read as. Bytes that are UTF-8 are read as the
/// characters that they encode. In other bytes, every sequence that encodes
/// no character is read as the replacement character U+FFFD.
pub uninterp spec fn lossy_text(bytes: Seq<u8>) -> Seq<char>;

/// The part of a buffer that holds the request: its first `READ_LIMIT` bytes.
pub open spec fn request_bytes(buffer: Seq<u8>) -> Seq<u8> {
    if buffer.len() > READ_LIMIT {
        buffer.take(READ_LIMIT as int)
    } else {
        buffer
    }
}

/// The text of the request that a buffer holds.
pub open spec fn request_of(buffer: Seq<u8>) -> Seq<char> {
    lossy_text(request_bytes(buffer))
}

/// The route of a request: the first of the known request lines that the
/// request begins with, letter for letter.
pub open spec fn route_of(request: Seq<char>) -> Route {
    if starts_with(request, GET_ROOT@) {
        Route::GetRoot
    } else if starts_with(request, POST_DATA@) {
        Route::PostData
    } else if starts_with(request, PUT_DATA@) {
        Route::PutData
    } else if starts_with(request, DELETE_DATA@) {
        Route::DeleteData
    } else if starts_with(request, GET_LOGIN@) {
        Route::Login
    } else if starts_with(request, GET_LOGOUT@) {
        Route::Logout
    } else {
        Route::Unmatched
    }
}

/// The body of a request: all that follows the first empty line, and the
/// empty text where there is no empty line.
pub open spec fn body_of(request: Seq<char>) -> Seq<char> {
    match find(request, BLANK_LINE@) {
        Some(i) => request.skip(i + BLANK_LINE@.len()),
        None => Seq::empty(),
    }
}

/// The first of `lines` that begins with the cookie header's name.
pub open spec fn cookie_line(lines: Seq<Seq<char>>) -> Option<Seq<char>>
    decreases lines.len(),
{
    if lines.len() == 0 {
        None
    } else if starts_with(lines[0], COOKIE_HEADER@) {
        Some(lines[0])
    } else {
        cookie_line(lines.drop_first())
    }
}

/// The session identifier among the cookies `segments`: what follows the
/// session key in the first segment that, trimmed, begins with that key.
pub open spec fn session_value(segments: Seq<Seq<char>>) -> Option<Seq<char>>
    decreases segments.len(),
{
    if segments.len() == 0 {
        None
    } else if starts_with(trim(segments[0]), SESSION_KEY@) {
        Some(trim(segments[0]).skip(SESSION_KEY@.len() as int))
    } else {
        session_value(segments.drop_first())
    }
}

/// The session cookie of a request. Only the first line that begins with the
/// cookie header's name counts; what follows the name on that line is a list
/// of cookies separated by `;`.
pub open spec fn cookie_of(request: Seq<char>) -> Option<Seq<char>> {
    match cookie_line(lines(request)) {
        Some(line) => session_value(split(line.skip(COOKIE_HEADER@.len() as int), ';')),
        None => None,
    }
}

/// Reads bytes as text, by `String::from_utf8_lossy` of the standard library.
///
/// Not proved, but taken from the documentation of that function: the text
/// depends on the bytes alone, and bytes that are valid UTF-8 come back
/// unchanged, as the text that they encode.
#[verifier::external_body]
fn text_from_utf8_lossy(bytes: &[u8]) -> (text: String)
    ensures
        text@ == lossy_text(bytes@),
        valid_utf8(bytes@) ==> encode_utf8(text@) == bytes@,
{
    String::from_utf8_lossy(bytes).into_owned()
}

/// The text of the request that a buffer holds. Decoding never fails: bytes
/// that are no UTF-8 are replaced, and bytes beyond the limit are left out.
pub fn request_text(buffer: &[u8]) -> (text: String)
    ensures
        text@ == request_of(buffer@),
        valid_utf8(request_bytes(buffer@)) ==> text@ == decode_utf8(request_bytes(buffer@)),
{
    let text = if buffer.len() > READ_LIMIT {
        text_from_utf8_lossy(slice_subrange(buffer, 0, READ_LIMIT))
    } else {
        text_from_utf8_lossy(buffer)
    };
    proof {
        encode_utf8_decode_utf8(text@);
    }
    text
}

/// Tests whether `request` begins with `line`.
fn begins_with(request: &[char], line: &str) -> (b: bool)
    ensures
        b == starts_with(request@, line@),
{
    let pat = chars_of(line);
    matches_at(request, 0, pat.as_slice())
}

/// Classifies a request by its request line.
pub fn classify(request: &str) -> (route: Route)
    ensures
        route == route_of(request@),
{
    let chars = chars_of(request);
    if begins_with(chars.as_slice(), GET_ROOT) {
        Route::GetRoot
    } else if begins_with(chars.as_slice(), POST_DATA) {
        Route::PostData
    } else if begins_with(chars.as_slice(), PUT_DATA) {
        Route::PutData
    } else if begins_with(chars.as_slice(), DELETE_DATA) {
        Route::DeleteData
    } else if begins_with(chars.as_slice(), GET_LOGIN) {
        Route::Login
    } else if begins_with(chars.as_slice(), GET_LOGOUT) {
        Route::Logout
    } else {
        Route::Unmatched
    }
}

/// Extracts the body of a request.
pub fn extract_body<'a>(request: &'a str) -> (body: &'a str)
    ensures
        body@ == body_of(request@),
{
    let chars = chars_of(request);
    let pat = chars_of(BLANK_LINE);
    let n = chars.len();
    match find_in(chars.as_slice(), 0, n, pat.as_slice()) {
        Some(i) => {
            proof {
                assert(chars@.subrange(0, n as int) =~= request@);
            }
            request.substring_char(i + pat.len(), n)
        },
        None => {
            proof {
                assert(chars@.subrange(0, n as int) =~= request@);
                reveal_strlit("");
            }
            ""
        },
    }
}

/// Looks for the session identifier among the cookies held by `chars` from
/// `from` up to `to`. `request` is the text that `chars` holds.
fn session_value_in(request: &str, chars: &[char], from: usize, to: usize) -> (value: Option<
    String,
>)
    requires
        chars@ == request@,
        from <= to <= chars@.len(),
    ensures
        value.deep_view() == session_value(split(chars@.subrange(from as int, to as int), ';')),
{
    let key = chars_of(SESSION_KEY);
    let semicolon: Vec<char> = vec![';'];
    let mut pos = from;
    loop
        invariant
            from <= pos <= to <= chars.len(),
            chars@ == request@,
            key@ == SESSION_KEY@,
            semicolon@ == seq![';'],
            session_value(split(chars@.subrange(pos as int, to as int), ';')) == session_value(
                split(chars@.subrange(from as int, to as int), ';'),
            ),
        decreases to - pos,
    {
        let ghost rest = chars@.subrange(pos as int, to as int);
        let next = find_in(chars, pos, to, semicolon.as_slice());
        let end = match next {
            Some(i) => i,
            None => to,
        };
        let ghost segment = chars@.subrange(pos as int, end as int);
        proof {
            if let Some(i) = next {
                assert(rest.take(i - pos) =~= segment);
                assert(rest.skip(i - pos + 1) =~= chars@.subrange(i + 1, to as int));
            }
        }
        let (a, b) = trim_range(chars, pos, end);
        if range_starts_with(chars, a, b, key.as_slice()) {
            let value = request.substring_char(a + key.len(), b);
            return Some(value.to_owned());
        }
        match next {
            Some(i) => {
                proof {
                    assert(split(rest, ';').drop_first() =~= split(
                        chars@.subrange(i + 1, to as int),
                        ';',
                    ));
                }
                pos = i + 1;
            },
            None => {
                proof {
                    assert(split(rest, ';').drop_first() =~= Seq::<Seq<char>>::empty());
                    assert(session_value(Seq::<Seq<char>>::empty()) is None);
                }
                return None;
            },
        }
    }
}

/// Extracts the session cookie of a request.
pub fn extract_cookie(request: &str) -> (cookie: Option<String>)
    ensures
        cookie.deep_view() == cookie_of(request@),
{
    let chars = chars_of(request);
    let header = chars_of(COOKIE_HEADER);
    let newline: Vec<char> = vec!['\n'];
    let n = chars.len();
    let mut pos: usize = 0;
    proof {
        assert(chars@.skip(0) =~= chars@);
    }
    while pos < n
        invariant
            pos <= n == chars.len(),
            chars@ == request@,
            header@ == COOKIE_HEADER@,
            newline@ == seq!['\n'],
            cookie_line(lines(chars@.skip(pos as int))) == cookie_line(lines(chars@)),
        decreases n - pos,
    {
        let ghost rest = chars@.skip(pos as int);
        let next = find_in(chars.as_slice(), pos, n, newline.as_slice());
        let end = match next {
            Some(i) => if i > pos && chars[i - 1] == '\r' {
                i - 1
            } else {
                i
            },
            None => n,
        };
        let ghost line = chars@.subrange(pos as int, end as int);
        proof {
            match next {
                Some(i) => {
                    assert(strip_cr(rest.take(i - pos)) =~= line);
                    assert(rest.skip(i - pos + 1) =~= chars@.skip(i + 1));
                    assert(lines(rest).drop_first() =~= lines(chars@.skip(i + 1)));
                },
                None => {
                    assert(lines(rest).drop_first() =~= Seq::<Seq<char>>::empty());
                },
            }
        }
        if range_starts_with(chars.as_slice(), pos, end, header.as_slice()) {
            proof {
                assert(line.skip(header@.len() as int) =~= chars@.subrange(
                    pos + header@.len(),
                    end as int,
                ));
            }
            return session_value_in(request, chars.as_slice(), pos + header.len(), end);
        }
        match next {
            Some(i) => {
                pos = i + 1;
            },
            None => {
                proof {
                    assert(cookie_line(Seq::<Seq<char>>::empty()) is None);
                }
                return None;
            },
        }
    }
    None
}

} // verus!
