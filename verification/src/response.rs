//! Responses and the response encoder.

use vstd::prelude::*;
use vstd::string::*;
use vstd::utf8::encode_utf8;
use crate::decimal::{
    decimal, decimal_value, is_digit, lemma_decimal_digits, lemma_decimal_value, to_decimal,
};
use crate::request::BLANK_LINE;
use crate::text::{lemma_find_first, lemma_lines_concat, lines, occurs_at, starts_with};

verus! {

/// Status line of a request that was served.
pub const STATUS_OK: &'static str = "HTTP/1.1 200 OK";

/// Status line of a request that matched no route.
pub const STATUS_NOT_FOUND: &'static str = "HTTP/1.1 404 NOT FOUND";

/// What ends a line of the header block.
pub const LINE_END: &'static str = "\r\n";

/// Name of the header field that gives the length of the body, with the
/// separator that follows it.
pub const CONTENT_LENGTH: &'static str = "Content-Length: ";

/// What a handler answers: the status line, the body, and the header line
/// that sets or clears the session cookie, if there is one.
pub type Response = (&'static str, String, Option<String>);

/// A response, as specifications see it.
pub type ResponseView = (Seq<char>, Seq<char>, Option<Seq<char>>);

/// The number of bytes that `text` takes on the wire, in UTF-8.
pub open spec fn byte_len(text: Seq<char>) -> nat {
    encode_utf8(text).len()
}

/// The header block up to the line that declares the length: the status line
/// and the cookie header, if there is one, each with its line end.
pub open spec fn header_start(status_line: Seq<char>, cookie_header: Option<Seq<char>>) -> Seq<
    char,
> {
    match cookie_header {
        Some(header) => status_line + LINE_END@ + header + LINE_END@,
        None => status_line + LINE_END@,
    }
}

/// The line that declares the length of `contents`, without its line end.
pub open spec fn length_field(contents: Seq<char>) -> Seq<char> {
    CONTENT_LENGTH@ + decimal(byte_len(contents))
}

/// A response as it goes over the wire: the status line, the cookie header
/// if there is one, the length of the body, an empty line, the body.
pub open spec fn wire_format(
    status_line: Seq<char>,
    contents: Seq<char>,
    cookie_header: Option<Seq<char>>,
) -> Seq<char> {
    header_start(status_line, cookie_header) + length_field(contents) + BLANK_LINE@ + contents
}

/// The line that declares the length of the body: the first of `lines` that
/// begins with the name of that field. The header block ends at an empty
/// line, and no line after it counts.
pub open spec fn length_line(lines: Seq<Seq<char>>) -> Option<Seq<char>>
    decreases lines.len(),
{
    if lines.len() == 0 || lines[0].len() == 0 {
        None
    } else if starts_with(lines[0], CONTENT_LENGTH@) {
        Some(lines[0])
    } else {
        length_line(lines.drop_first())
    }
}

/// Whether `field` is a numeral: one digit or more, and nothing else.
pub open spec fn is_numeral(field: Seq<char>) -> bool {
    field.len() > 0 && forall|i: int| 0 <= i < field.len() ==> is_digit(#[trigger] field[i])
}

/// The length of the body as a reader measures it on the wire: the number
/// that the header block declares, in a line after the status line. Nothing
/// where no line declares it, or where what is declared is no numeral.
pub open spec fn declared_length(wire: Seq<char>) -> Option<nat> {
    if lines(wire).len() == 0 {
        None
    } else {
        match length_line(lines(wire).drop_first()) {
            Some(line) => {
                let field = line.skip(CONTENT_LENGTH@.len() as int);
                if is_numeral(field) {
                    Some(decimal_value(field))
                } else {
                    None
                }
            },
            None => None,
        }
    }
}

/// Whether a reader on its way to the declared length passes over `lines`:
/// none of them is empty, which would end the header block, and none
/// declares a length itself.
pub open spec fn declare_nothing(lines: Seq<Seq<char>>) -> bool {
    forall|i: int|
        0 <= i < lines.len() ==> (#[trigger] lines[i]).len() > 0 && !starts_with(
            lines[i],
            CONTENT_LENGTH@,
        )
}

/// Whether `line` is free of line feeds, so that it stays one line on the
/// wire.
pub open spec fn is_one_line(line: Seq<char>) -> bool {
    forall|i: int| 0 <= i < line.len() ==> #[trigger] line[i] != '\n'
}

/// A text that begins with a line and its ending has that line as its first
/// line; its other lines are those of the rest.
proof fn lemma_first_line(line: Seq<char>, rest: Seq<char>)
    requires
        is_one_line(line),
    ensures
        lines(line + LINE_END@ + rest) == seq![line] + lines(rest),
{
    reveal_strlit("\r\n");
    let text = line + LINE_END@ + rest;
    let at = line.len() as int + 1;
    assert(text.subrange(at, at + 1) =~= seq!['\n']);
    assert forall|j: int| 0 <= j < at implies !occurs_at(text, seq!['\n'], j) by {
        if j + 1 <= text.len() {
            assert(text.subrange(j, j + 1)[0] == text[j]);
        }
    }
    lemma_find_first(text, seq!['\n'], at);
    assert(text.take(at) =~= line.push('\r'));
    assert(line.push('\r').drop_last() =~= line);
    assert(text.skip(at + 1) =~= rest);
}

/// The line that declares the length is looked for beyond lines that declare
/// nothing.
proof fn lemma_length_line_beyond(passed: Seq<Seq<char>>, lines: Seq<Seq<char>>)
    requires
        declare_nothing(passed),
    ensures
        length_line(passed + lines) == length_line(lines),
    decreases passed.len(),
{
    if passed.len() > 0 {
        assert((passed + lines).drop_first() =~= passed.drop_first() + lines);
        assert(declare_nothing(passed.drop_first()));
        lemma_length_line_beyond(passed.drop_first(), lines);
    }
}

/// A status line and a cookie header that are each one line make two lines
/// of the header block. They declare nothing where the cookie header is
/// neither empty nor itself a line that declares a length.
pub proof fn lemma_header_of_single_lines(status_line: Seq<char>, cookie_header: Option<Seq<char>>)
    requires
        is_one_line(status_line),
        cookie_header matches Some(header) ==> is_one_line(header) && header.len() > 0
            && !starts_with(header, CONTENT_LENGTH@),
    ensures
        declare_nothing(lines(header_start(status_line, cookie_header)).drop_first()),
{
    let nothing = Seq::<char>::empty();
    match cookie_header {
        Some(header) => {
            let rest = header + LINE_END@ + nothing;
            lemma_first_line(header, nothing);
            lemma_first_line(status_line, rest);
            assert(header_start(status_line, cookie_header) =~= status_line + LINE_END@ + rest);
        },
        None => {
            lemma_first_line(status_line, nothing);
        },
    }
}

/// Measuring an encoded response gives the number of bytes of its body,
/// whatever characters the body holds. This holds where the status line and
/// the cookie header put no line into the header block, after its first,
/// that is empty or declares a length itself.
pub proof fn law_declared_length_is_byte_length(
    status_line: Seq<char>,
    contents: Seq<char>,
    cookie_header: Option<Seq<char>>,
)
    requires
        declare_nothing(lines(header_start(status_line, cookie_header)).drop_first()),
    ensures
        declared_length(wire_format(status_line, contents, cookie_header)) == Some(
            byte_len(contents),
        ),
{
    reveal_strlit("\r\n");
    reveal_strlit("\r\n\r\n");
    reveal_strlit("Content-Length: ");
    let n = byte_len(contents);
    let wire = wire_format(status_line, contents, cookie_header);
    let head = header_start(status_line, cookie_header);
    let length = length_field(contents);
    let tail = LINE_END@ + contents;
    let after = length + LINE_END@ + tail;
    lemma_decimal_digits(n);
    lemma_decimal_value(n);
    assert(length.skip(CONTENT_LENGTH@.len() as int) =~= decimal(n));
    assert(length.subrange(0, CONTENT_LENGTH@.len() as int) =~= CONTENT_LENGTH@);
    lemma_first_line(length, tail);
    assert(wire =~= head + after);
    lemma_lines_concat(head, after);
    assert(lines(wire).drop_first() =~= lines(head).drop_first() + lines(after));
    lemma_length_line_beyond(lines(head).drop_first(), lines(after));
}

/// Encodes a response for the wire.
pub fn encode_response(status_line: &str, contents: String, cookie_header: Option<String>) -> (wire:
    String)
    ensures
        wire@ == wire_format(status_line@, contents@, cookie_header.deep_view()),
{
    let length = to_decimal(contents.as_str().as_bytes().len());
    let mut wire = String::from_str(status_line);
    wire.append(LINE_END);
    match cookie_header {
        Some(header) => {
            wire.append(header.as_str());
            wire.append(LINE_END);
        },
        None => {},
    }
    wire.append(CONTENT_LENGTH);
    wire.append(length.as_str());
    wire.append(BLANK_LINE);
    wire.append(contents.as_str());
    wire
}

} // verus!
