//! The framing of language server messages: a header that gives the length of the body in bytes,
//! an empty line, and the body.

use crate::bytes;
use crate::text;
use vstd::arithmetic::power::pow;
use vstd::prelude::*;
use vstd::string::StringExecFns;
use vstd::utf8::{decode_utf8, encode_utf8, is_ascii_chars, valid_utf8};

verus! {

/// How many bytes a header may have while its end has not been seen.
pub const MAX_HEADER_BYTES: usize = 4096;

/// The header of a body of `size` bytes.
pub open spec fn header_text(size: nat) -> Seq<char> {
    "Content-Length: "@ + text::decimal_text(size) + "\r\n\r\n"@
}

/// The bytes that carry a body.
pub open spec fn frame_bytes(body: Seq<char>) -> Seq<u8> {
    encode_utf8(header_text(encode_utf8(body).len())) + encode_utf8(body)
}

/// The bytes that carry a body.
pub fn frame(body: &str) -> (r: Vec<u8>)
    ensures
        r@ == frame_bytes(body@),
{
    let size: usize = body.as_bytes().len();
    let header = "Content-Length: ".to_owned().concat(text::decimal(size as u64).as_str()).concat(
        "\r\n\r\n",
    );
    let mut r: Vec<u8> = Vec::new();
    bytes::push_text(&mut r, header.as_str());
    assert(r@ =~= encode_utf8(header@));
    bytes::push_text(&mut r, body);
    r
}

/// Whether a header is complete: it ends with an empty line.
pub open spec fn ends_header(header: Seq<u8>) -> bool {
    let n = header.len();
    n >= 4 && header[n - 4] == 13 && header[n - 3] == 10 && header[n - 2] == 13 && header[n - 1]
        == 10
}

/// The length that one line of a header gives.
pub open spec fn line_length(line: Seq<char>) -> Option<nat> {
    let field = text::trimmed(line);
    let parts = text::split_text(field, ':');
    if "content-length:"@.is_prefix_of(text::lowered(field)) && parts.len() > 1 {
        text::parsed_unsigned(text::trimmed(parts[1]), usize::MAX as nat)
    } else {
        None
    }
}

/// The length that the first line gives that gives one.
pub open spec fn first_length(lines: Seq<Seq<char>>) -> Option<nat>
    decreases lines.len(),
{
    if lines.len() == 0 {
        None
    } else if line_length(lines[0]) is Some {
        line_length(lines[0])
    } else {
        first_length(lines.skip(1))
    }
}

/// The length of the body that a header announces.
pub open spec fn content_length(header: Seq<u8>) -> Option<nat> {
    first_length(text::line_texts(bytes::shown_text(header)))
}

/// The length that one line of a header gives.
fn parse_line(line: &str) -> (r: Option<usize>)
    ensures
        match r {
            Some(n) => line_length(line@) == Some(n as nat),
            None => line_length(line@) is None,
        },
{
    let field = text::trim(line);
    if !text::starts_with(text::to_lower(field.as_str()).as_str(), "content-length:") {
        return None;
    }
    let parts = text::split(field.as_str(), ':');
    assert(text::texts(parts@).len() == parts@.len());
    if parts.len() > 1 {
        assert(text::texts(parts@)[1] == parts@[1]@);
        text::parse_size(text::trim(parts[1].as_str()).as_str())
    } else {
        None
    }
}

/// The length of the body that a header announces.
pub fn parse_content_length(header: &Vec<u8>) -> (r: Option<usize>)
    ensures
        match r {
            Some(n) => content_length(header@) == Some(n as nat),
            None => content_length(header@) is None,
        },
{
    let shown = bytes::show(header);
    let lines = text::lines(shown.as_str());
    let ghost all = text::texts(lines@);
    let mut i: usize = 0;
    assert(all.skip(0) =~= all);
    while i < lines.len()
        invariant
            i <= lines@.len(),
            all == text::texts(lines@),
            content_length(header@) == first_length(all.skip(i as int)),
        decreases lines@.len() - i,
    {
        assert(all.skip(i as int)[0] == lines@[i as int]@);
        let length = parse_line(lines[i].as_str());
        if length.is_some() {
            return length;
        }
        assert(all.skip(i as int).skip(1) =~= all.skip(i + 1));
        i = i + 1;
    }
    None
}

/// What a reader does after a byte of a header: reads one more, reads a body of a length, or gives
/// up.
pub enum ReaderStep {
    Byte,
    Body(usize),
    Fail(String),
}

/// The model of what a reader does after a byte of a header.
pub enum ReaderModel {
    Byte,
    Body(nat),
    Fail(Seq<char>),
}

impl View for ReaderStep {
    type V = ReaderModel;

    open spec fn view(&self) -> ReaderModel {
        match *self {
            ReaderStep::Byte => ReaderModel::Byte,
            ReaderStep::Body(size) => ReaderModel::Body(size as nat),
            ReaderStep::Fail(message) => ReaderModel::Fail(message@),
        }
    }
}

/// What a reader does that has read these bytes of a header.
pub open spec fn reader_step(header: Seq<u8>) -> ReaderModel {
    if ends_header(header) {
        match content_length(header) {
            Some(size) => ReaderModel::Body(size),
            None => ReaderModel::Fail("missing Content-Length header in LSP response"@),
        }
    } else if header.len() > MAX_HEADER_BYTES {
        ReaderModel::Fail("LSP header too large (>4096 bytes)"@)
    } else {
        ReaderModel::Byte
    }
}

/// Adds a byte to a header, and says what to do next.
pub fn read_header_byte(header: &mut Vec<u8>, byte: u8) -> (r: ReaderStep)
    ensures
        final(header)@ == old(header)@.push(byte),
        r@ == reader_step(final(header)@),
{
    header.push(byte);
    let n: usize = header.len();
    if n >= 4 && header[n - 4] == 13 && header[n - 3] == 10 && header[n - 2] == 13 && header[n - 1]
        == 10 {
        match parse_content_length(header) {
            Some(size) => ReaderStep::Body(size),
            None => ReaderStep::Fail("missing Content-Length header in LSP response".to_owned()),
        }
    } else if n > MAX_HEADER_BYTES {
        ReaderStep::Fail("LSP header too large (>4096 bytes)".to_owned())
    } else {
        ReaderStep::Byte
    }
}

/// The text of a body, or the error where it is not UTF-8.
pub fn read_body(body: Vec<u8>) -> (r: Result<String, String>)
    ensures
        match r {
            Ok(s) => valid_utf8(body@) && s@ == decode_utf8(body@),
            Err(message) => !valid_utf8(body@) && message@
                == "LSP response body is not valid UTF-8"@,
        },
{
    match bytes::decode(body) {
        Some(s) => Ok(s),
        None => Err("LSP response body is not valid UTF-8".to_owned()),
    }
}

/// A number below ten to the power of `k` has at most `k` digits.
proof fn lemma_decimal_size(n: nat, k: nat)
    requires
        k > 0,
        n < pow(10, k),
    ensures
        text::decimal_text(n).len() <= k,
    decreases k,
{
    if n >= 10 {
        reveal(pow);
        assert(pow(10, k) == 10 * pow(10, (k - 1) as nat));
        if k == 1 {
            assert(pow(10, 0) == 1);
        }
        lemma_decimal_size(n / 10, (k - 1) as nat);
    }
}

/// The header of a body is one line that gives its length, and an empty line.
#[verifier::rlimit(50)]
proof fn lemma_header(size: nat)
    requires
        size <= usize::MAX,
    ensures
        is_ascii_chars(header_text(size)),
        4 <= header_text(size).len() <= MAX_HEADER_BYTES,
        forall|i: int|
            0 <= i < header_text(size).len() - 4 ==> (#[trigger] header_text(size)[i]) != '\r'
                && header_text(size)[i] != '\n',
        header_text(size)[header_text(size).len() - 4] == '\r',
        header_text(size)[header_text(size).len() - 3] == '\n',
        header_text(size)[header_text(size).len() - 2] == '\r',
        header_text(size)[header_text(size).len() - 1] == '\n',
        first_length(text::line_texts(header_text(size))) == Some(size),
{
    reveal_strlit("Content-Length: ");
    reveal_strlit("\r\n\r\n");
    reveal_strlit("content-length:");
    text::lemma_decimal(size);
    assert(pow(10, 20) > u64::MAX) by {
        reveal_with_fuel(pow, 21);
    }
    lemma_decimal_size(size, 20);
    let digits = text::decimal_text(size);
    let head = header_text(size);
    let field = "Content-Length: "@ + digits;
    let n = head.len() as int;
    assert forall|i: int| 0 <= i < n implies '\0' <= #[trigger] head[i] <= '\u{7f}' by {
        if 16 <= i < n - 4 {
            assert(head[i] == digits[i - 16]);
        }
    }
    assert forall|i: int| 0 <= i < n - 4 implies (#[trigger] head[i]) != '\r' && head[i]
        != '\n' by {
        if i >= 16 {
            assert(head[i] == digits[i - 16]);
        }
    }

    // The lines.
    text::lemma_find_char_is(head, '\n', n - 3);
    assert(head.take(n - 3).last() == '\r');
    assert(text::without_return(head.take(n - 3)) =~= field);
    let lines = text::line_texts(head);
    assert(lines[0] == field);

    // The length that the first line gives.
    assert(text::trim_front(field) == field) by {
        assert(field[0] == 'C');
    }
    assert(text::trim_back(field) == field) by {
        assert(field.last() == digits.last());
        assert(text::is_digit(digits[digits.len() - 1]));
    }
    assert("content-length:"@.is_prefix_of(text::lowered(field))) by {
        let low = text::lowered(field);
        assert forall|i: int| 0 <= i < 15 implies "content-length:"@[i] == low[i] by {
            assert(low[i] == text::lower_char(field[i]));
        }
        assert(low.take(15) =~= "content-length:"@);
    }
    assert forall|i: int| 0 <= i < 14 implies #[trigger] field[i] != ':' by {}
    text::lemma_find_char_is(field, ':', 14);
    let parts = text::split_text(field, ':');
    let rest = field.skip(15);
    assert forall|i: int| 0 <= i < rest.len() implies #[trigger] rest[i] != ':' by {
        if i >= 1 {
            assert(rest[i] == digits[i - 1]);
        }
    }
    text::lemma_find_char_is(rest, ':', rest.len() as int);
    assert(text::split_text(rest, ':') =~= seq![rest]);
    assert(parts[1] == rest);
    assert(text::trim_front(rest) == digits) by {
        assert(rest[0] == ' ');
        assert(rest.skip(1) =~= digits);
        assert(text::is_digit(digits[0]));
        assert(text::trim_front(digits) == digits);
    }
    assert(text::trim_back(digits) == digits) by {
        assert(text::is_digit(digits[digits.len() - 1]));
    }
    assert(text::is_digit(digits[0]));
    assert(text::unsigned_digits(digits) == digits);
    assert(line_length(field) == Some(size));
}

/// A body that was framed is read back: a reader that is given the frame asks for one more byte
/// until the header ends, then for a body of the length of what is left, and that is the body.
pub proof fn law_frame_is_read_back(body: Seq<char>)
    requires
        encode_utf8(body).len() <= usize::MAX,
    ensures
        ({
            let frame = frame_bytes(body);
            let size = encode_utf8(body).len();
            let start = frame.len() - size;
            &&& forall|k: int| 0 <= k < start ==> #[trigger] reader_step(frame.take(k)) is Byte
            &&& reader_step(frame.take(start)) == ReaderModel::Body(size)
            &&& frame.skip(start).len() == size
            &&& valid_utf8(frame.skip(start))
            &&& decode_utf8(frame.skip(start)) == body
        }),
{
    broadcast use {vstd::utf8::encode_utf8_valid_utf8, vstd::utf8::encode_utf8_decode_utf8};

    let size = encode_utf8(body).len();
    let head = header_text(size);
    let header = encode_utf8(head);
    let frame = frame_bytes(body);
    let start = frame.len() - size;
    lemma_header(size);
    vstd::utf8::is_ascii_chars_encode_utf8(head);
    assert(frame.take(start) =~= header);
    assert(frame.skip(start) =~= encode_utf8(body));
    assert forall|k: int| 0 <= k < start implies #[trigger] reader_step(frame.take(k)) is Byte by {
        let part = frame.take(k);
        if k >= 4 {
            assert(part[k - 4] == header[k - 4]);
            assert(head[k - 4] as u8 == header[k - 4]);
            assert(head[k - 4] != '\r');
        }
    }
    assert(ends_header(header)) by {
        assert(head[start - 4] as u8 == header[start - 4]);
        assert(head[start - 3] as u8 == header[start - 3]);
        assert(head[start - 2] as u8 == header[start - 2]);
        assert(head[start - 1] as u8 == header[start - 1]);
    }
}

/// A reader asks for more bytes until the header has ended, gives up on one that does not end in
/// time, and then asks for a body of the announced length, or gives up where none is announced.
pub proof fn law_reader_waits_for_the_header(header: Seq<u8>)
    ensures
        ({
            let n = header.len();
            let ended = n >= 4 && header.skip(n - 4) == seq![13u8, 10u8, 13u8, 10u8];
            &&& reader_step(header) is Byte <==> !ended && n <= 4096
            &&& reader_step(header) is Body <==> ended && content_length(header) is Some
            &&& ended && content_length(header) is Some ==> reader_step(header) == ReaderModel::Body(
                content_length(header)->Some_0,
            )
            &&& reader_step(header) matches ReaderModel::Fail(message) ==> message == if ended {
                "missing Content-Length header in LSP response"@
            } else {
                "LSP header too large (>4096 bytes)"@
            }
        }),
{
    let n = header.len();
    if n >= 4 {
        let end = header.skip(n - 4);
        assert(end[0] == header[n - 4] && end[1] == header[n - 3] && end[2] == header[n - 2]
            && end[3] == header[n - 1]);
        if ends_header(header) {
            assert(end =~= seq![13u8, 10u8, 13u8, 10u8]);
        }
        if end == seq![13u8, 10u8, 13u8, 10u8] {
            assert(end[0] == 13 && end[1] == 10 && end[2] == 13 && end[3] == 10);
        }
    }
}

/// The first line that announces a length counts. A line does where its name is `content-length`, in
/// capitals or not, and a number follows; white space around the line and the number counts for
/// nothing.
#[verifier::rlimit(50)]
pub proof fn law_length_is_announced(
    line: Seq<char>,
    rest: Seq<Seq<char>>,
    name: Seq<char>,
    value: Seq<char>,
)
    requires
        text::trimmed(line) == name + seq![':'] + value,
        !name.contains(':'),
        !value.contains(':'),
    ensures
        line_length(line) is Some ==> first_length(seq![line] + rest) == line_length(line),
        line_length(line) is None ==> first_length(seq![line] + rest) == first_length(rest),
        first_length(seq![]) is None,
        text::lowered(name) == "content-length"@ ==> line_length(line) == text::parsed_unsigned(
            text::trimmed(value),
            usize::MAX as nat,
        ),
        text::lowered(name) != "content-length"@ ==> line_length(line) is None,
{
    let field = text::trimmed(line);
    let all = seq![line] + rest;
    assert(all[0] == line);
    assert(all.skip(1) =~= rest);
    assert forall|i: int| 0 <= i < name.len() implies name[i] != ':' by {
        assert(name.contains(name[i]));
    }
    assert forall|i: int| 0 <= i < value.len() implies value[i] != ':' by {
        assert(value.contains(value[i]));
    }
    text::lemma_split_concat(name, value, ':');
    text::lemma_find_char_is(name, ':', name.len() as int);
    text::lemma_find_char_is(value, ':', value.len() as int);
    assert(text::split_text(name, ':') =~= seq![name]);
    assert(text::split_text(value, ':') =~= seq![value]);
    let parts = text::split_text(field, ':');
    assert(parts =~= seq![name, value]);
    reveal_strlit("content-length:");
    reveal_strlit("content-length");
    let low = text::lowered(field);
    assert(low =~= text::lowered(name) + seq![':'] + text::lowered(value));
    if text::lowered(name) == "content-length"@ {
        assert(low.take(15) =~= "content-length:"@);
    }
    if "content-length:"@.is_prefix_of(low) {
        assert(low.take(15) == "content-length:"@);
        assert(low.take(15)[14] == ':');
        assert forall|i: int| 0 <= i < 14 implies low[i] != ':' by {
            assert(low.take(15)[i] == "content-length:"@[i]);
        }
        if name.len() < 14 {
            assert(low[name.len() as int] == ':');
        }
        if name.len() > 14 {
            assert(low[14] == text::lowered(name)[14]);
            assert(text::lower_char(name[14]) != ':');
        }
        assert(text::lowered(name) =~= low.take(14));
        assert(low.take(14) =~= "content-length"@);
    }
}

/// A frame begins with a header that announces the number of bytes of the body, which follows whole.
pub proof fn law_frame_announces_its_length(body: Seq<char>)
    ensures
        ({
            let size = encode_utf8(body).len();
            let header = encode_utf8(
                "Content-Length: "@ + text::decimal_text(size) + "\r\n\r\n"@,
            );
            &&& header.is_prefix_of(frame_bytes(body))
            &&& frame_bytes(body).skip(header.len() as int) == encode_utf8(body)
        }),
{
    let size = encode_utf8(body).len();
    let header = encode_utf8("Content-Length: "@ + text::decimal_text(size) + "\r\n\r\n"@);
    assert(frame_bytes(body).take(header.len() as int) =~= header);
    assert(frame_bytes(body).skip(header.len() as int) =~= encode_utf8(body));
}

} // verus!
