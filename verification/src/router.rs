//! From a base URL and an endpoint's path to the URL of a request.
//!
//! Parsing and joining follow the WHATWG URL rules as the `url` crate
//! implements them; both are trusted functions here. What goes into a path
//! from outside, the id of a gist, is escaped here first, so that it stays
//! one segment of the path. Only `.` and `..` cannot: no URL holds them as a
//! segment.

use vstd::prelude::*;
use vstd::string::{StrSliceExecFns, StringExecFns};
use vstd::utf8::encode_utf8;

verus! {

/// Whether a byte stands for itself in a path segment: an ASCII letter, a
/// digit, or one of `-`, `.`, `_` and `~`.
pub open spec fn unreserved(b: u8) -> bool {
    ||| 0x41 <= b <= 0x5a
    ||| 0x61 <= b <= 0x7a
    ||| 0x30 <= b <= 0x39
    ||| b == 0x2d
    ||| b == 0x2e
    ||| b == 0x5f
    ||| b == 0x7e
}

/// The upper-case hexadecimal digit for a number below sixteen.
pub open spec fn hex_digit(n: u8) -> char {
    if n < 10 {
        (0x30 + n) as char
    } else {
        (0x37 + n) as char
    }
}

/// One byte as it stands in an escaped segment: itself where it is
/// unreserved, else `%` and its two hexadecimal digits.
pub open spec fn escaped_byte(b: u8) -> Seq<char> {
    if unreserved(b) {
        seq![b as char]
    } else {
        seq!['%', hex_digit(b / 16), hex_digit(b % 16)]
    }
}

/// The bytes, each escaped, one after the other.
pub open spec fn escaped_bytes(bytes: Seq<u8>) -> Seq<char>
    decreases bytes.len(),
{
    if bytes.len() == 0 {
        Seq::empty()
    } else {
        escaped_bytes(bytes.drop_last()) + escaped_byte(bytes.last())
    }
}

/// A text as one segment of a path: each byte of its UTF-8 form that is not
/// unreserved is percent-encoded.
pub open spec fn escaped_segment(text: Seq<char>) -> Seq<char> {
    escaped_bytes(encode_utf8(text))
}

/// Whether a character is one that an escaped segment is made of: `%`, or an
/// unreserved ASCII character, the hexadecimal digits among them.
pub open spec fn segment_char(c: char) -> bool {
    c == '%' || (c <= '\u{7f}' && unreserved(c as u8))
}

/// Whether a text holds unreserved ASCII characters only.
pub open spec fn plain_text(text: Seq<char>) -> bool {
    forall|i: int|
        0 <= i < text.len() ==> '\0' <= (#[trigger] text[i]) <= '\u{7f}' && unreserved(text[i] as u8)
}

proof fn escaped_bytes_chars(bytes: Seq<u8>)
    ensures
        forall|i: int|
            0 <= i < escaped_bytes(bytes).len() ==> segment_char(#[trigger] escaped_bytes(bytes)[i]),
    decreases bytes.len(),
{
    if bytes.len() > 0 {
        escaped_bytes_chars(bytes.drop_last());
        let b = bytes.last();
        let front = escaped_bytes(bytes.drop_last());
        let last = escaped_byte(b);
        assert(segment_char(hex_digit(b / 16)));
        assert(segment_char(hex_digit(b % 16)));
        assert(unreserved(b) ==> segment_char(b as char));
        assert forall|i: int| 0 <= i < (front + last).len() implies segment_char(
            #[trigger] (front + last)[i],
        ) by {
            if i < front.len() {
                assert((front + last)[i] == front[i]);
            } else {
                assert((front + last)[i] == last[i - front.len()]);
            }
        }
    }
}

proof fn escaped_bytes_plain(bytes: Seq<u8>)
    requires
        forall|i: int| 0 <= i < bytes.len() ==> unreserved(#[trigger] bytes[i]),
    ensures
        escaped_bytes(bytes).len() == bytes.len(),
        forall|i: int| 0 <= i < bytes.len() ==> (#[trigger] escaped_bytes(bytes)[i]) == bytes[i] as char,
    decreases bytes.len(),
{
    if bytes.len() > 0 {
        let front = bytes.drop_last();
        assert forall|i: int| 0 <= i < front.len() implies unreserved(#[trigger] front[i]) by {
            assert(front[i] == bytes[i]);
        }
        escaped_bytes_plain(front);
        assert(unreserved(bytes.last()));
    }
}

/// An escaped segment is made of `%` and unreserved characters alone. So it
/// holds no `/`, which would split it, and no `?` or `#`, which would end the
/// path.
pub proof fn escaped_segment_stays_in_the_path(text: Seq<char>)
    ensures
        forall|i: int|
            0 <= i < escaped_segment(text).len() ==> segment_char(
                #[trigger] escaped_segment(text)[i],
            ),
        !escaped_segment(text).contains('/'),
        !escaped_segment(text).contains('?'),
        !escaped_segment(text).contains('#'),
{
    escaped_bytes_chars(encode_utf8(text));
    assert(!segment_char('/') && !segment_char('?') && !segment_char('#'));
}

/// A text of unreserved characters is its own escaped segment.
pub proof fn plain_segment_is_unchanged(text: Seq<char>)
    requires
        plain_text(text),
    ensures
        escaped_segment(text) == text,
{
    assert(vstd::utf8::is_ascii_chars(text));
    vstd::utf8::is_ascii_chars_encode_utf8(text);
    let bytes = encode_utf8(text);
    assert forall|i: int| 0 <= i < bytes.len() implies unreserved(#[trigger] bytes[i]) by {
        assert(text[i] as u8 == bytes[i]);
    }
    escaped_bytes_plain(bytes);
    assert forall|i: int| 0 <= i < text.len() implies escaped_segment(text)[i] == text[i] by {
        assert(text[i] as u8 == bytes[i]);
        assert((text[i] as u8) as char == text[i]);
    }
    assert(escaped_segment(text) =~= text);
}

/// Whether a segment is one that a URL resolves away in place of holding it:
/// `.` or `..`, where a dot may also be written `%2e` or `%2E`.
pub open spec fn dot_segment(segment: Seq<char>) -> bool {
    ||| segment == seq!['.']
    ||| segment == seq!['%', '2', 'e']
    ||| segment == seq!['%', '2', 'E']
    ||| segment == seq!['.', '.']
    ||| segment == seq!['.', '%', '2', 'e']
    ||| segment == seq!['.', '%', '2', 'E']
    ||| segment == seq!['%', '2', 'e', '.']
    ||| segment == seq!['%', '2', 'E', '.']
    ||| segment == seq!['%', '2', 'e', '%', '2', 'e']
    ||| segment == seq!['%', '2', 'e', '%', '2', 'E']
    ||| segment == seq!['%', '2', 'E', '%', '2', 'e']
    ||| segment == seq!['%', '2', 'E', '%', '2', 'E']
}

proof fn escaped_bytes_shape(bytes: Seq<u8>)
    ensures
        escaped_bytes(bytes).len() >= bytes.len(),
        forall|i: int|
            0 <= i < escaped_bytes(bytes).len() && #[trigger] escaped_bytes(bytes)[i] == '%' ==> {
                &&& i + 2 < escaped_bytes(bytes).len()
                &&& !(escaped_bytes(bytes)[i + 1] == '2' && (escaped_bytes(bytes)[i + 2] == 'E'
                    || escaped_bytes(bytes)[i + 2] == 'e'))
            },
    decreases bytes.len(),
{
    if bytes.len() > 0 {
        escaped_bytes_shape(bytes.drop_last());
        let b = bytes.last();
        let front = escaped_bytes(bytes.drop_last());
        let last = escaped_byte(b);
        let all = front + last;
        assert(hex_digit(b / 16) != '%' && hex_digit(b % 16) != '%');
        assert(hex_digit(b / 16) == '2' ==> b / 16 == 2);
        assert(hex_digit(b % 16) == 'E' ==> b % 16 == 14);
        assert(hex_digit(b % 16) != 'e');
        assert(unreserved(b) ==> b as char != '%');
        assert forall|i: int| 0 <= i < all.len() && #[trigger] all[i] == '%' implies i + 2 < all.len()
            && !(all[i + 1] == '2' && (all[i + 2] == 'E' || all[i + 2] == 'e')) by {
            if i < front.len() {
                assert(all[i] == front[i]);
                assert(all[i + 1] == front[i + 1]);
                assert(all[i + 2] == front[i + 2]);
            } else {
                assert(all[i] == last[i - front.len()]);
                assert(i == front.len());
                assert(all[i + 1] == last[1]);
                assert(all[i + 2] == last[2]);
            }
        }
    }
}

/// Only the texts `.` and `..` escape to a segment that a URL resolves away;
/// every other text, escaped, is a segment that a URL holds as it is.
pub proof fn only_dots_escape_to_dot_segments(text: Seq<char>)
    ensures
        dot_segment(escaped_segment(text)) <==> (text == seq!['.'] || text == seq!['.', '.']),
{
    let bytes = encode_utf8(text);
    let out = escaped_segment(text);
    escaped_bytes_shape(bytes);
    vstd::utf8::encode_utf8_decode_utf8(text);
    let one = seq!['.'];
    let two = seq!['.', '.'];
    assert(vstd::utf8::is_ascii_chars(one));
    assert(vstd::utf8::is_ascii_chars(two));
    vstd::utf8::is_ascii_chars_encode_utf8(one);
    vstd::utf8::is_ascii_chars_encode_utf8(two);
    vstd::utf8::encode_utf8_decode_utf8(one);
    vstd::utf8::encode_utf8_decode_utf8(two);
    assert(encode_utf8(one) =~= seq![0x2eu8]);
    assert(encode_utf8(two) =~= seq![0x2eu8, 0x2eu8]);
    assert(plain_text(one));
    assert(plain_text(two));
    plain_segment_is_unchanged(one);
    plain_segment_is_unchanged(two);
    if dot_segment(out) {
        if out[0] == '%' {
            assert(out[1] == '2');
        } else if out.len() >= 2 && out[1] == '%' {
            assert(out[2] == '2');
        } else if out == one {
            assert(bytes.len() == 1);
            assert(escaped_bytes(bytes.drop_last()) =~= Seq::<char>::empty());
            assert(out =~= escaped_byte(bytes.last()));
            assert(bytes =~= seq![0x2eu8]);
        } else {
            assert(out == two);
            assert(bytes.len() >= 1);
            let front = bytes.drop_last();
            escaped_bytes_shape(front);
            assert(escaped_bytes(front).len() + escaped_byte(bytes.last()).len() == 2);
            assert(escaped_byte(bytes.last()).len() == 1);
            assert(escaped_bytes(front).len() == 1);
            assert(front.len() == 1);
            assert(escaped_bytes(front.drop_last()) =~= Seq::<char>::empty());
            assert(escaped_bytes(front) =~= escaped_byte(front.last()));
            assert(out[0] == escaped_bytes(front)[0]);
            assert(out[1] == escaped_byte(bytes.last())[0]);
            assert(bytes =~= seq![0x2eu8, 0x2eu8]);
        }
    }
}

proof fn escaped_bytes_from_the_front(bytes: Seq<u8>)
    requires
        bytes.len() > 0,
    ensures
        escaped_bytes(bytes) == escaped_byte(bytes[0]) + escaped_bytes(bytes.drop_first()),
    decreases bytes.len(),
{
    let front = bytes.drop_last();
    let rest = bytes.drop_first();
    if bytes.len() == 1 {
        assert(escaped_bytes(front) =~= Seq::<char>::empty());
        assert(escaped_bytes(rest) =~= Seq::<char>::empty());
        assert(escaped_bytes(bytes) =~= escaped_byte(bytes[0]) + escaped_bytes(rest));
    } else {
        escaped_bytes_from_the_front(front);
        assert(front[0] == bytes[0]);
        assert(front.drop_first() =~= rest.drop_last());
        assert(rest.last() == bytes.last());
        assert(escaped_bytes(bytes) =~= escaped_byte(bytes[0]) + escaped_bytes(rest));
    }
}

proof fn escaped_bytes_tell_the_bytes(a: Seq<u8>, b: Seq<u8>)
    requires
        escaped_bytes(a) == escaped_bytes(b),
    ensures
        a == b,
    decreases a.len(),
{
    escaped_bytes_shape(a);
    escaped_bytes_shape(b);
    if a.len() == 0 {
        assert(a =~= b);
    } else {
        assert(escaped_byte(a.last()).len() >= 1);
        assert(b.len() > 0);
        escaped_bytes_from_the_front(a);
        escaped_bytes_from_the_front(b);
        let x = escaped_byte(a[0]);
        let y = escaped_byte(b[0]);
        let rest_a = escaped_bytes(a.drop_first());
        let rest_b = escaped_bytes(b.drop_first());
        assert((x + rest_a)[0] == x[0]);
        assert((y + rest_b)[0] == y[0]);
        assert(unreserved(a[0]) ==> a[0] as char != '%');
        assert(unreserved(b[0]) ==> b[0] as char != '%');
        assert(unreserved(a[0]) == unreserved(b[0]));
        if unreserved(a[0]) {
            assert(a[0] as char == b[0] as char);
        } else {
            assert((x + rest_a)[1] == x[1] && (x + rest_a)[2] == x[2]);
            assert((y + rest_b)[1] == y[1] && (y + rest_b)[2] == y[2]);
            assert(hex_digit(a[0] / 16) == hex_digit(b[0] / 16));
            assert(hex_digit(a[0] % 16) == hex_digit(b[0] % 16));
            assert(a[0] / 16 == b[0] / 16);
            assert(a[0] % 16 == b[0] % 16);
        }
        assert(a[0] == b[0]);
        assert(x == y);
        assert(rest_a =~= (x + rest_a).skip(x.len() as int));
        assert(rest_b =~= (y + rest_b).skip(y.len() as int));
        escaped_bytes_tell_the_bytes(a.drop_first(), b.drop_first());
        assert(a =~= seq![a[0]] + a.drop_first());
        assert(b =~= seq![b[0]] + b.drop_first());
    }
}

/// No two texts escape to the same segment.
pub proof fn escaped_segment_tells_the_text(a: Seq<char>, b: Seq<char>)
    requires
        escaped_segment(a) == escaped_segment(b),
    ensures
        a == b,
{
    escaped_bytes_tell_the_bytes(encode_utf8(a), encode_utf8(b));
    vstd::utf8::encode_utf8_decode_utf8(a);
    vstd::utf8::encode_utf8_decode_utf8(b);
}

/// Escapes a text for use as one segment of a path.
pub fn escape_segment(text: &str) -> (r: String)
    ensures
        r@ == escaped_segment(text@),
{
    let bytes = text.as_bytes();
    let mut out = String::new();
    proof {
        assert(bytes@.take(0) =~= Seq::<u8>::empty());
    }
    let mut i: usize = 0;
    while i < bytes.len()
        invariant
            i <= bytes.len(),
            bytes@ == encode_utf8(text@),
            out@ == escaped_bytes(bytes@.take(i as int)),
        decreases bytes.len() - i,
    {
        let b = bytes[i];
        let ghost before = out@;
        if is_unreserved(b) {
            out.append(plain(b));
        } else {
            out.append("%");
            out.append(hex(b / 16));
            out.append(hex(b % 16));
        }
        proof {
            reveal_strlit("%");
            let done = bytes@.take(i as int + 1);
            assert(done.drop_last() =~= bytes@.take(i as int));
            assert(done.last() == b);
            assert(out@ =~= before + escaped_byte(b));
        }
        i = i + 1;
    }
    proof {
        assert(bytes@.take(i as int) =~= bytes@);
    }
    out
}

/// Whether a byte stands for itself in a path segment.
fn is_unreserved(b: u8) -> (r: bool)
    ensures
        r == unreserved(b),
{
    (0x41 <= b && b <= 0x5a) || (0x61 <= b && b <= 0x7a) || (0x30 <= b && b <= 0x39) || b == 0x2d
        || b == 0x2e || b == 0x5f || b == 0x7e
}

/// An unreserved byte as text.
fn plain(b: u8) -> (r: &'static str)
    requires
        unreserved(b),
    ensures
        r@ == seq![b as char],
{
    let all = "0123456789ABCDEFGHIJKLMNOPQRSTUVWXYZabcdefghijklmnopqrstuvwxyz-._~";
    proof {
        reveal_strlit("0123456789ABCDEFGHIJKLMNOPQRSTUVWXYZabcdefghijklmnopqrstuvwxyz-._~");
    }
    let k: usize = if 0x30 <= b && b <= 0x39 {
        (b - 0x30) as usize
    } else if 0x41 <= b && b <= 0x5a {
        (b - 0x41) as usize + 10
    } else if 0x61 <= b && b <= 0x7a {
        (b - 0x61) as usize + 36
    } else if b == 0x2d {
        62
    } else if b == 0x2e {
        63
    } else if b == 0x5f {
        64
    } else {
        65
    };
    assert(all@[k as int] == b as char);
    let one = all.substring_ascii(k, k + 1);
    assert(one@ =~= seq![b as char]);
    one
}

/// A number below sixteen as its upper-case hexadecimal digit.
fn hex(n: u8) -> (r: &'static str)
    requires
        n < 16,
    ensures
        r@ == seq![hex_digit(n)],
{
    let all = "0123456789ABCDEF";
    proof {
        reveal_strlit("0123456789ABCDEF");
    }
    assert(all@[n as int] == hex_digit(n));
    let one = all.substring_ascii(n as usize, n as usize + 1);
    assert(one@ =~= seq![hex_digit(n)]);
    one
}

/// The outcome of `url::Url::parse` on `input`: the serialization of the
/// parsed URL, or the error.
pub uninterp spec fn url_parse(input: Seq<char>) -> Result<Seq<char>, url::ParseError>;

/// The outcome of parsing `base` with `url::Url::parse` and resolving
/// `reference` against it with `url::Url::join`: the serialization of the
/// joined URL, or the error of the step that failed.
pub uninterp spec fn url_join(base: Seq<char>, reference: Seq<char>) -> Result<
    Seq<char>,
    url::ParseError,
>;

/// An outcome of the `url` crate with the URL, if there is one, taken by its
/// characters.
pub open spec fn outcome(r: Result<String, url::ParseError>) -> Result<Seq<char>, url::ParseError> {
    match r {
        Ok(url) => Ok(url@),
        Err(e) => Err(e),
    }
}

/// Calls `url::Url::parse` and hands back the URL's serialization.
/// Claims only that the outcome is a function of `input`.
#[verifier::external_body]
pub(crate) fn parse_url(input: &str) -> (r: Result<String, url::ParseError>)
    ensures
        outcome(r) == url_parse(input@),
{
    url::Url::parse(input).map(String::from)
}

/// Calls `url::Url::parse` on `base` and `url::Url::join` on the result, and
/// hands back the joined URL's serialization.
/// Claims only that the outcome is a function of `base` and `reference`.
#[verifier::external_body]
pub(crate) fn join_url(base: &str, reference: &str) -> (r: Result<String, url::ParseError>)
    ensures
        outcome(r) == url_join(base@, reference@),
{
    let parsed = url::Url::parse(base)?;
    parsed.join(reference).map(String::from)
}

} // verus!
