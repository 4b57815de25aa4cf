//! The static content channel: which file a request asks for, what the
//! answer's head says, and the fixed answer for a file that cannot be read.
//!
//! Paths are joined onto the content root as they come: segments such as
//! `..` are not resolved or refused.
use vstd::prelude::*;
use crate::command::text_opt;
use crate::decimal::{nat_decimal, u64_decimal};
use crate::text::{decode_lossy, text_is, utf8_lossy_of};

verus! {

/// The directory that the content channel serves.
pub const CONTENT_ROOT: &'static str = "/home/pi/serve-and-ate-rust/webapp";

/// Whether a character has Unicode's White_Space property: tab through
/// carriage return, space, U+0085, U+00A0, U+1680, U+2000 through U+200A,
/// U+2028, U+2029, U+202F, U+205F and U+3000.
pub open spec fn white_space(c: char) -> bool {
    let u = c as u32;
    (0x09 <= u <= 0x0d) || u == 0x20 || u == 0x85 || u == 0xa0 || u == 0x1680 || (0x2000 <= u
        <= 0x200a) || u == 0x2028 || u == 0x2029 || u == 0x202f || u == 0x205f || u == 0x3000
}

/// Relies on `char::is_whitespace`: whether the character has Unicode's
/// White_Space property.
#[verifier::external_body]
fn is_white_space(c: char) -> (r: bool)
    ensures
        r == white_space(c),
{
    c.is_whitespace()
}

/// The first index at or after `i` that ends the text or holds a character
/// whose white-space-ness is `space`.
pub open spec fn scan_to(s: Seq<char>, i: int, space: bool) -> int
    decreases s.len() - i,
{
    if i < 0 || i >= s.len() || white_space(s[i]) == space {
        i
    } else {
        scan_to(s, i + 1, space)
    }
}

/// The index of the first line feed, or the text's length where there is
/// none.
pub open spec fn line_end(s: Seq<char>, i: int) -> int
    decreases s.len() - i,
{
    if i < 0 || i >= s.len() || s[i] == '\n' {
        i
    } else {
        line_end(s, i + 1)
    }
}

/// The first line of a request, without its line ending (a line feed, or a
/// carriage return and a line feed); none for an empty request.
pub open spec fn first_line(s: Seq<char>) -> Option<Seq<char>> {
    if s.len() == 0 {
        None
    } else {
        let e = line_end(s, 0);
        if e < s.len() && e > 0 && s[e - 1] == '\r' {
            Some(s.subrange(0, e - 1))
        } else {
            Some(s.subrange(0, e))
        }
    }
}

/// The path of a request whose first line has `GET` as its first word and
/// has a second word, which is the path; none for any other request.
pub open spec fn request_target_of(s: Seq<char>) -> Option<Seq<char>> {
    match first_line(s) {
        None => None,
        Some(l) => {
            let a = scan_to(l, 0, false);
            let b = scan_to(l, a, true);
            let c = scan_to(l, b, false);
            let d = scan_to(l, c, true);
            if a < b && c < d && l.subrange(a, b) == "GET"@ {
                Some(l.subrange(c, d))
            } else {
                None
            }
        },
    }
}

proof fn lemma_scan_bounds(s: Seq<char>, i: int, space: bool)
    requires
        0 <= i <= s.len(),
    ensures
        i <= scan_to(s, i, space) <= s.len(),
    decreases s.len() - i,
{
    if i < s.len() && white_space(s[i]) != space {
        lemma_scan_bounds(s, i + 1, space);
    }
}

fn scan(l: &str, n: usize, start: usize, space: bool) -> (r: usize)
    requires
        n == l@.len(),
        start <= n,
    ensures
        r == scan_to(l@, start as int, space),
        start <= r <= n,
{
    proof {
        lemma_scan_bounds(l@, start as int, space);
    }
    let mut j = start;
    while j < n && is_white_space(l.get_char(j)) != space
        invariant
            n == l@.len(),
            start <= j <= n,
            scan_to(l@, j as int, space) == scan_to(l@, start as int, space),
        decreases n - j,
    {
        j = j + 1;
    }
    j
}

fn find_line_end(s: &str, n: usize) -> (r: usize)
    requires
        n == s@.len(),
    ensures
        r == line_end(s@, 0),
        r <= n,
{
    let mut j: usize = 0;
    while j < n && s.get_char(j) != '\n'
        invariant
            n == s@.len(),
            j <= n,
            line_end(s@, j as int) == line_end(s@, 0),
        decreases n - j,
    {
        j = j + 1;
    }
    j
}

/// The path that a request asks for, from the request's text.
pub fn parse_request_target(text: &str) -> (r: Option<String>)
    ensures
        text_opt(r) == request_target_of(text@),
{
    let n = text.unicode_len();
    if n == 0 {
        return None;
    }
    let e = find_line_end(text, n);
    let line_len = if e < n && e > 0 && text.get_char(e - 1) == '\r' {
        e - 1
    } else {
        e
    };
    let line = text.substring_char(0, line_len);
    assert(first_line(text@) == Some(line@));
    let a = scan(line, line_len, 0, false);
    let b = scan(line, line_len, a, true);
    let c = scan(line, line_len, b, false);
    let d = scan(line, line_len, c, true);
    if a < b && c < d && text_is(line.substring_char(a, b), "GET") {
        Some(String::from_str(line.substring_char(c, d)))
    } else {
        None
    }
}

/// The path that a request asks for, from the bytes that were read of it.
pub fn request_target(raw: &[u8]) -> (r: Option<String>)
    ensures
        text_opt(r) == request_target_of(utf8_lossy_of(raw@)),
{
    let text = decode_lossy(raw);
    parse_request_target(text.as_str())
}

/// The file that a path names: the root's `index.html` for `/`, otherwise
/// the path appended to the root as it is.
pub open spec fn resolved_path(root: Seq<char>, path: Seq<char>) -> Seq<char> {
    if path == "/"@ {
        root + "/index.html"@
    } else {
        root + path
    }
}

/// The file that a request path names under a root.
pub fn resolve_path(root: &str, path: &str) -> (r: String)
    ensures
        r@ == resolved_path(root@, path@),
{
    let r = String::from_str(root);
    if text_is(path, "/") {
        r.concat("/index.html")
    } else {
        r.concat(path)
    }
}

/// The extension that `std::path::Path` finds in a path, if any.
pub uninterp spec fn path_extension_of(p: Seq<char>) -> Option<Seq<char>>;

/// Relies on `Path::extension`: the part of the path's file name after its
/// last dot, if there is one.
#[verifier::external_body]
fn path_extension(p: &str) -> (r: Option<String>)
    ensures
        text_opt(r) == path_extension_of(p@),
{
    match std::path::Path::new(p).extension() {
        Some(e) => e.to_str().map(String::from),
        None => None,
    }
}

/// The content type that an extension announces; unknown or absent
/// extensions are plain text.
pub open spec fn content_type_of(ext: Option<Seq<char>>) -> Seq<char> {
    match ext {
        Some(e) => if e == "html"@ {
            "text/html"@
        } else if e == "css"@ {
            "text/css"@
        } else if e == "js"@ {
            "application/javascript"@
        } else if e == "json"@ {
            "application/json"@
        } else if e == "png"@ {
            "image/png"@
        } else if e == "jpg"@ || e == "jpeg"@ {
            "image/jpeg"@
        } else if e == "gif"@ {
            "image/gif"@
        } else if e == "svg"@ {
            "image/svg+xml"@
        } else {
            "text/plain"@
        },
        None => "text/plain"@,
    }
}

/// The content type for a file extension.
pub fn content_type_for_extension(ext: Option<&str>) -> (r: &'static str)
    ensures
        r@ == content_type_of(
            match ext {
                Some(e) => Some(e@),
                None => None,
            },
        ),
{
    match ext {
        Some(e) => if text_is(e, "html") {
            "text/html"
        } else if text_is(e, "css") {
            "text/css"
        } else if text_is(e, "js") {
            "application/javascript"
        } else if text_is(e, "json") {
            "application/json"
        } else if text_is(e, "png") {
            "image/png"
        } else if text_is(e, "jpg") || text_is(e, "jpeg") {
            "image/jpeg"
        } else if text_is(e, "gif") {
            "image/gif"
        } else if text_is(e, "svg") {
            "image/svg+xml"
        } else {
            "text/plain"
        },
        None => "text/plain",
    }
}

/// The content type for a file, by the extension of its path.
pub fn content_type_for(path: &str) -> (r: &'static str)
    ensures
        r@ == content_type_of(path_extension_of(path@)),
{
    match path_extension(path) {
        Some(e) => content_type_for_extension(Some(e.as_str())),
        None => content_type_for_extension(None),
    }
}

/// The permissive cross-origin headers that every answer carries, each
/// with its line ending.
pub open spec fn cors_headers() -> Seq<char> {
    "Access-Control-Allow-Origin: *\r\nAccess-Control-Allow-Methods: GET, POST, OPTIONS\r\nAccess-Control-Allow-Headers: Content-Type\r\n"@
}

/// The head of a successful answer: status line, content type, length and
/// the cross-origin headers.
pub open spec fn ok_head_text(content_type: Seq<char>, len: nat) -> Seq<char> {
    "HTTP/1.1 200 OK\r\nContent-Type: "@ + content_type + "\r\nContent-Length: "@
        + nat_decimal(len) + "\r\n"@ + cors_headers() + "\r\n"@
}

/// The head of the answer that carries a file of `len` bytes.
pub fn ok_head(content_type: &str, len: usize) -> (r: String)
    ensures
        r@ == ok_head_text(content_type@, len as nat),
{
    let mut r = String::from_str("HTTP/1.1 200 OK\r\nContent-Type: ");
    r.append(content_type);
    r.append("\r\nContent-Length: ");
    let digits = u64_decimal(len as u64);
    r.append(digits.as_str());
    r.append("\r\n");
    r.append(
        "Access-Control-Allow-Origin: *\r\nAccess-Control-Allow-Methods: GET, POST, OPTIONS\r\nAccess-Control-Allow-Headers: Content-Type\r\n",
    );
    r.append("\r\n");
    r
}

/// The body of the answer for a file that cannot be read.
pub open spec fn not_found_body() -> Seq<char> {
    "404 Not Found"@
}

/// The whole answer for a file that cannot be read, whatever the reason:
/// status, a length that is the length of the body, thirteen, the
/// cross-origin headers, and the body.
pub fn not_found() -> (r: &'static str)
    ensures
        r@ == "HTTP/1.1 404 NOT FOUND\r\nContent-Length: "@ + nat_decimal(not_found_body().len())
            + "\r\n"@ + cors_headers() + "\r\n"@ + not_found_body(),
        not_found_body().len() == 13,
{
    let r =
        "HTTP/1.1 404 NOT FOUND\r\nContent-Length: 13\r\nAccess-Control-Allow-Origin: *\r\nAccess-Control-Allow-Methods: GET, POST, OPTIONS\r\nAccess-Control-Allow-Headers: Content-Type\r\n\r\n404 Not Found";
    proof {
        reveal_strlit(
            "HTTP/1.1 404 NOT FOUND\r\nContent-Length: 13\r\nAccess-Control-Allow-Origin: *\r\nAccess-Control-Allow-Methods: GET, POST, OPTIONS\r\nAccess-Control-Allow-Headers: Content-Type\r\n\r\n404 Not Found",
        );
        reveal_strlit("HTTP/1.1 404 NOT FOUND\r\nContent-Length: ");
        reveal_strlit("\r\n");
        reveal_strlit(
            "Access-Control-Allow-Origin: *\r\nAccess-Control-Allow-Methods: GET, POST, OPTIONS\r\nAccess-Control-Allow-Headers: Content-Type\r\n",
        );
        reveal_strlit("404 Not Found");
        assert(nat_decimal(13) =~= seq!['1', '3']) by {
            reveal_with_fuel(nat_decimal, 2);
        }
        assert(r@ =~= "HTTP/1.1 404 NOT FOUND\r\nContent-Length: "@ + nat_decimal(
            not_found_body().len(),
        ) + "\r\n"@ + cors_headers() + "\r\n"@ + not_found_body());
    }
    r
}

} // verus!
