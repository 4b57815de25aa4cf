//! Acknowledgments sent back on the control channel, and their JSON text.
use vstd::prelude::*;

verus! {

/// serde_json's error, carried through opaque.
#[verifier::external_type_specification]
#[verifier::external_body]
pub struct ExJsonError(serde_json::Error);

/// The outcome of handling one command: `ok`, or `error` with a diagnostic.
#[derive(Debug)]
pub struct ServerResponse {
    pub status: String,
    pub message: Option<String>,
}

/// The mathematical value of a [`ServerResponse`].
pub struct ResponseModel {
    pub status: Seq<char>,
    pub message: Option<Seq<char>>,
}

impl View for ServerResponse {
    type V = ResponseModel;

    open spec fn view(&self) -> ResponseModel {
        ResponseModel {
            status: self.status@,
            message: match self.message {
                Some(m) => Some(m@),
                None => None,
            },
        }
    }
}

pub open spec fn ok_model() -> ResponseModel {
    ResponseModel { status: "ok"@, message: None }
}

pub open spec fn error_model(message: Seq<char>) -> ResponseModel {
    ResponseModel { status: "error"@, message: Some(message) }
}

impl ServerResponse {
    /// The acknowledgment of a command that was carried out.
    pub fn ok() -> (r: ServerResponse)
        ensures
            r@ == ok_model(),
    {
        ServerResponse { status: String::from_str("ok"), message: None }
    }

    /// The answer to a command whose action failed, with the diagnostic.
    pub fn error(message: String) -> (r: ServerResponse)
        ensures
            r@ == error_model(message@),
    {
        ServerResponse { status: String::from_str("error"), message: Some(message) }
    }
}

/// A lowercase hexadecimal digit.
pub open spec fn hex_digit(d: nat) -> char
    recommends
        d < 16,
{
    if d < 10 {
        ((d + 48) as u8) as char
    } else {
        ((d + 87) as u8) as char
    }
}

/// How JSON writes one character inside a string literal: quote and
/// backslash escaped by a backslash, the five control characters that have a
/// short escape written that way, other control characters below U+0020 as
/// `\u00` and two lowercase hexadecimal digits, everything else as it is.
pub open spec fn escape_char(c: char) -> Seq<char> {
    if c == '"' {
        seq!['\\', '"']
    } else if c == '\\' {
        seq!['\\', '\\']
    } else if c == '\x08' {
        seq!['\\', 'b']
    } else if c == '\t' {
        seq!['\\', 't']
    } else if c == '\n' {
        seq!['\\', 'n']
    } else if c == '\x0c' {
        seq!['\\', 'f']
    } else if c == '\r' {
        seq!['\\', 'r']
    } else if (c as u32) < 0x20 {
        seq!['\\', 'u', '0', '0', hex_digit((c as nat) / 16), hex_digit((c as nat) % 16)]
    } else {
        seq![c]
    }
}

/// The characters of a text, each escaped as JSON writes it.
pub open spec fn json_escaped(s: Seq<char>) -> Seq<char>
    decreases s.len(),
{
    if s.len() == 0 {
        Seq::empty()
    } else {
        json_escaped(s.drop_last()) + escape_char(s.last())
    }
}

/// The JSON string literal of a text.
pub open spec fn json_string_of(s: Seq<char>) -> Seq<char> {
    seq!['"'] + json_escaped(s) + seq!['"']
}

/// A text that JSON carries between quotes unchanged: no quote, no backslash
/// and no control character below U+0020.
pub open spec fn json_plain(s: Seq<char>) -> bool {
    forall|i: int| 0 <= i < s.len() ==> {
        let c = #[trigger] s[i];
        c != '"' && c != '\\' && c as u32 >= 0x20
    }
}

/// A plain text is written between quotes as it is.
pub proof fn plain_text_is_unescaped(s: Seq<char>)
    requires
        json_plain(s),
    ensures
        json_escaped(s) == s,
        json_string_of(s) == seq!['"'] + s + seq!['"'],
    decreases s.len(),
{
    if s.len() > 0 {
        let init = s.drop_last();
        assert forall|i: int| 0 <= i < init.len() implies {
            let c = #[trigger] init[i];
            c != '"' && c != '\\' && c as u32 >= 0x20
        } by {
            assert(init[i] == s[i]);
        }
        plain_text_is_unescaped(init);
        let c = s[s.len() - 1];
        assert(c != '"' && c != '\\' && c as u32 >= 0x20);
        assert(c != '\x08' && c != '\t' && c != '\n' && c != '\x0c' && c != '\r') by {
            assert(('\x08' as u32) < 0x20);
            assert(('\t' as u32) < 0x20);
            assert(('\n' as u32) < 0x20);
            assert(('\x0c' as u32) < 0x20);
            assert(('\r' as u32) < 0x20);
        }
        assert(escape_char(s.last()) == seq![c]);
        assert(s =~= init + seq![c]);
    }
}

/// Relies on `serde_json::to_string` on a `str`: the string literal between
/// quotes, with `"`, `\` and the bytes below 0x20 escaped (`ESCAPE` and
/// `write_char_escape` in its serializer). The literal is written into a
/// `Vec<u8>`, whose writes do not fail, so the call succeeds.
#[verifier::external_body]
fn json_quote(s: &str) -> (r: Result<String, serde_json::Error>)
    ensures
        r is Ok,
        r matches Ok(t) ==> t@ == json_string_of(s@),
{
    serde_json::to_string(s)
}

fn quote(s: &str) -> (r: String)
    ensures
        r@ == json_string_of(s@),
{
    match json_quote(s) {
        Ok(t) => t,
        Err(_) => {
            unreached()
        },
    }
}

/// The JSON object of a response, from the JSON literals of its fields; an
/// absent message is `null`.
pub open spec fn response_text(status_json: Seq<char>, message_json: Option<Seq<char>>) -> Seq<
    char,
> {
    "{\"status\":"@ + status_json + ",\"message\":"@ + match message_json {
        Some(m) => m,
        None => "null"@,
    } + "}"@
}

/// The JSON text of a response whose fields have been rendered as JSON
/// literals already.
pub fn frame_response(status_json: &str, message_json: Option<&str>) -> (r: String)
    ensures
        r@ == response_text(
            status_json@,
            match message_json {
                Some(m) => Some(m@),
                None => None,
            },
        ),
{
    let mut r = String::from_str("{\"status\":");
    r.append(status_json);
    r.append(",\"message\":");
    match message_json {
        Some(m) => r.append(m),
        None => r.append("null"),
    }
    r.append("}");
    r
}

/// The JSON text of an acknowledgment of success.
pub open spec fn ok_text() -> Seq<char> {
    "{\"status\":\"ok\",\"message\":null}"@
}

/// The JSON text of a failure with a diagnostic.
pub open spec fn error_text(message: Seq<char>) -> Seq<char> {
    "{\"status\":\"error\",\"message\":"@ + json_string_of(message) + "}"@
}

/// The JSON text of a response.
pub fn encode_response(resp: &ServerResponse) -> (r: String)
    ensures
        r@ == response_text(
            json_string_of(resp@.status),
            match resp@.message {
                Some(m) => Some(json_string_of(m)),
                None => None,
            },
        ),
        resp@ == ok_model() ==> r@ == ok_text(),
        forall|m: Seq<char>| resp@ == #[trigger] error_model(m) ==> r@ == error_text(m),
{
    let status_json = quote(resp.status.as_str());
    let r = match &resp.message {
        Some(m) => {
            let message_json = quote(m.as_str());
            frame_response(status_json.as_str(), Some(message_json.as_str()))
        },
        None => frame_response(status_json.as_str(), None),
    };
    proof {
        if resp@ == ok_model() {
            reveal_strlit("ok");
            assert(json_plain("ok"@));
            reveal_strlit("{\"status\":");
            reveal_strlit(",\"message\":");
            reveal_strlit("null");
            reveal_strlit("}");
            reveal_strlit("{\"status\":\"ok\",\"message\":null}");
            plain_text_is_unescaped("ok"@);
            assert(r@ =~= ok_text());
        }
        if resp@.status == "error"@ && resp@.message is Some {
            let m = resp@.message->Some_0;
            reveal_strlit("error");
            assert(json_plain("error"@));
            plain_text_is_unescaped("error"@);
            reveal_strlit("{\"status\":");
            reveal_strlit(",\"message\":");
            reveal_strlit("}");
            reveal_strlit("{\"status\":\"error\",\"message\":");
            assert(r@ =~= error_text(m));
        }
    }
    r
}

} // verus!
