//! The event codec: the wire form of outbound requests and inbound replies.
//!
//! An outbound request is the JSON object
//! `{"id":<id>,"method":"<method>","payload":<payload>}`, with the
//! `payload` key omitted entirely when the caller's payload serialized to
//! JSON null. The text is built here character by character, so the
//! contract pins the exact output.
//!
//! An inbound reply is a JSON object with required fields `id` (integer)
//! and `success` (boolean) and optional fields `data` (any value) and
//! `error` (string); `serde_json` parses the text, and the shape rules are
//! enforced by [`assemble_reply`]. A malformed event decodes to nothing and
//! is thereby dropped.

use crate::json;
use vstd::prelude::*;
use vstd::string::StrSliceExecFns;
use vstd::string::StringExecFns;

verus! {

/// An inbound reply, as the correlation engine consumes it.
pub struct Reply {
    pub id: u64,
    pub success: bool,
    /// The reply's payload; absent when the wire form had no `data` key or
    /// carried null there.
    pub data: Option<serde_json::Value>,
    pub error: Option<String>,
}

/// The `error` field of an inbound reply as found on the wire.
pub enum ErrorField {
    /// Absent, or null.
    Missing,
    /// A JSON string.
    Text(String),
    /// Present, but neither null nor a string: the whole event is invalid.
    Malformed,
}

/// Builds a reply from the raw fields of an inbound event. The required
/// fields are `id` and `success`: the reply exists exactly when both were
/// present and the `error` field, if present, was a string. Absent `data`
/// or `error` default to no value and no message.
pub fn assemble_reply(
    id: Option<u64>,
    success: Option<bool>,
    data: Option<serde_json::Value>,
    error: ErrorField,
) -> (r: Option<Reply>)
    ensures
        (r is Some) == (id is Some && success is Some && !(error is Malformed)),
        r matches Some(rep) ==> {
            &&& id matches Some(i) && rep.id == i
            &&& success matches Some(s) && rep.success == s
            &&& rep.data == data
            &&& match error {
                ErrorField::Missing => rep.error is None,
                ErrorField::Text(t) => rep.error == Some(t),
                ErrorField::Malformed => false,
            }
        },
{
    let id = match id {
        Some(i) => i,
        None => {
            return None;
        },
    };
    let success = match success {
        Some(s) => s,
        None => {
            return None;
        },
    };
    let error = match error {
        ErrorField::Missing => None,
        ErrorField::Text(t) => Some(t),
        ErrorField::Malformed => {
            return None;
        },
    };
    Some(Reply { id, success, data, error })
}

/// Decodes one inbound event. `serde_json` parses the text, the trusted
/// readers in [`crate::json`] pull out the raw fields, and
/// [`assemble_reply`] enforces the shape rules. The contract is exact over
/// the named wire fields: a reply comes out if and only if the text carries
/// an integer `id` and a boolean `success` and no ill-typed `error`, and
/// its fields are the text's own. Any malformed event decodes to nothing.
pub fn decode_reply(text: &str) -> (r: Option<Reply>)
    ensures
        (r is Some) == (json::wire_id(text@) is Some && json::wire_success(text@) is Some
            && !json::wire_error_malformed(text@)),
        r matches Some(rep) ==> {
            &&& json::wire_id(text@) == Some(rep.id)
            &&& json::wire_success(text@) == Some(rep.success)
            &&& (rep.data is Some) == json::wire_data_present(text@)
            &&& (match json::wire_error_text(text@) {
                Some(t) => rep.error matches Some(e) && e@ == t,
                None => rep.error is None,
            })
        },
{
    let id = json::wire_id_of(text);
    let success = json::wire_success_of(text);
    let data = json::wire_data_of(text);
    let error = json::wire_error_of(text);
    assemble_reply(id, success, data, error)
}

/// The decimal digit `n`, for `n < 10`.
pub open spec fn dec_digit(n: nat) -> char {
    if n == 0 {
        '0'
    } else if n == 1 {
        '1'
    } else if n == 2 {
        '2'
    } else if n == 3 {
        '3'
    } else if n == 4 {
        '4'
    } else if n == 5 {
        '5'
    } else if n == 6 {
        '6'
    } else if n == 7 {
        '7'
    } else if n == 8 {
        '8'
    } else {
        '9'
    }
}

/// The decimal text of `n`, without leading zeros.
pub open spec fn spec_dec(n: nat) -> Seq<char>
    decreases n,
{
    if n < 10 {
        seq![dec_digit(n)]
    } else {
        spec_dec(n / 10).push(dec_digit(n % 10))
    }
}

fn digit_char(n: u64) -> (c: char)
    requires
        n < 10,
    ensures
        c == dec_digit(n as nat),
{
    match n {
        0 => '0',
        1 => '1',
        2 => '2',
        3 => '3',
        4 => '4',
        5 => '5',
        6 => '6',
        7 => '7',
        8 => '8',
        _ => '9',
    }
}

/// The decimal text of `n`.
pub fn dec_u64(n: u64) -> (s: String)
    ensures
        s@ == spec_dec(n as nat),
    decreases n,
{
    if n < 10 {
        let mut s = String::new();
        push_char(&mut s, digit_char(n));
        proof {
            assert(s@ =~= spec_dec(n as nat));
        }
        s
    } else {
        let mut s = dec_u64(n / 10);
        push_char(&mut s, digit_char(n % 10));
        s
    }
}

/// The hexadecimal digit `n`, for `n < 16`.
pub open spec fn hex_digit(n: nat) -> char {
    if n < 10 {
        dec_digit(n)
    } else if n == 10 {
        'a'
    } else if n == 11 {
        'b'
    } else if n == 12 {
        'c'
    } else if n == 13 {
        'd'
    } else if n == 14 {
        'e'
    } else {
        'f'
    }
}

fn hex_char(n: u64) -> (c: char)
    requires
        n < 16,
    ensures
        c == hex_digit(n as nat),
{
    if n < 10 {
        digit_char(n)
    } else {
        match n {
            10 => 'a',
            11 => 'b',
            12 => 'c',
            13 => 'd',
            14 => 'e',
            _ => 'f',
        }
    }
}

/// How one character appears inside a JSON string literal: quote and
/// backslash are escaped, control characters become `\u00XX`, everything
/// else stands for itself.
pub open spec fn spec_escape_char(c: char) -> Seq<char> {
    if c == '"' {
        seq!['\\', '"']
    } else if c == '\\' {
        seq!['\\', '\\']
    } else if (c as u32) < 32 {
        seq!['\\', 'u', '0', '0', hex_digit((c as u32 / 16) as nat), hex_digit(
            (c as u32 % 16) as nat,
        )]
    } else {
        seq![c]
    }
}

/// The body of the JSON string literal denoting `s`.
pub open spec fn spec_escape(s: Seq<char>) -> Seq<char>
    decreases s.len(),
{
    if s.len() == 0 {
        Seq::empty()
    } else {
        spec_escape_char(s[0]) + spec_escape(s.skip(1))
    }
}

proof fn lemma_escape_snoc(s: Seq<char>, c: char)
    ensures
        spec_escape(s.push(c)) == spec_escape(s) + spec_escape_char(c),
    decreases s.len(),
{
    if s.len() == 0 {
        assert(s.push(c).skip(1) =~= Seq::<char>::empty());
        assert(s.push(c)[0] == c);
        assert(spec_escape(s.push(c)) == spec_escape_char(c) + spec_escape(
            Seq::<char>::empty(),
        ));
        assert(spec_escape(Seq::<char>::empty()) == Seq::<char>::empty());
        assert(spec_escape(s) == Seq::<char>::empty());
        assert(spec_escape(s.push(c)) =~= spec_escape(s) + spec_escape_char(c));
    } else {
        assert(s.push(c).skip(1) =~= s.skip(1).push(c));
        lemma_escape_snoc(s.skip(1), c);
        assert(spec_escape(s.push(c)) =~= spec_escape(s) + spec_escape_char(c));
    }
}

/// Escapes `s` for embedding in a JSON string literal.
pub fn escape_json(s: &str) -> (out: String)
    ensures
        out@ == spec_escape(s@),
{
    let len = s.unicode_len();
    let mut out = String::new();
    let mut i: usize = 0;
    while i < len
        invariant
            i <= len,
            len == s@.len(),
            out@ == spec_escape(s@.subrange(0, i as int)),
        decreases len - i,
    {
        let c = s.get_char(i);
        if c == '"' {
            out.append("\\\"");
            proof {
                reveal_strlit("\\\"");
                assert("\\\""@ =~= spec_escape_char(c));
            }
        } else if c == '\\' {
            out.append("\\\\");
            proof {
                reveal_strlit("\\\\");
                assert("\\\\"@ =~= spec_escape_char(c));
            }
        } else {
            let code = c as u32;
            if code < 32 {
                out.append("\\u00");
                push_char(&mut out, hex_char((code / 16) as u64));
                push_char(&mut out, hex_char((code % 16) as u64));
                proof {
                    reveal_strlit("\\u00");
                    assert(out@ =~= spec_escape(s@.subrange(0, i as int)) + spec_escape_char(c));
                }
            } else {
                push_char(&mut out, c);
                proof {
                    assert(out@ =~= spec_escape(s@.subrange(0, i as int)) + spec_escape_char(c));
                }
            }
        }
        proof {
            assert(s@.subrange(0, i as int + 1) =~= s@.subrange(0, i as int).push(s@[i as int]));
            lemma_escape_snoc(s@.subrange(0, i as int), s@[i as int]);
        }
        i = i + 1;
    }
    proof {
        assert(s@.subrange(0, len as int) =~= s@);
    }
    out
}

/// Whether two strings hold the same characters.
pub fn str_eq(a: &str, b: &str) -> (r: bool)
    ensures
        r == (a@ == b@),
{
    let alen = a.unicode_len();
    let blen = b.unicode_len();
    if alen != blen {
        return false;
    }
    let mut i: usize = 0;
    while i < alen
        invariant
            i <= alen,
            alen == a@.len(),
            blen == b@.len(),
            alen == blen,
            forall|j: int| 0 <= j < i ==> a@[j] == b@[j],
        decreases alen - i,
    {
        let ca = a.get_char(i);
        let cb = b.get_char(i);
        if ca != cb {
            return false;
        }
        i = i + 1;
    }
    proof {
        assert(a@ =~= b@);
    }
    true
}

/// The wire text of a request: the `payload` key is omitted exactly when
/// the payload's JSON text is `null`.
pub open spec fn spec_request_text(id: u64, method: Seq<char>, payload: Seq<char>) -> Seq<char> {
    let head = "{\"id\":"@ + spec_dec(id as nat) + ",\"method\":\""@ + spec_escape(method)
        + "\""@;
    if payload == "null"@ {
        head + "}"@
    } else {
        head + ",\"payload\":"@ + payload + "}"@
    }
}

/// Law: a call whose payload serializes to JSON null carries no `payload`
/// key at all — its wire text is exactly the frame that closes right after
/// the method.
pub proof fn lemma_null_payload_omitted(id: u64, method: Seq<char>)
    ensures
        spec_request_text(id, method, "null"@) == "{\"id\":"@ + spec_dec(id as nat)
            + ",\"method\":\""@ + spec_escape(method) + "\""@ + "}"@,
{
}

/// Encodes an outbound request. `payload_json` is the caller's payload
/// already serialized to JSON text; when that text is `null`, the encoded
/// request carries no `payload` key at all.
pub fn encode_request(id: u64, method: &str, payload_json: &str) -> (r: String)
    ensures
        r@ == spec_request_text(id, method@, payload_json@),
{
    let mut out = String::from_str("{\"id\":");
    let id_text = dec_u64(id);
    out.append(id_text.as_str());
    out.append(",\"method\":\"");
    let escaped = escape_json(method);
    out.append(escaped.as_str());
    out.append("\"");
    if !str_eq(payload_json, "null") {
        out.append(",\"payload\":");
        out.append(payload_json);
    }
    out.append("}");
    proof {
        assert(out@ =~= spec_request_text(id, method@, payload_json@));
    }
    out
}

/// Relies on `String::push`: appends exactly the given character.
#[verifier::external_body]
fn push_char(s: &mut String, c: char)
    ensures
        final(s)@ == old(s)@.push(c),
{
    s.push(c);
}

} // verus!
