//! The JSON wire envelope: `{"type": ..., "payload": ..., "id": ...}`.
//!
//! Outbound messages are rendered here character by character against an
//! exact specification of the envelope text.

use vstd::prelude::*;

verus! {

/// A positional-parameter list for a query, kept as the JSON array text
/// the caller supplied.
pub struct QueryPayload {
    pub sql: String,
    pub params: Option<String>,
}

/// The payload of an envelope: the text of a ping or the body of a
/// query.
pub enum MessagePayload {
    Text(String),
    Query(QueryPayload),
}

/// One outbound message: a type tag, a payload and an optional
/// correlation id.
pub struct WebSocketMessage {
    pub message_type: String,
    pub payload: MessagePayload,
    pub id: Option<String>,
}

/// Whether the text parses as a JSON array; what
/// `validate_params_json` relies on serde_json to decide.
pub uninterp spec fn is_json_array_text(s: Seq<char>) -> bool;

/// Relies on serde_json::from_str::<Vec<serde_json::Value>>, which
/// succeeds exactly when serde_json reads the whole text as one JSON
/// array; the error text is serde_json's own account of the failure.
#[verifier::external_body]
pub(crate) fn validate_params_json(s: &str) -> (r: Result<(), String>)
    ensures
        r is Ok <==> is_json_array_text(s@),
{
    match serde_json::from_str::<Vec<serde_json::Value>>(s) {
        Ok(_) => Ok(()),
        Err(e) => Err(format!("{}", e)),
    }
}

/// The lowercase hex digit for a value below sixteen.
pub open spec fn hex_digit(n: nat) -> char
    recommends
        n < 16,
{
    if n < 10 {
        crate::digits::digit_char(n)
    } else if n == 10 {
        'a'
    } else if n == 11 {
        'b'
    } else if n == 12 {
        'c'
    } else if n == 13 {
        'd'
    } else if n == 14 {
        'e'
    } else {
        'f'
    }
}

/// How one character appears inside a JSON string literal: quotes,
/// backslashes and control characters are escaped, everything else
/// stands for itself.
pub open spec fn json_escape_char(c: char) -> Seq<char> {
    if c == '"' {
        seq!['\\', '"']
    } else if c == '\\' {
        seq!['\\', '\\']
    } else if c == '\u{8}' {
        seq!['\\', 'b']
    } else if c == '\u{c}' {
        seq!['\\', 'f']
    } else if c == '\n' {
        seq!['\\', 'n']
    } else if c == '\r' {
        seq!['\\', 'r']
    } else if c == '\t' {
        seq!['\\', 't']
    } else if (c as u32) < 32 {
        seq!['\\', 'u', '0', '0', hex_digit((c as u32 / 16) as nat), hex_digit((c as u32 % 16) as nat)]
    } else {
        seq![c]
    }
}

/// The body of a JSON string literal for the text `s`.
pub open spec fn json_escape(s: Seq<char>) -> Seq<char>
    decreases s.len(),
{
    if s.len() == 0 {
        Seq::<char>::empty()
    } else {
        json_escape_char(s[0]) + json_escape(s.drop_first())
    }
}

/// The JSON string literal for the text `s`, quotes included.
pub open spec fn json_string(s: Seq<char>) -> Seq<char> {
    seq!['"'] + json_escape(s) + seq!['"']
}

/// The JSON body of a query payload; the parameter list, when present,
/// is spliced in as the array text it arrived as.
pub open spec fn query_payload_json(sql: Seq<char>, params: Option<Seq<char>>) -> Seq<char> {
    "{\"sql\":"@ + json_string(sql) + (match params {
        Some(p) => ",\"params\":"@ + p,
        None => Seq::<char>::empty(),
    }) + "}"@
}

/// The whole envelope text; the id, when absent, is left out.
pub open spec fn envelope_json(
    message_type: Seq<char>,
    payload: Seq<char>,
    id: Option<Seq<char>>,
) -> Seq<char> {
    "{\"type\":"@ + json_string(message_type) + ",\"payload\":"@ + payload + (match id {
        Some(i) => ",\"id\":"@ + json_string(i),
        None => Seq::<char>::empty(),
    }) + "}"@
}

/// The view of an optional string.
pub open spec fn opt_text(o: Option<String>) -> Option<Seq<char>> {
    match o {
        Some(s) => Some(s@),
        None => None,
    }
}

/// The JSON rendering of a payload.
pub open spec fn payload_json(p: MessagePayload) -> Seq<char> {
    match p {
        MessagePayload::Text(s) => json_string(s@),
        MessagePayload::Query(q) => query_payload_json(q.sql@, opt_text(q.params)),
    }
}

/// The JSON rendering of a whole message.
pub open spec fn message_json(m: WebSocketMessage) -> Seq<char> {
    envelope_json(m.message_type@, payload_json(m.payload), opt_text(m.id))
}

/// Escaping distributes over concatenation.
proof fn lemma_json_escape_concat(a: Seq<char>, b: Seq<char>)
    ensures
        json_escape(a + b) == json_escape(a) + json_escape(b),
    decreases a.len(),
{
    if a.len() == 0 {
        assert(a + b =~= b);
        assert(json_escape(a) + json_escape(b) =~= json_escape(b));
    } else {
        lemma_json_escape_concat(a.drop_first(), b);
        assert((a + b).drop_first() =~= a.drop_first() + b);
        assert((a + b)[0] == a[0]);
        assert(json_escape(a + b) =~= json_escape(a) + json_escape(b));
    }
}

fn hex_digit_exec(n: u32) -> (c: char)
    requires
        n < 16,
    ensures
        c == hex_digit(n as nat),
{
    match n {
        0 => '0',
        1 => '1',
        2 => '2',
        3 => '3',
        4 => '4',
        5 => '5',
        6 => '6',
        7 => '7',
        8 => '8',
        9 => '9',
        10 => 'a',
        11 => 'b',
        12 => 'c',
        13 => 'd',
        14 => 'e',
        _ => 'f',
    }
}

/// Appends the escaped body of a JSON string literal for `s`.
fn push_escaped(out: &mut String, s: &str)
    ensures
        final(out)@ == old(out)@ + json_escape(s@),
{
    let n = s.unicode_len();
    let mut i: usize = 0;
    proof {
        assert(s@.take(0) =~= Seq::<char>::empty());
        assert(out@ =~= old(out)@ + json_escape(s@.take(0)));
    }
    while i < n
        invariant
            n == s@.len(),
            0 <= i <= n,
            out@ == old(out)@ + json_escape(s@.take(i as int)),
        decreases n - i,
    {
        let c = s.get_char(i);
        if c == '"' {
            out.push('\\');
            out.push('"');
        } else if c == '\\' {
            out.push('\\');
            out.push('\\');
        } else if c == '\u{8}' {
            out.push('\\');
            out.push('b');
        } else if c == '\u{c}' {
            out.push('\\');
            out.push('f');
        } else if c == '\n' {
            out.push('\\');
            out.push('n');
        } else if c == '\r' {
            out.push('\\');
            out.push('r');
        } else if c == '\t' {
            out.push('\\');
            out.push('t');
        } else if (c as u32) < 32 {
            let u = c as u32;
            out.push('\\');
            out.push('u');
            out.push('0');
            out.push('0');
            out.push(hex_digit_exec(u / 16));
            out.push(hex_digit_exec(u % 16));
        } else {
            out.push(c);
        }
        proof {
            assert(s@.take(i + 1) =~= s@.take(i as int) + seq![s@[i as int]]);
            lemma_json_escape_concat(s@.take(i as int), seq![s@[i as int]]);
            reveal_with_fuel(json_escape, 2);
            assert(seq![s@[i as int]].drop_first() =~= Seq::<char>::empty());
            assert(json_escape(seq![s@[i as int]]) =~= json_escape_char(s@[i as int]));
            assert(out@ =~= old(out)@ + json_escape(s@.take(i + 1)));
        }
        i = i + 1;
    }
    proof {
        assert(s@.take(n as int) =~= s@);
    }
}

/// Appends the JSON string literal for `s`, quotes included.
fn push_json_string(out: &mut String, s: &str)
    ensures
        final(out)@ == old(out)@ + json_string(s@),
{
    out.push('"');
    push_escaped(out, s);
    out.push('"');
    proof {
        assert(out@ =~= old(out)@ + json_string(s@));
    }
}

/// Renders a message as the one-line JSON text that goes out as a text
/// frame.
pub fn encode_message(m: &WebSocketMessage) -> (r: String)
    ensures
        r@ == message_json(*m),
{
    let mut out = String::from_str("{\"type\":");
    push_json_string(&mut out, m.message_type.as_str());
    out.append(",\"payload\":");
    match &m.payload {
        MessagePayload::Text(s) => {
            push_json_string(&mut out, s.as_str());
        },
        MessagePayload::Query(q) => {
            out.append("{\"sql\":");
            push_json_string(&mut out, q.sql.as_str());
            match &q.params {
                Some(p) => {
                    out.append(",\"params\":");
                    out.append(p.as_str());
                },
                None => {},
            }
            out.append("}");
        },
    }
    match &m.id {
        Some(i) => {
            out.append(",\"id\":");
            push_json_string(&mut out, i.as_str());
        },
        None => {},
    }
    out.append("}");
    proof {
        assert(out@ =~= message_json(*m));
    }
    out
}

} // verus!
