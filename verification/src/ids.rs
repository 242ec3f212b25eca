//! Correlation id generation: `wasm_ping_<counter>_<millis>` and
//! `wasm_query_<counter>_<millis>`, with the proof that ids made from
//! distinct counter values never collide.

use vstd::prelude::*;

use crate::digits::dec_digits;
use crate::digits::digit_run;
use crate::digits::is_digit_char;
use crate::digits::lemma_dec_digits_all_digits;
use crate::digits::lemma_dec_digits_injective;
use crate::digits::lemma_digit_run_concat;
use crate::digits::push_dec;

verus! {

/// The two kinds of outbound message.
#[derive(Clone, Copy, PartialEq, Eq, Structural)]
pub enum MessageKind {
    Ping,
    Query,
}

/// The id prefix that names the message kind.
pub open spec fn kind_prefix(kind: MessageKind) -> Seq<char> {
    match kind {
        MessageKind::Ping => "wasm_ping_"@,
        MessageKind::Query => "wasm_query_"@,
    }
}

/// The id text: prefix, counter value, separator, milliseconds value.
pub open spec fn message_id_text(kind: MessageKind, counter: u32, now_millis: u64) -> Seq<char> {
    kind_prefix(kind) + dec_digits(counter as nat) + seq!['_'] + dec_digits(now_millis as nat)
}

/// Builds the id for one outbound message.
pub fn make_message_id(kind: MessageKind, counter: u32, now_millis: u64) -> (r: String)
    ensures
        r@ == message_id_text(kind, counter, now_millis),
{
    let mut out = match kind {
        MessageKind::Ping => String::from_str("wasm_ping_"),
        MessageKind::Query => String::from_str("wasm_query_"),
    };
    push_dec(&mut out, counter as u64);
    out.push('_');
    push_dec(&mut out, now_millis);
    proof {
        assert(out@ =~= message_id_text(kind, counter, now_millis));
    }
    out
}

/// Law: two message ids built from distinct counter values are distinct
/// texts, whatever their kinds and timestamps.  Ids therefore stay
/// unique over a client's lifetime, whose counter never repeats a value.
#[verifier::rlimit(50)]
pub proof fn lemma_message_ids_unique(
    k1: MessageKind,
    c1: u32,
    t1: u64,
    k2: MessageKind,
    c2: u32,
    t2: u64,
)
    requires
        c1 != c2,
    ensures
        message_id_text(k1, c1, t1) != message_id_text(k2, c2, t2),
{
    if message_id_text(k1, c1, t1) == message_id_text(k2, c2, t2) {
        if k1 == k2 {
            let p = kind_prefix(k1);
            let r1 = dec_digits(c1 as nat) + seq!['_'] + dec_digits(t1 as nat);
            let r2 = dec_digits(c2 as nat) + seq!['_'] + dec_digits(t2 as nat);
            assert(p + r1 =~= message_id_text(k1, c1, t1));
            assert(p + r2 =~= message_id_text(k2, c2, t2));
            assert(r1 =~= (p + r1).skip(p.len() as int));
            assert(r2 =~= (p + r2).skip(p.len() as int));
            assert(r1 == r2);
            lemma_dec_digits_all_digits(c1 as nat);
            lemma_dec_digits_all_digits(c2 as nat);
            assert(!is_digit_char('_'));
            let b1 = seq!['_'] + dec_digits(t1 as nat);
            let b2 = seq!['_'] + dec_digits(t2 as nat);
            assert(b1[0] == '_' && b2[0] == '_');
            assert(dec_digits(c1 as nat) + b1 =~= r1);
            assert(dec_digits(c2 as nat) + b2 =~= r2);
            lemma_digit_run_concat(dec_digits(c1 as nat), b1);
            lemma_digit_run_concat(dec_digits(c2 as nat), b2);
            assert(digit_run(r1) == dec_digits(c1 as nat));
            assert(digit_run(r2) == dec_digits(c2 as nat));
            lemma_dec_digits_injective(c1 as nat, c2 as nat);
            assert(false);
        } else {
            reveal_strlit("wasm_ping_");
            reveal_strlit("wasm_query_");
            let s1 = message_id_text(k1, c1, t1);
            let s2 = message_id_text(k2, c2, t2);
            assert(kind_prefix(k1).len() >= 10 && kind_prefix(k2).len() >= 10);
            assert(s1[5] == kind_prefix(k1)[5]);
            assert(s2[5] == kind_prefix(k2)[5]);
            assert(kind_prefix(MessageKind::Ping)[5] == 'p');
            assert(kind_prefix(MessageKind::Query)[5] == 'q');
            assert(false);
        }
    }
}

} // verus!
