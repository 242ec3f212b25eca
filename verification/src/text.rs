//! String transforms: reversal, uppercasing, word counting and a small
//! formatting helper.

use vstd::prelude::*;

use crate::digits::dec_digits;
use crate::digits::push_dec;
use crate::strext::is_unicode_space;
use crate::strext::upper_of;

verus! {

/// Whether position `i` starts a word: a non-whitespace character at the
/// beginning of the text or right after a whitespace character.
pub open spec fn is_word_start(s: Seq<char>, i: int) -> bool {
    &&& !is_unicode_space(s[i])
    &&& (i == 0 || is_unicode_space(s[i - 1]))
}

/// The number of word starts among the first `n` positions of `s`.
pub open spec fn word_count_prefix(s: Seq<char>, n: int) -> nat
    decreases n,
{
    if n <= 0 {
        0
    } else {
        word_count_prefix(s, n - 1) + (if is_word_start(s, n - 1) {
            1nat
        } else {
            0nat
        })
    }
}

/// The number of maximal whitespace-free runs in a text.
pub open spec fn word_count(s: Seq<char>) -> nat {
    word_count_prefix(s, s.len() as int)
}

/// The expected rendering of `process_string`: the text echoed together
/// with its length in bytes.
pub open spec fn processed_text(s: Seq<char>, len_bytes: nat) -> Seq<char> {
    "Processed: "@ + s + " (length: "@ + dec_digits(len_bytes) + ")"@
}

/// The text with its characters in reverse order.
pub fn reverse_string(input: &str) -> (r: String)
    ensures
        r@ == input@.reverse(),
{
    let n = input.unicode_len();
    let mut out = String::new();
    let mut i: usize = 0;
    while i < n
        invariant
            n == input@.len(),
            0 <= i <= n,
            out@.len() == i,
            forall|j: int| 0 <= j < i ==> out@[j] == input@[n - 1 - j],
        decreases n - i,
    {
        out.push(input.get_char(n - 1 - i));
        i = i + 1;
    }
    proof {
        assert(out@ =~= input@.reverse());
    }
    out
}

/// Law: reversing a text twice gives the text back.
pub proof fn lemma_reverse_involution(s: Seq<char>)
    ensures
        s.reverse().reverse() == s,
{
    assert(s.reverse().reverse() =~= s);
}

/// The uppercase equivalent of the text, as std's Unicode tables give it.
pub fn to_uppercase(input: &str) -> (r: String)
    ensures
        r@ == upper_of(input@),
{
    input.to_uppercase()
}

/// Counts maximal whitespace-free runs; leading and trailing whitespace
/// is ignored and an empty text has no words.
pub fn count_words(input: &str) -> (r: usize)
    ensures
        r == word_count(input@),
{
    let n = input.unicode_len();
    let mut count: usize = 0;
    let mut prev_space = true;
    let mut i: usize = 0;
    while i < n
        invariant
            n == input@.len(),
            0 <= i <= n,
            count <= i,
            count == word_count_prefix(input@, i as int),
            prev_space == (i == 0 || is_unicode_space(input@[i - 1])),
        decreases n - i,
    {
        let c = input.get_char(i);
        let space = c.is_whitespace();
        if !space && prev_space {
            count = count + 1;
        }
        prev_space = space;
        i = i + 1;
    }
    count
}

/// Echoes the text together with its length in bytes.
pub fn process_string(input: &str) -> (r: String)
    ensures
        r@ == processed_text(input@, input.len() as nat),
{
    let mut out = String::from_str("Processed: ");
    out.append(input);
    out.append(" (length: ");
    push_dec(&mut out, input.len() as u64);
    out.append(")");
    proof {
        assert(out@ =~= processed_text(input@, input.len() as nat));
    }
    out
}

} // verus!
