use vstd::prelude::*;

use crate::signature::{lower_of, normalized_signature, text_signature};
use crate::tokens::{all_white_space, lemma_tokens_insert_white_space, white_space};

verus! {

/// Signing is a function of the text: two texts with the same characters get
/// the same signature.
pub proof fn lemma_signature_deterministic(num_hashes: nat, t1: Seq<char>, t2: Seq<char>)
    requires
        t1 == t2,
    ensures
        text_signature(num_hashes, t1) == text_signature(num_hashes, t2),
{
}

/// Texts that differ only in letter case, in the sense that they lowercase to
/// the same text, get the same signature.
pub proof fn lemma_signature_ignores_case(num_hashes: nat, t1: Seq<char>, t2: Seq<char>)
    requires
        lower_of(t1) == lower_of(t2),
    ensures
        text_signature(num_hashes, t1) == text_signature(num_hashes, t2),
{
}

/// Inserting a run of whitespace into a lowercased text, between two tokens or
/// at either end, leaves its signature unchanged.
pub proof fn lemma_signature_ignores_extra_white_space(
    num_hashes: nat,
    a: Seq<char>,
    w: Seq<char>,
    b: Seq<char>,
)
    requires
        all_white_space(w),
        w.len() > 0,
        a.len() == 0 || b.len() == 0 || white_space(a.last()) || white_space(b[0]),
    ensures
        normalized_signature(num_hashes, a + w + b) == normalized_signature(num_hashes, a + b),
{
    lemma_tokens_insert_white_space(a, w, b);
}

/// Two raw texts whose lowercase forms differ only by a run of whitespace
/// inserted between two tokens, or at either end, get the same signature.
pub proof fn lemma_text_signature_ignores_extra_white_space(
    num_hashes: nat,
    t1: Seq<char>,
    t2: Seq<char>,
    a: Seq<char>,
    w: Seq<char>,
    b: Seq<char>,
)
    requires
        lower_of(t1) == a + w + b,
        lower_of(t2) == a + b,
        all_white_space(w),
        w.len() > 0,
        a.len() == 0 || b.len() == 0 || white_space(a.last()) || white_space(b[0]),
    ensures
        text_signature(num_hashes, t1) == text_signature(num_hashes, t2),
{
    lemma_signature_ignores_extra_white_space(num_hashes, a, w, b);
}

} // verus!
