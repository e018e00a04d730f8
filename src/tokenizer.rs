use vstd::prelude::*;

verus! {

/// The number of tokens that the `p50k_base` encoding cuts `text` into, special tokens allowed.
pub uninterp spec fn p50k_token_count(text: Seq<char>) -> nat;

/// Relies on tiktoken_rs's `p50k_base_singleton` and `CoreBPE::encode_with_special_tokens`:
/// the encoding's vocabulary ships with the crate, and the number of tokens is a function of
/// the text alone.
#[verifier::external_body]
fn p50k_encoded_len(text: &str) -> (r: usize)
    ensures
        r == p50k_token_count(text@),
{
    tiktoken_rs::p50k_base_singleton().encode_with_special_tokens(text).len()
}

/// The number of characters divided by four, rounded up.
pub open spec fn estimated_tokens(text: Seq<char>) -> nat {
    ((text.len() + 3) / 4) as nat
}

/// Counts the tokens of a text exactly, as the `p50k_base` encoding cuts it.
pub trait TokenCount {
    fn token_count(&self) -> usize;
}

impl TokenCount for &str {
    fn token_count(&self) -> (r: usize)
        ensures
            r == p50k_token_count(self@),
    {
        p50k_encoded_len(*self)
    }
}

impl TokenCount for String {
    fn token_count(&self) -> (r: usize)
        ensures
            r == p50k_token_count(self@),
    {
        p50k_encoded_len(self.as_str())
    }
}

/// The character count divided by four, rounded up.
fn estimate(text: &str) -> (r: usize)
    ensures
        r == estimated_tokens(text@),
{
    let n = text.unicode_len();
    if n % 4 == 0 {
        n / 4
    } else {
        n / 4 + 1
    }
}

/// Estimates the tokens of a text cheaply: one for every four characters, rounded up.
pub trait EstimetedTokenCount {
    fn estimated_token_count(&self) -> usize;
}

impl EstimetedTokenCount for &str {
    fn estimated_token_count(&self) -> (r: usize)
        ensures
            r == estimated_tokens(self@),
    {
        estimate(*self)
    }
}

impl EstimetedTokenCount for String {
    fn estimated_token_count(&self) -> (r: usize)
        ensures
            r == estimated_tokens(self@),
    {
        estimate(self.as_str())
    }
}

} // verus!
