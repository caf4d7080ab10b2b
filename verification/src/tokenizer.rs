//! The tokenizer adapter: how many model tokens a text costs.

use vstd::prelude::*;

verus! {

/// The number of tokens that the `cl100k_base` encoding, special tokens allowed, gives
/// for a text; `None` for a text on which the encoder gives up.
pub uninterp spec fn cl100k_token_count(text: Seq<char>) -> Option<usize>;

/// Measures a text with `tiktoken_rs::CoreBPE::encode` on the shared `cl100k_base`
/// encoder, allowing every special token of that encoding.
///
/// Trusted: the count is the length of the token list that the encoder returns, and it
/// is a function of the text alone. `None` stands for the encoder's own error.
#[verifier::external_body]
pub(crate) fn cl100k_count(text: &str) -> (count: Option<usize>)
    ensures
        count == cl100k_token_count(text@),
{
    let bpe = tiktoken_rs::cl100k_base_singleton();
    match bpe.encode(text, &bpe.special_tokens()) {
        Ok((tokens, _)) => Some(tokens.len()),
        Err(_) => None,
    }
}

/// The token cost of a text, or `None` when the encoder cannot measure it.
pub fn count_tokens(text: &str) -> (count: Option<usize>)
    ensures
        count == cl100k_token_count(text@),
{
    cl100k_count(text)
}

} // verus!
