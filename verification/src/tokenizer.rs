//! Token costing.  The window counts tokens with the deterministic
//! subword tokenizer of the target model family; the tokenizer itself
//! is an outside dependency reached through trusted wrappers.

use vstd::prelude::*;

verus! {

#[verifier::external_type_specification]
#[verifier::external_body]
pub struct ExCoreBpe(tiktoken_rs::CoreBPE);

/// The number of tokens the fixed subword tokenizer assigns to a text,
/// when it assigns one at all (see [`Tokenizer::count`]).
pub uninterp spec fn token_cost(s: Seq<char>) -> nat;

/// Whether the fixed subword tokenizer can encode this text at all:
/// its backtracking engine gives up on pathological inputs, and like
/// the count itself, success is a function of the text alone.
pub uninterp spec fn token_count_ok(s: Seq<char>) -> bool;

/// The tokenizer used for all token costing.  Its only constructor
/// loads the encoder of one fixed model, so the count a `Tokenizer`
/// produces is a function of the text alone.
pub struct Tokenizer {
    bpe: &'static tiktoken_rs::CoreBPE,
}

impl Tokenizer {
    /// Relies on `tiktoken_rs::bpe_for_model`: the fixed model name is
    /// resolved in the crate's static model table and returns the
    /// cached encoder, whose data is a compiled-in asset; the call
    /// cannot fail for this name.
    #[verifier::external_body]
    pub fn load() -> (r: Result<Tokenizer, String>)
        ensures
            r is Ok,
    {
        match tiktoken_rs::bpe_for_model("gpt-4") {
            Ok(bpe) => Ok(Tokenizer { bpe }),
            Err(e) => Err(e.to_string()),
        }
    }

    /// Relies on `tiktoken_rs::CoreBPE::encode` with every special
    /// token allowed (the same set `encode_with_special_tokens`
    /// passes): for a fixed model the encoding is a deterministic
    /// function of the text.  The encoder's backtracking regex engine
    /// can give up on pathological inputs (very long whitespace runs),
    /// so that error is surfaced rather than unwrapped.
    #[verifier::external_body]
    pub fn count(&self, text: &str) -> (r: Result<usize, String>)
        ensures
            r is Ok <==> token_count_ok(text@),
            r matches Ok(c) ==> c as nat == token_cost(text@),
    {
        let allowed_special = self.bpe.special_tokens();
        match self.bpe.encode(text, &allowed_special) {
            Ok((tokens, _)) => Ok(tokens.len()),
            Err(e) => Err(e.to_string()),
        }
    }
}

} // verus!
