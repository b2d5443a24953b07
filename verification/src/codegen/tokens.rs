//! Turning generated code text into a token stream.
use vstd::prelude::*;
use proc_macro2::{LexError, TokenStream};

verus! {

#[verifier::external_type_specification]
#[verifier::external_body]
pub struct ExTokenStream(TokenStream);

#[verifier::external_type_specification]
#[verifier::external_body]
pub struct ExLexError(LexError);

/// Lexes the text with `proc_macro2`'s `FromStr` for `TokenStream`, which
/// splits Rust source text into tokens and fails on text that is not made of
/// Rust tokens (such as an unclosed delimiter or string). Nothing is stated of
/// the tokens or the error: both are opaque here.
#[verifier::external_body]
fn lex_code(code: &str) -> Result<TokenStream, LexError> {
    <TokenStream as core::str::FromStr>::from_str(code)
}

/// Generated code that is not made of Rust tokens.
pub struct CodeLexError;

/// Turns generated code text into the token stream that a derive macro emits.
pub fn code_to_tokens(code: &String) -> Result<TokenStream, CodeLexError> {
    match lex_code(code.as_str()) {
        Ok(tokens) => Ok(tokens),
        Err(_) => Err(CodeLexError),
    }
}

} // verus!
