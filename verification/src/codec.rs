//! Bytes and text: what the host's answers are decoded with.
//!
//! Base64 is read by the `base64` crate, UTF-8 by the standard library.

use vstd::prelude::*;
use vstd::utf8::decode_utf8;
use vstd::utf8::valid_utf8;
use base64::Engine;

verus! {

/// The error of the `base64` crate for a text that is not base64.
#[verifier::external_type_specification]
#[verifier::external_body]
pub struct ExDecodeError(base64::DecodeError);

/// The error of the standard library for bytes that are not UTF-8.
#[verifier::external_type_specification]
#[verifier::external_body]
pub struct ExFromUtf8Error(std::string::FromUtf8Error);

/// What the standard engine of `base64` (the usual alphabet, with padding) makes of a
/// text: the bytes that the text stands for, or the error that it finds.
pub uninterp spec fn base64_standard(text: Seq<char>) -> Result<Seq<u8>, base64::DecodeError>;

/// What the engine of `base64` for URLs (the URL-safe alphabet, without padding) makes of a
/// text.
pub uninterp spec fn base64_url(text: Seq<char>) -> Result<Seq<u8>, base64::DecodeError>;

/// The words in which a base64 error says what is wrong.
pub uninterp spec fn decode_error_text(e: base64::DecodeError) -> Seq<char>;

/// The error that the standard library finds in bytes that are not UTF-8.
pub uninterp spec fn utf8_failure(bytes: Seq<u8>) -> std::string::FromUtf8Error;

/// The words in which a UTF-8 error says what is wrong.
pub uninterp spec fn utf8_error_text(e: std::string::FromUtf8Error) -> Seq<char>;

/// `Engine::decode` of `base64::engine::general_purpose::STANDARD`. The contract only
/// names the result.
#[verifier::external_body]
pub(crate) fn decode_standard(text: &str) -> (r: Result<Vec<u8>, base64::DecodeError>)
    ensures
        match r {
            Ok(bytes) => base64_standard(text@) == Ok::<Seq<u8>, base64::DecodeError>(bytes@),
            Err(e) => base64_standard(text@) == Err::<Seq<u8>, base64::DecodeError>(e),
        },
{
    base64::engine::general_purpose::STANDARD.decode(text)
}

/// `Engine::decode` of `base64::engine::general_purpose::URL_SAFE_NO_PAD`. The contract
/// only names the result.
#[verifier::external_body]
pub(crate) fn decode_url(text: &str) -> (r: Result<Vec<u8>, base64::DecodeError>)
    ensures
        match r {
            Ok(bytes) => base64_url(text@) == Ok::<Seq<u8>, base64::DecodeError>(bytes@),
            Err(e) => base64_url(text@) == Err::<Seq<u8>, base64::DecodeError>(e),
        },
{
    base64::engine::general_purpose::URL_SAFE_NO_PAD.decode(text)
}

/// The `Display` of `base64::DecodeError`. The contract only names the result.
#[verifier::external_body]
pub(crate) fn decode_error_display(e: &base64::DecodeError) -> (r: String)
    ensures
        r@ == decode_error_text(*e),
{
    e.to_string()
}

/// `String::from_utf8` of the standard library: the text that the bytes encode, where
/// they are valid UTF-8, and an error where they are not. The error is only named.
#[verifier::external_body]
pub(crate) fn string_from_utf8(bytes: Vec<u8>) -> (r: Result<String, std::string::FromUtf8Error>)
    ensures
        match r {
            Ok(text) => valid_utf8(bytes@) && text@ == decode_utf8(bytes@),
            Err(e) => !valid_utf8(bytes@) && e == utf8_failure(bytes@),
        },
{
    String::from_utf8(bytes)
}

/// The `Display` of `FromUtf8Error`. The contract only names the result.
#[verifier::external_body]
pub(crate) fn utf8_error_display(e: &std::string::FromUtf8Error) -> (r: String)
    ensures
        r@ == utf8_error_text(*e),
{
    e.to_string()
}

/// The characters of the text that are no line feeds, in their order.
pub(crate) fn without_line_feeds(text: &str) -> (r: String)
    ensures
        r@ == text@.filter(|c: char| c != '\n'),
{
    broadcast use vstd::string::axiom_spec_iter;

    let ghost kept = |c: char| c != '\n';
    let mut out = String::new();
    let ghost mut done: int = 0;
    proof {
        reveal(Seq::filter);
        assert(text@.take(0).filter(kept) =~= Seq::<char>::empty());
    }
    for c in it: text.chars()
        invariant
            it.seq() == text@,
            done == it.index(),
            0 <= done <= text@.len(),
            kept == (|c: char| c != '\n'),
            out@ == text@.take(done).filter(kept),
    {
        let ghost before = out@;
        if c != '\n' {
            out.push(c);
        }
        proof {
            reveal(Seq::filter);
            let next = text@.take(done + 1);
            assert(text@[done] == c);
            assert(next.drop_last() =~= text@.take(done));
            assert(next.last() == c);
            assert(next.filter(kept) == if kept(c) {
                before.push(c)
            } else {
                before
            });
            done = done + 1;
        }
    }
    proof {
        assert(text@.take(done) =~= text@);
    }
    out
}

} // verus!
