//! The literals that a declaration holds as text, written by the token
//! library that the declaration is rendered with.
use crate::text::decimal;
use vstd::prelude::*;

verus! {

/// The text of the byte-string literal that holds `text`: `b"`, the text
/// as it is, and a closing quote.
pub open spec fn byte_string(text: Seq<char>) -> Seq<char> {
    seq!['b', '"'] + text + seq!['"']
}

/// `squote::Literal::u32_unsuffixed`, read back with `Literal::as_str`:
/// the literal is the number's decimal numeral and nothing else.
#[verifier::external_body]
pub(crate) fn index_literal(index: u32) -> (text: String)
    ensures
        text@ == decimal(index as nat),
{
    squote::Literal::u32_unsuffixed(index).as_str().to_string()
}

/// `squote::Literal::byte_string`, read back with `Literal::as_str`: the
/// bytes, which must be UTF-8 and here are those of a `str`, stand
/// unescaped between `b"` and `"`.
#[verifier::external_body]
pub(crate) fn byte_string_literal(text: &str) -> (literal: String)
    ensures
        literal@ == byte_string(text@),
{
    squote::Literal::byte_string(text.as_bytes()).as_str().to_string()
}

} // verus!
