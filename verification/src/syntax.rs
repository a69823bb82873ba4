//! What the host language decides: which texts are literals and what they
//! stand for, which texts are expressions, and how a value is written as a
//! literal. These questions are put to `syn` and `proc-macro2`; the answers
//! are taken on trust and named here, so that the rest of the library can be
//! exact about what it does with them.

use vstd::prelude::*;

verus! {

/// What a literal's source text stands for.
#[derive(Debug, PartialEq, Eq)]
pub enum Literal {
    /// A string literal, by its value: escapes resolved, quotes removed.
    Str(String),
    /// A character literal, by its value.
    Char(char),
    /// An integer literal: its value, or nothing where it does not fit `u64`.
    Int(Option<u64>),
    /// A literal of another sort: a float, a byte string, a boolean.
    Other,
    /// The text is no literal at all.
    Invalid,
}

/// What a [`Literal`] is, as a mathematical value.
pub enum LiteralView {
    Str(Seq<char>),
    Char(char),
    Int(Option<u64>),
    Other,
    Invalid,
}

impl View for Literal {
    type V = LiteralView;

    open spec fn view(&self) -> LiteralView {
        match self {
            Literal::Str(s) => LiteralView::Str(s@),
            Literal::Char(c) => LiteralView::Char(*c),
            Literal::Int(n) => LiteralView::Int(*n),
            Literal::Other => LiteralView::Other,
            Literal::Invalid => LiteralView::Invalid,
        }
    }
}

/// What `syn` reads a source text as, when asked for one literal.
pub uninterp spec fn literal_of(text: Seq<char>) -> LiteralView;

/// Whether `syn` reads a source text as one identifier. A keyword is none.
pub uninterp spec fn is_identifier(text: Seq<char>) -> bool;

/// Whether `syn` reads a source text as one complete expression.
pub uninterp spec fn is_expression(text: Seq<char>) -> bool;

/// The source text that `proc-macro2` writes for a string value.
pub uninterp spec fn string_literal(value: Seq<char>) -> Seq<char>;

/// The source text that `proc-macro2` writes for a character.
pub uninterp spec fn char_literal(value: char) -> Seq<char>;

/// The source text that `proc-macro2` writes for a `u64` with its suffix.
pub uninterp spec fn u64_literal(value: u64) -> Seq<char>;

/// Calls `syn::parse_str::<syn::Lit>`, then `LitStr::value`, `LitChar::value`
/// or `LitInt::base10_parse::<u64>` on what came back. Trusted: the result is
/// a function of the text alone, here called [`literal_of`]. Nothing is
/// claimed about which texts are which sort of literal.
#[verifier::external_body]
pub(crate) fn read_literal(text: &str) -> (l: Literal)
    ensures
        l@ == literal_of(text@),
{
    match syn::parse_str::<syn::Lit>(text) {
        Ok(syn::Lit::Str(s)) => Literal::Str(s.value()),
        Ok(syn::Lit::Char(c)) => Literal::Char(c.value()),
        Ok(syn::Lit::Int(n)) => Literal::Int(n.base10_parse::<u64>().ok()),
        Ok(_) => Literal::Other,
        Err(_) => Literal::Invalid,
    }
}

/// Calls `syn::parse_str::<syn::Ident>`. Trusted: whether it accepts is a
/// function of the text alone, here called [`is_identifier`].
#[verifier::external_body]
pub(crate) fn check_identifier(text: &str) -> (b: bool)
    ensures
        b == is_identifier(text@),
{
    syn::parse_str::<syn::Ident>(text).is_ok()
}

/// Calls `syn::parse_str::<syn::Expr>`. Trusted: whether it accepts is a
/// function of the text alone, here called [`is_expression`]. `syn` reads
/// nested brackets by recursion, so a text nested many thousands deep can
/// exhaust the stack, as it can in the compiler itself.
#[verifier::external_body]
pub(crate) fn check_expression(text: &str) -> (b: bool)
    ensures
        b == is_expression(text@),
{
    syn::parse_str::<syn::Expr>(text).is_ok()
}

/// Calls `proc_macro2::Literal::string` and takes the literal's text.
/// Trusted: the text is a function of the value alone, here called
/// [`string_literal`].
#[verifier::external_body]
pub(crate) fn write_string(value: &str) -> (text: String)
    ensures
        text@ == string_literal(value@),
{
    proc_macro2::Literal::string(value).to_string()
}

/// Calls `proc_macro2::Literal::character` and takes the literal's text.
/// Trusted: the text is a function of the character alone, here called
/// [`char_literal`].
#[verifier::external_body]
pub(crate) fn write_char(value: char) -> (text: String)
    ensures
        text@ == char_literal(value),
{
    proc_macro2::Literal::character(value).to_string()
}

/// Calls `proc_macro2::Literal::u64_suffixed` and takes the literal's text.
/// Trusted: the text is a function of the number alone, here called
/// [`u64_literal`].
#[verifier::external_body]
pub(crate) fn write_u64(value: u64) -> (text: String)
    ensures
        text@ == u64_literal(value),
{
    proc_macro2::Literal::u64_suffixed(value).to_string()
}

/// Calls `String::push`, which appends one character.
#[verifier::external_body]
pub(crate) fn push_char(text: &mut String, ch: char)
    ensures
        final(text)@ == old(text)@.push(ch),
{
    text.push(ch)
}

} // verus!
