//! Tokens as source text.
//!
//! The text of a token sequence is what one would type to get those tokens
//! back: each token followed by a space, except that punctuation marked
//! `joint` runs into the token after it.

use crate::syntax::push_char;
use crate::token::{lemma_views, views, Delimiter, Token, TokenView};
use vstd::string::StringExecFns;
use vstd::prelude::*;

verus! {

/// The opening bracket of a delimiter, with the space after it.
pub open spec fn open_text(delimiter: Delimiter) -> Seq<char> {
    match delimiter {
        Delimiter::Parenthesis => seq!['(', ' '],
        Delimiter::Brace => seq!['{', ' '],
        Delimiter::Bracket => seq!['[', ' '],
        Delimiter::Invisible => seq![],
    }
}

/// The closing bracket of a delimiter, with the space after it.
pub open spec fn close_text(delimiter: Delimiter) -> Seq<char> {
    match delimiter {
        Delimiter::Parenthesis => seq![')', ' '],
        Delimiter::Brace => seq!['}', ' '],
        Delimiter::Bracket => seq![']', ' '],
        Delimiter::Invisible => seq![],
    }
}

/// The source text of one token.
pub open spec fn token_text(token: TokenView) -> Seq<char>
    decreases token, 0nat,
{
    match token {
        TokenView::Ident { text, .. } => text.push(' '),
        TokenView::Punct { ch, joint, .. } => if joint {
            seq![ch]
        } else {
            seq![ch, ' ']
        },
        TokenView::Literal { text, .. } => text.push(' '),
        TokenView::Group { delimiter, tokens, .. } => open_text(delimiter) + tokens_text(
            tokens,
            tokens.len(),
        ) + close_text(delimiter),
    }
}

/// The source text of the first `n` tokens of a sequence.
pub open spec fn tokens_text(tokens: Seq<TokenView>, n: nat) -> Seq<char>
    decreases tokens, n,
{
    if n == 0 || n > tokens.len() {
        seq![]
    } else {
        tokens_text(tokens, (n - 1) as nat) + token_text(tokens[n - 1])
    }
}

/// The source text of a whole sequence of tokens.
pub open spec fn source_text(tokens: Seq<TokenView>) -> Seq<char> {
    tokens_text(tokens, tokens.len())
}

fn push_open(out: &mut String, delimiter: Delimiter)
    ensures
        final(out)@ == old(out)@ + open_text(delimiter),
{
    match delimiter {
        Delimiter::Parenthesis => {
            push_char(out, '(');
            push_char(out, ' ');
        },
        Delimiter::Brace => {
            push_char(out, '{');
            push_char(out, ' ');
        },
        Delimiter::Bracket => {
            push_char(out, '[');
            push_char(out, ' ');
        },
        Delimiter::Invisible => {},
    }
}

fn push_close(out: &mut String, delimiter: Delimiter)
    ensures
        final(out)@ == old(out)@ + close_text(delimiter),
{
    match delimiter {
        Delimiter::Parenthesis => {
            push_char(out, ')');
            push_char(out, ' ');
        },
        Delimiter::Brace => {
            push_char(out, '}');
            push_char(out, ' ');
        },
        Delimiter::Bracket => {
            push_char(out, ']');
            push_char(out, ' ');
        },
        Delimiter::Invisible => {},
    }
}

/// Appends the source text of `tokens` to `out`.
pub fn render_into(tokens: &Vec<Token>, out: &mut String)
    ensures
        final(out)@ == old(out)@ + source_text(views(tokens@)),
    decreases tokens,
{
    let mut i: usize = 0;
    while i < tokens.len()
        invariant
            i <= tokens.len(),
            out@ == old(out)@ + tokens_text(views(tokens@), i as nat),
        decreases tokens.len() - i,
    {
        match &tokens[i] {
            Token::Ident { text, .. } => {
                out.append(text.as_str());
                push_char(out, ' ');
            },
            Token::Punct { ch, joint, .. } => {
                push_char(out, *ch);
                if !*joint {
                    push_char(out, ' ');
                }
            },
            Token::Literal { text, .. } => {
                out.append(text.as_str());
                push_char(out, ' ');
            },
            Token::Group { delimiter, tokens: inner, .. } => {
                push_open(out, *delimiter);
                render_into(inner, out);
                push_close(out, *delimiter);
            },
        }
        proof {
            let all = views(tokens@);
            lemma_views(tokens@);
            assert(tokens_text(all, (i + 1) as nat) == tokens_text(all, i as nat) + token_text(
                all[i as int],
            ));
        }
        i += 1;
    }
    proof {
        lemma_views(tokens@);
    }
}

/// The source text of a sequence of tokens.
pub fn render(tokens: &Vec<Token>) -> (text: String)
    ensures
        text@ == source_text(views(tokens@)),
{
    let mut text = String::new();
    render_into(tokens, &mut text);
    text
}

} // verus!
