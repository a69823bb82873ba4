//! Writing components out as builder expressions.
//!
//! A button becomes `serenity::builder::CreateButton::new(id).label(text)`,
//! a link `serenity::builder::CreateButton::new_link(url).label(text)`, each
//! followed by `.emoji(..)` where the label has a glyph, and a button by
//! `.style(..)` where it has a style. Tokens that are written here carry the
//! call site's span; the tokens of an expression are handed on as they came.

use crate::component::{
    Component, ComponentView, Emoji, Error, ErrorKind, Label, LabelView,
};
use crate::syntax::{
    char_literal, string_literal, u64_literal, write_char, write_string, write_u64,
};
use crate::token::{
    duplicate_from, lemma_views, push_token, push_tokens, views, Delimiter, Span, Token,
    TokenView,
};
use vstd::prelude::*;
use vstd::string::StringExecFns;

verus! {

/// A word written here.
pub open spec fn word(text: Seq<char>) -> TokenView {
    TokenView::Ident { text, span: Span::CallSite }
}

/// A punctuation character written here.
pub open spec fn mark(ch: char, joint: bool) -> TokenView {
    TokenView::Punct { ch, joint, span: Span::CallSite }
}

/// A literal written here, by its source text.
pub open spec fn literal(text: Seq<char>) -> TokenView {
    TokenView::Literal { text, span: Span::CallSite }
}

/// A group written here.
pub open spec fn bracketed(delimiter: Delimiter, tokens: Seq<TokenView>) -> TokenView {
    TokenView::Group { delimiter, tokens, span: Span::CallSite }
}

/// A path with one more segment: `prefix::name`.
pub open spec fn scoped(prefix: Seq<TokenView>, name: Seq<char>) -> Seq<TokenView> {
    prefix + seq![mark(':', true), mark(':', false), word(name)]
}

/// A method call to chain on: `.name(arguments)`.
pub open spec fn method_call(name: Seq<char>, arguments: Seq<TokenView>) -> Seq<TokenView> {
    seq![mark('.', false), word(name), bracketed(Delimiter::Parenthesis, arguments)]
}

/// The path `serenity::builder::CreateButton::name`.
pub open spec fn button_path(name: Seq<char>) -> Seq<TokenView> {
    scoped(scoped(scoped(seq![word("serenity"@)], "builder"@), "CreateButton"@), name)
}

/// The path `serenity::model::id::EmojiId::new`.
pub open spec fn emoji_id_path() -> Seq<TokenView> {
    scoped(
        scoped(scoped(scoped(seq![word("serenity"@)], "model"@), "id"@), "EmojiId"@),
        "new"@,
    )
}

/// The argument of `.emoji(..)`: the character itself, or
/// `serenity::model::id::EmojiId::new(id)`.
pub open spec fn emoji_argument(emoji: Emoji) -> Seq<TokenView> {
    match emoji {
        Emoji::Unicode(c) => seq![literal(char_literal(c))],
        Emoji::Custom(id) => emoji_id_path().push(
            bracketed(Delimiter::Parenthesis, seq![literal(u64_literal(id))]),
        ),
    }
}

/// The call `.emoji(..)` for a glyph, or nothing where there is none.
pub open spec fn emoji_tokens(emoji: Option<Emoji>) -> Seq<TokenView> {
    match emoji {
        Some(e) => method_call("emoji"@, emoji_argument(e)),
        None => seq![],
    }
}

/// The calls that a label adds: `.label(text)`, then `.emoji(..)` if any.
pub open spec fn label_tokens(label: LabelView) -> Seq<TokenView> {
    method_call("label"@, seq![literal(string_literal(label.value))]) + emoji_tokens(label.emoji)
}

/// The call `.style(..)` for a style, or nothing where there is none.
pub open spec fn style_tokens(style: Option<Seq<TokenView>>) -> Seq<TokenView> {
    match style {
        Some(tokens) => method_call("style"@, tokens),
        None => seq![],
    }
}

/// The builder expression of a control. A row separator has none.
pub open spec fn control_tokens(component: ComponentView) -> Seq<TokenView> {
    match component {
        ComponentView::Button { custom_id, style, label } => button_path("new"@).push(
            bracketed(Delimiter::Parenthesis, seq![literal(string_literal(custom_id))]),
        ) + label_tokens(label) + style_tokens(style),
        ComponentView::URL { url, label } => button_path("new_link"@).push(
            bracketed(Delimiter::Parenthesis, url),
        ) + label_tokens(label),
        ComponentView::Row => seq![],
    }
}

/// What a component expands to: its builder expression, or the fault of a
/// row separator that stands alone.
pub open spec fn expansion(component: ComponentView) -> Result<Seq<TokenView>, Error> {
    if component is Row {
        Err(Error { kind: ErrorKind::MisplacedRow, span: Span::CallSite })
    } else {
        Ok(control_tokens(component))
    }
}

/// Appends a word.
pub(crate) fn push_word(out: &mut Vec<Token>, text: &str)
    ensures
        views(final(out)@) == views(old(out)@).push(word(text@)),
{
    push_token(out, Token::Ident { text: String::from_str(text), span: Span::CallSite });
}

/// Appends a punctuation character.
pub(crate) fn push_mark(out: &mut Vec<Token>, ch: char, joint: bool)
    ensures
        views(final(out)@) == views(old(out)@).push(mark(ch, joint)),
{
    push_token(out, Token::Punct { ch, joint, span: Span::CallSite });
}

/// Appends a group.
pub(crate) fn push_group(out: &mut Vec<Token>, delimiter: Delimiter, tokens: Vec<Token>)
    ensures
        views(final(out)@) == views(old(out)@).push(bracketed(delimiter, views(tokens@))),
{
    push_token(out, Token::Group { delimiter, tokens, span: Span::CallSite });
}

/// A sequence of one literal, by its source text.
pub(crate) fn one_literal(text: String) -> (tokens: Vec<Token>)
    ensures
        views(tokens@) == seq![literal(text@)],
{
    let mut tokens: Vec<Token> = Vec::new();
    proof {
        lemma_views(tokens@);
    }
    push_token(&mut tokens, Token::Literal { text, span: Span::CallSite });
    tokens
}

/// Appends `::name`.
pub(crate) fn push_scoped(out: &mut Vec<Token>, name: &str)
    ensures
        views(final(out)@) == scoped(views(old(out)@), name@),
{
    push_mark(out, ':', true);
    push_mark(out, ':', false);
    push_word(out, name);
}

/// Appends `.name(arguments)`.
pub(crate) fn push_call(out: &mut Vec<Token>, name: &str, arguments: Vec<Token>)
    ensures
        views(final(out)@) == views(old(out)@) + method_call(name@, views(arguments@)),
{
    push_mark(out, '.', false);
    push_word(out, name);
    push_group(out, Delimiter::Parenthesis, arguments);
}

/// The path `serenity::builder::CreateButton::name`.
fn button_builder(name: &str) -> (tokens: Vec<Token>)
    ensures
        views(tokens@) == button_path(name@),
{
    let mut tokens: Vec<Token> = Vec::new();
    proof {
        lemma_views(tokens@);
    }
    push_word(&mut tokens, "serenity");
    push_scoped(&mut tokens, "builder");
    push_scoped(&mut tokens, "CreateButton");
    push_scoped(&mut tokens, name);
    tokens
}

/// The argument of `.emoji(..)`.
fn emoji_value(emoji: Emoji) -> (tokens: Vec<Token>)
    ensures
        views(tokens@) == emoji_argument(emoji),
{
    match emoji {
        Emoji::Unicode(c) => one_literal(write_char(c)),
        Emoji::Custom(id) => {
            let mut tokens: Vec<Token> = Vec::new();
            proof {
                lemma_views(tokens@);
            }
            push_word(&mut tokens, "serenity");
            push_scoped(&mut tokens, "model");
            push_scoped(&mut tokens, "id");
            push_scoped(&mut tokens, "EmojiId");
            push_scoped(&mut tokens, "new");
            push_group(&mut tokens, Delimiter::Parenthesis, one_literal(write_u64(id)));
            tokens
        },
    }
}

impl Label {
    /// The call `.emoji(..)` for this label's glyph, or no token where it
    /// has none.
    pub fn expand_emoji(&self) -> (tokens: Vec<Token>)
        ensures
            views(tokens@) == emoji_tokens(self@.emoji),
    {
        let mut tokens: Vec<Token> = Vec::new();
        proof {
            lemma_views(tokens@);
        }
        if let Some(emoji) = self.emoji {
            push_call(&mut tokens, "emoji", emoji_value(emoji));
        }
        tokens
    }

    /// The calls that this label adds to a builder: `.label(text)`, then
    /// `.emoji(..)` if it has a glyph.
    pub fn expand(&self) -> (tokens: Vec<Token>)
        ensures
            views(tokens@) == label_tokens(self@),
    {
        let mut tokens: Vec<Token> = Vec::new();
        proof {
            lemma_views(tokens@);
        }
        push_call(&mut tokens, "label", one_literal(write_string(self.value.as_str())));
        push_tokens(&mut tokens, self.expand_emoji());
        tokens
    }
}

/// What an expansion is, as a mathematical value.
pub open spec fn expanded(r: Result<Vec<Token>, Error>) -> Result<Seq<TokenView>, Error> {
    match r {
        Ok(tokens) => Ok(views(tokens@)),
        Err(e) => Err(e),
    }
}

impl Component {
    /// The builder expression of this control. A row separator has none:
    /// it is a fault, reported at the call site.
    pub fn expand(&self) -> (r: Result<Vec<Token>, Error>)
        ensures
            expanded(r) == expansion(self@),
    {
        match self {
            Component::Button { kind, label } => {
                let mut tokens = button_builder("new");
                push_group(
                    &mut tokens,
                    Delimiter::Parenthesis,
                    one_literal(write_string(kind.custom_id.as_str())),
                );
                push_tokens(&mut tokens, label.expand());
                match &kind.style {
                    Some(style) => {
                        let style = duplicate_from(style, 0);
                        assert(views(kind.style->Some_0@).skip(0) =~= views(kind.style->Some_0@));
                        push_call(&mut tokens, "style", style);
                    },
                    None => {},
                }
                Ok(tokens)
            },
            Component::URL { kind, label } => {
                let mut tokens = button_builder("new_link");
                let url = duplicate_from(&kind.url, 0);
                assert(views(kind.url@).skip(0) =~= views(kind.url@));
                push_group(&mut tokens, Delimiter::Parenthesis, url);
                push_tokens(&mut tokens, label.expand());
                Ok(tokens)
            },
            Component::Row => Err(Error { kind: ErrorKind::MisplacedRow, span: Span::CallSite }),
        }
    }
}

} // verus!
