//! The grammar of descriptions, as functions on token values.
//!
//! ```text
//! component  ::= kind ( "=>" label )?
//! kind       ::= IDENT "!" "(" arguments ")"
//! arguments  ::=                        for row
//!              | EXPR                   for url
//!              | STRING ( "," EXPR )?   for btn
//! label      ::= IDENT | STRING | "emoji" "!" "(" ( CHAR | INT ) ")" STRING
//! components ::= component ( "," component )* ","?
//! ```
//!
//! Reading goes left to right and stops at the first token that does not
//! fit. The fault is reported at that token, or, where the tokens end too
//! early, at the brackets that enclose them (at the call site for the
//! outermost sequence).
//!
//! A group without visible brackets, such as a macro puts around a fragment
//! that it hands on, is read as the tokens inside it. Only an expression
//! keeps such groups as they are.

use crate::component::{ComponentView, Emoji, Error, ErrorKind, KindView, LabelView};
use crate::render::source_text;
use crate::syntax::{is_expression, is_identifier, literal_of, LiteralView};
use crate::token::{opened, peeled, Delimiter, Span, TokenView};
use vstd::prelude::*;

verus! {

/// Whether a sequence has a token at a position.
pub open spec fn present(s: Seq<TokenView>, pos: int) -> bool {
    0 <= pos < s.len()
}

/// The fault of a missing or misplaced token at a position: reported at the
/// token that stands there, or at `scope` where the sequence has ended.
pub open spec fn malformed(s: Seq<TokenView>, pos: int, scope: Span) -> Error {
    Error { kind: ErrorKind::Malformed, span: if present(s, pos) { s[pos].span() } else { scope } }
}

/// A word that the host language takes for an identifier.
pub open spec fn is_word(token: TokenView) -> bool {
    token matches TokenView::Ident { text, .. } && is_identifier(text)
}

/// The punctuation character `ch`.
pub open spec fn is_punct(token: TokenView, ch: char) -> bool {
    token matches TokenView::Punct { ch: c, .. } && c == ch
}

/// A group in round brackets.
pub open spec fn is_paren(token: TokenView) -> bool {
    token matches TokenView::Group { delimiter, .. } && delimiter == Delimiter::Parenthesis
}

/// The arrow `=>` at a position: `=` running into `>`.
pub open spec fn has_arrow(s: Seq<TokenView>, pos: int) -> bool {
    &&& present(s, pos)
    &&& present(s, pos + 1)
    &&& s[pos] matches TokenView::Punct { ch, joint, .. }
    &&& ch == '='
    &&& joint
    &&& is_punct(s[pos + 1], '>')
}

/// The value of a token that is a string literal.
pub open spec fn string_value(token: TokenView) -> Option<Seq<char>> {
    match token {
        TokenView::Literal { text, .. } => match literal_of(text) {
            LiteralView::Str(value) => Some(value),
            _ => None,
        },
        _ => None,
    }
}

/// A sequence of tokens read as one expression: the fault, if it is none.
/// It is reported at the first token, or at `scope` where there is no token.
pub open spec fn expression_fault(tokens: Seq<TokenView>, scope: Span) -> Option<Error> {
    if is_expression(source_text(tokens)) {
        None
    } else {
        Some(malformed(tokens, 0, scope))
    }
}

/// The operands of `btn!(..)`: a string literal, then nothing more, or a
/// comma and an expression. `args` starts with the literal; the comma may
/// stand inside a group without visible brackets.
pub open spec fn read_button(args: Seq<TokenView>, group: Span) -> Result<KindView, Error> {
    if !present(args, 0) {
        Err(malformed(args, 0, group))
    } else {
        match string_value(args[0]) {
            None => Err(malformed(args, 0, group)),
            Some(custom_id) => {
                let rest = peeled(args.skip(1));
                if rest.len() == 0 {
                    Ok(KindView::Button { custom_id, style: None })
                } else if !is_punct(rest[0], ',') {
                    Err(malformed(rest, 0, group))
                } else {
                    match expression_fault(rest.skip(1), group) {
                        Some(e) => Err(e),
                        None => Ok(KindView::Button { custom_id, style: Some(rest.skip(1)) }),
                    }
                }
            },
        }
    }
}

/// The operands of a kind, read from the tokens inside its brackets.
pub open spec fn read_arguments(name: Seq<char>, args: Seq<TokenView>, group: Span) -> Result<
    KindView,
    Error,
> {
    if name == "row"@ {
        if opened(args).len() == 0 {
            Ok(KindView::Row)
        } else {
            Err(malformed(opened(args), 0, group))
        }
    } else if name == "url"@ {
        match expression_fault(args, group) {
            Some(e) => Err(e),
            None => Ok(KindView::URL { url: args }),
        }
    } else if name == "btn"@ {
        read_button(peeled(args), group)
    } else {
        Err(Error { kind: ErrorKind::UnknownKind, span: Span::CallSite })
    }
}

/// A kind read at a position: the kind and the position after it. Here and
/// below, `s` is a sequence in which the groups without visible brackets
/// have been opened.
pub open spec fn read_kind(s: Seq<TokenView>, pos: int, scope: Span) -> Result<
    (KindView, int),
    Error,
> {
    if !(present(s, pos) && is_word(s[pos])) {
        Err(malformed(s, pos, scope))
    } else if !(present(s, pos + 1) && is_punct(s[pos + 1], '!')) {
        Err(malformed(s, pos + 1, scope))
    } else if !(present(s, pos + 2) && is_paren(s[pos + 2])) {
        Err(malformed(s, pos + 2, scope))
    } else {
        match read_arguments(
            s[pos]->Ident_text,
            s[pos + 2]->Group_tokens,
            s[pos + 2]->Group_span,
        ) {
            Ok(kind) => Ok((kind, pos + 3)),
            Err(e) => Err(e),
        }
    }
}

/// The glyph named by the one token inside `emoji!(..)`.
pub open spec fn read_glyph(token: TokenView) -> Result<Emoji, Error> {
    match token {
        TokenView::Literal { text, span } => match literal_of(text) {
            LiteralView::Char(c) => Ok(Emoji::Unicode(c)),
            LiteralView::Int(Some(id)) => Ok(Emoji::Custom(id)),
            LiteralView::Int(None) => Err(Error { kind: ErrorKind::Malformed, span }),
            LiteralView::Invalid => Err(Error { kind: ErrorKind::Malformed, span }),
            LiteralView::Str(_) => Err(Error { kind: ErrorKind::BadEmoji, span }),
            LiteralView::Other => Err(Error { kind: ErrorKind::BadEmoji, span }),
        },
        TokenView::Ident { text, span } => if text == "true"@ || text == "false"@ {
            Err(Error { kind: ErrorKind::BadEmoji, span })
        } else {
            Err(Error { kind: ErrorKind::Malformed, span })
        },
        _ => Err(Error { kind: ErrorKind::Malformed, span: token.span() }),
    }
}

/// The glyph read from the tokens inside `emoji!(..)`.
pub open spec fn read_emoji(args: Seq<TokenView>, group: Span) -> Result<Emoji, Error> {
    if !present(args, 0) {
        Err(malformed(args, 0, group))
    } else {
        match read_glyph(args[0]) {
            Err(e) => Err(e),
            Ok(emoji) => if args.len() > 1 {
                Err(malformed(args, 1, group))
            } else {
                Ok(emoji)
            },
        }
    }
}

/// A label that starts with the word `emoji` at a position.
pub open spec fn read_decorated(s: Seq<TokenView>, pos: int, scope: Span) -> Result<
    (LabelView, int),
    Error,
> {
    if !(present(s, pos + 1) && is_punct(s[pos + 1], '!')) {
        Err(malformed(s, pos + 1, scope))
    } else if !(present(s, pos + 2) && is_paren(s[pos + 2])) {
        Err(malformed(s, pos + 2, scope))
    } else {
        match read_emoji(opened(s[pos + 2]->Group_tokens), s[pos + 2]->Group_span) {
            Err(e) => Err(e),
            Ok(emoji) => if !present(s, pos + 3) {
                Err(malformed(s, pos + 3, scope))
            } else {
                match string_value(s[pos + 3]) {
                    None => Err(malformed(s, pos + 3, scope)),
                    Some(value) => Ok((LabelView { value, emoji: Some(emoji) }, pos + 4)),
                }
            },
        }
    }
}

/// A label read at a position: the label and the position after it.
pub open spec fn read_label(s: Seq<TokenView>, pos: int, scope: Span) -> Result<
    (LabelView, int),
    Error,
> {
    if !present(s, pos) {
        Err(malformed(s, pos, scope))
    } else if is_word(s[pos]) {
        if s[pos]->Ident_text == "emoji"@ {
            read_decorated(s, pos, scope)
        } else {
            Ok((LabelView { value: s[pos]->Ident_text, emoji: None }, pos + 1))
        }
    } else {
        match string_value(s[pos]) {
            None => Err(malformed(s, pos, scope)),
            Some(value) => Ok((LabelView { value, emoji: None }, pos + 1)),
        }
    }
}

/// A component read at a position: the component and the position after it.
pub open spec fn read_component(s: Seq<TokenView>, pos: int, scope: Span) -> Result<
    (ComponentView, int),
    Error,
> {
    match read_kind(s, pos, scope) {
        Err(e) => Err(e),
        Ok((kind, after_kind)) => if kind is Row {
            Ok((ComponentView::Row, after_kind))
        } else if !has_arrow(s, after_kind) {
            Err(malformed(s, after_kind, scope))
        } else {
            match read_label(s, after_kind + 2, scope) {
                Err(e) => Err(e),
                Ok((label, after_label)) => Ok((kind.with_label(label), after_label)),
            }
        },
    }
}

/// A sequence of tokens read as exactly one component.
pub open spec fn read_single(s: Seq<TokenView>) -> Result<ComponentView, Error> {
    match read_component(opened(s), 0, Span::CallSite) {
        Err(e) => Err(e),
        Ok((component, end)) => if present(opened(s), end) {
            Err(malformed(opened(s), end, Span::CallSite))
        } else {
            Ok(component)
        },
    }
}

/// The components read from a position to the end, each followed by a comma
/// but for the last, which may have one.
pub open spec fn read_list(s: Seq<TokenView>, pos: int) -> Result<Seq<ComponentView>, Error>
    decreases s.len() - pos,
{
    if !present(s, pos) {
        Ok(seq![])
    } else {
        match read_component(s, pos, Span::CallSite) {
            Err(e) => Err(e),
            Ok((component, end)) => if !present(s, end) {
                Ok(seq![component])
            } else if !is_punct(s[end], ',') {
                Err(malformed(s, end, Span::CallSite))
            } else {
                match read_list(s, end + 1) {
                    Err(e) => Err(e),
                    Ok(rest) => Ok(seq![component] + rest),
                }
            },
        }
    }
}

/// A sequence of tokens read as a list of components.
pub open spec fn read_components(s: Seq<TokenView>) -> Result<Seq<ComponentView>, Error> {
    read_list(opened(s), 0)
}

/// Reading a component moves forward, by at least three tokens.
pub proof fn lemma_component_advances(s: Seq<TokenView>, pos: int, scope: Span)
    requires
        read_component(s, pos, scope) is Ok,
    ensures
        pos + 3 <= read_component(s, pos, scope)->Ok_0.1 <= s.len(),
{
}

} // verus!
