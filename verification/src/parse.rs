//! Reading descriptions from tokens.
//!
//! Each function here reads at a position of a token sequence and returns
//! exactly what [`crate::grammar`] says is to be read there.
//!
//! [`parse_single`] and [`parse_list`] take tokens as they come. The
//! functions that read at a position take a sequence in which the groups
//! without visible brackets have been opened, as [`open_groups`] does; in
//! another sequence such a group is a token that fits nowhere.

use crate::component::{
    component_views, ButtonKind, Component, ComponentKind, ComponentView, Emoji, Error, ErrorKind,
    KindView, Label, LabelView, UrlKind,
};
use crate::grammar::{
    expression_fault, has_arrow, is_paren, is_punct, is_word, lemma_component_advances, malformed,
    present, read_arguments, read_button, read_component, read_components, read_decorated,
    read_emoji, read_glyph, read_kind, read_label, read_list, read_single, string_value,
};
use crate::render::render;
use crate::syntax::{check_expression, check_identifier, read_literal, Literal};
use crate::token::{
    duplicate_from, lemma_views, open_groups, peel, views, Delimiter, Span, Token,
};
use vstd::prelude::*;
use vstd::string::StringExecFns;

verus! {

/// Whether a text is a given word.
fn same_text(text: &String, word: &str) -> (b: bool)
    ensures
        b == (text@ == word@),
{
    let other = String::from_str(word);
    *text == other
}

/// The fault of a missing or misplaced token at a position.
fn fault(tokens: &Vec<Token>, pos: usize, scope: Span) -> (e: Error)
    ensures
        e == malformed(views(tokens@), pos as int, scope),
{
    proof {
        lemma_views(tokens@);
    }
    if pos < tokens.len() {
        Error { kind: ErrorKind::Malformed, span: tokens[pos].span() }
    } else {
        Error { kind: ErrorKind::Malformed, span: scope }
    }
}

/// Whether a word that the host language takes for an identifier stands at a
/// position.
fn word_at(tokens: &Vec<Token>, pos: usize) -> (b: bool)
    ensures
        b == (present(views(tokens@), pos as int) && is_word(views(tokens@)[pos as int])),
{
    proof {
        lemma_views(tokens@);
    }
    if pos >= tokens.len() {
        return false;
    }
    match &tokens[pos] {
        Token::Ident { text, .. } => check_identifier(text.as_str()),
        _ => false,
    }
}

/// Whether the punctuation character `ch` stands at a position.
fn punct_at(tokens: &Vec<Token>, pos: usize, ch: char) -> (b: bool)
    ensures
        b == (present(views(tokens@), pos as int) && is_punct(views(tokens@)[pos as int], ch)),
{
    proof {
        lemma_views(tokens@);
    }
    if pos >= tokens.len() {
        return false;
    }
    match &tokens[pos] {
        Token::Punct { ch: c, .. } => *c == ch,
        _ => false,
    }
}

/// Whether a group in round brackets stands at a position.
fn paren_at(tokens: &Vec<Token>, pos: usize) -> (b: bool)
    ensures
        b == (present(views(tokens@), pos as int) && is_paren(views(tokens@)[pos as int])),
{
    proof {
        lemma_views(tokens@);
    }
    if pos >= tokens.len() {
        return false;
    }
    match &tokens[pos] {
        Token::Group { delimiter, .. } => match delimiter {
            Delimiter::Parenthesis => true,
            _ => false,
        },
        _ => false,
    }
}

/// Whether the arrow `=>` stands at a position.
fn arrow_at(tokens: &Vec<Token>, pos: usize) -> (b: bool)
    ensures
        b == has_arrow(views(tokens@), pos as int),
{
    proof {
        lemma_views(tokens@);
    }
    if pos >= tokens.len() || pos + 1 >= tokens.len() {
        return false;
    }
    let joined = match &tokens[pos] {
        Token::Punct { ch, joint, .. } => *ch == '=' && *joint,
        _ => false,
    };
    joined && punct_at(tokens, pos + 1, '>')
}

/// The value of a token that is a string literal.
fn string_at(token: &Token) -> (value: Option<String>)
    ensures
        match value {
            Some(v) => string_value(token@) == Some(v@),
            None => string_value(token@) is None,
        },
{
    match token {
        Token::Literal { text, .. } => match read_literal(text.as_str()) {
            Literal::Str(value) => Some(value),
            _ => None,
        },
        _ => None,
    }
}

/// A sequence of tokens read as one expression: the fault, if it is none.
fn check_tokens(tokens: &Vec<Token>, scope: Span) -> (e: Option<Error>)
    ensures
        e == expression_fault(views(tokens@), scope),
{
    let text = render(tokens);
    if check_expression(text.as_str()) {
        None
    } else {
        Some(fault(tokens, 0, scope))
    }
}

/// What a kind and the position after it are, as mathematical values.
pub open spec fn kind_read(r: Result<(ComponentKind, usize), Error>) -> Result<
    (KindView, int),
    Error,
> {
    match r {
        Ok((kind, end)) => Ok((kind@, end as int)),
        Err(e) => Err(e),
    }
}

/// What a kind read from arguments is, as a mathematical value.
pub open spec fn arguments_read(r: Result<ComponentKind, Error>) -> Result<KindView, Error> {
    match r {
        Ok(kind) => Ok(kind@),
        Err(e) => Err(e),
    }
}

/// The operands of `btn!(..)`, read from tokens that start with the first
/// token inside its brackets.
fn parse_button(args: &Vec<Token>, group: Span) -> (r: Result<ComponentKind, Error>)
    ensures
        arguments_read(r) == read_button(views(args@), group),
{
    proof {
        lemma_views(args@);
    }
    if args.len() == 0 {
        return Err(fault(args, 0, group));
    }
    let custom_id = match string_at(&args[0]) {
        Some(value) => value,
        None => {
            return Err(fault(args, 0, group));
        },
    };
    let rest = peel(&duplicate_from(args, 1));
    proof {
        lemma_views(rest@);
    }
    if rest.len() == 0 {
        return Ok(ComponentKind::Button(ButtonKind { custom_id, style: None }));
    }
    if !punct_at(&rest, 0, ',') {
        return Err(fault(&rest, 0, group));
    }
    let style = duplicate_from(&rest, 1);
    match check_tokens(&style, group) {
        Some(e) => Err(e),
        None => Ok(ComponentKind::Button(ButtonKind { custom_id, style: Some(style) })),
    }
}

/// The operands of a kind, read from the tokens inside its brackets.
fn parse_arguments(name: &String, args: &Vec<Token>, group: Span) -> (r: Result<
    ComponentKind,
    Error,
>)
    ensures
        arguments_read(r) == read_arguments(name@, views(args@), group),
{
    proof {
        lemma_views(args@);
    }
    if same_text(name, "row") {
        let inside = open_groups(args);
        proof {
            lemma_views(inside@);
        }
        if inside.len() == 0 {
            Ok(ComponentKind::Row)
        } else {
            Err(fault(&inside, 0, group))
        }
    } else if same_text(name, "url") {
        match check_tokens(args, group) {
            Some(e) => Err(e),
            None => {
                let url = duplicate_from(args, 0);
                assert(views(args@).skip(0) =~= views(args@));
                Ok(ComponentKind::URL(UrlKind { url }))
            },
        }
    } else if same_text(name, "btn") {
        parse_button(&peel(args), group)
    } else {
        Err(Error { kind: ErrorKind::UnknownKind, span: Span::CallSite })
    }
}

impl ComponentKind {
    /// Reads a kind at `pos`: a word, `!`, and the operands in round
    /// brackets. Returns the kind and the position after it.
    pub fn parse(tokens: &Vec<Token>, pos: usize, scope: Span) -> (r: Result<
        (ComponentKind, usize),
        Error,
    >)
        ensures
            kind_read(r) == read_kind(views(tokens@), pos as int, scope),
    {
        proof {
            lemma_views(tokens@);
        }
        let n = tokens.len();
        if !word_at(tokens, pos) {
            return Err(fault(tokens, pos, scope));
        }
        if !punct_at(tokens, pos + 1, '!') {
            return Err(fault(tokens, pos + 1, scope));
        }
        if !paren_at(tokens, pos + 2) {
            return Err(fault(tokens, pos + 2, scope));
        }
        match (&tokens[pos], &tokens[pos + 2]) {
            (Token::Ident { text, .. }, Token::Group { tokens: args, span, .. }) => {
                match parse_arguments(text, args, *span) {
                    Ok(kind) => Ok((kind, pos + 3)),
                    Err(e) => Err(e),
                }
            },
            _ => Err(fault(tokens, pos, scope)),
        }
    }
}

/// What a label and the position after it are, as mathematical values.
pub open spec fn label_read(r: Result<(Label, usize), Error>) -> Result<(LabelView, int), Error> {
    match r {
        Ok((label, end)) => Ok((label@, end as int)),
        Err(e) => Err(e),
    }
}

/// What a component and the position after it are, as mathematical values.
pub open spec fn component_read(r: Result<(Component, usize), Error>) -> Result<
    (ComponentView, int),
    Error,
> {
    match r {
        Ok((component, end)) => Ok((component@, end as int)),
        Err(e) => Err(e),
    }
}

/// The glyph named by the one token inside `emoji!(..)`.
fn parse_glyph(token: &Token) -> (r: Result<Emoji, Error>)
    ensures
        r == read_glyph(token@),
{
    match token {
        Token::Literal { text, span } => match read_literal(text.as_str()) {
            Literal::Char(c) => Ok(Emoji::Unicode(c)),
            Literal::Int(Some(id)) => Ok(Emoji::Custom(id)),
            Literal::Int(None) => Err(Error { kind: ErrorKind::Malformed, span: *span }),
            Literal::Invalid => Err(Error { kind: ErrorKind::Malformed, span: *span }),
            Literal::Str(_) => Err(Error { kind: ErrorKind::BadEmoji, span: *span }),
            Literal::Other => Err(Error { kind: ErrorKind::BadEmoji, span: *span }),
        },
        Token::Ident { text, span } => if same_text(text, "true") || same_text(text, "false") {
            Err(Error { kind: ErrorKind::BadEmoji, span: *span })
        } else {
            Err(Error { kind: ErrorKind::Malformed, span: *span })
        },
        _ => Err(Error { kind: ErrorKind::Malformed, span: token.span() }),
    }
}

/// The glyph read from the tokens inside `emoji!(..)`.
fn parse_emoji(args: &Vec<Token>, group: Span) -> (r: Result<Emoji, Error>)
    ensures
        r == read_emoji(views(args@), group),
{
    proof {
        lemma_views(args@);
    }
    if args.len() == 0 {
        return Err(fault(args, 0, group));
    }
    match parse_glyph(&args[0]) {
        Err(e) => Err(e),
        Ok(emoji) => if args.len() > 1 {
            Err(fault(args, 1, group))
        } else {
            Ok(emoji)
        },
    }
}

/// A label that starts with the word `emoji` at a position.
fn parse_decorated(tokens: &Vec<Token>, pos: usize, scope: Span) -> (r: Result<
    (Label, usize),
    Error,
>)
    requires
        pos < tokens.len(),
    ensures
        label_read(r) == read_decorated(views(tokens@), pos as int, scope),
{
    proof {
        lemma_views(tokens@);
    }
    if !punct_at(tokens, pos + 1, '!') {
        return Err(fault(tokens, pos + 1, scope));
    }
    if !paren_at(tokens, pos + 2) {
        return Err(fault(tokens, pos + 2, scope));
    }
    let emoji = match &tokens[pos + 2] {
        Token::Group { tokens: args, span, .. } => match parse_emoji(&open_groups(args), *span) {
            Ok(emoji) => emoji,
            Err(e) => {
                return Err(e);
            },
        },
        _ => {
            return Err(fault(tokens, pos + 2, scope));
        },
    };
    if pos + 3 >= tokens.len() {
        return Err(fault(tokens, pos + 3, scope));
    }
    match string_at(&tokens[pos + 3]) {
        None => Err(fault(tokens, pos + 3, scope)),
        Some(value) => Ok((Label { value, emoji: Some(emoji) }, pos + 4)),
    }
}

impl Label {
    /// Reads a label at `pos`: a word taken by its spelling, a string
    /// literal taken by its value, or `emoji!(..)` and a string literal.
    /// Returns the label and the position after it.
    ///
    /// The word `emoji` always opens a decoration; a label that reads
    /// "emoji" has to be written as a string literal.
    pub fn parse(tokens: &Vec<Token>, pos: usize, scope: Span) -> (r: Result<
        (Label, usize),
        Error,
    >)
        ensures
            label_read(r) == read_label(views(tokens@), pos as int, scope),
    {
        proof {
            lemma_views(tokens@);
        }
        if pos >= tokens.len() {
            return Err(fault(tokens, pos, scope));
        }
        if word_at(tokens, pos) {
            match &tokens[pos] {
                Token::Ident { text, .. } => {
                    if same_text(text, "emoji") {
                        parse_decorated(tokens, pos, scope)
                    } else {
                        Ok((Label { value: text.clone(), emoji: None }, pos + 1))
                    }
                },
                _ => Err(fault(tokens, pos, scope)),
            }
        } else {
            match string_at(&tokens[pos]) {
                None => Err(fault(tokens, pos, scope)),
                Some(value) => Ok((Label { value, emoji: None }, pos + 1)),
            }
        }
    }
}

impl Component {
    /// Reads a component at `pos`: a row separator, or a kind, `=>` and a
    /// label. Returns the component and the position after it.
    pub fn parse(tokens: &Vec<Token>, pos: usize, scope: Span) -> (r: Result<
        (Component, usize),
        Error,
    >)
        ensures
            component_read(r) == read_component(views(tokens@), pos as int, scope),
    {
        proof {
            lemma_views(tokens@);
        }
        let (kind, after_kind) = match ComponentKind::parse(tokens, pos, scope) {
            Ok(read) => read,
            Err(e) => {
                return Err(e);
            },
        };
        assert(after_kind <= tokens.len());
        match kind {
            ComponentKind::Row => Ok((Component::Row, after_kind)),
            ComponentKind::URL(kind) => {
                if !arrow_at(tokens, after_kind) {
                    return Err(fault(tokens, after_kind, scope));
                }
                match Label::parse(tokens, after_kind + 2, scope) {
                    Ok((label, end)) => Ok((Component::URL { kind, label }, end)),
                    Err(e) => Err(e),
                }
            },
            ComponentKind::Button(kind) => {
                if !arrow_at(tokens, after_kind) {
                    return Err(fault(tokens, after_kind, scope));
                }
                match Label::parse(tokens, after_kind + 2, scope) {
                    Ok((label, end)) => Ok((Component::Button { kind, label }, end)),
                    Err(e) => Err(e),
                }
            },
        }
    }
}

/// What a whole component is, as a mathematical value.
pub open spec fn single_read(r: Result<Component, Error>) -> Result<ComponentView, Error> {
    match r {
        Ok(component) => Ok(component@),
        Err(e) => Err(e),
    }
}

/// What a list of components is, as a mathematical value.
pub open spec fn list_read(r: Result<Vec<Component>, Error>) -> Result<
    Seq<ComponentView>,
    Error,
> {
    match r {
        Ok(components) => Ok(component_views(components@)),
        Err(e) => Err(e),
    }
}

/// The components read so far, followed by what is read from there on.
pub open spec fn read_on(
    before: Seq<ComponentView>,
    rest: Result<Seq<ComponentView>, Error>,
) -> Result<Seq<ComponentView>, Error> {
    match rest {
        Ok(after) => Ok(before + after),
        Err(e) => Err(e),
    }
}

/// Reads a whole token sequence as exactly one component: no token may be
/// left over.
pub fn parse_single(tokens: &Vec<Token>) -> (r: Result<Component, Error>)
    ensures
        single_read(r) == read_single(views(tokens@)),
{
    let all = open_groups(tokens);
    proof {
        lemma_views(all@);
    }
    match Component::parse(&all, 0, Span::CallSite) {
        Err(e) => Err(e),
        Ok((component, end)) => if end < all.len() {
            Err(fault(&all, end, Span::CallSite))
        } else {
            Ok(component)
        },
    }
}

/// Reads a whole token sequence as components separated by commas, with or
/// without a comma after the last. Row separators are components too.
pub fn parse_list(tokens: &Vec<Token>) -> (r: Result<Vec<Component>, Error>)
    ensures
        list_read(r) == read_components(views(tokens@)),
{
    let all = open_groups(tokens);
    let ghost s = views(all@);
    proof {
        lemma_views(all@);
    }
    let mut components: Vec<Component> = Vec::new();
    let mut pos: usize = 0;
    assert(read_on(component_views(components@), read_list(s, 0)) == read_list(s, 0));
    while pos < all.len()
        invariant
            s == views(all@),
            s.len() == all.len(),
            read_components(views(tokens@)) == read_list(s, 0),
            read_list(s, 0) == read_on(component_views(components@), read_list(s, pos as int)),
        decreases all.len() - pos,
    {
        let ghost before = component_views(components@);
        match Component::parse(&all, pos, Span::CallSite) {
            Err(e) => {
                return Err(e);
            },
            Ok((component, end)) => {
                proof {
                    lemma_component_advances(s, pos as int, Span::CallSite);
                }
                let ghost read = component@;
                components.push(component);
                assert(component_views(components@) =~= before + seq![read]);
                if end >= all.len() {
                    return Ok(components);
                }
                if !punct_at(&all, end, ',') {
                    return Err(fault(&all, end, Span::CallSite));
                }
                proof {
                    match read_list(s, end + 1) {
                        Ok(rest) => {
                            assert(before + (seq![read] + rest) =~= (before + seq![read]) + rest);
                        },
                        Err(_) => {},
                    }
                }
                pos = end + 1;
            },
        }
    }
    Ok(components)
}

} // verus!
