//! Lists of components, and the two entry points: one description in, one
//! builder expression out; a list of descriptions in, rows of builder
//! expressions out.
//!
//! An entry point always answers with tokens. Where the input is at fault,
//! they are the tokens of `::core::compile_error!{ "message" }`, carrying
//! the span that the fault is reported at.

use crate::component::{
    component_views, message_of, Component, ComponentView, Error, ErrorKind,
};
use crate::emit::{
    bracketed, control_tokens, expanded, expansion, mark, push_group, push_mark, push_scoped,
    push_word, scoped, word,
};
use crate::grammar::{read_components, read_single};
use crate::parse::{parse_list, parse_single};
use crate::rows::{
    is_row, law_rows_are_rows, pack, packed, row_uniform, row_views, rows_uniform,
};
use crate::syntax::{string_literal, write_string};
use crate::token::{
    lemma_views, push_token, push_tokens, views, Delimiter, Span, Token, TokenView,
};
use vstd::prelude::*;
use vstd::string::StringExecFns;

verus! {

/// A list of components, in the order in which they were written.
#[derive(Debug, PartialEq, Eq)]
pub struct Components(pub Vec<Component>);

impl View for Components {
    type V = Seq<ComponentView>;

    open spec fn view(&self) -> Seq<ComponentView> {
        component_views(self.0@)
    }
}

/// The first `n` of `parts`, with a comma between each two.
pub open spec fn joined(parts: Seq<Seq<TokenView>>, n: nat) -> Seq<TokenView>
    decreases n,
{
    if n == 0 || n > parts.len() {
        seq![]
    } else if n == 1 {
        parts[0]
    } else {
        joined(parts, (n - 1) as nat).push(mark(',', false)) + parts[n - 1]
    }
}

/// The expression `vec![items]`.
pub open spec fn vec_of(items: Seq<TokenView>) -> Seq<TokenView> {
    seq![word("vec"@), mark('!', false), bracketed(Delimiter::Bracket, items)]
}

/// The builder expressions of the controls of a row, one for one.
pub open spec fn row_parts(row: Seq<ComponentView>) -> Seq<Seq<TokenView>> {
    Seq::new(row.len(), |i: int| control_tokens(row[i]))
}

/// The path `serenity::builder::CreateActionRow::Buttons`.
pub open spec fn action_row_path() -> Seq<TokenView> {
    scoped(scoped(scoped(seq![word("serenity"@)], "builder"@), "CreateActionRow"@), "Buttons"@)
}

/// The expression of a row:
/// `serenity::builder::CreateActionRow::Buttons(vec![control, ..])`.
pub open spec fn row_tokens(row: Seq<ComponentView>) -> Seq<TokenView> {
    action_row_path().push(
        bracketed(Delimiter::Parenthesis, vec_of(joined(row_parts(row), row.len()))),
    )
}

/// The expressions of rows, one for one.
pub open spec fn rows_parts(rows: Seq<Seq<ComponentView>>) -> Seq<Seq<TokenView>> {
    Seq::new(rows.len(), |r: int| row_tokens(rows[r]))
}

/// The expression of a sequence of rows: `vec![row, ..]`.
pub open spec fn rows_tokens(rows: Seq<Seq<ComponentView>>) -> Seq<TokenView> {
    vec_of(joined(rows_parts(rows), rows.len()))
}

/// What a list of components expands to: the expression of the rows that
/// they are packed into, or the fault of a row that would mix kinds.
pub open spec fn list_expansion(items: Seq<ComponentView>) -> Result<Seq<TokenView>, Error> {
    if rows_uniform(packed(items)) {
        Ok(rows_tokens(packed(items)))
    } else {
        Err(Error { kind: ErrorKind::MixedRow, span: Span::CallSite })
    }
}

/// The tokens that report a fault: `::core::compile_error!{ "message" }`,
/// each with the span of the fault.
pub open spec fn diagnostic(e: Error) -> Seq<TokenView> {
    seq![
        TokenView::Punct { ch: ':', joint: true, span: e.span },
        TokenView::Punct { ch: ':', joint: false, span: e.span },
        TokenView::Ident { text: "core"@, span: e.span },
        TokenView::Punct { ch: ':', joint: true, span: e.span },
        TokenView::Punct { ch: ':', joint: false, span: e.span },
        TokenView::Ident { text: "compile_error"@, span: e.span },
        TokenView::Punct { ch: '!', joint: false, span: e.span },
        TokenView::Group {
            delimiter: Delimiter::Brace,
            tokens: seq![
                TokenView::Literal { text: string_literal(message_of(e.kind)), span: e.span },
            ],
            span: e.span,
        },
    ]
}

/// The tokens of an expansion, or those that report its fault.
pub open spec fn output(r: Result<Seq<TokenView>, Error>) -> Seq<TokenView> {
    match r {
        Ok(tokens) => tokens,
        Err(e) => diagnostic(e),
    }
}

/// What the single-component entry answers to a sequence of tokens.
pub open spec fn component_output(item: Seq<TokenView>) -> Seq<TokenView> {
    match read_single(item) {
        Ok(component) => output(expansion(component)),
        Err(e) => diagnostic(e),
    }
}

/// What the list entry answers to a sequence of tokens.
pub open spec fn components_output(item: Seq<TokenView>) -> Seq<TokenView> {
    match read_components(item) {
        Ok(components) => output(list_expansion(components)),
        Err(e) => diagnostic(e),
    }
}

impl Error {
    /// The tokens that report this fault to the compiler.
    pub fn to_compile_error(&self) -> (tokens: Vec<Token>)
        ensures
            views(tokens@) == diagnostic(*self),
    {
        let span = self.span;
        let mut inner: Vec<Token> = Vec::new();
        proof {
            lemma_views(inner@);
        }
        let message = self.kind.message();
        push_token(&mut inner, Token::Literal { text: write_string(message.as_str()), span });
        let mut tokens: Vec<Token> = Vec::new();
        proof {
            lemma_views(tokens@);
        }
        push_token(&mut tokens, Token::Punct { ch: ':', joint: true, span });
        push_token(&mut tokens, Token::Punct { ch: ':', joint: false, span });
        push_token(&mut tokens, Token::Ident { text: String::from_str("core"), span });
        push_token(&mut tokens, Token::Punct { ch: ':', joint: true, span });
        push_token(&mut tokens, Token::Punct { ch: ':', joint: false, span });
        push_token(&mut tokens, Token::Ident { text: String::from_str("compile_error"), span });
        push_token(&mut tokens, Token::Punct { ch: '!', joint: false, span });
        push_token(
            &mut tokens,
            Token::Group { delimiter: Delimiter::Brace, tokens: inner, span },
        );
        tokens
    }
}

/// Whether all the controls of a row are of one kind.
fn uniform_row(row: &Vec<Component>) -> (b: bool)
    ensures
        b == row_uniform(component_views(row@)),
{
    let ghost all = component_views(row@);
    let mut i: usize = 0;
    while i < row.len()
        invariant
            i <= row.len(),
            all == component_views(row@),
            forall|j: int| 0 <= j < i ==> (#[trigger] all[j]).ordinal() == all[0].ordinal(),
        decreases row.len() - i,
    {
        if row[i].ordinal() != row[0].ordinal() {
            assert(all[i as int].ordinal() != all[0].ordinal());
            return false;
        }
        i += 1;
    }
    true
}

/// Whether every row holds controls of one kind only.
fn uniform_rows(rows: &Vec<Vec<Component>>) -> (b: bool)
    ensures
        b == rows_uniform(row_views(rows@)),
{
    let ghost all = row_views(rows@);
    let mut r: usize = 0;
    while r < rows.len()
        invariant
            r <= rows.len(),
            all == row_views(rows@),
            forall|k: int| 0 <= k < r ==> row_uniform(#[trigger] all[k]),
        decreases rows.len() - r,
    {
        if !uniform_row(&rows[r]) {
            assert(!row_uniform(all[r as int]));
            return false;
        }
        r += 1;
    }
    true
}

/// The expression `vec![items]`.
fn vec_macro(items: Vec<Token>) -> (tokens: Vec<Token>)
    ensures
        views(tokens@) == vec_of(views(items@)),
{
    let mut tokens: Vec<Token> = Vec::new();
    proof {
        lemma_views(tokens@);
    }
    push_word(&mut tokens, "vec");
    push_mark(&mut tokens, '!', false);
    push_group(&mut tokens, Delimiter::Bracket, items);
    tokens
}

/// The expression of a row.
fn expand_row(row: &Vec<Component>) -> (tokens: Vec<Token>)
    requires
        forall|i: int| 0 <= i < row.len() ==> !((#[trigger] component_views(row@)[i]) is Row),
    ensures
        views(tokens@) == row_tokens(component_views(row@)),
{
    let ghost parts = row_parts(component_views(row@));
    let mut items: Vec<Token> = Vec::new();
    proof {
        lemma_views(items@);
    }
    let mut i: usize = 0;
    while i < row.len()
        invariant
            i <= row.len(),
            parts == row_parts(component_views(row@)),
            forall|j: int| 0 <= j < row.len() ==> !((#[trigger] component_views(row@)[j]) is Row),
            views(items@) == joined(parts, i as nat),
        decreases row.len() - i,
    {
        assert(parts[i as int] == control_tokens(row@[i as int]@));
        match row[i].expand() {
            Ok(control) => {
                if i > 0 {
                    push_mark(&mut items, ',', false);
                }
                push_tokens(&mut items, control);
                assert(views(items@) =~= joined(parts, (i + 1) as nat));
            },
            Err(_) => {
                assert(false);
            },
        }
        i += 1;
    }
    let mut tokens: Vec<Token> = Vec::new();
    proof {
        lemma_views(tokens@);
    }
    push_word(&mut tokens, "serenity");
    push_scoped(&mut tokens, "builder");
    push_scoped(&mut tokens, "CreateActionRow");
    push_scoped(&mut tokens, "Buttons");
    push_group(&mut tokens, Delimiter::Parenthesis, vec_macro(items));
    tokens
}

/// The expression of a sequence of rows.
fn expand_rows(rows: &Vec<Vec<Component>>) -> (tokens: Vec<Token>)
    requires
        forall|r: int| 0 <= r < rows.len() ==> is_row(#[trigger] row_views(rows@)[r]),
    ensures
        views(tokens@) == rows_tokens(row_views(rows@)),
{
    let ghost parts = rows_parts(row_views(rows@));
    let mut items: Vec<Token> = Vec::new();
    proof {
        lemma_views(items@);
    }
    let mut r: usize = 0;
    while r < rows.len()
        invariant
            r <= rows.len(),
            parts == rows_parts(row_views(rows@)),
            forall|k: int| 0 <= k < rows.len() ==> is_row(#[trigger] row_views(rows@)[k]),
            views(items@) == joined(parts, r as nat),
        decreases rows.len() - r,
    {
        assert(is_row(row_views(rows@)[r as int]));
        let row = expand_row(&rows[r]);
        if r > 0 {
            push_mark(&mut items, ',', false);
        }
        push_tokens(&mut items, row);
        assert(views(items@) =~= joined(parts, (r + 1) as nat));
        r += 1;
    }
    vec_macro(items)
}

impl Components {
    /// Reads a whole token sequence as components separated by commas.
    pub fn parse(tokens: &Vec<Token>) -> (r: Result<Components, Error>)
        ensures
            match r {
                Ok(components) => read_components(views(tokens@)) == Ok::<
                    Seq<ComponentView>,
                    Error,
                >(components@),
                Err(e) => read_components(views(tokens@)) == Err::<Seq<ComponentView>, Error>(e),
            },
    {
        match parse_list(tokens) {
            Ok(components) => Ok(Components(components)),
            Err(e) => Err(e),
        }
    }

    /// The expression of the rows that these components are packed into:
    /// `vec![serenity::builder::CreateActionRow::Buttons(vec![..]), ..]`.
    /// A row that would hold a button beside a link is a fault, reported at
    /// the call site.
    pub fn expand(self) -> (r: Result<Vec<Token>, Error>)
        ensures
            expanded(r) == list_expansion(self@),
    {
        proof {
            law_rows_are_rows(self@);
        }
        let rows = pack(self.0);
        if uniform_rows(&rows) {
            Ok(expand_rows(&rows))
        } else {
            Err(Error { kind: ErrorKind::MixedRow, span: Span::CallSite })
        }
    }
}

/// The tokens of an expansion, or those that report its fault.
fn answer(r: Result<Vec<Token>, Error>) -> (tokens: Vec<Token>)
    ensures
        views(tokens@) == output(expanded(r)),
{
    match r {
        Ok(tokens) => tokens,
        Err(e) => e.to_compile_error(),
    }
}

/// Reads one description and writes its builder expression.
pub fn discord_component_inner(item: Vec<Token>) -> (tokens: Vec<Token>)
    ensures
        views(tokens@) == component_output(views(item@)),
{
    match parse_single(&item) {
        Ok(component) => answer(component.expand()),
        Err(e) => e.to_compile_error(),
    }
}

/// Reads a list of descriptions and writes the expression of their rows.
pub fn discord_components_inner(item: Vec<Token>) -> (tokens: Vec<Token>)
    ensures
        views(tokens@) == components_output(views(item@)),
{
    match Components::parse(&item) {
        Ok(components) => answer(components.expand()),
        Err(e) => e.to_compile_error(),
    }
}

} // verus!
