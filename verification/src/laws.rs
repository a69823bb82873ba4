//! What holds of reading and writing taken together.

use crate::component::{ComponentView, Emoji, Error, ErrorKind, LabelView};
use crate::components::{
    component_output, components_output, diagnostic, list_expansion, rows_tokens,
};
use crate::emit::{bracketed, emoji_id_path, label_tokens, literal, method_call};
use crate::grammar::{
    is_paren, is_punct, is_word, present, read_component, read_label, read_single, string_value,
};
use crate::rows::{packed, row_uniform};
use crate::syntax::{char_literal, literal_of, string_literal, u64_literal, LiteralView};
use crate::token::{opened, views, Delimiter, Span, Token, TokenView};
use vstd::prelude::*;

verus! {

/// Expansion is a function of the tokens' values: two inputs that hold the
/// same values get the same answer, from either entry point.
pub proof fn law_deterministic(a: Seq<Token>, b: Seq<Token>)
    requires
        views(a) == views(b),
    ensures
        component_output(views(a)) == component_output(views(b)),
        components_output(views(a)) == components_output(views(b)),
{
}

/// A label written as a bare word other than `emoji` reads as that word,
/// undecorated, and is written out as `.label("word")`.
pub proof fn law_label_fallback(s: Seq<TokenView>, pos: int, scope: Span)
    requires
        present(s, pos),
        is_word(s[pos]),
        s[pos]->Ident_text != "emoji"@,
    ensures
        read_label(s, pos, scope) == Ok::<(LabelView, int), Error>(
            (LabelView { value: s[pos]->Ident_text, emoji: None }, pos + 1),
        ),
        label_tokens(LabelView { value: s[pos]->Ident_text, emoji: None }) == method_call(
            "label"@,
            seq![literal(string_literal(s[pos]->Ident_text))],
        ),
{
    let label = LabelView { value: s[pos]->Ident_text, emoji: None };
    assert(label_tokens(label) =~= method_call(
        "label"@,
        seq![literal(string_literal(s[pos]->Ident_text))],
    ));
}

/// The tokens `emoji ! ( literal ) "text"` at a position, the literal being
/// the only token that the brackets hold.
pub open spec fn decorated_at(s: Seq<TokenView>, pos: int, glyph: LiteralView, text: Seq<char>)
    -> bool {
    &&& present(s, pos)
    &&& present(s, pos + 3)
    &&& is_word(s[pos])
    &&& s[pos]->Ident_text == "emoji"@
    &&& is_punct(s[pos + 1], '!')
    &&& is_paren(s[pos + 2])
    &&& opened(s[pos + 2]->Group_tokens).len() == 1
    &&& opened(s[pos + 2]->Group_tokens)[0] is Literal
    &&& literal_of(opened(s[pos + 2]->Group_tokens)[0]->Literal_text) == glyph
    &&& string_value(s[pos + 3]) == Some(text)
}

/// `emoji!('c') "text"` reads as the text decorated with the character, and
/// is written out as `.label("text").emoji('c')`.
pub proof fn law_emoji_character(
    s: Seq<TokenView>,
    pos: int,
    scope: Span,
    c: char,
    text: Seq<char>,
)
    requires
        decorated_at(s, pos, LiteralView::Char(c), text),
    ensures
        read_label(s, pos, scope) == Ok::<(LabelView, int), Error>(
            (LabelView { value: text, emoji: Some(Emoji::Unicode(c)) }, pos + 4),
        ),
        label_tokens(LabelView { value: text, emoji: Some(Emoji::Unicode(c)) }) == method_call(
            "label"@,
            seq![literal(string_literal(text))],
        ) + method_call("emoji"@, seq![literal(char_literal(c))]),
{
}

/// `emoji!(n) "text"` with an integer that fits `u64` reads as the text
/// decorated with the custom emoji of that number, and is written out as
/// `.label("text").emoji(serenity::model::id::EmojiId::new(n))`.
pub proof fn law_emoji_number(s: Seq<TokenView>, pos: int, scope: Span, id: u64, text: Seq<char>)
    requires
        decorated_at(s, pos, LiteralView::Int(Some(id)), text),
    ensures
        read_label(s, pos, scope) == Ok::<(LabelView, int), Error>(
            (LabelView { value: text, emoji: Some(Emoji::Custom(id)) }, pos + 4),
        ),
        label_tokens(LabelView { value: text, emoji: Some(Emoji::Custom(id)) }) == method_call(
            "label"@,
            seq![literal(string_literal(text))],
        ) + method_call(
            "emoji"@,
            emoji_id_path().push(
                bracketed(Delimiter::Parenthesis, seq![literal(u64_literal(id))]),
            ),
        ),
{
}

/// `row!()` alone, given to the single-component entry, is answered with
/// the report that a row cannot be made there, at the call site.
pub proof fn law_row_misuse(s: Seq<TokenView>)
    requires
        opened(s).len() == 3,
        is_word(opened(s)[0]),
        opened(s)[0]->Ident_text == "row"@,
        is_punct(opened(s)[1], '!'),
        is_paren(opened(s)[2]),
        opened(opened(s)[2]->Group_tokens).len() == 0,
    ensures
        read_single(s) == Ok::<ComponentView, Error>(ComponentView::Row),
        component_output(s) == diagnostic(
            Error { kind: ErrorKind::MisplacedRow, span: Span::CallSite },
        ),
{
}

/// Rows are of one kind: where a list expands at all, it expands to its
/// packed rows, and each of them holds buttons only or links only.
pub proof fn law_rows_homogeneous(items: Seq<ComponentView>)
    requires
        list_expansion(items) is Ok,
    ensures
        list_expansion(items) == Ok::<Seq<TokenView>, Error>(rows_tokens(packed(items))),
        forall|r: int| 0 <= r < packed(items).len() ==> row_uniform(#[trigger] packed(items)[r]),
{
}

/// Reading is local: a component is read from the tokens that it takes and
/// from no other, so the same tokens at the same place in another sequence
/// read as the same component.
pub proof fn law_reading_is_local(s: Seq<TokenView>, t: Seq<TokenView>, pos: int, scope: Span)
    requires
        read_component(s, pos, scope) is Ok,
        read_component(s, pos, scope)->Ok_0.1 <= t.len(),
        forall|i: int| pos <= i < read_component(s, pos, scope)->Ok_0.1 ==> s[i] == t[i],
    ensures
        read_component(t, pos, scope) == read_component(s, pos, scope),
{
}

/// Whatever is read as a component carries only expressions that the host
/// language accepts.
pub proof fn law_read_well_formed(s: Seq<TokenView>, pos: int, scope: Span)
    requires
        read_component(s, pos, scope) is Ok,
    ensures
        read_component(s, pos, scope)->Ok_0.0.well_formed(),
{
}

} // verus!
