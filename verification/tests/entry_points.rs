use discord_components::component::{Error, ErrorKind};
use discord_components::components::{discord_component_inner, discord_components_inner};
use discord_components::render::render;
use discord_components::token::{Delimiter, Span, Token};
use std::str::FromStr;

fn convert(stream: proc_macro2::TokenStream, next: &mut u64) -> Vec<Token> {
    let mut tokens = Vec::new();
    for tree in stream {
        let span = Span::Source(*next);
        *next += 1;
        tokens.push(match tree {
            proc_macro2::TokenTree::Ident(ident) => Token::Ident { text: ident.to_string(), span },
            proc_macro2::TokenTree::Punct(punct) => Token::Punct {
                ch: punct.as_char(),
                joint: punct.spacing() == proc_macro2::Spacing::Joint,
                span,
            },
            proc_macro2::TokenTree::Literal(literal) => {
                Token::Literal { text: literal.to_string(), span }
            }
            proc_macro2::TokenTree::Group(group) => {
                let delimiter = match group.delimiter() {
                    proc_macro2::Delimiter::Parenthesis => Delimiter::Parenthesis,
                    proc_macro2::Delimiter::Brace => Delimiter::Brace,
                    proc_macro2::Delimiter::Bracket => Delimiter::Bracket,
                    proc_macro2::Delimiter::None => Delimiter::Invisible,
                };
                Token::Group { delimiter, tokens: convert(group.stream(), next), span }
            }
        });
    }
    tokens
}

fn tokens(source: &str) -> Vec<Token> {
    let mut next = 0;
    convert(proc_macro2::TokenStream::from_str(source).unwrap(), &mut next)
}

fn text(source: &str) -> String {
    render(&tokens(source))
}

#[test]
fn component_url_with_label() {
    let out = discord_component_inner(tokens(r#"url!("https://x.test") => "Visit""#));
    assert_eq!(
        render(&out),
        text(r#"serenity::builder::CreateButton::new_link("https://x.test").label("Visit")"#)
    );
}

#[test]
fn component_button_with_character_emoji() {
    let out = discord_component_inner(tokens(r#"btn!("confirm") => emoji!('✔') "Confirm""#));
    assert_eq!(
        render(&out),
        text(r#"serenity::builder::CreateButton::new("confirm").label("Confirm").emoji('✔')"#)
    );
}

#[test]
fn component_button_with_style() {
    let out = discord_component_inner(tokens(r#"btn!("danger", Style::Danger) => "Delete""#));
    assert_eq!(
        render(&out),
        text(
            r#"serenity::builder::CreateButton::new("danger").label("Delete").style(Style::Danger)"#
        )
    );
}

#[test]
fn split_components_breaks_at_separator() {
    let out = discord_components_inner(tokens(
        r#"btn!("a") => "A", btn!("b") => "B", row!(), btn!("c") => "C""#,
    ));
    assert_eq!(
        render(&out),
        text(
            r#"vec![
                serenity::builder::CreateActionRow::Buttons(vec![
                    serenity::builder::CreateButton::new("a").label("A"),
                    serenity::builder::CreateButton::new("b").label("B")
                ]),
                serenity::builder::CreateActionRow::Buttons(vec![
                    serenity::builder::CreateButton::new("c").label("C")
                ])
            ]"#
        )
    );
}

#[test]
fn split_components_fills_a_row_of_five() {
    let out = discord_components_inner(tokens(
        r#"btn!("1")=>"1", btn!("2")=>"2", btn!("3")=>"3", btn!("4")=>"4", btn!("5")=>"5", btn!("6")=>"6""#,
    ));
    assert_eq!(
        render(&out),
        text(
            r#"vec![
                serenity::builder::CreateActionRow::Buttons(vec![
                    serenity::builder::CreateButton::new("1").label("1"),
                    serenity::builder::CreateButton::new("2").label("2"),
                    serenity::builder::CreateButton::new("3").label("3"),
                    serenity::builder::CreateButton::new("4").label("4"),
                    serenity::builder::CreateButton::new("5").label("5")
                ]),
                serenity::builder::CreateActionRow::Buttons(vec![
                    serenity::builder::CreateButton::new("6").label("6")
                ])
            ]"#
        )
    );
}

#[test]
fn component_row_is_refused() {
    let out = discord_component_inner(tokens("row!()"));
    let expected = Error { kind: ErrorKind::MisplacedRow, span: Span::CallSite };
    assert_eq!(out, expected.to_compile_error());
    assert_eq!(
        render(&out),
        text(
            r#"::core::compile_error!{ "cannot create new row outside of discord_components! macro" }"#
        )
    );
}
