use discord_components::component::{
    ButtonKind, Component, ComponentKind, Emoji, Error, ErrorKind, Label, UrlKind,
};
use discord_components::components::Components;
use discord_components::parse::{parse_list, parse_single};
use discord_components::token::{open_groups, peel, Delimiter, Span, Token};
use std::str::FromStr;

fn convert(stream: proc_macro2::TokenStream, next: &mut u64) -> Vec<Token> {
    let mut tokens = Vec::new();
    for tree in stream {
        let span = Span::Source(*next);
        *next += 1;
        tokens.push(match tree {
            proc_macro2::TokenTree::Ident(ident) => Token::Ident { text: ident.to_string(), span },
            proc_macro2::TokenTree::Punct(punct) => Token::Punct {
                ch: punct.as_char(),
                joint: punct.spacing() == proc_macro2::Spacing::Joint,
                span,
            },
            proc_macro2::TokenTree::Literal(literal) => {
                Token::Literal { text: literal.to_string(), span }
            }
            proc_macro2::TokenTree::Group(group) => {
                let delimiter = match group.delimiter() {
                    proc_macro2::Delimiter::Parenthesis => Delimiter::Parenthesis,
                    proc_macro2::Delimiter::Brace => Delimiter::Brace,
                    proc_macro2::Delimiter::Bracket => Delimiter::Bracket,
                    proc_macro2::Delimiter::None => Delimiter::Invisible,
                };
                Token::Group { delimiter, tokens: convert(group.stream(), next), span }
            }
        });
    }
    tokens
}

fn tokens(source: &str) -> Vec<Token> {
    let mut next = 0;
    convert(proc_macro2::TokenStream::from_str(source).unwrap(), &mut next)
}

fn fault(source: &str) -> Error {
    parse_single(&tokens(source)).unwrap_err()
}

fn malformed(at: u64) -> Error {
    Error { kind: ErrorKind::Malformed, span: Span::Source(at) }
}

fn malformed_at_call_site() -> Error {
    Error { kind: ErrorKind::Malformed, span: Span::CallSite }
}

fn label(value: &str, emoji: Option<Emoji>) -> Label {
    Label { value: value.to_string(), emoji }
}

fn button(custom_id: &str, label_text: &str) -> Component {
    Component::Button {
        kind: ButtonKind { custom_id: custom_id.to_string(), style: None },
        label: label(label_text, None),
    }
}

#[test]
fn reads_button_with_string_label() {
    assert_eq!(parse_single(&tokens(r#"btn!("ok") => "Fine""#)), Ok(button("ok", "Fine")));
}

#[test]
fn reads_bare_word_label_as_its_spelling() {
    assert_eq!(parse_single(&tokens(r#"btn!("ok") => Hello"#)), Ok(button("ok", "Hello")));
}

#[test]
fn reads_raw_identifier_label_with_its_prefix() {
    assert_eq!(parse_single(&tokens(r#"btn!("ok") => r#match"#)), Ok(button("ok", "r#match")));
}

#[test]
fn reads_quoted_emoji_as_plain_label() {
    assert_eq!(parse_single(&tokens(r#"btn!("ok") => "emoji""#)), Ok(button("ok", "emoji")));
}

#[test]
fn reads_string_literal_by_value_not_by_text() {
    let read = parse_single(&tokens(r#"btn!("a\nb\u{41}") => "tab\there""#));
    assert_eq!(read, Ok(button("a\nbA", "tab\there")));
}

#[test]
fn reads_raw_string_literal() {
    let read = parse_single(&tokens(r###"btn!(r#"a"b"#) => "x""###));
    assert_eq!(read, Ok(button("a\"b", "x")));
}

#[test]
fn reads_character_emoji() {
    let read = parse_single(&tokens(r#"btn!("ok") => emoji!('\u{2714}') "Confirm""#));
    let expected = Component::Button {
        kind: ButtonKind { custom_id: "ok".to_string(), style: None },
        label: label("Confirm", Some(Emoji::Unicode('✔'))),
    };
    assert_eq!(read, Ok(expected));
}

#[test]
fn reads_custom_emoji_number() {
    let read = parse_single(&tokens(r#"btn!("ok") => emoji!(0x1_0u32) "Confirm""#));
    let expected = Component::Button {
        kind: ButtonKind { custom_id: "ok".to_string(), style: None },
        label: label("Confirm", Some(Emoji::Custom(16))),
    };
    assert_eq!(read, Ok(expected));
}

#[test]
fn reads_largest_custom_emoji_number() {
    let read = parse_single(&tokens(r#"btn!("ok") => emoji!(18446744073709551615) "Max""#));
    let expected = Component::Button {
        kind: ButtonKind { custom_id: "ok".to_string(), style: None },
        label: label("Max", Some(Emoji::Custom(u64::MAX))),
    };
    assert_eq!(read, Ok(expected));
}

#[test]
fn refuses_custom_emoji_number_beyond_u64() {
    assert_eq!(fault(r#"btn!("ok") => emoji!(18446744073709551616) "Over""#), malformed(9));
}

#[test]
fn reads_url_with_its_expression_tokens() {
    let read = parse_single(&tokens(r#"url!(base.join("/x")) => Go"#)).unwrap();
    let all = tokens(r#"url!(base.join("/x")) => Go"#);
    let inside = match &all[2] {
        Token::Group { tokens, .. } => tokens,
        _ => panic!("no group"),
    };
    match read {
        Component::URL { kind, label: read_label } => {
            assert_eq!(&kind.url, inside);
            assert_eq!(read_label, label("Go", None));
        }
        _ => panic!("no link"),
    }
}

#[test]
fn reads_button_style_after_the_comma() {
    let read = parse_single(&tokens(r#"btn!("ok", Style::Primary) => Go"#)).unwrap();
    let all = tokens(r#"btn!("ok", Style::Primary) => Go"#);
    let inside = match &all[2] {
        Token::Group { tokens, .. } => tokens,
        _ => panic!("no group"),
    };
    match read {
        Component::Button { kind, .. } => {
            assert_eq!(kind.custom_id, "ok");
            let style = kind.style.unwrap();
            assert_eq!(style.len(), 4);
            assert_eq!(style[..], inside[2..]);
        }
        _ => panic!("no button"),
    }
}

#[test]
fn reads_row_alone() {
    assert_eq!(parse_single(&tokens("row!()")), Ok(Component::Row));
}

#[test]
fn kind_parse_returns_position_after_brackets() {
    let all = tokens(r#"btn!("a") => "A", row!()"#);
    let (kind, end) = ComponentKind::parse(&all, 0, Span::CallSite).unwrap();
    assert_eq!(kind, ComponentKind::Button(ButtonKind { custom_id: "a".to_string(), style: None }));
    assert_eq!(end, 3);
    let (kind, end) = ComponentKind::parse(&all, 7, Span::CallSite).unwrap();
    assert_eq!(kind, ComponentKind::Row);
    assert_eq!(end, 10);
}

#[test]
fn kind_ordinals() {
    let url = ComponentKind::URL(UrlKind { url: tokens("a") });
    assert_eq!(ComponentKind::Row.ordinal(), 0);
    assert_eq!(url.ordinal(), 1);
    assert_eq!(
        ComponentKind::Button(ButtonKind { custom_id: String::new(), style: None }).ordinal(),
        2
    );
    assert_eq!(button("a", "b").ordinal(), 0);
    let link = Component::URL { kind: UrlKind { url: tokens("a") }, label: label("x", None) };
    assert_eq!(link.ordinal(), 1);
    assert_eq!(Component::Row.ordinal(), 2);
}

#[test]
fn label_parse_past_the_end_is_a_fault_at_the_scope() {
    let all = tokens("a");
    assert_eq!(
        Label::parse(&all, 1, Span::Source(77)),
        Err(Error { kind: ErrorKind::Malformed, span: Span::Source(77) })
    );
    assert_eq!(
        Component::parse(&all, 5, Span::Source(78)),
        Err(Error { kind: ErrorKind::Malformed, span: Span::Source(78) })
    );
}

#[test]
fn unknown_kind_is_reported_at_the_call_site() {
    assert_eq!(
        fault(r#"foo!("x") => "y""#),
        Error { kind: ErrorKind::UnknownKind, span: Span::CallSite }
    );
}

#[test]
fn unknown_kind_comes_after_the_shape_of_the_kind() {
    assert_eq!(fault(r#"foo("x") => "y""#), malformed(1));
    assert_eq!(fault(r#"foo![] => "y""#), malformed(2));
    assert_eq!(fault("foo"), malformed_at_call_site());
    assert_eq!(fault("foo!"), malformed_at_call_site());
}

#[test]
fn keyword_is_no_kind_and_no_label() {
    assert_eq!(fault(r#"fn!("x") => "y""#), malformed(0));
    assert_eq!(fault(r#"btn!("x") => match"#), malformed(6));
}

#[test]
fn empty_input_is_a_fault_at_the_call_site() {
    assert_eq!(fault(""), malformed_at_call_site());
}

#[test]
fn row_takes_no_operand_and_no_label() {
    assert_eq!(fault("row!(1)"), malformed(3));
    assert_eq!(fault(r#"row!() => "x""#), malformed(3));
}

#[test]
fn missing_arrow_is_reported_where_it_should_stand() {
    assert_eq!(fault(r#"btn!("a") "A""#), malformed(4));
    assert_eq!(fault(r#"btn!("a")"#), malformed_at_call_site());
    assert_eq!(fault(r#"btn!("a") = > "A""#), malformed(4));
    assert_eq!(fault(r#"btn!("a") ="#), malformed(4));
}

#[test]
fn missing_label_is_reported_at_the_call_site() {
    assert_eq!(fault(r#"btn!("a") =>"#), malformed_at_call_site());
}

#[test]
fn wrong_literal_in_button_is_reported_at_the_literal() {
    assert_eq!(fault(r#"btn!(5) => "A""#), malformed(3));
    assert_eq!(fault(r#"btn!('c') => "A""#), malformed(3));
    assert_eq!(fault(r#"btn!(name) => "A""#), malformed(3));
}

#[test]
fn empty_button_is_reported_at_its_brackets() {
    assert_eq!(fault(r#"btn!() => "A""#), malformed(2));
}

#[test]
fn button_needs_a_comma_before_its_style() {
    assert_eq!(fault(r#"btn!("a" Style::Primary) => "A""#), malformed(4));
}

#[test]
fn button_style_must_be_an_expression() {
    assert_eq!(fault(r#"btn!("a", ) => "A""#), malformed(2));
    assert_eq!(fault(r#"btn!("a", +) => "A""#), malformed(5));
    assert_eq!(fault(r#"btn!("a", x y) => "A""#), malformed(5));
}

#[test]
fn url_must_be_one_expression() {
    assert_eq!(fault(r#"url!() => "A""#), malformed(2));
    assert_eq!(fault(r#"url!(a b) => "A""#), malformed(3));
    assert_eq!(fault(r#"url!(let) => "A""#), malformed(3));
    assert!(parse_single(&tokens(r#"url!(f(1) + [2, 3][0] as u8) => "A""#)).is_ok());
}

#[test]
fn wrong_label_token_is_reported_at_the_token() {
    assert_eq!(fault(r#"btn!("a") => 5"#), malformed(6));
    assert_eq!(fault(r#"btn!("a") => ("A")"#), malformed(6));
}

#[test]
fn tokens_after_the_component_are_reported() {
    assert_eq!(fault(r#"btn!("a") => "A" "B""#), malformed(7));
    assert_eq!(fault(r#"btn!("a") => "A","#), malformed(7));
    assert_eq!(fault("row!() row!()"), malformed(3));
}

#[test]
fn bad_emoji_literal_is_reported_at_the_literal() {
    let bad = |at: u64| Error { kind: ErrorKind::BadEmoji, span: Span::Source(at) };
    assert_eq!(fault(r#"btn!("a") => emoji!("s") "A""#), bad(9));
    assert_eq!(fault(r#"btn!("a") => emoji!(1.5) "A""#), bad(9));
    assert_eq!(fault(r#"btn!("a") => emoji!(b'x') "A""#), bad(9));
    assert_eq!(fault(r#"btn!("a") => emoji!(true) "A""#), bad(9));
}

#[test]
fn malformed_emoji_is_reported_at_the_offending_token() {
    assert_eq!(fault(r#"btn!("a") => emoji!() "A""#), malformed(8));
    assert_eq!(fault(r#"btn!("a") => emoji!(x) "A""#), malformed(9));
    assert_eq!(fault(r#"btn!("a") => emoji!('x' 'y') "A""#), malformed(10));
    assert_eq!(fault(r#"btn!("a") => emoji!(-1) "A""#), malformed(9));
    assert_eq!(fault(r#"btn!("a") => emoji "A""#), malformed(7));
    assert_eq!(fault(r#"btn!("a") => emoji!['x'] "A""#), malformed(8));
    assert_eq!(fault(r#"btn!("a") => emoji!('x')"#), malformed_at_call_site());
    assert_eq!(fault(r#"btn!("a") => emoji!('x') Word"#), malformed(10));
}

#[test]
fn list_reads_components_in_order() {
    let read = parse_list(&tokens(r#"btn!("a") => "A", row!(), btn!("b") => B"#));
    assert_eq!(read, Ok(vec![button("a", "A"), Component::Row, button("b", "B")]));
}

#[test]
fn list_takes_a_comma_after_the_last() {
    let read = Components::parse(&tokens(r#"btn!("a") => "A", row!(),"#));
    assert_eq!(read, Ok(Components(vec![button("a", "A"), Component::Row])));
}

#[test]
fn list_may_be_empty() {
    assert_eq!(Components::parse(&tokens("")), Ok(Components(vec![])));
}

#[test]
fn list_needs_commas_between_components() {
    assert_eq!(parse_list(&tokens(r#"btn!("a") => "A" row!()"#)), Err(malformed(7)));
    assert_eq!(parse_list(&tokens(r#"btn!("a") => "A",, row!()"#)), Err(malformed(8)));
    assert_eq!(parse_list(&tokens(",")), Err(malformed(0)));
}

#[test]
fn list_stops_at_the_first_fault() {
    let read = parse_list(&tokens(r#"foo!() => "A", btn!(5) => "B""#));
    assert_eq!(read, Err(Error { kind: ErrorKind::UnknownKind, span: Span::CallSite }));
    let read = parse_list(&tokens(r#"btn!(5) => "B", foo!() => "A""#));
    assert_eq!(read, Err(malformed(3)));
}

fn invisible(source: &str, at: u64) -> Token {
    Token::Group { delimiter: Delimiter::Invisible, tokens: tokens(source), span: Span::Source(at) }
}

fn paren(tokens: Vec<Token>, at: u64) -> Token {
    Token::Group { delimiter: Delimiter::Parenthesis, tokens, span: Span::Source(at) }
}

fn word(text: &str, at: u64) -> Token {
    Token::Ident { text: text.to_string(), span: Span::Source(at) }
}

fn mark(ch: char, joint: bool, at: u64) -> Token {
    Token::Punct { ch, joint, span: Span::Source(at) }
}

#[test]
fn invisible_group_reads_as_what_it_holds() {
    let all = vec![
        word("btn", 100),
        mark('!', false, 101),
        paren(vec![invisible(r#""a""#, 103)], 102),
        mark('=', true, 104),
        mark('>', false, 105),
        invisible(r#""A""#, 106),
    ];
    assert_eq!(parse_single(&all), Ok(button("a", "A")));
    let whole = vec![invisible(r#"btn!("a") => A"#, 100), invisible("", 101)];
    assert_eq!(parse_single(&whole), Ok(button("a", "A")));
    let list = vec![invisible(r#"btn!("a") => A,"#, 100), invisible(r#"row!()"#, 101)];
    assert_eq!(parse_list(&list), Ok(vec![button("a", "A"), Component::Row]));
}

#[test]
fn invisible_group_stays_inside_an_expression() {
    let sum = invisible("x + y", 104);
    let all = vec![
        word("btn", 100),
        mark('!', false, 101),
        paren(
            vec![
                invisible(r#""a""#, 103),
                invisible(",", 110),
                sum.duplicate(),
                mark('*', false, 105),
                word("z", 106),
            ],
            102,
        ),
        mark('=', true, 107),
        mark('>', false, 108),
        word("A", 109),
    ];
    match parse_single(&all) {
        Ok(Component::Button { kind, .. }) => {
            assert_eq!(kind.custom_id, "a");
            assert_eq!(kind.style, Some(vec![sum, mark('*', false, 105), word("z", 106)]));
        }
        other => panic!("no button: {:?}", other),
    }
}

#[test]
fn invisible_group_is_opened_inside_emoji_and_row() {
    let all = vec![
        word("btn", 100),
        mark('!', false, 101),
        paren(tokens(r#""a""#), 102),
        mark('=', true, 103),
        mark('>', false, 104),
        word("emoji", 105),
        mark('!', false, 106),
        paren(vec![invisible("'x'", 108)], 107),
        invisible(r#""A""#, 109),
    ];
    let expected = Component::Button {
        kind: ButtonKind { custom_id: "a".to_string(), style: None },
        label: label("A", Some(Emoji::Unicode('x'))),
    };
    assert_eq!(parse_single(&all), Ok(expected));
    let row = vec![word("row", 100), mark('!', false, 101), paren(vec![invisible("", 103)], 102)];
    assert_eq!(parse_single(&row), Ok(Component::Row));
    let full = vec![word("row", 100), mark('!', false, 101), paren(vec![invisible("1", 103)], 102)];
    assert_eq!(parse_single(&full), Err(malformed(0)));
}

#[test]
fn open_groups_replaces_invisible_groups_by_what_they_hold() {
    let nested = Token::Group {
        delimiter: Delimiter::Invisible,
        tokens: vec![word("a", 1), invisible("b (c)", 2), invisible("", 3)],
        span: Span::Source(4),
    };
    let inside = paren(vec![invisible("d", 5)], 6);
    let all = vec![nested, inside.duplicate(), word("e", 7)];
    let mut expected = vec![word("a", 1)];
    expected.extend(tokens("b (c)"));
    expected.push(inside.duplicate());
    expected.push(word("e", 7));
    assert_eq!(open_groups(&all), expected);
    assert_eq!(open_groups(&Vec::new()), Vec::<Token>::new());
}

#[test]
fn peel_opens_the_first_token_only() {
    let later = invisible("c", 3);
    let all = vec![invisible("", 0), invisible("a b", 1), later.duplicate()];
    let mut expected = tokens("a b");
    expected.push(later);
    assert_eq!(peel(&all), expected);
    assert_eq!(peel(&tokens("x y")), tokens("x y"));
    assert_eq!(peel(&vec![invisible("", 0)]), Vec::<Token>::new());
}

#[test]
fn text_that_is_no_literal_is_refused() {
    let all = vec![
        Token::Ident { text: "btn".to_string(), span: Span::Source(0) },
        Token::Punct { ch: '!', joint: false, span: Span::Source(1) },
        Token::Group {
            delimiter: Delimiter::Parenthesis,
            tokens: vec![Token::Literal { text: "\"open".to_string(), span: Span::Source(3) }],
            span: Span::Source(2),
        },
    ];
    assert_eq!(parse_single(&all), Err(malformed(3)));
}
