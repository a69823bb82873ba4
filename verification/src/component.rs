//! What a description says: a control, its label, its decoration.

use crate::render::source_text;
use crate::syntax::is_expression;
use crate::token::{views, Span, Token, TokenView};
use vstd::prelude::*;
use vstd::string::StringExecFns;

verus! {

/// What went wrong with a description.
#[derive(Clone, Copy, Debug, PartialEq, Eq, Structural)]
pub enum ErrorKind {
    /// The word before `!` is none of `row`, `url`, `btn`.
    UnknownKind,
    /// A token is missing, or another one stands in its place.
    Malformed,
    /// The literal inside `emoji!(..)` is neither a character nor an integer.
    BadEmoji,
    /// A row separator stands where a single control is asked for.
    MisplacedRow,
    /// A row would hold a button and a link side by side.
    MixedRow,
}

/// What is said to the user about a fault of each kind.
pub open spec fn message_of(kind: ErrorKind) -> Seq<char> {
    match kind {
        ErrorKind::UnknownKind => "expected url or btn"@,
        ErrorKind::Malformed => "malformed component description"@,
        ErrorKind::BadEmoji => "expected emoji"@,
        ErrorKind::MisplacedRow => "cannot create new row outside of discord_components! macro"@,
        ErrorKind::MixedRow => "cannot mix buttons and links in one row"@,
    }
}

impl ErrorKind {
    /// What is said to the user about a fault of this kind.
    pub fn message(&self) -> (text: String)
        ensures
            text@ == message_of(*self),
    {
        match self {
            ErrorKind::UnknownKind => String::from_str("expected url or btn"),
            ErrorKind::Malformed => String::from_str("malformed component description"),
            ErrorKind::BadEmoji => String::from_str("expected emoji"),
            ErrorKind::MisplacedRow => String::from_str(
                "cannot create new row outside of discord_components! macro",
            ),
            ErrorKind::MixedRow => String::from_str("cannot mix buttons and links in one row"),
        }
    }
}

/// A fault in a description, and the place to report it at.
#[derive(Clone, Copy, Debug, PartialEq, Eq, Structural)]
pub struct Error {
    pub kind: ErrorKind,
    pub span: Span,
}

/// The glyph shown before a label.
#[derive(Clone, Copy, Debug, PartialEq, Eq, Structural)]
pub enum Emoji {
    /// A character.
    Unicode(char),
    /// A custom emoji, by its number.
    Custom(u64),
}

/// The visible text of a control, and its glyph if it has one.
#[derive(Debug, PartialEq, Eq)]
pub struct Label {
    pub value: String,
    pub emoji: Option<Emoji>,
}

/// What a [`Label`] is, as a mathematical value.
pub struct LabelView {
    pub value: Seq<char>,
    pub emoji: Option<Emoji>,
}

impl View for Label {
    type V = LabelView;

    open spec fn view(&self) -> LabelView {
        LabelView { value: self.value@, emoji: self.emoji }
    }
}

/// The operands of `btn!(..)`: the identifier that the chat service reports
/// back, and the style expression if one was given.
#[derive(Debug, PartialEq, Eq)]
pub struct ButtonKind {
    pub custom_id: String,
    pub style: Option<Vec<Token>>,
}

/// The operand of `url!(..)`: the expression for the address.
#[derive(Debug, PartialEq, Eq)]
pub struct UrlKind {
    pub url: Vec<Token>,
}

/// Which control a description asks for, with its operands.
#[derive(Debug, PartialEq, Eq)]
pub enum ComponentKind {
    Row,
    URL(UrlKind),
    Button(ButtonKind),
}

/// What a [`ComponentKind`] is, as a mathematical value.
pub enum KindView {
    Row,
    URL { url: Seq<TokenView> },
    Button { custom_id: Seq<char>, style: Option<Seq<TokenView>> },
}

/// The values of an optional sequence of tokens.
pub open spec fn option_views(tokens: Option<Vec<Token>>) -> Option<Seq<TokenView>> {
    match tokens {
        Some(v) => Some(views(v@)),
        None => None,
    }
}

impl View for ComponentKind {
    type V = KindView;

    open spec fn view(&self) -> KindView {
        match self {
            ComponentKind::Row => KindView::Row,
            ComponentKind::URL(kind) => KindView::URL { url: views(kind.url@) },
            ComponentKind::Button(kind) => KindView::Button {
                custom_id: kind.custom_id@,
                style: option_views(kind.style),
            },
        }
    }
}

/// One control with its label, or a row separator.
#[allow(inconsistent_fields)]
#[derive(Debug, PartialEq, Eq)]
pub enum Component {
    Button { kind: ButtonKind, label: Label },
    URL { kind: UrlKind, label: Label },
    Row,
}

/// What a [`Component`] is, as a mathematical value.
pub enum ComponentView {
    Button { custom_id: Seq<char>, style: Option<Seq<TokenView>>, label: LabelView },
    URL { url: Seq<TokenView>, label: LabelView },
    Row,
}

impl View for Component {
    type V = ComponentView;

    open spec fn view(&self) -> ComponentView {
        match self {
            Component::Button { kind, label } => ComponentView::Button {
                custom_id: kind.custom_id@,
                style: option_views(kind.style),
                label: label@,
            },
            Component::URL { kind, label } => ComponentView::URL {
                url: views(kind.url@),
                label: label@,
            },
            Component::Row => ComponentView::Row,
        }
    }
}

impl KindView {
    /// The place of a kind among the kinds: 0 for a row, 1 for a link, 2 for
    /// a button.
    pub open spec fn ordinal(self) -> nat {
        match self {
            KindView::Row => 0,
            KindView::URL { .. } => 1,
            KindView::Button { .. } => 2,
        }
    }

    /// The kind with a label: the component that a description stands for.
    pub open spec fn with_label(self, label: LabelView) -> ComponentView {
        match self {
            KindView::Row => ComponentView::Row,
            KindView::URL { url } => ComponentView::URL { url, label },
            KindView::Button { custom_id, style } => ComponentView::Button {
                custom_id,
                style,
                label,
            },
        }
    }
}

impl ComponentView {
    /// The place of a component among the components: 0 for a button, 1 for
    /// a link, 2 for a row separator.
    pub open spec fn ordinal(self) -> nat {
        match self {
            ComponentView::Button { .. } => 0,
            ComponentView::URL { .. } => 1,
            ComponentView::Row => 2,
        }
    }

    /// Every expression that the component carries is one that the host
    /// language accepts.
    pub open spec fn well_formed(self) -> bool {
        match self {
            ComponentView::Button { style, .. } => style matches Some(tokens) ==> is_expression(
                source_text(tokens),
            ),
            ComponentView::URL { url, .. } => is_expression(source_text(url)),
            ComponentView::Row => true,
        }
    }
}

impl ComponentKind {
    /// The place of this kind among the kinds.
    pub fn ordinal(&self) -> (n: usize)
        ensures
            n == self@.ordinal(),
    {
        match self {
            ComponentKind::Row => 0,
            ComponentKind::URL(_) => 1,
            ComponentKind::Button(_) => 2,
        }
    }
}

impl Component {
    /// The place of this component among the components.
    pub fn ordinal(&self) -> (n: usize)
        ensures
            n == self@.ordinal(),
    {
        match self {
            Component::Button { .. } => 0,
            Component::URL { .. } => 1,
            Component::Row => 2,
        }
    }
}

/// The values of a sequence of components, one for one.
pub open spec fn component_views(components: Seq<Component>) -> Seq<ComponentView> {
    Seq::new(components.len(), |i: int| components[i]@)
}

} // verus!
