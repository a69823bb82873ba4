//! Tokens: the alphabet that descriptions are read from and expressions are
//! written in.

use vstd::prelude::*;

verus! {

/// Where a token came from. The reader never looks inside: it only carries a
/// span from an input token to an error or to the output.
#[derive(Clone, Copy, Debug, PartialEq, Eq, Structural)]
pub enum Span {
    /// The place where the whole description was written.
    CallSite,
    /// A place in the input, by a number that the caller chose.
    Source(u64),
}

/// The brackets around a group of tokens.
#[derive(Clone, Copy, Debug, PartialEq, Eq, Structural)]
pub enum Delimiter {
    Parenthesis,
    Brace,
    Bracket,
    /// No visible brackets: the group that a macro puts around a fragment
    /// that it hands on.
    Invisible,
}

/// One token, or a bracketed group of tokens.
#[derive(Debug, PartialEq, Eq)]
pub enum Token {
    /// A word, by its spelling.
    Ident { text: String, span: Span },
    /// One punctuation character. `joint` says that the next token follows
    /// without a gap and is punctuation too, as `=` does in `=>`.
    Punct { ch: char, joint: bool, span: Span },
    /// A literal, by its source text: `"a\n"`, `'x'`, `12u64`.
    Literal { text: String, span: Span },
    /// Tokens inside brackets.
    Group { delimiter: Delimiter, tokens: Vec<Token>, span: Span },
}

/// What a [`Token`] is, as a mathematical value.
pub enum TokenView {
    Ident { text: Seq<char>, span: Span },
    Punct { ch: char, joint: bool, span: Span },
    Literal { text: Seq<char>, span: Span },
    Group { delimiter: Delimiter, tokens: Seq<TokenView>, span: Span },
}

/// The value of one token.
pub open spec fn token_view(token: Token) -> TokenView
    decreases token, 0nat,
{
    match token {
        Token::Ident { text, span } => TokenView::Ident { text: text@, span },
        Token::Punct { ch, joint, span } => TokenView::Punct { ch, joint, span },
        Token::Literal { text, span } => TokenView::Literal { text: text@, span },
        Token::Group { delimiter, tokens, span } => TokenView::Group {
            delimiter,
            tokens: views_upto(tokens@, tokens@.len()),
            span,
        },
    }
}

/// The values of the first `n` tokens of a sequence, one for one.
pub open spec fn views_upto(tokens: Seq<Token>, n: nat) -> Seq<TokenView>
    decreases tokens, n,
{
    if n == 0 || n > tokens.len() {
        seq![]
    } else {
        views_upto(tokens, (n - 1) as nat).push(token_view(tokens[n - 1]))
    }
}

/// The values of a sequence of tokens, one for one.
pub open spec fn views(tokens: Seq<Token>) -> Seq<TokenView> {
    views_upto(tokens, tokens.len())
}

impl View for Token {
    type V = TokenView;

    open spec fn view(&self) -> TokenView {
        token_view(*self)
    }
}

impl TokenView {
    /// The span of a token.
    pub open spec fn span(self) -> Span {
        match self {
            TokenView::Ident { span, .. } => span,
            TokenView::Punct { span, .. } => span,
            TokenView::Literal { span, .. } => span,
            TokenView::Group { span, .. } => span,
        }
    }
}

/// The values of a prefix are the prefix of the values.
pub proof fn lemma_views_upto(tokens: Seq<Token>, n: nat)
    requires
        n <= tokens.len(),
    ensures
        views_upto(tokens, n).len() == n,
        forall|i: int| 0 <= i < n ==> (#[trigger] views_upto(tokens, n)[i]) == tokens[i]@,
    decreases n,
{
    if n > 0 {
        lemma_views_upto(tokens, (n - 1) as nat);
    }
}

/// The values of a sequence are as many as its tokens, and stand in their
/// places.
pub proof fn lemma_views(tokens: Seq<Token>)
    ensures
        views(tokens).len() == tokens.len(),
        forall|i: int| 0 <= i < tokens.len() ==> (#[trigger] views(tokens)[i]) == tokens[i]@,
{
    lemma_views_upto(tokens, tokens.len());
}

/// What a token is read as where a group without visible brackets counts
/// for the tokens inside it: the token itself, or all that such a group
/// holds, groups of its kind inside it opened in turn.
pub open spec fn opened_one(token: TokenView) -> Seq<TokenView>
    decreases token, 0nat,
{
    match token {
        TokenView::Group { delimiter: Delimiter::Invisible, tokens, .. } => opened_upto(
            tokens,
            tokens.len(),
        ),
        _ => seq![token],
    }
}

/// The first `n` tokens of a sequence, each opened.
pub open spec fn opened_upto(tokens: Seq<TokenView>, n: nat) -> Seq<TokenView>
    decreases tokens, n,
{
    if n == 0 || n > tokens.len() {
        seq![]
    } else {
        opened_upto(tokens, (n - 1) as nat) + opened_one(tokens[n - 1])
    }
}

/// A sequence of tokens with every group without visible brackets replaced
/// by what it holds. Groups with brackets are left as they are.
pub open spec fn opened(tokens: Seq<TokenView>) -> Seq<TokenView> {
    opened_upto(tokens, tokens.len())
}

/// A sequence of tokens with its first token opened, so that it starts with
/// a token that is no group without visible brackets. Tokens that open to
/// nothing are passed over; the tokens after the first are left as they are.
pub open spec fn peeled(tokens: Seq<TokenView>) -> Seq<TokenView>
    decreases tokens.len(),
{
    if tokens.len() == 0 {
        seq![]
    } else if opened_one(tokens[0]).len() > 0 {
        opened_one(tokens[0]) + tokens.skip(1)
    } else {
        peeled(tokens.skip(1))
    }
}

/// The values of two sequences of tokens, one after the other.
pub proof fn lemma_views_add(a: Seq<Token>, b: Seq<Token>)
    ensures
        views(a + b) == views(a) + views(b),
{
    lemma_views(a);
    lemma_views(b);
    lemma_views(a + b);
}

/// The values of a sequence of tokens with one more token.
pub proof fn lemma_views_push(a: Seq<Token>, t: Token)
    ensures
        views(a.push(t)) == views(a).push(t@),
{
    lemma_views(a);
    lemma_views(a.push(t));
}

/// Appends one token.
pub fn push_token(out: &mut Vec<Token>, token: Token)
    ensures
        views(final(out)@) == views(old(out)@).push(token@),
{
    proof {
        lemma_views_push(out@, token);
    }
    out.push(token);
}

/// Appends the tokens of `more`.
pub fn push_tokens(out: &mut Vec<Token>, more: Vec<Token>)
    ensures
        views(final(out)@) == views(old(out)@) + views(more@),
{
    proof {
        lemma_views_add(out@, more@);
    }
    let mut more = more;
    out.append(&mut more);
}

/// A copy of the tokens from position `from` on; of none where `from` lies
/// past the end.
pub fn duplicate_from(tokens: &Vec<Token>, from: usize) -> (copy: Vec<Token>)
    ensures
        views(copy@) == if from <= tokens.len() {
            views(tokens@).skip(from as int)
        } else {
            seq![]
        },
    decreases tokens, 1nat,
{
    let mut copy: Vec<Token> = Vec::new();
    if from > tokens.len() {
        proof {
            lemma_views(copy@);
        }
        return copy;
    }
    let mut i: usize = from;
    while i < tokens.len()
        invariant
            from <= i <= tokens.len(),
            copy.len() == i - from,
            forall|j: int| 0 <= j < copy.len() ==> (#[trigger] copy@[j])@ == tokens@[from + j]@,
        decreases tokens.len() - i,
    {
        let token = tokens[i].duplicate();
        copy.push(token);
        i += 1;
    }
    proof {
        lemma_views(copy@);
        lemma_views(tokens@);
    }
    copy
}

impl Token {
    /// A copy of this token, with everything inside it.
    pub fn duplicate(&self) -> (copy: Token)
        ensures
            copy@ == self@,
        decreases self, 0nat,
    {
        match self {
            Token::Ident { text, span } => Token::Ident { text: text.clone(), span: *span },
            Token::Punct { ch, joint, span } => Token::Punct {
                ch: *ch,
                joint: *joint,
                span: *span,
            },
            Token::Literal { text, span } => Token::Literal { text: text.clone(), span: *span },
            Token::Group { delimiter, tokens, span } => {
                let inner = duplicate_from(tokens, 0);
                assert(views(tokens@).skip(0) =~= views(tokens@));
                Token::Group { delimiter: *delimiter, tokens: inner, span: *span }
            },
        }
    }

    /// The span of this token.
    pub fn span(&self) -> (s: Span)
        ensures
            s == self@.span(),
    {
        match self {
            Token::Ident { span, .. } => *span,
            Token::Punct { span, .. } => *span,
            Token::Literal { span, .. } => *span,
            Token::Group { span, .. } => *span,
        }
    }
}

/// Appends `tokens`, opened, to `out`.
pub fn open_into(tokens: &Vec<Token>, out: &mut Vec<Token>)
    ensures
        views(final(out)@) == views(old(out)@) + opened(views(tokens@)),
    decreases tokens,
{
    let mut i: usize = 0;
    while i < tokens.len()
        invariant
            i <= tokens.len(),
            views(out@) == views(old(out)@) + opened_upto(views(tokens@), i as nat),
        decreases tokens.len() - i,
    {
        let ghost before = views(out@);
        proof {
            lemma_views(tokens@);
        }
        match &tokens[i] {
            Token::Group { delimiter: Delimiter::Invisible, tokens: inner, .. } => {
                open_into(inner, out);
            },
            token => {
                push_token(out, token.duplicate());
            },
        }
        assert(views(out@) == before + opened_one(views(tokens@)[i as int]));
        i += 1;
    }
    proof {
        lemma_views(tokens@);
    }
}

/// A copy of `tokens` with every group without visible brackets replaced by
/// what it holds.
pub fn open_groups(tokens: &Vec<Token>) -> (all: Vec<Token>)
    ensures
        views(all@) == opened(views(tokens@)),
{
    let mut all: Vec<Token> = Vec::new();
    proof {
        lemma_views(all@);
    }
    open_into(tokens, &mut all);
    all
}

/// A copy of `tokens` with its first token opened.
pub fn peel(tokens: &Vec<Token>) -> (all: Vec<Token>)
    ensures
        views(all@) == peeled(views(tokens@)),
{
    let mut k: usize = 0;
    assert(views(tokens@).skip(0) =~= views(tokens@));
    while k < tokens.len()
        invariant
            k <= tokens.len(),
            peeled(views(tokens@)) == peeled(views(tokens@).skip(k as int)),
        decreases tokens.len() - k,
    {
        proof {
            lemma_views(tokens@);
        }
        let mut head: Vec<Token> = Vec::new();
        proof {
            lemma_views(head@);
        }
        match &tokens[k] {
            Token::Group { delimiter: Delimiter::Invisible, tokens: inner, .. } => {
                open_into(inner, &mut head);
            },
            token => {
                push_token(&mut head, token.duplicate());
            },
        }
        assert(views(head@) == opened_one(views(tokens@)[k as int]));
        if head.len() > 0 {
            push_tokens(&mut head, duplicate_from(tokens, k + 1));
            assert(views(tokens@).skip(k as int).skip(1) == views(tokens@).skip(k + 1));
            return head;
        }
        assert(views(tokens@).skip(k as int).skip(1) == views(tokens@).skip(k + 1));
        k += 1;
    }
    proof {
        lemma_views(tokens@);
    }
    Vec::new()
}

} // verus!
