//! The token alphabet of the attribute grammars.
//!
//! An attribute site reaches the crate as a flat sequence of these tokens.
//! Bracketed and parenthesized groups are flattened into open/close delimiter
//! tokens; each grammar nests at most one level, so a flat cursor suffices.

use vstd::prelude::*;

verus! {

/// One raw token of an attribute site.
#[derive(Debug)]
pub enum Tok {
    /// An identifier or path, carried as its text (for example `equals`,
    /// `self::Keys`).
    Word(String),
    /// A string literal, carried as its unquoted, unescaped contents.
    StrLit(String),
    /// A `true` or `false` literal.
    BoolLit(bool),
    /// The `=` sign.
    EqSign,
    /// The `,` separator.
    CommaSign,
    /// The opening `[` of a bracketed list.
    OpenBracket,
    /// The closing `]` of a bracketed list.
    CloseBracket,
    /// The opening `(` of a parenthesized group.
    OpenParen,
    /// The closing `)` of a parenthesized group.
    CloseParen,
}

/// The mathematical form of a token: text is a sequence of characters.
pub enum TokModel {
    Word(Seq<char>),
    StrLit(Seq<char>),
    BoolLit(bool),
    EqSign,
    CommaSign,
    OpenBracket,
    CloseBracket,
    OpenParen,
    CloseParen,
}

impl DeepView for Tok {
    type V = TokModel;

    open spec fn deep_view(&self) -> TokModel {
        match self {
            Tok::Word(s) => TokModel::Word(s@),
            Tok::StrLit(s) => TokModel::StrLit(s@),
            Tok::BoolLit(b) => TokModel::BoolLit(*b),
            Tok::EqSign => TokModel::EqSign,
            Tok::CommaSign => TokModel::CommaSign,
            Tok::OpenBracket => TokModel::OpenBracket,
            Tok::CloseBracket => TokModel::CloseBracket,
            Tok::OpenParen => TokModel::OpenParen,
            Tok::CloseParen => TokModel::CloseParen,
        }
    }
}

impl Tok {
    /// A copy of this token with the same contents.
    pub fn dup(&self) -> (t: Tok)
        ensures
            t.deep_view() == self.deep_view(),
    {
        match self {
            Tok::Word(s) => Tok::Word(s.clone()),
            Tok::StrLit(s) => Tok::StrLit(s.clone()),
            Tok::BoolLit(b) => Tok::BoolLit(*b),
            Tok::EqSign => Tok::EqSign,
            Tok::CommaSign => Tok::CommaSign,
            Tok::OpenBracket => Tok::OpenBracket,
            Tok::CloseBracket => Tok::CloseBracket,
            Tok::OpenParen => Tok::OpenParen,
            Tok::CloseParen => Tok::CloseParen,
        }
    }
}

/// The token standing at position `i`, or nothing when the site ends before
/// it. This is what a diagnostic reports as the offending token.
pub open spec fn found_at(toks: Seq<TokModel>, i: int) -> Option<TokModel> {
    if 0 <= i < toks.len() {
        Some(toks[i])
    } else {
        None
    }
}

/// Executable counterpart of `found_at`.
pub fn tok_at(input: &Vec<Tok>, i: usize) -> (r: Option<Tok>)
    ensures
        r.deep_view() == found_at(input.deep_view(), i as int),
{
    if i < input.len() {
        Some(input[i].dup())
    } else {
        None
    }
}

/// Every clause of every attribute grammar may be followed by one optional
/// comma; this is the position after it.
pub open spec fn skip_comma(toks: Seq<TokModel>, i: int) -> int {
    if 0 <= i < toks.len() && toks[i] is CommaSign {
        i + 1
    } else {
        i
    }
}

} // verus!
