//! Diagnostics. Every failure of a generation pass is one of these values;
//! no partial output is ever produced beside one.

use vstd::prelude::*;
use vstd::string::StringExecFns;
use crate::tokens::{found_at, Tok, TokModel};

verus! {

/// An unrecognized or malformed clause in an attribute site: the token that
/// was found (`None` when the site ended early) and the alternatives that
/// were valid at that position.
#[derive(Debug)]
pub struct GrammarError {
    pub found: Option<Tok>,
    pub expected: Vec<String>,
}

/// The mathematical form of a `GrammarError`.
pub struct GrammarErrorModel {
    pub found: Option<TokModel>,
    pub expected: Seq<Seq<char>>,
}

impl DeepView for GrammarError {
    type V = GrammarErrorModel;

    open spec fn deep_view(&self) -> GrammarErrorModel {
        GrammarErrorModel {
            found: match &self.found {
                Some(t) => Some(t.deep_view()),
                None => None,
            },
            expected: self.expected.deep_view(),
        }
    }
}

/// The first failure of a generation pass, in declaration order.
#[derive(Debug)]
pub enum BuildError {
    /// An attribute site broke its grammar.
    Grammar(GrammarError),
    /// The annotated declaration is not a closed variant type.
    NotAVariantType,
    /// The type-level attribute site is missing or did not supply the name of
    /// the key type.
    MissingKeyTypeName,
    /// A unit variant was designated as the default: it has no field to carry
    /// the runtime string.
    DefaultOnUnitVariant,
    /// The default designation names a field that the variant does not have.
    UnknownCarrierField,
}

/// The mathematical form of a `BuildError`.
pub enum BuildErrorModel {
    Grammar(GrammarErrorModel),
    NotAVariantType,
    MissingKeyTypeName,
    DefaultOnUnitVariant,
    UnknownCarrierField,
}

impl DeepView for BuildError {
    type V = BuildErrorModel;

    open spec fn deep_view(&self) -> BuildErrorModel {
        match self {
            BuildError::Grammar(e) => BuildErrorModel::Grammar(e.deep_view()),
            BuildError::NotAVariantType => BuildErrorModel::NotAVariantType,
            BuildError::MissingKeyTypeName => BuildErrorModel::MissingKeyTypeName,
            BuildError::DefaultOnUnitVariant => BuildErrorModel::DefaultOnUnitVariant,
            BuildError::UnknownCarrierField => BuildErrorModel::UnknownCarrierField,
        }
    }
}

/// The diagnostic for an unrecognized clause at position `i` of a site.
pub open spec fn grammar_at(
    toks: Seq<TokModel>,
    i: int,
    expected: Seq<Seq<char>>,
) -> GrammarErrorModel {
    GrammarErrorModel { found: found_at(toks, i), expected }
}

/// A one-entry list of valid alternatives.
pub fn one_expected(a: &str) -> (r: Vec<String>)
    ensures
        r.deep_view() == seq![a@],
{
    let mut r: Vec<String> = Vec::new();
    r.push(String::from_str(a));
    proof {
        assert(r.deep_view() =~= seq![a@]);
    }
    r
}

/// A two-entry list of valid alternatives.
pub fn two_expected(a: &str, b: &str) -> (r: Vec<String>)
    ensures
        r.deep_view() == seq![a@, b@],
{
    let mut r: Vec<String> = Vec::new();
    r.push(String::from_str(a));
    r.push(String::from_str(b));
    proof {
        assert(r.deep_view() =~= seq![a@, b@]);
    }
    r
}

/// A three-entry list of valid alternatives.
pub fn three_expected(a: &str, b: &str, c: &str) -> (r: Vec<String>)
    ensures
        r.deep_view() == seq![a@, b@, c@],
{
    let mut r: Vec<String> = Vec::new();
    r.push(String::from_str(a));
    r.push(String::from_str(b));
    r.push(String::from_str(c));
    proof {
        assert(r.deep_view() =~= seq![a@, b@, c@]);
    }
    r
}

/// A four-entry list of valid alternatives.
pub fn four_expected(a: &str, b: &str, c: &str, d: &str) -> (r: Vec<String>)
    ensures
        r.deep_view() == seq![a@, b@, c@, d@],
{
    let mut r: Vec<String> = Vec::new();
    r.push(String::from_str(a));
    r.push(String::from_str(b));
    r.push(String::from_str(c));
    r.push(String::from_str(d));
    proof {
        assert(r.deep_view() =~= seq![a@, b@, c@, d@]);
    }
    r
}

} // verus!
