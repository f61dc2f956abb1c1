//! The compare-string generator: per-variant `equals`/`contains` lists, the
//! type-level switches that govern them, and the emitted matcher.

use vstd::prelude::*;
use vstd::string::StringExecFns;
use crate::decl::{FieldShape, FieldShapeModel, TypeDecl, TypeDeclModel, VariantDecl, VariantDeclModel};
use crate::errors::{
    grammar_at, one_expected, three_expected, two_expected, BuildError, BuildErrorModel,
    GrammarError, GrammarErrorModel,
};
use crate::strutil::{
    append_escaped, escaped_text, fold_of, fold_str, is_substring_of, str_contains, str_eq,
};
use crate::tokens::{skip_comma, tok_at, Tok, TokModel};

verus! {

/// The type-level switches of the compare-string generator.
///
/// `include_variant` registers each variant's own name as an implicit
/// `equals` literal; `partial_eq` asks for symmetric string-equality
/// relations beside the plain matcher; `to_lowercase` folds the case of the
/// candidate (and, consistently, of every literal) before any comparison.
#[derive(Clone, Copy, PartialEq, Eq, Structural, Debug)]
pub struct TypeAttribute {
    pub include_variant: bool,
    pub partial_eq: bool,
    pub to_lowercase: bool,
}

/// The switches that hold when the attribute site says nothing.
pub open spec fn spec_type_attr_default() -> TypeAttribute {
    TypeAttribute { include_variant: true, partial_eq: true, to_lowercase: false }
}

impl core::default::Default for TypeAttribute {
    fn default() -> (r: TypeAttribute)
        ensures
            r == spec_type_attr_default(),
    {
        TypeAttribute { include_variant: true, partial_eq: true, to_lowercase: false }
    }
}

/// The alternatives that are valid at the start of a clause of the type-level
/// compare-string grammar.
pub open spec fn type_attr_keywords() -> Seq<Seq<char>> {
    seq!["include_variant"@, "to_lowercase"@, "partial_eq"@]
}

/// A flag keyword may stand alone (meaning `true`) or be followed by
/// `= <boolean literal>`; the result is the flag's value and the position
/// after it.
pub open spec fn spec_parse_flag_value(toks: Seq<TokModel>, j: int) -> Result<
    (bool, int),
    GrammarErrorModel,
> {
    if 0 <= j < toks.len() && toks[j] is EqSign {
        if j + 1 < toks.len() && toks[j + 1] is BoolLit {
            Ok((toks[j + 1]->BoolLit_0, j + 2))
        } else {
            Err(grammar_at(toks, j + 1, seq!["a boolean literal"@]))
        }
    } else {
        Ok((true, j))
    }
}

/// The type-level compare-string grammar: a sequence of flag clauses
/// separated by optional commas, parsed greedily from position `i` with the
/// switches gathered so far in `acc`. An unknown clause fails at once and the
/// gathered record is discarded.
pub open spec fn spec_parse_type_attr(toks: Seq<TokModel>, i: int, acc: TypeAttribute) -> Result<
    TypeAttribute,
    GrammarErrorModel,
>
    decreases toks.len() - i,
{
    if i < 0 || i >= toks.len() {
        Ok(acc)
    } else {
        match toks[i] {
            TokModel::Word(w) => {
                if w == "include_variant"@ {
                    match spec_parse_flag_value(toks, i + 1) {
                        Ok(bj) => spec_parse_type_attr(
                            toks,
                            skip_comma(toks, bj.1),
                            TypeAttribute {
                                include_variant: bj.0,
                                partial_eq: acc.partial_eq,
                                to_lowercase: acc.to_lowercase,
                            },
                        ),
                        Err(e) => Err(e),
                    }
                } else if w == "to_lowercase"@ {
                    match spec_parse_flag_value(toks, i + 1) {
                        Ok(bj) => spec_parse_type_attr(
                            toks,
                            skip_comma(toks, bj.1),
                            TypeAttribute {
                                include_variant: acc.include_variant,
                                partial_eq: acc.partial_eq,
                                to_lowercase: bj.0,
                            },
                        ),
                        Err(e) => Err(e),
                    }
                } else if w == "partial_eq"@ {
                    match spec_parse_flag_value(toks, i + 1) {
                        Ok(bj) => spec_parse_type_attr(
                            toks,
                            skip_comma(toks, bj.1),
                            TypeAttribute {
                                include_variant: acc.include_variant,
                                partial_eq: bj.0,
                                to_lowercase: acc.to_lowercase,
                            },
                        ),
                        Err(e) => Err(e),
                    }
                } else {
                    Err(grammar_at(toks, i, type_attr_keywords()))
                }
            },
            _ => Err(grammar_at(toks, i, type_attr_keywords())),
        }
    }
}

/// Grammar rejection for the type-level compare-string grammar: a clause
/// that starts with anything but one of its keywords fails at once with the
/// diagnostic for that position — whatever `acc` already holds, so the
/// clauses parsed before the failure are discarded together with it.
pub proof fn lemma_type_attr_unknown_clause(toks: Seq<TokModel>, i: int, acc: TypeAttribute)
    requires
        0 <= i < toks.len(),
        match toks[i] {
            TokModel::Word(w) => w != "include_variant"@ && w != "to_lowercase"@ && w
                != "partial_eq"@,
            _ => true,
        },
    ensures
        spec_parse_type_attr(toks, i, acc) == Err::<TypeAttribute, GrammarErrorModel>(
            grammar_at(toks, i, type_attr_keywords()),
        ),
{
}

impl TypeAttribute {
    /// Parses a type-level compare-string attribute site.
    ///
    /// The result is exactly what the grammar assigns to the site: the
    /// defaults overridden clause by clause, or the first grammar error, in
    /// which case no partial record survives.
    pub fn parse(input: &Vec<Tok>) -> (r: Result<TypeAttribute, GrammarError>)
        ensures
            ({
                let sp = spec_parse_type_attr(input.deep_view(), 0, spec_type_attr_default());
                match r {
                    Ok(a) => sp == Ok::<TypeAttribute, GrammarErrorModel>(a),
                    Err(e) => sp == Err::<TypeAttribute, GrammarErrorModel>(e.deep_view()),
                }
            }),
    {
        let ghost t = input.deep_view();
        let mut acc = TypeAttribute { include_variant: true, partial_eq: true, to_lowercase: false };
        let mut i: usize = 0;
        loop
            invariant
                i <= input.len(),
                t == input.deep_view(),
                spec_parse_type_attr(t, i as int, acc) == spec_parse_type_attr(
                    t,
                    0,
                    spec_type_attr_default(),
                ),
            decreases input.len() - i,
        {
            if i >= input.len() {
                return Ok(acc);
            }
            match &input[i] {
                Tok::Word(w) => {
                    let kw_iv = str_eq(w.as_str(), "include_variant");
                    let kw_tl = !kw_iv && str_eq(w.as_str(), "to_lowercase");
                    let kw_pe = !kw_iv && !kw_tl && str_eq(w.as_str(), "partial_eq");
                    if kw_iv || kw_tl || kw_pe {
                        let mut val = true;
                        let mut j = i + 1;
                        if j < input.len() && matches!(&input[j], Tok::EqSign) {
                            if j + 1 < input.len() {
                                match &input[j + 1] {
                                    Tok::BoolLit(b) => {
                                        val = *b;
                                        j = j + 2;
                                    },
                                    _ => {
                                        return Err(
                                            GrammarError {
                                                found: tok_at(input, j + 1),
                                                expected: one_expected("a boolean literal"),
                                            },
                                        );
                                    },
                                }
                            } else {
                                return Err(
                                    GrammarError {
                                        found: None,
                                        expected: one_expected("a boolean literal"),
                                    },
                                );
                            }
                        }
                        if kw_iv {
                            acc.include_variant = val;
                        } else if kw_tl {
                            acc.to_lowercase = val;
                        } else {
                            acc.partial_eq = val;
                        }
                        if j < input.len() && matches!(&input[j], Tok::CommaSign) {
                            j = j + 1;
                        }
                        i = j;
                    } else {
                        return Err(
                            GrammarError {
                                found: tok_at(input, i),
                                expected: three_expected(
                                    "include_variant",
                                    "to_lowercase",
                                    "partial_eq",
                                ),
                            },
                        );
                    }
                },
                _ => {
                    return Err(
                        GrammarError {
                            found: tok_at(input, i),
                            expected: three_expected(
                                "include_variant",
                                "to_lowercase",
                                "partial_eq",
                            ),
                        },
                    );
                },
            }
        }
    }
}

/// The per-variant compare-string lists: literals the candidate must equal,
/// and literals it may merely contain. Both keep their written order.
#[derive(Debug)]
pub struct CompareToStrAttribute {
    pub equals: Vec<String>,
    pub contains: Vec<String>,
}

/// The mathematical form of a `CompareToStrAttribute`.
pub struct CompareAttrModel {
    pub equals: Seq<Seq<char>>,
    pub contains: Seq<Seq<char>>,
}

impl DeepView for CompareToStrAttribute {
    type V = CompareAttrModel;

    open spec fn deep_view(&self) -> CompareAttrModel {
        CompareAttrModel { equals: self.equals.deep_view(), contains: self.contains.deep_view() }
    }
}

/// The lists that hold before any clause was seen.
pub open spec fn spec_compare_attr_empty() -> CompareAttrModel {
    CompareAttrModel { equals: Seq::empty(), contains: Seq::empty() }
}

impl core::default::Default for CompareToStrAttribute {
    fn default() -> (r: CompareToStrAttribute)
        ensures
            r.deep_view() == spec_compare_attr_empty(),
    {
        let r = CompareToStrAttribute { equals: Vec::new(), contains: Vec::new() };
        proof {
            assert(r.equals.deep_view() =~= Seq::<Seq<char>>::empty());
            assert(r.contains.deep_view() =~= Seq::<Seq<char>>::empty());
        }
        r
    }
}

/// Where the cursor of the per-variant grammar stands: between clauses, or
/// inside one bracketed list with the items read so far.
pub enum CompareParseMode {
    Top,
    InList { is_equals: bool, after_item: bool, items: Seq<Seq<char>> },
}

/// The alternatives that are valid at the start of a clause of the
/// per-variant compare-string grammar.
pub open spec fn compare_attr_keywords() -> Seq<Seq<char>> {
    seq!["equals"@, "contains"@]
}

/// The alternatives that are valid where a list item may begin.
pub open spec fn list_item_expected() -> Seq<Seq<char>> {
    seq!["a string literal"@, "`]`"@]
}

/// The alternatives that are valid after a list item.
pub open spec fn list_sep_expected() -> Seq<Seq<char>> {
    seq!["`,`"@, "`]`"@]
}

/// The per-variant compare-string grammar, one token at a time: `equals` or
/// `contains`, each followed by a bracketed, comma-separated, optionally
/// trailing-comma'd list of string literals; clauses separated by optional
/// commas; a repeated clause replaces the earlier list. An unknown token
/// fails at once and the gathered record is discarded.
pub open spec fn spec_parse_compare_attr(
    toks: Seq<TokModel>,
    i: int,
    acc: CompareAttrModel,
    mode: CompareParseMode,
) -> Result<CompareAttrModel, GrammarErrorModel>
    decreases toks.len() - i,
{
    if i < 0 || i >= toks.len() {
        match mode {
            CompareParseMode::Top => Ok(acc),
            CompareParseMode::InList { after_item, .. } => Err(
                grammar_at(
                    toks,
                    i,
                    if after_item {
                        list_sep_expected()
                    } else {
                        list_item_expected()
                    },
                ),
            ),
        }
    } else {
        match mode {
            CompareParseMode::Top => match toks[i] {
                TokModel::Word(w) => {
                    if w == "equals"@ || w == "contains"@ {
                        if i + 1 < toks.len() && toks[i + 1] is OpenBracket {
                            spec_parse_compare_attr(
                                toks,
                                i + 2,
                                acc,
                                CompareParseMode::InList {
                                    is_equals: w == "equals"@,
                                    after_item: false,
                                    items: Seq::empty(),
                                },
                            )
                        } else {
                            Err(grammar_at(toks, i + 1, seq!["a bracketed list"@]))
                        }
                    } else {
                        Err(grammar_at(toks, i, compare_attr_keywords()))
                    }
                },
                _ => Err(grammar_at(toks, i, compare_attr_keywords())),
            },
            CompareParseMode::InList { is_equals, after_item, items } => {
                if toks[i] is CloseBracket {
                    let acc2 = if is_equals {
                        CompareAttrModel { equals: items, contains: acc.contains }
                    } else {
                        CompareAttrModel { equals: acc.equals, contains: items }
                    };
                    spec_parse_compare_attr(
                        toks,
                        skip_comma(toks, i + 1),
                        acc2,
                        CompareParseMode::Top,
                    )
                } else if after_item {
                    if toks[i] is CommaSign {
                        spec_parse_compare_attr(
                            toks,
                            i + 1,
                            acc,
                            CompareParseMode::InList { is_equals, after_item: false, items },
                        )
                    } else {
                        Err(grammar_at(toks, i, list_sep_expected()))
                    }
                } else {
                    if toks[i] is StrLit {
                        spec_parse_compare_attr(
                            toks,
                            i + 1,
                            acc,
                            CompareParseMode::InList {
                                is_equals,
                                after_item: true,
                                items: items.push(toks[i]->StrLit_0),
                            },
                        )
                    } else {
                        Err(grammar_at(toks, i, list_item_expected()))
                    }
                }
            },
        }
    }
}

/// Grammar rejection for the per-variant compare-string grammar: between
/// clauses, anything but `equals` or `contains` fails at once, independently
/// of the lists gathered so far.
pub proof fn lemma_compare_attr_unknown_clause(toks: Seq<TokModel>, i: int, acc: CompareAttrModel)
    requires
        0 <= i < toks.len(),
        match toks[i] {
            TokModel::Word(w) => w != "equals"@ && w != "contains"@,
            _ => true,
        },
    ensures
        spec_parse_compare_attr(toks, i, acc, CompareParseMode::Top) == Err::<
            CompareAttrModel,
            GrammarErrorModel,
        >(grammar_at(toks, i, compare_attr_keywords())),
{
}

impl CompareToStrAttribute {
    /// Parses one per-variant compare-string attribute site.
    pub fn parse(input: &Vec<Tok>) -> (r: Result<CompareToStrAttribute, GrammarError>)
        ensures
            ({
                let sp = spec_parse_compare_attr(
                    input.deep_view(),
                    0,
                    spec_compare_attr_empty(),
                    CompareParseMode::Top,
                );
                match r {
                    Ok(a) => sp == Ok::<CompareAttrModel, GrammarErrorModel>(a.deep_view()),
                    Err(e) => sp == Err::<CompareAttrModel, GrammarErrorModel>(e.deep_view()),
                }
            }),
    {
        let ghost t = input.deep_view();
        let mut equals: Vec<String> = Vec::new();
        let mut contains: Vec<String> = Vec::new();
        let mut in_list = false;
        let mut is_equals = false;
        let mut after_item = false;
        let mut items: Vec<String> = Vec::new();
        let mut i: usize = 0;
        proof {
            assert(equals.deep_view() =~= Seq::<Seq<char>>::empty());
            assert(contains.deep_view() =~= Seq::<Seq<char>>::empty());
        }
        loop
            invariant
                i <= input.len(),
                t == input.deep_view(),
                spec_parse_compare_attr(
                    t,
                    i as int,
                    CompareAttrModel { equals: equals.deep_view(), contains: contains.deep_view() },
                    if in_list {
                        CompareParseMode::InList {
                            is_equals,
                            after_item,
                            items: items.deep_view(),
                        }
                    } else {
                        CompareParseMode::Top
                    },
                ) == spec_parse_compare_attr(
                    t,
                    0,
                    spec_compare_attr_empty(),
                    CompareParseMode::Top,
                ),
            decreases input.len() - i,
        {
            if i >= input.len() {
                if in_list {
                    return Err(
                        GrammarError {
                            found: None,
                            expected: if after_item {
                                two_expected("`,`", "`]`")
                            } else {
                                two_expected("a string literal", "`]`")
                            },
                        },
                    );
                }
                return Ok(CompareToStrAttribute { equals, contains });
            }
            if !in_list {
                match &input[i] {
                    Tok::Word(w) => {
                        let k_eq = str_eq(w.as_str(), "equals");
                        let k_ct = !k_eq && str_eq(w.as_str(), "contains");
                        if k_eq || k_ct {
                            if i + 1 < input.len() && matches!(&input[i + 1], Tok::OpenBracket) {
                                in_list = true;
                                is_equals = k_eq;
                                after_item = false;
                                items = Vec::new();
                                i = i + 2;
                                proof {
                                    assert(items.deep_view() =~= Seq::<Seq<char>>::empty());
                                }
                            } else {
                                return Err(
                                    GrammarError {
                                        found: tok_at(input, i + 1),
                                        expected: one_expected("a bracketed list"),
                                    },
                                );
                            }
                        } else {
                            return Err(
                                GrammarError {
                                    found: tok_at(input, i),
                                    expected: two_expected("equals", "contains"),
                                },
                            );
                        }
                    },
                    _ => {
                        return Err(
                            GrammarError {
                                found: tok_at(input, i),
                                expected: two_expected("equals", "contains"),
                            },
                        );
                    },
                }
            } else {
                let ghost items0 = items.deep_view();
                match &input[i] {
                    Tok::CloseBracket => {
                        if is_equals {
                            equals = items;
                        } else {
                            contains = items;
                        }
                        items = Vec::new();
                        in_list = false;
                        let mut j = i + 1;
                        if j < input.len() && matches!(&input[j], Tok::CommaSign) {
                            j = j + 1;
                        }
                        i = j;
                    },
                    Tok::CommaSign => {
                        if after_item {
                            after_item = false;
                            i = i + 1;
                        } else {
                            return Err(
                                GrammarError {
                                    found: tok_at(input, i),
                                    expected: two_expected("a string literal", "`]`"),
                                },
                            );
                        }
                    },
                    Tok::StrLit(s) => {
                        if !after_item {
                            items.push(s.clone());
                            after_item = true;
                            i = i + 1;
                            proof {
                                assert(items.deep_view() =~= items0.push(s@));
                            }
                        } else {
                            return Err(
                                GrammarError {
                                    found: tok_at(input, i),
                                    expected: two_expected("`,`", "`]`"),
                                },
                            );
                        }
                    },
                    _ => {
                        return Err(
                            GrammarError {
                                found: tok_at(input, i),
                                expected: if after_item {
                                    two_expected("`,`", "`]`")
                                } else {
                                    two_expected("a string literal", "`]`")
                                },
                            },
                        );
                    },
                }
            }
        }
    }
}

/// One variant as the compare-string generator sees it: its name, the text
/// that silences its payload in an emitted match pattern, and its gathered
/// compare lists.
#[derive(Debug)]
pub struct CompareToStrVariant {
    pub name: String,
    pub fields_collection: String,
    pub attributes: CompareToStrAttribute,
}

/// The mathematical form of a `CompareToStrVariant`.
pub struct CompareVariantModel {
    pub name: Seq<char>,
    pub fields_collection: Seq<char>,
    pub attributes: CompareAttrModel,
}

impl DeepView for CompareToStrVariant {
    type V = CompareVariantModel;

    open spec fn deep_view(&self) -> CompareVariantModel {
        CompareVariantModel {
            name: self.name@,
            fields_collection: self.fields_collection@,
            attributes: self.attributes.deep_view(),
        }
    }
}

/// The pattern text that matches a variant of the given shape while ignoring
/// every field.
pub open spec fn spec_fields_collection(shape: FieldShapeModel) -> Seq<char> {
    match shape {
        FieldShapeModel::Named(_) => " { .. }"@,
        FieldShapeModel::Unnamed(_) => "(..)"@,
        FieldShapeModel::Unit => ""@,
    }
}

/// Executable counterpart of `spec_fields_collection`.
pub fn fields_collection_text(shape: &FieldShape) -> (r: String)
    ensures
        r@ == spec_fields_collection(shape.deep_view()),
{
    match shape {
        FieldShape::Named(_) => String::from_str(" { .. }"),
        FieldShape::Unnamed(_) => String::from_str("(..)"),
        FieldShape::Unit => String::from_str(""),
    }
}

/// All compare-string sites of one variant, parsed in order; the lists of
/// later sites follow those of earlier ones.
pub open spec fn spec_collect_compare(
    sites: Seq<Seq<TokModel>>,
    k: int,
    acc: CompareAttrModel,
) -> Result<CompareAttrModel, GrammarErrorModel>
    decreases sites.len() - k,
{
    if k < 0 || k >= sites.len() {
        Ok(acc)
    } else {
        match spec_parse_compare_attr(
            sites[k],
            0,
            spec_compare_attr_empty(),
            CompareParseMode::Top,
        ) {
            Ok(a) => spec_collect_compare(
                sites,
                k + 1,
                CompareAttrModel {
                    equals: acc.equals + a.equals,
                    contains: acc.contains + a.contains,
                },
            ),
            Err(e) => Err(e),
        }
    }
}

/// What the compare-string generator makes of one variant declaration.
pub open spec fn spec_compare_variant_of(vd: VariantDeclModel) -> Result<
    CompareVariantModel,
    GrammarErrorModel,
> {
    match spec_collect_compare(vd.compare_attrs, 0, spec_compare_attr_empty()) {
        Ok(a) => Ok(
            CompareVariantModel {
                name: vd.name,
                fields_collection: spec_fields_collection(vd.shape),
                attributes: a,
            },
        ),
        Err(e) => Err(e),
    }
}

impl CompareToStrVariant {
    /// Reads one variant declaration: parses each of its compare-string
    /// sites and strings their lists together in written order.
    pub fn try_from(decl: &VariantDecl) -> (r: Result<CompareToStrVariant, GrammarError>)
        ensures
            ({
                let sp = spec_compare_variant_of(decl.deep_view());
                match r {
                    Ok(v) => sp == Ok::<CompareVariantModel, GrammarErrorModel>(v.deep_view()),
                    Err(e) => sp == Err::<CompareVariantModel, GrammarErrorModel>(e.deep_view()),
                }
            }),
    {
        let ghost sites = decl.deep_view().compare_attrs;
        let mut equals: Vec<String> = Vec::new();
        let mut contains: Vec<String> = Vec::new();
        let mut k: usize = 0;
        proof {
            assert(equals.deep_view() =~= Seq::<Seq<char>>::empty());
            assert(contains.deep_view() =~= Seq::<Seq<char>>::empty());
        }
        while k < decl.compare_attrs.len()
            invariant
                k <= decl.compare_attrs.len(),
                sites == decl.deep_view().compare_attrs,
                spec_collect_compare(
                    sites,
                    k as int,
                    CompareAttrModel { equals: equals.deep_view(), contains: contains.deep_view() },
                ) == spec_collect_compare(sites, 0, spec_compare_attr_empty()),
            decreases decl.compare_attrs.len() - k,
        {
            let ghost eq0 = equals.deep_view();
            let ghost ct0 = contains.deep_view();
            let parsed = match CompareToStrAttribute::parse(&decl.compare_attrs[k]) {
                Ok(a) => a,
                Err(e) => {
                    return Err(e);
                },
            };
            let CompareToStrAttribute { equals: mut pe, contains: mut pc } = parsed;
            equals.append(&mut pe);
            contains.append(&mut pc);
            proof {
                assert(equals.deep_view() =~= eq0 + spec_collect_site(sites, k as int).equals);
                assert(contains.deep_view() =~= ct0 + spec_collect_site(sites, k as int).contains);
            }
            k = k + 1;
        }
        Ok(
            CompareToStrVariant {
                name: decl.name.clone(),
                fields_collection: fields_collection_text(&decl.shape),
                attributes: CompareToStrAttribute { equals, contains },
            },
        )
    }
}

/// The lists that site `k` contributes, where that site parses.
pub open spec fn spec_collect_site(sites: Seq<Seq<TokModel>>, k: int) -> CompareAttrModel {
    match spec_parse_compare_attr(sites[k], 0, spec_compare_attr_empty(), CompareParseMode::Top) {
        Ok(a) => a,
        Err(_) => spec_compare_attr_empty(),
    }
}

/// Case folding as the matcher applies it: the identity unless folding is
/// switched on.
pub open spec fn spec_folded(fold: bool, s: Seq<char>) -> Seq<char> {
    if fold {
        fold_of(s)
    } else {
        s
    }
}

/// The (possibly folded) candidate `c` equals some literal of the `equals`
/// list, folded the same way.
pub open spec fn spec_equals_match(fold: bool, equals: Seq<Seq<char>>, c: Seq<char>) -> bool {
    exists|k: int| 0 <= k < equals.len() && c == spec_folded(fold, #[trigger] equals[k])
}

/// The (possibly folded) candidate `c` contains some literal of the
/// `contains` list, folded the same way.
pub open spec fn spec_contains_match(fold: bool, contains: Seq<Seq<char>>, c: Seq<char>) -> bool {
    exists|k: int|
        0 <= k < contains.len() && is_substring_of(spec_folded(fold, #[trigger] contains[k]), c)
}

/// What the emitted matcher answers for a value of variant `v` against a
/// candidate string: the candidate is folded once if folding is on, the
/// `equals` list is consulted first, then the `contains` list; a variant with
/// two empty lists never matches.
pub open spec fn spec_matches_str(
    fold: bool,
    v: CompareVariantModel,
    candidate: Seq<char>,
) -> bool {
    let c = spec_folded(fold, candidate);
    spec_equals_match(fold, v.attributes.equals, c) || spec_contains_match(
        fold,
        v.attributes.contains,
        c,
    )
}

impl CompareToStrVariant {
    /// Decides, exactly as the emitted matcher arm does, whether a value of
    /// this variant compares equal to `candidate`: the `equals` literals are
    /// tried first, then the `contains` literals, with at most one case
    /// folding of the candidate.
    pub fn matches_str(&self, fold_case: bool, candidate: &str) -> (b: bool)
        ensures
            b == spec_matches_str(fold_case, self.deep_view(), candidate@),
    {
        let c: String = if fold_case {
            fold_str(candidate)
        } else {
            String::from_str(candidate)
        };
        let mut k: usize = 0;
        while k < self.attributes.equals.len()
            invariant
                k <= self.attributes.equals.len(),
                c@ == spec_folded(fold_case, candidate@),
                forall|j: int|
                    0 <= j < k ==> c@ != spec_folded(
                        fold_case,
                        #[trigger] self.attributes.equals.deep_view()[j],
                    ),
            decreases self.attributes.equals.len() - k,
        {
            let lit = &self.attributes.equals[k];
            let lv: String = if fold_case {
                fold_str(lit.as_str())
            } else {
                lit.clone()
            };
            if str_eq(c.as_str(), lv.as_str()) {
                proof {
                    let ghost eqs = self.attributes.equals.deep_view();
                    assert(c@ == spec_folded(fold_case, eqs[k as int]));
                    assert(spec_equals_match(fold_case, eqs, c@));
                }
                return true;
            }
            k = k + 1;
        }
        let mut k: usize = 0;
        while k < self.attributes.contains.len()
            invariant
                k <= self.attributes.contains.len(),
                c@ == spec_folded(fold_case, candidate@),
                !spec_equals_match(fold_case, self.attributes.deep_view().equals, c@),
                forall|j: int|
                    0 <= j < k ==> !is_substring_of(
                        spec_folded(fold_case, #[trigger] self.attributes.contains.deep_view()[j]),
                        c@,
                    ),
            decreases self.attributes.contains.len() - k,
        {
            let lit = &self.attributes.contains[k];
            let lv: String = if fold_case {
                fold_str(lit.as_str())
            } else {
                lit.clone()
            };
            if str_contains(c.as_str(), lv.as_str()) {
                proof {
                    let ghost cts = self.attributes.contains.deep_view();
                    assert(is_substring_of(spec_folded(fold_case, cts[k as int]), c@));
                    assert(spec_contains_match(fold_case, cts, c@));
                }
                return true;
            }
            k = k + 1;
        }
        false
    }
}

/// What the emitted `equals_str` answers: the arm of the variant the value
/// carries, applied to the candidate. This is the single entry point of the
/// emitted comparison logic.
pub fn equals_str(
    type_attr: &TypeAttribute,
    variants: &Vec<CompareToStrVariant>,
    selected: usize,
    candidate: &str,
) -> (b: bool)
    requires
        selected < variants.len(),
    ensures
        b == spec_matches_str(
            type_attr.to_lowercase,
            variants.deep_view()[selected as int],
            candidate@,
        ),
{
    variants[selected].matches_str(type_attr.to_lowercase, candidate)
}

/// `pre` extended with the emitted double-quoted literal for `lit`, folded
/// when folding is on (so that the emitted comparison agrees with the folded
/// candidate).
pub open spec fn spec_lit_text_app(pre: Seq<char>, fold: bool, lit: Seq<char>) -> Seq<char> {
    let a = pre + "\""@;
    let b = a + escaped_text(spec_folded(fold, lit));
    b + "\""@
}

/// Appends the emitted double-quoted literal for `lit` to `out`.
pub fn append_lit_text(out: &mut String, fold: bool, lit: &str)
    ensures
        final(out)@ == spec_lit_text_app(old(out)@, fold, lit@),
{
    out.append("\"");
    if fold {
        let f = fold_str(lit);
        append_escaped(out, f.as_str());
    } else {
        append_escaped(out, lit);
    }
    out.append("\"");
}

/// `pre` extended with the `equals` comparisons from position `k` on, each
/// written `other == "..."` and joined by `||`.
pub open spec fn spec_eq_chain_app(
    pre: Seq<char>,
    fold: bool,
    equals: Seq<Seq<char>>,
    k: int,
) -> Seq<char>
    decreases equals.len() - k,
{
    if k < 0 || k >= equals.len() {
        pre
    } else {
        let piece = if k == 0 {
            "other == "@
        } else {
            " || other == "@
        };
        spec_eq_chain_app(spec_lit_text_app(pre + piece, fold, equals[k]), fold, equals, k + 1)
    }
}

/// `pre` extended with the `contains` tests from position `k` on, each
/// written `other.contains("...")` and joined by `||`; `lead` says whether a
/// joining `||` must come before the first of them.
pub open spec fn spec_ct_chain_app(
    pre: Seq<char>,
    fold: bool,
    lead: bool,
    contains: Seq<Seq<char>>,
    k: int,
) -> Seq<char>
    decreases contains.len() - k,
{
    if k < 0 || k >= contains.len() {
        pre
    } else {
        let piece = if k == 0 && !lead {
            "other.contains("@
        } else {
            " || other.contains("@
        };
        spec_ct_chain_app(
            spec_lit_text_app(pre + piece, fold, contains[k]) + ")"@,
            fold,
            lead,
            contains,
            k + 1,
        )
    }
}

/// `pre` extended with the emitted match arm for variant `v`: its `equals`
/// comparisons first, then its `contains` tests, or `false` where both lists
/// are empty (such a variant can never match a string).
pub open spec fn spec_compare_arm_app(pre: Seq<char>, fold: bool, v: CompareVariantModel) -> Seq<
    char,
> {
    let h1 = pre + "            Self::"@;
    let h2 = h1 + v.name;
    let h3 = h2 + v.fields_collection;
    let h4 = h3 + " => "@;
    let eq = v.attributes.equals;
    let ct = v.attributes.contains;
    let body = if eq.len() == 0 && ct.len() == 0 {
        h4 + "false"@
    } else {
        spec_ct_chain_app(spec_eq_chain_app(h4, fold, eq, 0), fold, eq.len() > 0, ct, 0)
    };
    body + ",\n"@
}

impl CompareToStrVariant {
    /// Appends this variant's emitted match arm to `out`.
    pub fn to_tokens(&self, fold_case: bool, out: &mut String)
        ensures
            final(out)@ == spec_compare_arm_app(old(out)@, fold_case, self.deep_view()),
    {
        out.append("            Self::");
        out.append(self.name.as_str());
        out.append(self.fields_collection.as_str());
        out.append(" => ");
        let ghost eqs = self.attributes.equals.deep_view();
        let ghost cts = self.attributes.contains.deep_view();
        if self.attributes.equals.len() == 0 && self.attributes.contains.len() == 0 {
            out.append("false");
        } else {
            let ghost h4 = out@;
            let mut k: usize = 0;
            while k < self.attributes.equals.len()
                invariant
                    k <= self.attributes.equals.len(),
                    eqs == self.attributes.equals.deep_view(),
                    spec_eq_chain_app(out@, fold_case, eqs, k as int) == spec_eq_chain_app(
                        h4,
                        fold_case,
                        eqs,
                        0,
                    ),
                decreases self.attributes.equals.len() - k,
            {
                if k == 0 {
                    out.append("other == ");
                } else {
                    out.append(" || other == ");
                }
                append_lit_text(out, fold_case, self.attributes.equals[k].as_str());
                k = k + 1;
            }
            let ghost mid = out@;
            let lead = self.attributes.equals.len() > 0;
            let mut k: usize = 0;
            while k < self.attributes.contains.len()
                invariant
                    k <= self.attributes.contains.len(),
                    cts == self.attributes.contains.deep_view(),
                    spec_ct_chain_app(out@, fold_case, lead, cts, k as int) == spec_ct_chain_app(
                        mid,
                        fold_case,
                        lead,
                        cts,
                        0,
                    ),
                decreases self.attributes.contains.len() - k,
            {
                if k == 0 && !lead {
                    out.append("other.contains(");
                } else {
                    out.append(" || other.contains(");
                }
                append_lit_text(out, fold_case, self.attributes.contains[k].as_str());
                out.append(")");
                k = k + 1;
            }
        }
        out.append(",\n");
    }
}

/// `pre` extended with the emitted match arms of the variants from position
/// `k` on, in declaration order.
pub open spec fn spec_arms_app(
    pre: Seq<char>,
    fold: bool,
    vs: Seq<CompareVariantModel>,
    k: int,
) -> Seq<char>
    decreases vs.len() - k,
{
    if k < 0 || k >= vs.len() {
        pre
    } else {
        spec_arms_app(spec_compare_arm_app(pre, fold, vs[k]), fold, vs, k + 1)
    }
}

/// Appends every variant's emitted match arm to `out`.
pub fn emit_arms(out: &mut String, fold: bool, vs: &Vec<CompareToStrVariant>)
    ensures
        final(out)@ == spec_arms_app(old(out)@, fold, vs.deep_view(), 0),
{
    let ghost vsd = vs.deep_view();
    let ghost pre = out@;
    let mut k: usize = 0;
    while k < vs.len()
        invariant
            k <= vs.len(),
            vsd == vs.deep_view(),
            spec_arms_app(out@, fold, vsd, k as int) == spec_arms_app(pre, fold, vsd, 0),
        decreases vs.len() - k,
    {
        vs[k].to_tokens(fold, out);
        k = k + 1;
    }
}

/// A variant with its own name registered as one more `equals` literal, as
/// the `include_variant` switch asks.
pub open spec fn spec_register_name(v: CompareVariantModel) -> CompareVariantModel {
    CompareVariantModel {
        name: v.name,
        fields_collection: v.fields_collection,
        attributes: CompareAttrModel {
            equals: v.attributes.equals.push(v.name),
            contains: v.attributes.contains,
        },
    }
}

/// The compare-string records of all variants from position `k` on, with
/// names auto-registered when `include_variant` holds, or the first grammar
/// error in declaration order.
pub open spec fn spec_build_compare_variants(
    vds: Seq<VariantDeclModel>,
    k: int,
    include_variant: bool,
    acc: Seq<CompareVariantModel>,
) -> Result<Seq<CompareVariantModel>, GrammarErrorModel>
    decreases vds.len() - k,
{
    if k < 0 || k >= vds.len() {
        Ok(acc)
    } else {
        match spec_compare_variant_of(vds[k]) {
            Ok(v) => spec_build_compare_variants(
                vds,
                k + 1,
                include_variant,
                acc.push(
                    if include_variant {
                        spec_register_name(v)
                    } else {
                        v
                    },
                ),
            ),
            Err(e) => Err(e),
        }
    }
}

/// `pre` extended with the whole emitted compare-string source: the
/// `equals_str` method, and, when `partial_eq` is on, the symmetric
/// string-equality relations that delegate to it.
pub open spec fn spec_compare_source_app(
    pre: Seq<char>,
    name: Seq<char>,
    ta: TypeAttribute,
    vs: Seq<CompareVariantModel>,
) -> Seq<char> {
    let s1 = pre + "impl "@;
    let s2 = s1 + name;
    let s3 = s2
        + " {\n    /// Compares an enum variant to a str\n    pub fn equals_str(&self, other: impl core::convert::AsRef<str>) -> bool {\n        let other = other.as_ref();\n"@;
    let s4 = if ta.to_lowercase {
        s3 + "        let other = other.to_lowercase();\n"@
    } else {
        s3
    };
    let s5 = s4 + "        match self {\n"@;
    let s6 = spec_arms_app(s5, ta.to_lowercase, vs, 0);
    let s7 = s6 + "        }\n    }\n}\n"@;
    if ta.partial_eq {
        let p1 = s7 + "impl core::cmp::PartialEq<str> for "@;
        let p2 = p1 + name;
        let p3 = p2
            + " {\n    fn eq(&self, other: &str) -> bool {\n        self.equals_str(other)\n    }\n}\nimpl core::cmp::PartialEq<&str> for "@;
        let p4 = p3 + name;
        let p5 = p4
            + " {\n    fn eq(&self, other: &&str) -> bool {\n        self.equals_str(*other)\n    }\n}\nimpl core::cmp::PartialEq<"@;
        let p6 = p5 + name;
        let p7 = p6 + "> for str {\n    fn eq(&self, other: &"@;
        let p8 = p7 + name;
        let p9 = p8
            + ") -> bool {\n        other.equals_str(self)\n    }\n}\nimpl core::cmp::PartialEq<"@;
        let p10 = p9 + name;
        let p11 = p10 + "> for &str {\n    fn eq(&self, other: &"@;
        let p12 = p11 + name;
        p12 + ") -> bool {\n        other.equals_str(*self)\n    }\n}\n"@
    } else {
        s7
    }
}

/// The switches the type-level site assigns, or the defaults where there is
/// no site.
pub open spec fn spec_type_attr_of(d: TypeDeclModel) -> Result<TypeAttribute, GrammarErrorModel> {
    match d.compare_attr {
        None => Ok(spec_type_attr_default()),
        Some(site) => spec_parse_type_attr(site, 0, spec_type_attr_default()),
    }
}

/// What the compare-string generator emits for a declaration, or the first
/// diagnostic: a non-variant type is rejected outright, then the type-level
/// site is parsed, then each variant's sites in declaration order.
pub open spec fn spec_expand_compare(d: TypeDeclModel) -> Result<Seq<char>, BuildErrorModel> {
    if !d.is_enum {
        Err(BuildErrorModel::NotAVariantType)
    } else {
        match spec_type_attr_of(d) {
            Err(e) => Err(BuildErrorModel::Grammar(e)),
            Ok(ta) => match spec_build_compare_variants(
                d.variants,
                0,
                ta.include_variant,
                Seq::empty(),
            ) {
                Err(e) => Err(BuildErrorModel::Grammar(e)),
                Ok(vs) => Ok(spec_compare_source_app(Seq::<char>::empty(), d.name, ta, vs)),
            },
        }
    }
}

/// Runs the compare-string generator on one annotated declaration and
/// returns the emitted source, or the first diagnostic with nothing emitted.
pub fn expand(decl: &TypeDecl) -> (r: Result<String, BuildError>)
    ensures
        ({
            let sp = spec_expand_compare(decl.deep_view());
            match r {
                Ok(s) => sp == Ok::<Seq<char>, BuildErrorModel>(s@),
                Err(e) => sp == Err::<Seq<char>, BuildErrorModel>(e.deep_view()),
            }
        }),
{
    if !decl.is_enum {
        return Err(BuildError::NotAVariantType);
    }
    let ta = match &decl.compare_attr {
        None => TypeAttribute { include_variant: true, partial_eq: true, to_lowercase: false },
        Some(site) => match TypeAttribute::parse(site) {
            Ok(a) => a,
            Err(e) => {
                return Err(BuildError::Grammar(e));
            },
        },
    };
    let ghost vds = decl.deep_view().variants;
    let mut vs: Vec<CompareToStrVariant> = Vec::new();
    let mut k: usize = 0;
    proof {
        assert(vs.deep_view() =~= Seq::<CompareVariantModel>::empty());
    }
    while k < decl.variants.len()
        invariant
            k <= decl.variants.len(),
            vds == decl.deep_view().variants,
            decl.deep_view().is_enum,
            spec_type_attr_of(decl.deep_view()) == Ok::<TypeAttribute, GrammarErrorModel>(ta),
            spec_build_compare_variants(vds, k as int, ta.include_variant, vs.deep_view())
                == spec_build_compare_variants(vds, 0, ta.include_variant, Seq::empty()),
        decreases decl.variants.len() - k,
    {
        let ghost vs0 = vs.deep_view();
        let mut v = match CompareToStrVariant::try_from(&decl.variants[k]) {
            Ok(v) => v,
            Err(e) => {
                return Err(BuildError::Grammar(e));
            },
        };
        if ta.include_variant {
            let ghost e0 = v.attributes.equals.deep_view();
            let name_copy = v.name.clone();
            v.attributes.equals.push(name_copy);
            proof {
                assert(v.attributes.equals.deep_view() =~= e0.push(v.name@));
            }
        }
        let ghost vview = v.deep_view();
        vs.push(v);
        proof {
            assert(vs.deep_view() =~= vs0.push(vview));
        }
        k = k + 1;
    }
    let mut out = String::new();
    out.append("impl ");
    out.append(decl.name.as_str());
    out.append(
        " {\n    /// Compares an enum variant to a str\n    pub fn equals_str(&self, other: impl core::convert::AsRef<str>) -> bool {\n        let other = other.as_ref();\n",
    );
    if ta.to_lowercase {
        out.append("        let other = other.to_lowercase();\n");
    }
    out.append("        match self {\n");
    emit_arms(&mut out, ta.to_lowercase, &vs);
    out.append("        }\n    }\n}\n");
    if ta.partial_eq {
        out.append("impl core::cmp::PartialEq<str> for ");
        out.append(decl.name.as_str());
        out.append(
            " {\n    fn eq(&self, other: &str) -> bool {\n        self.equals_str(other)\n    }\n}\nimpl core::cmp::PartialEq<&str> for ",
        );
        out.append(decl.name.as_str());
        out.append(
            " {\n    fn eq(&self, other: &&str) -> bool {\n        self.equals_str(*other)\n    }\n}\nimpl core::cmp::PartialEq<",
        );
        out.append(decl.name.as_str());
        out.append("> for str {\n    fn eq(&self, other: &");
        out.append(decl.name.as_str());
        out.append(
            ") -> bool {\n        other.equals_str(self)\n    }\n}\nimpl core::cmp::PartialEq<",
        );
        out.append(decl.name.as_str());
        out.append("> for &str {\n    fn eq(&self, other: &");
        out.append(decl.name.as_str());
        out.append(") -> bool {\n        other.equals_str(*self)\n    }\n}\n");
    }
    Ok(out)
}

} // verus!
