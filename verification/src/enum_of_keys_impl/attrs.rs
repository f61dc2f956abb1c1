//! The attribute grammars of the key-type generator: the type-level site
//! that names the key type and picks its options, the variant-level site
//! that designates the default carrier, and the pass-through attributes.

use vstd::prelude::*;
use vstd::string::StringExecFns;
use crate::errors::{
    grammar_at, four_expected, one_expected, BuildError, BuildErrorModel, GrammarError,
    GrammarErrorModel,
};
use crate::simple_serde::{
    spec_apply_serde_word, spec_serde_default, DeserializeMethod, SerdeSettings,
};
use crate::strutil::str_eq;
use crate::tokens::{skip_comma, tok_at, Tok, TokModel};

verus! {

/// A pass-through attribute destined for the generated key type, carried as
/// the raw text between its brackets.
#[derive(Debug)]
pub struct InnerAttribute {
    pub meta: String,
}

impl DeepView for InnerAttribute {
    type V = Seq<char>;

    open spec fn deep_view(&self) -> Seq<char> {
        self.meta@
    }
}

/// `pre` extended with one emitted pass-through attribute line.
pub open spec fn spec_inner_attr_app(pre: Seq<char>, meta: Seq<char>) -> Seq<char> {
    let a = pre + "#["@;
    let b = a + meta;
    b + "]\n"@
}

impl InnerAttribute {
    /// Wraps the raw text of one pass-through site.
    pub fn parse(meta: String) -> (r: InnerAttribute)
        ensures
            r.deep_view() == meta@,
    {
        InnerAttribute { meta }
    }

    /// Appends this attribute, re-bracketed, to `out`.
    pub fn to_tokens(&self, out: &mut String)
        ensures
            final(out)@ == spec_inner_attr_app(old(out)@, self.meta@),
    {
        out.append("#[");
        out.append(self.meta.as_str());
        out.append("]\n");
    }
}

/// The default designation of one variant: which field carries the runtime
/// string, and, once the model builder has seen the field shape, the pattern
/// text that unwraps it.
#[derive(Debug)]
pub struct DefaultValue {
    pub key_name: String,
    pub unwrap_variant: Option<String>,
}

/// The mathematical form of a `DefaultValue`.
pub struct DefaultValueModel {
    pub key_name: Seq<char>,
    pub unwrap_variant: Option<Seq<char>>,
}

impl DeepView for DefaultValue {
    type V = DefaultValueModel;

    open spec fn deep_view(&self) -> DefaultValueModel {
        DefaultValueModel {
            key_name: self.key_name@,
            unwrap_variant: match &self.unwrap_variant {
                Some(s) => Some(s@),
                None => None,
            },
        }
    }
}

/// The variant-level site: at most a default designation.
#[derive(Debug)]
pub struct VariantAttribute {
    pub default: Option<DefaultValue>,
}

/// The mathematical form of a `VariantAttribute`.
pub struct VariantAttrModel {
    pub default: Option<DefaultValueModel>,
}

impl DeepView for VariantAttribute {
    type V = VariantAttrModel;

    open spec fn deep_view(&self) -> VariantAttrModel {
        VariantAttrModel {
            default: match &self.default {
                Some(d) => Some(d.deep_view()),
                None => None,
            },
        }
    }
}

/// The variant-level grammar: `default`, optionally `= <field name>`,
/// clauses separated by optional commas; a later clause replaces an earlier
/// one. The designation without a name carries the field named `value`.
pub open spec fn spec_parse_variant_attr(
    toks: Seq<TokModel>,
    i: int,
    acc: Option<DefaultValueModel>,
) -> Result<Option<DefaultValueModel>, GrammarErrorModel>
    decreases toks.len() - i,
{
    if i < 0 || i >= toks.len() {
        Ok(acc)
    } else {
        match toks[i] {
            TokModel::Word(w) => {
                if w == "default"@ {
                    if i + 1 < toks.len() && toks[i + 1] is EqSign {
                        if i + 2 < toks.len() && toks[i + 2] is Word {
                            spec_parse_variant_attr(
                                toks,
                                skip_comma(toks, i + 3),
                                Some(
                                    DefaultValueModel {
                                        key_name: toks[i + 2]->Word_0,
                                        unwrap_variant: None,
                                    },
                                ),
                            )
                        } else {
                            Err(grammar_at(toks, i + 2, seq!["an identifier"@]))
                        }
                    } else {
                        spec_parse_variant_attr(
                            toks,
                            skip_comma(toks, i + 1),
                            Some(DefaultValueModel { key_name: "value"@, unwrap_variant: None }),
                        )
                    }
                } else {
                    Err(grammar_at(toks, i, seq!["default"@]))
                }
            },
            _ => Err(grammar_at(toks, i, seq!["default"@])),
        }
    }
}

/// Grammar rejection for the variant-level grammar: a clause that does not
/// start with `default` fails at once, independently of the designation
/// gathered so far.
pub proof fn lemma_variant_attr_unknown_clause(
    toks: Seq<TokModel>,
    i: int,
    acc: Option<DefaultValueModel>,
)
    requires
        0 <= i < toks.len(),
        match toks[i] {
            TokModel::Word(w) => w != "default"@,
            _ => true,
        },
    ensures
        spec_parse_variant_attr(toks, i, acc) == Err::<Option<DefaultValueModel>, GrammarErrorModel>(
            grammar_at(toks, i, seq!["default"@]),
        ),
{
}

impl VariantAttribute {
    /// Parses one variant-level site.
    pub fn parse(input: &Vec<Tok>) -> (r: Result<VariantAttribute, GrammarError>)
        ensures
            ({
                let sp = spec_parse_variant_attr(input.deep_view(), 0, None);
                match r {
                    Ok(a) => sp == Ok::<Option<DefaultValueModel>, GrammarErrorModel>(
                        a.deep_view().default,
                    ),
                    Err(e) => sp == Err::<Option<DefaultValueModel>, GrammarErrorModel>(
                        e.deep_view(),
                    ),
                }
            }),
    {
        let ghost t = input.deep_view();
        let mut default: Option<DefaultValue> = None;
        let mut i: usize = 0;
        loop
            invariant
                i <= input.len(),
                t == input.deep_view(),
                spec_parse_variant_attr(
                    t,
                    i as int,
                    match default {
                        Some(d) => Some(d.deep_view()),
                        None => None,
                    },
                ) == spec_parse_variant_attr(t, 0, None),
            decreases input.len() - i,
        {
            if i >= input.len() {
                return Ok(VariantAttribute { default });
            }
            match &input[i] {
                Tok::Word(w) => {
                    if str_eq(w.as_str(), "default") {
                        let mut j = i + 1;
                        if j < input.len() && matches!(&input[j], Tok::EqSign) {
                            if j + 1 < input.len() {
                                match &input[j + 1] {
                                    Tok::Word(field) => {
                                        default = Some(
                                            DefaultValue {
                                                key_name: field.clone(),
                                                unwrap_variant: None,
                                            },
                                        );
                                        j = j + 2;
                                    },
                                    _ => {
                                        return Err(
                                            GrammarError {
                                                found: tok_at(input, j + 1),
                                                expected: one_expected("an identifier"),
                                            },
                                        );
                                    },
                                }
                            } else {
                                return Err(
                                    GrammarError {
                                        found: None,
                                        expected: one_expected("an identifier"),
                                    },
                                );
                            }
                        } else {
                            default = Some(
                                DefaultValue {
                                    key_name: String::from_str("value"),
                                    unwrap_variant: None,
                                },
                            );
                        }
                        if j < input.len() && matches!(&input[j], Tok::CommaSign) {
                            j = j + 1;
                        }
                        i = j;
                    } else {
                        return Err(
                            GrammarError {
                                found: tok_at(input, i),
                                expected: one_expected("default"),
                            },
                        );
                    }
                },
                _ => {
                    return Err(
                        GrammarError { found: tok_at(input, i), expected: one_expected("default") },
                    );
                },
            }
        }
    }
}

/// The type-level site of the key-type generator: the key type's name first,
/// then option clauses.
#[derive(Debug)]
pub struct EnumOfKeysAttribute {
    /// The name of the key type; the one clause that must be present.
    pub name: String,
    /// Store the default variant's value behind copy-on-write storage.
    pub store_default_in_cow: bool,
    /// Derive the common comparison and cloning traits for the key type.
    pub impl_common_traits: bool,
    /// Emit string-codec logic for the key type with these settings.
    pub serde: Option<SerdeSettings>,
    /// Derive the string-enumeration helper traits for the key type.
    pub impl_strum: bool,
}

/// The mathematical form of an `EnumOfKeysAttribute`.
pub struct EnumOfKeysAttrModel {
    pub name: Seq<char>,
    pub store_default_in_cow: bool,
    pub impl_common_traits: bool,
    pub serde: Option<SerdeSettings>,
    pub impl_strum: bool,
}

impl DeepView for EnumOfKeysAttribute {
    type V = EnumOfKeysAttrModel;

    open spec fn deep_view(&self) -> EnumOfKeysAttrModel {
        EnumOfKeysAttrModel {
            name: self.name@,
            store_default_in_cow: self.store_default_in_cow,
            impl_common_traits: self.impl_common_traits,
            serde: self.serde,
            impl_strum: self.impl_strum,
        }
    }
}

/// Where the cursor of the type-level grammar stands: between clauses, or
/// inside the parenthesized codec settings gathered so far.
pub enum KeysParseMode {
    Top,
    InSerde(SerdeSettings),
}

/// The alternatives that are valid at the start of a clause of the
/// type-level key grammar.
pub open spec fn keys_keywords() -> Seq<Seq<char>> {
    seq!["default_in_cow"@, "impl_common_traits"@, "serde"@, "impl_strum"@]
}

/// The alternatives that are valid inside the parenthesized codec settings.
pub open spec fn serde_group_expected() -> Seq<Seq<char>> {
    seq!["as_ref"@, "from_str"@, "try_from_string"@, "`)`"@]
}

/// The record before any option clause was seen.
pub open spec fn spec_keys_init(name: Seq<char>) -> EnumOfKeysAttrModel {
    EnumOfKeysAttrModel {
        name,
        store_default_in_cow: false,
        impl_common_traits: false,
        serde: None,
        impl_strum: false,
    }
}

/// The fixup applied once the whole site is read: the string-enumeration
/// helpers give the key type a cheap string reference, so codec settings, if
/// any, then serialize through it.
pub open spec fn spec_keys_finish(acc: EnumOfKeysAttrModel) -> EnumOfKeysAttrModel {
    if acc.impl_strum && acc.serde is Some {
        EnumOfKeysAttrModel {
            name: acc.name,
            store_default_in_cow: acc.store_default_in_cow,
            impl_common_traits: acc.impl_common_traits,
            serde: Some(
                SerdeSettings {
                    has_as_ref_str: true,
                    deserialize_method: acc.serde->0.deserialize_method,
                },
            ),
            impl_strum: acc.impl_strum,
        }
    } else {
        acc
    }
}

/// The option clauses of the type-level key grammar, one token at a time:
/// flag keywords, and `serde` followed by a comma (defaults) or by
/// parenthesized codec settings; clauses separated by optional commas.
pub open spec fn spec_parse_keys_step(
    toks: Seq<TokModel>,
    i: int,
    acc: EnumOfKeysAttrModel,
    mode: KeysParseMode,
) -> Result<EnumOfKeysAttrModel, GrammarErrorModel>
    decreases toks.len() - i,
{
    if i < 0 || i >= toks.len() {
        match mode {
            KeysParseMode::Top => Ok(spec_keys_finish(acc)),
            KeysParseMode::InSerde(_) => Err(grammar_at(toks, i, serde_group_expected())),
        }
    } else {
        match mode {
            KeysParseMode::Top => match toks[i] {
                TokModel::Word(w) => {
                    if w == "default_in_cow"@ {
                        spec_parse_keys_step(
                            toks,
                            skip_comma(toks, i + 1),
                            EnumOfKeysAttrModel { store_default_in_cow: true, ..acc },
                            KeysParseMode::Top,
                        )
                    } else if w == "impl_common_traits"@ {
                        spec_parse_keys_step(
                            toks,
                            skip_comma(toks, i + 1),
                            EnumOfKeysAttrModel { impl_common_traits: true, ..acc },
                            KeysParseMode::Top,
                        )
                    } else if w == "impl_strum"@ {
                        spec_parse_keys_step(
                            toks,
                            skip_comma(toks, i + 1),
                            EnumOfKeysAttrModel { impl_strum: true, ..acc },
                            KeysParseMode::Top,
                        )
                    } else if w == "serde"@ {
                        if i + 1 < toks.len() && toks[i + 1] is CommaSign {
                            spec_parse_keys_step(
                                toks,
                                i + 2,
                                EnumOfKeysAttrModel { serde: Some(spec_serde_default()), ..acc },
                                KeysParseMode::Top,
                            )
                        } else if i + 1 < toks.len() && toks[i + 1] is OpenParen {
                            spec_parse_keys_step(
                                toks,
                                i + 2,
                                acc,
                                KeysParseMode::InSerde(spec_serde_default()),
                            )
                        } else {
                            Err(grammar_at(toks, i + 1, seq!["`(`"@]))
                        }
                    } else {
                        Err(grammar_at(toks, i, keys_keywords()))
                    }
                },
                _ => Err(grammar_at(toks, i, keys_keywords())),
            },
            KeysParseMode::InSerde(s) => match toks[i] {
                TokModel::CloseParen => spec_parse_keys_step(
                    toks,
                    skip_comma(toks, i + 1),
                    EnumOfKeysAttrModel { serde: Some(s), ..acc },
                    KeysParseMode::Top,
                ),
                TokModel::Word(w) => match spec_apply_serde_word(s, w) {
                    Some(s2) => spec_parse_keys_step(
                        toks,
                        skip_comma(toks, i + 1),
                        acc,
                        KeysParseMode::InSerde(s2),
                    ),
                    None => Err(grammar_at(toks, i, serde_group_expected())),
                },
                _ => Err(grammar_at(toks, i, serde_group_expected())),
            },
        }
    }
}

/// The whole type-level site: the key type's name, which must come first,
/// then the option clauses. A site that does not begin with a name is the
/// missing-key-type-name failure, not a mere grammar error.
pub open spec fn spec_parse_enum_of_keys(toks: Seq<TokModel>) -> Result<
    EnumOfKeysAttrModel,
    BuildErrorModel,
> {
    if toks.len() == 0 || !(toks[0] is Word) {
        Err(BuildErrorModel::MissingKeyTypeName)
    } else {
        match spec_parse_keys_step(
            toks,
            skip_comma(toks, 1),
            spec_keys_init(toks[0]->Word_0),
            KeysParseMode::Top,
        ) {
            Ok(a) => Ok(a),
            Err(e) => Err(BuildErrorModel::Grammar(e)),
        }
    }
}

/// Grammar rejection for the type-level key grammar: between clauses,
/// anything but one of its keywords fails at once, independently of the
/// options gathered so far.
pub proof fn lemma_keys_unknown_clause(toks: Seq<TokModel>, i: int, acc: EnumOfKeysAttrModel)
    requires
        0 <= i < toks.len(),
        match toks[i] {
            TokModel::Word(w) => w != "default_in_cow"@ && w != "impl_common_traits"@ && w
                != "serde"@ && w != "impl_strum"@,
            _ => true,
        },
    ensures
        spec_parse_keys_step(toks, i, acc, KeysParseMode::Top) == Err::<
            EnumOfKeysAttrModel,
            GrammarErrorModel,
        >(grammar_at(toks, i, keys_keywords())),
{
}

impl EnumOfKeysAttribute {
    /// Parses the type-level key site.
    pub fn parse(input: &Vec<Tok>) -> (r: Result<EnumOfKeysAttribute, BuildError>)
        ensures
            ({
                let sp = spec_parse_enum_of_keys(input.deep_view());
                match r {
                    Ok(a) => sp == Ok::<EnumOfKeysAttrModel, BuildErrorModel>(a.deep_view()),
                    Err(e) => sp == Err::<EnumOfKeysAttrModel, BuildErrorModel>(e.deep_view()),
                }
            }),
    {
        let ghost t = input.deep_view();
        if input.len() == 0 {
            return Err(BuildError::MissingKeyTypeName);
        }
        let name: String = match &input[0] {
            Tok::Word(w) => w.clone(),
            _ => {
                return Err(BuildError::MissingKeyTypeName);
            },
        };
        let mut i: usize = 1;
        if i < input.len() && matches!(&input[i], Tok::CommaSign) {
            i = i + 1;
        }
        let mut acc = EnumOfKeysAttribute {
            name,
            store_default_in_cow: false,
            impl_common_traits: false,
            serde: None,
            impl_strum: false,
        };
        let mut in_serde = false;
        let mut cur = SerdeSettings {
            has_as_ref_str: false,
            deserialize_method: DeserializeMethod::FromStr,
        };
        proof {
            assert(i as int == skip_comma(t, 1));
            assert(acc.deep_view() == spec_keys_init(t[0]->Word_0));
        }
        loop
            invariant
                i <= input.len(),
                t == input.deep_view(),
                t.len() > 0 && t[0] is Word,
                spec_parse_keys_step(
                    t,
                    i as int,
                    acc.deep_view(),
                    if in_serde {
                        KeysParseMode::InSerde(cur)
                    } else {
                        KeysParseMode::Top
                    },
                ) == spec_parse_keys_step(
                    t,
                    skip_comma(t, 1),
                    spec_keys_init(t[0]->Word_0),
                    KeysParseMode::Top,
                ),
            decreases input.len() - i,
        {
            if i >= input.len() {
                if in_serde {
                    return Err(
                        BuildError::Grammar(
                            GrammarError {
                                found: None,
                                expected: four_expected(
                                    "as_ref",
                                    "from_str",
                                    "try_from_string",
                                    "`)`",
                                ),
                            },
                        ),
                    );
                }
                if acc.impl_strum {
                    if let Some(s) = &acc.serde {
                        let fixed = SerdeSettings {
                            has_as_ref_str: true,
                            deserialize_method: s.deserialize_method,
                        };
                        acc.serde = Some(fixed);
                    }
                }
                return Ok(acc);
            }
            if !in_serde {
                match &input[i] {
                    Tok::Word(w) => {
                        let k_cow = str_eq(w.as_str(), "default_in_cow");
                        let k_ct = !k_cow && str_eq(w.as_str(), "impl_common_traits");
                        let k_st = !k_cow && !k_ct && str_eq(w.as_str(), "impl_strum");
                        let k_sd = !k_cow && !k_ct && !k_st && str_eq(w.as_str(), "serde");
                        if k_cow {
                            acc.store_default_in_cow = true;
                        } else if k_ct {
                            acc.impl_common_traits = true;
                        } else if k_st {
                            acc.impl_strum = true;
                        } else if k_sd {
                            if i + 1 < input.len() && matches!(&input[i + 1], Tok::CommaSign) {
                                acc.serde = Some(
                                    SerdeSettings {
                                        has_as_ref_str: false,
                                        deserialize_method: DeserializeMethod::FromStr,
                                    },
                                );
                                i = i + 2;
                                continue ;
                            } else if i + 1 < input.len() && matches!(
                                &input[i + 1],
                                Tok::OpenParen,
                            ) {
                                in_serde = true;
                                cur = SerdeSettings {
                                    has_as_ref_str: false,
                                    deserialize_method: DeserializeMethod::FromStr,
                                };
                                i = i + 2;
                                continue ;
                            } else {
                                return Err(
                                    BuildError::Grammar(
                                        GrammarError {
                                            found: tok_at(input, i + 1),
                                            expected: one_expected("`(`"),
                                        },
                                    ),
                                );
                            }
                        } else {
                            return Err(
                                BuildError::Grammar(
                                    GrammarError {
                                        found: tok_at(input, i),
                                        expected: four_expected(
                                            "default_in_cow",
                                            "impl_common_traits",
                                            "serde",
                                            "impl_strum",
                                        ),
                                    },
                                ),
                            );
                        }
                        let mut j = i + 1;
                        if j < input.len() && matches!(&input[j], Tok::CommaSign) {
                            j = j + 1;
                        }
                        i = j;
                    },
                    _ => {
                        return Err(
                            BuildError::Grammar(
                                GrammarError {
                                    found: tok_at(input, i),
                                    expected: four_expected(
                                        "default_in_cow",
                                        "impl_common_traits",
                                        "serde",
                                        "impl_strum",
                                    ),
                                },
                            ),
                        );
                    },
                }
            } else {
                match &input[i] {
                    Tok::CloseParen => {
                        acc.serde = Some(cur);
                        in_serde = false;
                        let mut j = i + 1;
                        if j < input.len() && matches!(&input[j], Tok::CommaSign) {
                            j = j + 1;
                        }
                        i = j;
                    },
                    Tok::Word(w) => {
                        let k_ar = str_eq(w.as_str(), "as_ref");
                        let k_fs = !k_ar && str_eq(w.as_str(), "from_str");
                        let k_tf = !k_ar && !k_fs && str_eq(w.as_str(), "try_from_string");
                        if k_ar {
                            cur.has_as_ref_str = true;
                        } else if k_fs {
                            cur.deserialize_method = DeserializeMethod::FromStr;
                        } else if k_tf {
                            cur.deserialize_method = DeserializeMethod::TryFromString;
                        } else {
                            return Err(
                                BuildError::Grammar(
                                    GrammarError {
                                        found: tok_at(input, i),
                                        expected: four_expected(
                                            "as_ref",
                                            "from_str",
                                            "try_from_string",
                                            "`)`",
                                        ),
                                    },
                                ),
                            );
                        }
                        let mut j = i + 1;
                        if j < input.len() && matches!(&input[j], Tok::CommaSign) {
                            j = j + 1;
                        }
                        i = j;
                    },
                    _ => {
                        return Err(
                            BuildError::Grammar(
                                GrammarError {
                                    found: tok_at(input, i),
                                    expected: four_expected(
                                        "as_ref",
                                        "from_str",
                                        "try_from_string",
                                        "`)`",
                                    ),
                                },
                            ),
                        );
                    },
                }
            }
        }
    }
}

} // verus!
