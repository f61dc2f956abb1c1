//! The string-codec generator: a small settings grammar and the emitted
//! serialize/deserialize logic for a type that already converts to and from
//! strings.

use vstd::prelude::*;
use vstd::string::StringExecFns;
use crate::decl::{TypeDecl, TypeDeclModel};
use crate::enum_of_keys::{CowStr, KeyModel, KeyValue};
use crate::errors::{
    grammar_at, three_expected, BuildError, BuildErrorModel, GrammarError, GrammarErrorModel,
};
use crate::strutil::str_eq;
use crate::tokens::{skip_comma, tok_at, Tok, TokModel};

verus! {

/// How the emitted deserializer turns the wire string into a value: parse it
/// in place, or hand an owned copy to a fallible conversion.
#[derive(Clone, Copy, PartialEq, Eq, Structural, Debug)]
pub enum DeserializeMethod {
    FromStr,
    TryFromString,
}

/// The switches of the string-codec generator: serialize through a cheap
/// string reference instead of an allocating conversion, and the chosen
/// deserialize strategy.
#[derive(Clone, Copy, PartialEq, Eq, Structural, Debug)]
pub struct SerdeSettings {
    pub has_as_ref_str: bool,
    pub deserialize_method: DeserializeMethod,
}

/// The settings that hold when the site says nothing.
pub open spec fn spec_serde_default() -> SerdeSettings {
    SerdeSettings { has_as_ref_str: false, deserialize_method: DeserializeMethod::FromStr }
}

impl core::default::Default for DeserializeMethod {
    fn default() -> (r: DeserializeMethod)
        ensures
            r == DeserializeMethod::FromStr,
    {
        DeserializeMethod::FromStr
    }
}

impl core::default::Default for SerdeSettings {
    fn default() -> (r: SerdeSettings)
        ensures
            r == spec_serde_default(),
    {
        SerdeSettings { has_as_ref_str: false, deserialize_method: DeserializeMethod::FromStr }
    }
}

/// The alternatives that are valid at the start of a clause of the codec
/// grammar.
pub open spec fn serde_keywords() -> Seq<Seq<char>> {
    seq!["as_ref"@, "from_str"@, "try_from_string"@]
}

/// What one codec keyword does to the settings, or nothing for an unknown
/// word.
pub open spec fn spec_apply_serde_word(s: SerdeSettings, w: Seq<char>) -> Option<SerdeSettings> {
    if w == "as_ref"@ {
        Some(SerdeSettings { has_as_ref_str: true, deserialize_method: s.deserialize_method })
    } else if w == "from_str"@ {
        Some(
            SerdeSettings {
                has_as_ref_str: s.has_as_ref_str,
                deserialize_method: DeserializeMethod::FromStr,
            },
        )
    } else if w == "try_from_string"@ {
        Some(
            SerdeSettings {
                has_as_ref_str: s.has_as_ref_str,
                deserialize_method: DeserializeMethod::TryFromString,
            },
        )
    } else {
        None
    }
}

/// The codec grammar: keyword clauses separated by optional commas, parsed
/// greedily from position `i` over the settings gathered so far.
pub open spec fn spec_parse_serde(toks: Seq<TokModel>, i: int, acc: SerdeSettings) -> Result<
    SerdeSettings,
    GrammarErrorModel,
>
    decreases toks.len() - i,
{
    if i < 0 || i >= toks.len() {
        Ok(acc)
    } else {
        match toks[i] {
            TokModel::Word(w) => match spec_apply_serde_word(acc, w) {
                Some(acc2) => spec_parse_serde(toks, skip_comma(toks, i + 1), acc2),
                None => Err(grammar_at(toks, i, serde_keywords())),
            },
            _ => Err(grammar_at(toks, i, serde_keywords())),
        }
    }
}

/// Grammar rejection for the codec grammar: a clause that starts with
/// anything but one of its keywords fails at once, independently of the
/// settings gathered so far.
pub proof fn lemma_serde_unknown_clause(toks: Seq<TokModel>, i: int, acc: SerdeSettings)
    requires
        0 <= i < toks.len(),
        match toks[i] {
            TokModel::Word(w) => spec_apply_serde_word(acc, w) is None,
            _ => true,
        },
    ensures
        spec_parse_serde(toks, i, acc) == Err::<SerdeSettings, GrammarErrorModel>(
            grammar_at(toks, i, serde_keywords()),
        ),
{
}

impl SerdeSettings {
    /// Parses one codec attribute site.
    pub fn parse(input: &Vec<Tok>) -> (r: Result<SerdeSettings, GrammarError>)
        ensures
            ({
                let sp = spec_parse_serde(input.deep_view(), 0, spec_serde_default());
                match r {
                    Ok(a) => sp == Ok::<SerdeSettings, GrammarErrorModel>(a),
                    Err(e) => sp == Err::<SerdeSettings, GrammarErrorModel>(e.deep_view()),
                }
            }),
    {
        let ghost t = input.deep_view();
        let mut acc = SerdeSettings {
            has_as_ref_str: false,
            deserialize_method: DeserializeMethod::FromStr,
        };
        let mut i: usize = 0;
        loop
            invariant
                i <= input.len(),
                t == input.deep_view(),
                spec_parse_serde(t, i as int, acc) == spec_parse_serde(t, 0, spec_serde_default()),
            decreases input.len() - i,
        {
            if i >= input.len() {
                return Ok(acc);
            }
            match &input[i] {
                Tok::Word(w) => {
                    let k_ar = str_eq(w.as_str(), "as_ref");
                    let k_fs = !k_ar && str_eq(w.as_str(), "from_str");
                    let k_tf = !k_ar && !k_fs && str_eq(w.as_str(), "try_from_string");
                    if k_ar {
                        acc.has_as_ref_str = true;
                    } else if k_fs {
                        acc.deserialize_method = DeserializeMethod::FromStr;
                    } else if k_tf {
                        acc.deserialize_method = DeserializeMethod::TryFromString;
                    } else {
                        return Err(
                            GrammarError {
                                found: tok_at(input, i),
                                expected: three_expected("as_ref", "from_str", "try_from_string"),
                            },
                        );
                    }
                    let mut j = i + 1;
                    if j < input.len() && matches!(&input[j], Tok::CommaSign) {
                        j = j + 1;
                    }
                    i = j;
                },
                _ => {
                    return Err(
                        GrammarError {
                            found: tok_at(input, i),
                            expected: three_expected("as_ref", "from_str", "try_from_string"),
                        },
                    );
                },
            }
        }
    }
}

/// `pre` extended with the body of the emitted `serialize`: a reference-based
/// emission when `as_ref` is on, otherwise an allocating conversion.
pub open spec fn spec_serialize_body_app(pre: Seq<char>, s: SerdeSettings) -> Seq<char> {
    if s.has_as_ref_str {
        pre + "            serializer.serialize_str(self.as_ref())\n"@
    } else {
        pre
            + "            let string = self.to_string();\n            serializer.serialize_str(&string)\n"@
    }
}

/// `pre` extended with the whole emitted serializer for type `name`.
pub open spec fn spec_serialize_source_app(
    pre: Seq<char>,
    s: SerdeSettings,
    name: Seq<char>,
) -> Seq<char> {
    let a1 = pre + "const _: () = {\n    #[automatically_derived]\n    impl serde::Serialize for "@;
    let a2 = a1 + name;
    let a3 = a2
        + " {\n        fn serialize<S>(&self, serializer: S) -> core::result::Result<S::Ok, S::Error>\n        where\n            S: serde::Serializer,\n        {\n"@;
    let a4 = spec_serialize_body_app(a3, s);
    a4 + "        }\n    }\n};\n"@
}

/// Emits the serializer for type `name` under the given settings.
pub fn expand_inner_serialize(settings: &SerdeSettings, name: &str) -> (r: String)
    ensures
        r@ == spec_serialize_source_app(Seq::<char>::empty(), *settings, name@),
{
    let mut out = String::new();
    emit_serialize(&mut out, settings, name);
    out
}

/// Appends the emitted serializer for type `name` to `out`.
pub fn emit_serialize(out: &mut String, settings: &SerdeSettings, name: &str)
    ensures
        final(out)@ == spec_serialize_source_app(old(out)@, *settings, name@),
{
    out.append("const _: () = {\n    #[automatically_derived]\n    impl serde::Serialize for ");
    out.append(name);
    out.append(
        " {\n        fn serialize<S>(&self, serializer: S) -> core::result::Result<S::Ok, S::Error>\n        where\n            S: serde::Serializer,\n        {\n",
    );
    if settings.has_as_ref_str {
        out.append("            serializer.serialize_str(self.as_ref())\n");
    } else {
        out.append(
            "            let string = self.to_string();\n            serializer.serialize_str(&string)\n",
        );
    }
    out.append("        }\n    }\n};\n");
}

/// `pre` extended with the whole emitted deserializer for type `name`: a
/// visitor that accepts the wire value as a borrowed or an owned string and
/// hands it to the chosen conversion, wrapping any failure's message.
pub open spec fn spec_deserialize_source_app(
    pre: Seq<char>,
    s: SerdeSettings,
    name: Seq<char>,
) -> Seq<char> {
    let b1 = pre
        + "const _: () = {\n    #[automatically_derived]\n    impl<'de> serde::Deserialize<'de> for "@;
    let b2 = b1 + name;
    let b3 = b2
        + " {\n        fn deserialize<D>(deserializer: D) -> core::result::Result<Self, D::Error>\n        where\n            D: serde::Deserializer<'de>,\n        {\n            struct VisitorImpl;\n            impl<'de> serde::de::Visitor<'de> for VisitorImpl {\n                type Value = "@;
    let b4 = b3 + name;
    let b5 = b4
        + ";\n                fn expecting(&self, formatter: &mut core::fmt::Formatter) -> core::fmt::Result {\n                    formatter.write_str(\"a valid enum variant\")\n                }\n"@;
    let b6 = if s.deserialize_method is FromStr {
        let c1 = b5
            + "                fn visit_str<E>(self, value: &str) -> core::result::Result<Self::Value, E>\n                where\n                    E: serde::de::Error,\n                {\n                    <"@;
        let c2 = c1 + name;
        let c3 = c2
            + " as core::str::FromStr>::from_str(value).map_err(|e| E::custom(e))\n                }\n                fn visit_string<E>(self, value: String) -> core::result::Result<Self::Value, E>\n                where\n                    E: serde::de::Error,\n                {\n                    <"@;
        let c4 = c3 + name;
        c4
            + " as core::str::FromStr>::from_str(&value).map_err(|e| E::custom(e))\n                }\n            }\n            deserializer.deserialize_str(VisitorImpl)\n"@
    } else {
        let c1 = b5
            + "                fn visit_str<E>(self, value: &str) -> core::result::Result<Self::Value, E>\n                where\n                    E: serde::de::Error,\n                {\n                    <"@;
        let c2 = c1 + name;
        let c3 = c2
            + " as core::convert::TryFrom<String>>::try_from(value.to_string()).map_err(|e| E::custom(e))\n                }\n                fn visit_string<E>(self, value: String) -> core::result::Result<Self::Value, E>\n                where\n                    E: serde::de::Error,\n                {\n                    <"@;
        let c4 = c3 + name;
        c4
            + " as core::convert::TryFrom<String>>::try_from(value).map_err(|e| E::custom(e))\n                }\n            }\n            deserializer.deserialize_string(VisitorImpl)\n"@
    };
    b6 + "        }\n    }\n};\n"@
}

/// Emits the deserializer for type `name` under the given settings.
pub fn expand_inner_deserialize(settings: &SerdeSettings, name: &str) -> (r: String)
    ensures
        r@ == spec_deserialize_source_app(Seq::<char>::empty(), *settings, name@),
{
    let mut out = String::new();
    emit_deserialize(&mut out, settings, name);
    out
}

/// Appends the emitted deserializer for type `name` to `out`.
pub fn emit_deserialize(out: &mut String, settings: &SerdeSettings, name: &str)
    ensures
        final(out)@ == spec_deserialize_source_app(old(out)@, *settings, name@),
{
    out.append(
        "const _: () = {\n    #[automatically_derived]\n    impl<'de> serde::Deserialize<'de> for ",
    );
    out.append(name);
    out.append(
        " {\n        fn deserialize<D>(deserializer: D) -> core::result::Result<Self, D::Error>\n        where\n            D: serde::Deserializer<'de>,\n        {\n            struct VisitorImpl;\n            impl<'de> serde::de::Visitor<'de> for VisitorImpl {\n                type Value = ",
    );
    out.append(name);
    out.append(
        ";\n                fn expecting(&self, formatter: &mut core::fmt::Formatter) -> core::fmt::Result {\n                    formatter.write_str(\"a valid enum variant\")\n                }\n",
    );
    if matches!(settings.deserialize_method, DeserializeMethod::FromStr) {
        out.append(
            "                fn visit_str<E>(self, value: &str) -> core::result::Result<Self::Value, E>\n                where\n                    E: serde::de::Error,\n                {\n                    <",
        );
        out.append(name);
        out.append(
            " as core::str::FromStr>::from_str(value).map_err(|e| E::custom(e))\n                }\n                fn visit_string<E>(self, value: String) -> core::result::Result<Self::Value, E>\n                where\n                    E: serde::de::Error,\n                {\n                    <",
        );
        out.append(name);
        out.append(
            " as core::str::FromStr>::from_str(&value).map_err(|e| E::custom(e))\n                }\n            }\n            deserializer.deserialize_str(VisitorImpl)\n",
        );
    } else {
        out.append(
            "                fn visit_str<E>(self, value: &str) -> core::result::Result<Self::Value, E>\n                where\n                    E: serde::de::Error,\n                {\n                    <",
        );
        out.append(name);
        out.append(
            " as core::convert::TryFrom<String>>::try_from(value.to_string()).map_err(|e| E::custom(e))\n                }\n                fn visit_string<E>(self, value: String) -> core::result::Result<Self::Value, E>\n                where\n                    E: serde::de::Error,\n                {\n                    <",
        );
        out.append(name);
        out.append(
            " as core::convert::TryFrom<String>>::try_from(value).map_err(|e| E::custom(e))\n                }\n            }\n            deserializer.deserialize_string(VisitorImpl)\n",
        );
    }
    out.append("        }\n    }\n};\n");
}

/// The settings the codec site of a declaration assigns, or the defaults
/// where there is no site.
pub open spec fn spec_serde_settings_of(d: TypeDeclModel) -> Result<
    SerdeSettings,
    GrammarErrorModel,
> {
    match d.serde_attr {
        None => Ok(spec_serde_default()),
        Some(site) => spec_parse_serde(site, 0, spec_serde_default()),
    }
}

/// What the codec generator emits as the serializer for a declaration, or
/// the site's first diagnostic.
pub open spec fn spec_expand_serialize(d: TypeDeclModel) -> Result<Seq<char>, BuildErrorModel> {
    match spec_serde_settings_of(d) {
        Err(e) => Err(BuildErrorModel::Grammar(e)),
        Ok(s) => Ok(spec_serialize_source_app(Seq::<char>::empty(), s, d.name)),
    }
}

/// What the codec generator emits as the deserializer for a declaration, or
/// the site's first diagnostic.
pub open spec fn spec_expand_deserialize(d: TypeDeclModel) -> Result<Seq<char>, BuildErrorModel> {
    match spec_serde_settings_of(d) {
        Err(e) => Err(BuildErrorModel::Grammar(e)),
        Ok(s) => Ok(spec_deserialize_source_app(Seq::<char>::empty(), s, d.name)),
    }
}

/// Runs the codec generator's serializer half on one declaration.
pub fn expand_serialize(decl: &TypeDecl) -> (r: Result<String, BuildError>)
    ensures
        ({
            let sp = spec_expand_serialize(decl.deep_view());
            match r {
                Ok(s) => sp == Ok::<Seq<char>, BuildErrorModel>(s@),
                Err(e) => sp == Err::<Seq<char>, BuildErrorModel>(e.deep_view()),
            }
        }),
{
    let settings = match &decl.serde_attr {
        None => SerdeSettings { has_as_ref_str: false, deserialize_method: DeserializeMethod::FromStr },
        Some(site) => match SerdeSettings::parse(site) {
            Ok(s) => s,
            Err(e) => {
                return Err(BuildError::Grammar(e));
            },
        },
    };
    Ok(expand_inner_serialize(&settings, decl.name.as_str()))
}

/// The naming scheme of one generated key type, as its derived enumeration
/// helpers realize it: each variant prints as its own name, except the
/// default variant, which prints as its carried string and parses whatever
/// no other name matches.
#[derive(Debug)]
pub struct KeyNames {
    pub names: Vec<String>,
    pub default_index: Option<usize>,
}

/// The mathematical form of a `KeyNames`.
pub struct KeyNamesModel {
    pub names: Seq<Seq<char>>,
    pub default_index: Option<int>,
}

impl DeepView for KeyNames {
    type V = KeyNamesModel;

    open spec fn deep_view(&self) -> KeyNamesModel {
        KeyNamesModel {
            names: self.names.deep_view(),
            default_index: match self.default_index {
                Some(d) => Some(d as int),
                None => None,
            },
        }
    }
}

/// The default index, if any, names a variant.
pub open spec fn spec_keynames_wf(n: KeyNamesModel) -> bool {
    match n.default_index {
        Some(d) => 0 <= d < n.names.len(),
        None => true,
    }
}

/// A key is valid for a naming scheme when its tag names a variant and it
/// carries a string exactly when its tag is the default variant.
pub open spec fn spec_valid_key(n: KeyNamesModel, km: KeyModel) -> bool {
    &&& 0 <= km.tag < n.names.len()
    &&& (km.carrier is Some <==> n.default_index == Some(km.tag))
}

/// What a key prints as: the carried string for the default variant, the
/// variant's own name for every other.
pub open spec fn spec_key_to_string(n: KeyNamesModel, km: KeyModel) -> Seq<char> {
    match km.carrier {
        Some(c) => c,
        None => n.names[km.tag],
    }
}

/// The first non-default variant, from position `i` on, whose name is `s`.
pub open spec fn spec_name_match(n: KeyNamesModel, s: Seq<char>, i: int) -> Option<int>
    decreases n.names.len() - i,
{
    if i < 0 || i >= n.names.len() {
        None
    } else if n.default_index != Some(i) && n.names[i] == s {
        Some(i)
    } else {
        spec_name_match(n, s, i + 1)
    }
}

/// What a string parses as: the first non-default variant of that name,
/// else the default variant carrying the whole string, else nothing.
pub open spec fn spec_key_from_string(n: KeyNamesModel, s: Seq<char>) -> Option<KeyModel> {
    match spec_name_match(n, s, 0) {
        Some(i) => Some(KeyModel { tag: i, carrier: None }),
        None => match n.default_index {
            Some(d) => Some(KeyModel { tag: d, carrier: Some(s) }),
            None => None,
        },
    }
}

impl KeyNames {
    /// Prints a key, exactly as the emitted serializer does through the
    /// derived display helper.
    pub fn key_to_string(&self, k: &KeyValue) -> (r: String)
        requires
            spec_keynames_wf(self.deep_view()),
            spec_valid_key(self.deep_view(), k.model()),
        ensures
            r@ == spec_key_to_string(self.deep_view(), k.model()),
    {
        match &k.carrier {
            Some(c) => c.text.clone(),
            None => {
                proof {
                    assert(k.model().tag < self.deep_view().names.len());
                    assert(self.names@.len() == self.deep_view().names.len());
                    assert(k.tag < self.names@.len());
                    assert(self.deep_view().names[k.tag as int] == self.names@[k.tag as int]@);
                }
                self.names[k.tag].clone()
            },
        }
    }

    /// Parses a string back into a key, exactly as the emitted deserializer
    /// does through the derived parse helper. The result, when there is
    /// one, is always a fully owned key.
    pub fn key_from_string(&self, s: &str) -> (r: Option<KeyValue>)
        requires
            spec_keynames_wf(self.deep_view()),
        ensures
            ({
                let sp = spec_key_from_string(self.deep_view(), s@);
                match r {
                    Some(k) => sp == Some(k.model()) && k.fully_owned(),
                    None => sp is None,
                }
            }),
    {
        let ghost n = self.deep_view();
        let mut i: usize = 0;
        while i < self.names.len()
            invariant
                i <= self.names.len(),
                n == self.deep_view(),
                spec_keynames_wf(n),
                spec_name_match(n, s@, i as int) == spec_name_match(n, s@, 0),
            decreases self.names.len() - i,
        {
            let is_default = match self.default_index {
                Some(d) => d == i,
                None => false,
            };
            if !is_default && str_eq(self.names[i].as_str(), s) {
                return Some(KeyValue { tag: i, carrier: None });
            }
            i = i + 1;
        }
        match self.default_index {
            Some(d) => Some(
                KeyValue {
                    tag: d,
                    carrier: Some(CowStr { owned: true, text: String::from_str(s) }),
                },
            ),
            None => None,
        }
    }
}

/// The names of the non-default variants are pairwise distinct.
pub open spec fn spec_distinct_names(n: KeyNamesModel) -> bool {
    forall|i: int, j: int|
        0 <= i < j < n.names.len() && n.default_index != Some(i) && n.default_index != Some(j)
            ==> #[trigger] n.names[i] != #[trigger] n.names[j]
}

/// Searching from `i` finds `t` when `t` bears the name searched for and no
/// non-default variant between `i` and `t` does.
proof fn lemma_name_match_finds(n: KeyNamesModel, s: Seq<char>, i: int, t: int)
    requires
        0 <= i <= t < n.names.len(),
        n.default_index != Some(t),
        n.names[t] == s,
        forall|j: int| i <= j < t && n.default_index != Some(j) ==> #[trigger] n.names[j] != s,
    ensures
        spec_name_match(n, s, i) == Some(t),
    decreases t - i,
{
    if i < t {
        lemma_name_match_finds(n, s, i + 1, t);
    }
}

/// Searching finds nothing when no non-default variant from `i` on bears
/// the name.
proof fn lemma_name_match_misses(n: KeyNamesModel, s: Seq<char>, i: int)
    requires
        forall|j: int|
            i <= j < n.names.len() && n.default_index != Some(j) ==> #[trigger] n.names[j] != s,
    ensures
        spec_name_match(n, s, i) is None,
    decreases n.names.len() - i,
{
    if 0 <= i < n.names.len() {
        lemma_name_match_misses(n, s, i + 1);
    }
}

/// Codec round trip: under string conversion and parsing as the derived
/// helpers supply them, printing any valid key and parsing the result gives
/// the key back. This needs the non-default names to be pairwise distinct,
/// and it cannot cover a default payload that coincides with another
/// variant's name: such a string parses as that variant instead.
pub proof fn lemma_codec_round_trip(n: KeyNamesModel, km: KeyModel)
    requires
        spec_keynames_wf(n),
        spec_valid_key(n, km),
        spec_distinct_names(n),
        km.carrier is Some ==> spec_name_match(n, km.carrier->0, 0) is None,
    ensures
        spec_key_from_string(n, spec_key_to_string(n, km)) == Some(km),
{
    let s = spec_key_to_string(n, km);
    match km.carrier {
        Some(c) => {
            assert(spec_name_match(n, s, 0) is None);
        },
        None => {
            lemma_name_match_finds(n, s, 0, km.tag);
        },
    }
}

/// Runs the codec generator's deserializer half on one declaration.
pub fn expand_deserialize(decl: &TypeDecl) -> (r: Result<String, BuildError>)
    ensures
        ({
            let sp = spec_expand_deserialize(decl.deep_view());
            match r {
                Ok(s) => sp == Ok::<Seq<char>, BuildErrorModel>(s@),
                Err(e) => sp == Err::<Seq<char>, BuildErrorModel>(e.deep_view()),
            }
        }),
{
    let settings = match &decl.serde_attr {
        None => SerdeSettings { has_as_ref_str: false, deserialize_method: DeserializeMethod::FromStr },
        Some(site) => match SerdeSettings::parse(site) {
            Ok(s) => s,
            Err(e) => {
                return Err(BuildError::Grammar(e));
            },
        },
    };
    Ok(expand_inner_deserialize(&settings, decl.name.as_str()))
}

} // verus!
