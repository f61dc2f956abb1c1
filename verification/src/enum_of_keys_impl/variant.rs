//! One variant of the key-type generator's model: its validated default
//! designation, pass-through attributes, and the emitted lines that concern
//! it.

use vstd::prelude::*;
use vstd::string::StringExecFns;
use crate::decl::{FieldShape, FieldShapeModel, VariantDecl, VariantDeclModel};
use crate::compare_str::{fields_collection_text, spec_fields_collection};
use crate::enum_of_keys_impl::attrs::{
    spec_inner_attr_app, spec_parse_variant_attr, DefaultValue, DefaultValueModel, InnerAttribute,
    VariantAttrModel, VariantAttribute,
};
use crate::enum_of_keys_impl::find_and_parse_inner_attrs;
use crate::errors::{BuildError, BuildErrorModel};
use crate::strutil::str_eq;

verus! {

/// One variant as the key-type generator sees it.
#[derive(Debug)]
pub struct Variant {
    pub name: String,
    pub enum_of_keys_attr: Option<VariantAttribute>,
    pub inner_attrs: Vec<InnerAttribute>,
    pub default_in_cow: bool,
    pub fields_collection: String,
    pub has_compare_str: bool,
}

/// The mathematical form of a `Variant`.
pub struct VariantModel {
    pub name: Seq<char>,
    pub enum_of_keys_attr: Option<VariantAttrModel>,
    pub inner_attrs: Seq<Seq<char>>,
    pub default_in_cow: bool,
    pub fields_collection: Seq<char>,
    pub has_compare_str: bool,
}

impl DeepView for Variant {
    type V = VariantModel;

    open spec fn deep_view(&self) -> VariantModel {
        VariantModel {
            name: self.name@,
            enum_of_keys_attr: match &self.enum_of_keys_attr {
                Some(a) => Some(a.deep_view()),
                None => None,
            },
            inner_attrs: self.inner_attrs.deep_view(),
            default_in_cow: self.default_in_cow,
            fields_collection: self.fields_collection@,
            has_compare_str: self.has_compare_str,
        }
    }
}

/// The default designation of a variant record, if it carries one.
pub open spec fn spec_variant_default(v: VariantModel) -> Option<DefaultValueModel> {
    match v.enum_of_keys_attr {
        Some(a) => a.default,
        None => None,
    }
}

/// A variant record is well formed when its default designation, if any,
/// carries the unwrap pattern the model builder computed for it.
pub open spec fn spec_variant_wf(v: VariantModel) -> bool {
    match spec_variant_default(v) {
        Some(dv) => dv.unwrap_variant is Some,
        None => true,
    }
}

/// `name` occurs among `fields`.
pub open spec fn seq_contains_str(fields: Seq<Seq<char>>, name: Seq<char>) -> bool {
    exists|k: int| 0 <= k < fields.len() && #[trigger] fields[k] == name
}

/// Executable counterpart of `seq_contains_str`.
pub fn contains_string(fields: &Vec<String>, name: &str) -> (b: bool)
    ensures
        b == seq_contains_str(fields.deep_view(), name@),
{
    let mut k: usize = 0;
    while k < fields.len()
        invariant
            k <= fields.len(),
            forall|j: int| 0 <= j < k ==> #[trigger] fields.deep_view()[j] != name@,
        decreases fields.len() - k,
    {
        if str_eq(fields[k].as_str(), name) {
            proof {
                assert(fields.deep_view()[k as int] == name@);
            }
            return true;
        }
        k = k + 1;
    }
    false
}

/// The pattern text that unwraps the carrier field of a named-field default
/// variant: the named field alone, or the named field beside silenced
/// siblings.
pub open spec fn spec_named_pattern(nfields: int, key: Seq<char>) -> Seq<char> {
    if nfields == 1 {
        let p = " { "@ + key;
        p + " }"@
    } else {
        let p = " { "@ + key;
        p + ", .. }"@
    }
}

/// The pattern text that unwraps the carrier of an unnamed-field default
/// variant: the first position, with silenced siblings where there are more.
pub open spec fn spec_unnamed_pattern(n: u64, key: Seq<char>) -> Seq<char> {
    if n == 1 {
        let p = "("@ + key;
        p + ")"@
    } else {
        let p = "("@ + key;
        p + ", ..)"@
    }
}

/// The variant record for a declaration whose default designation, if any,
/// has already been resolved into `attr`.
pub open spec fn spec_variant_record(
    vd: VariantDeclModel,
    default_in_cow: bool,
    attr: Option<VariantAttrModel>,
) -> VariantModel {
    VariantModel {
        name: vd.name,
        enum_of_keys_attr: attr,
        inner_attrs: vd.inner_attrs,
        default_in_cow,
        fields_collection: spec_fields_collection(vd.shape),
        has_compare_str: vd.compare_attrs.len() > 0,
    }
}

/// What the model builder makes of one variant declaration: its site parsed,
/// and a default designation checked against the field shape — a unit
/// default and an unknown carrier field are hard errors.
pub open spec fn spec_variant_new(vd: VariantDeclModel, default_in_cow: bool) -> Result<
    VariantModel,
    BuildErrorModel,
> {
    let attr_r = match vd.key_attr {
        None => Ok(None),
        Some(site) => match spec_parse_variant_attr(site, 0, None) {
            Ok(d) => Ok(Some(VariantAttrModel { default: d })),
            Err(e) => Err(BuildErrorModel::Grammar(e)),
        },
    };
    match attr_r {
        Err(e) => Err(e),
        Ok(attr) => {
            let dv_opt = match attr {
                Some(a) => a.default,
                None => None,
            };
            match dv_opt {
                None => Ok(spec_variant_record(vd, default_in_cow, attr)),
                Some(dv) => match vd.shape {
                    FieldShapeModel::Unit => Err(BuildErrorModel::DefaultOnUnitVariant),
                    FieldShapeModel::Named(fields) => {
                        if !seq_contains_str(fields, dv.key_name) {
                            Err(BuildErrorModel::UnknownCarrierField)
                        } else {
                            Ok(
                                spec_variant_record(
                                    vd,
                                    default_in_cow,
                                    Some(
                                        VariantAttrModel {
                                            default: Some(
                                                DefaultValueModel {
                                                    key_name: dv.key_name,
                                                    unwrap_variant: Some(
                                                        spec_named_pattern(
                                                            fields.len() as int,
                                                            dv.key_name,
                                                        ),
                                                    ),
                                                },
                                            ),
                                        },
                                    ),
                                ),
                            )
                        }
                    },
                    FieldShapeModel::Unnamed(n) => Ok(
                        spec_variant_record(
                            vd,
                            default_in_cow,
                            Some(
                                VariantAttrModel {
                                    default: Some(
                                        DefaultValueModel {
                                            key_name: dv.key_name,
                                            unwrap_variant: Some(
                                                spec_unnamed_pattern(n, dv.key_name),
                                            ),
                                        },
                                    ),
                                },
                            ),
                        ),
                    ),
                },
            }
        },
    }
}

impl Variant {
    /// Builds the record for one variant declaration, validating its default
    /// designation against the field shape.
    pub fn new(decl: &VariantDecl, default_in_cow: bool) -> (r: Result<Variant, BuildError>)
        ensures
            ({
                let sp = spec_variant_new(decl.deep_view(), default_in_cow);
                match r {
                    Ok(v) => sp == Ok::<VariantModel, BuildErrorModel>(v.deep_view())
                        && spec_variant_wf(v.deep_view()),
                    Err(e) => sp == Err::<VariantModel, BuildErrorModel>(e.deep_view()),
                }
            }),
    {
        let attr: Option<VariantAttribute> = match &decl.key_attr {
            None => None,
            Some(site) => match VariantAttribute::parse(site) {
                Ok(a) => Some(a),
                Err(e) => {
                    return Err(BuildError::Grammar(e));
                },
            },
        };
        let resolved: Option<VariantAttribute> = match attr {
            None => None,
            Some(va) => match va.default {
                None => Some(VariantAttribute { default: None }),
                Some(dv) => match &decl.shape {
                    FieldShape::Unit => {
                        return Err(BuildError::DefaultOnUnitVariant);
                    },
                    FieldShape::Named(fields) => {
                        if !contains_string(fields, dv.key_name.as_str()) {
                            return Err(BuildError::UnknownCarrierField);
                        }
                        let mut pat = String::from_str(" { ");
                        pat.append(dv.key_name.as_str());
                        if fields.len() == 1 {
                            pat.append(" }");
                        } else {
                            pat.append(", .. }");
                        }
                        Some(
                            VariantAttribute {
                                default: Some(
                                    DefaultValue {
                                        key_name: dv.key_name,
                                        unwrap_variant: Some(pat),
                                    },
                                ),
                            },
                        )
                    },
                    FieldShape::Unnamed(n) => {
                        let mut pat = String::from_str("(");
                        pat.append(dv.key_name.as_str());
                        if *n == 1 {
                            pat.append(")");
                        } else {
                            pat.append(", ..)");
                        }
                        Some(
                            VariantAttribute {
                                default: Some(
                                    DefaultValue {
                                        key_name: dv.key_name,
                                        unwrap_variant: Some(pat),
                                    },
                                ),
                            },
                        )
                    },
                },
            },
        };
        Ok(
            Variant {
                name: decl.name.clone(),
                enum_of_keys_attr: resolved,
                inner_attrs: find_and_parse_inner_attrs(&decl.inner_attrs),
                default_in_cow,
                fields_collection: fields_collection_text(&decl.shape),
                has_compare_str: decl.compare_attrs.len() > 0,
            },
        )
    }

    /// Whether this variant carries the default designation.
    pub fn has_default(&self) -> (b: bool)
        ensures
            b == (spec_variant_default(self.deep_view()) is Some),
    {
        match &self.enum_of_keys_attr {
            Some(a) => a.default.is_some(),
            None => false,
        }
    }
}

/// `pre` extended with the arm that turns one variant of the original type
/// into its borrowed-view key: payload-free for ordinary variants; for the
/// default variant, a borrow of the carrier under copy-on-write storage, or
/// a clone under owned storage.
pub open spec fn spec_get_key_line_app(
    pre: Seq<char>,
    e: Seq<char>,
    k: Seq<char>,
    v: VariantModel,
) -> Seq<char> {
    let h1 = pre + "            "@;
    let h2 = h1 + e;
    let h3 = h2 + "::"@;
    let h4 = h3 + v.name;
    match spec_variant_default(v) {
        Some(dv) => {
            let h5 = h4 + dv.unwrap_variant->0;
            let h6 = h5 + " => "@;
            let h7 = h6 + k;
            let h8 = h7 + "::"@;
            let h9 = h8 + v.name;
            if v.default_in_cow {
                let a = h9 + "(::std::borrow::Cow::Borrowed("@;
                let b = a + dv.key_name;
                b + ".as_str())),\n"@
            } else {
                let a = h9 + "("@;
                let b = a + dv.key_name;
                b + ".clone()),\n"@
            }
        },
        None => {
            let h5 = h4 + v.fields_collection;
            let h6 = h5 + " => "@;
            let h7 = h6 + k;
            let h8 = h7 + "::"@;
            let h9 = h8 + v.name;
            h9 + ",\n"@
        },
    }
}

/// `pre` extended with the arm that turns one variant into its owned key:
/// as above, but the default variant always allocates a fresh string.
pub open spec fn spec_get_key_line_owned_app(
    pre: Seq<char>,
    e: Seq<char>,
    k: Seq<char>,
    v: VariantModel,
) -> Seq<char> {
    let h1 = pre + "            "@;
    let h2 = h1 + e;
    let h3 = h2 + "::"@;
    let h4 = h3 + v.name;
    match spec_variant_default(v) {
        Some(dv) => {
            let h5 = h4 + dv.unwrap_variant->0;
            let h6 = h5 + " => "@;
            let h7 = h6 + k;
            let h8 = h7 + "::"@;
            let h9 = h8 + v.name;
            let a = h9 + "(::std::borrow::Cow::Owned("@;
            let b = a + dv.key_name;
            b + ".to_owned())),\n"@
        },
        None => {
            let h5 = h4 + v.fields_collection;
            let h6 = h5 + " => "@;
            let h7 = h6 + k;
            let h8 = h7 + "::"@;
            let h9 = h8 + v.name;
            h9 + ",\n"@
        },
    }
}

/// `pre` extended with the equality arm that compares one variant of the
/// original type against its key: ordinary variants compare true on the tag
/// alone, the default variant compares the carried value against the key's
/// stored string.
pub open spec fn spec_partial_eq_line_app(
    pre: Seq<char>,
    e: Seq<char>,
    k: Seq<char>,
    v: VariantModel,
) -> Seq<char> {
    let h1 = pre + "            ("@;
    let h2 = h1 + e;
    let h3 = h2 + "::"@;
    let h4 = h3 + v.name;
    match spec_variant_default(v) {
        Some(dv) => {
            let h5 = h4 + dv.unwrap_variant->0;
            let h6 = h5 + ", "@;
            let h7 = h6 + k;
            let h8 = h7 + "::"@;
            let h9 = h8 + v.name;
            let a = h9 + "(b)) => "@;
            let b = a + dv.key_name;
            b + " == b,\n"@
        },
        None => {
            let h5 = h4 + v.fields_collection;
            let h6 = h5 + ", "@;
            let h7 = h6 + k;
            let h8 = h7 + "::"@;
            let h9 = h8 + v.name;
            h9 + ") => true,\n"@
        },
    }
}

/// `pre` extended with the arm that upgrades one borrowed key variant to its
/// owned form: the default variant re-owns its string, every other variant
/// passes through.
pub open spec fn spec_to_owned_line_app(pre: Seq<char>, k: Seq<char>, v: VariantModel) -> Seq<
    char,
> {
    let h1 = pre + "            "@;
    let h2 = h1 + k;
    let h3 = h2 + "::"@;
    let h4 = h3 + v.name;
    if spec_variant_default(v) is Some {
        let h5 = h4 + "(v) => "@;
        let h6 = h5 + k;
        let h7 = h6 + "::"@;
        let h8 = h7 + v.name;
        h8 + "(::std::borrow::Cow::Owned(v.as_ref().to_owned())),\n"@
    } else {
        let h5 = h4 + " => "@;
        let h6 = h5 + k;
        let h7 = h6 + "::"@;
        let h8 = h7 + v.name;
        h8 + ",\n"@
    }
}

/// `pre` extended with the pass-through attributes of a key variant, each on
/// an indented line of its own, from position `j` on.
pub open spec fn spec_variant_attrs_app(pre: Seq<char>, metas: Seq<Seq<char>>, j: int) -> Seq<char>
    decreases metas.len() - j,
{
    if j < 0 || j >= metas.len() {
        pre
    } else {
        spec_variant_attrs_app(spec_inner_attr_app(pre + "    "@, metas[j]), metas, j + 1)
    }
}

/// `pre` extended with the declaration of one key variant: its pass-through
/// attributes, its name, and — for the default variant only — the payload
/// that stores the runtime string.
pub open spec fn spec_variant_decl_app(pre: Seq<char>, v: VariantModel) -> Seq<char> {
    let h1 = spec_variant_attrs_app(pre, v.inner_attrs, 0);
    let h2 = h1 + "    "@;
    let h3 = h2 + v.name;
    if spec_variant_default(v) is Some {
        if v.default_in_cow {
            h3 + "(::std::borrow::Cow<'a, str>),\n"@
        } else {
            h3 + "(String),\n"@
        }
    } else {
        h3 + ",\n"@
    }
}

impl Variant {
    /// Appends the borrowed-view key-extraction arm for this variant.
    pub fn create_get_key_line(&self, enum_name: &str, key_enum_name: &str, out: &mut String)
        requires
            spec_variant_wf(self.deep_view()),
        ensures
            final(out)@ == spec_get_key_line_app(
                old(out)@,
                enum_name@,
                key_enum_name@,
                self.deep_view(),
            ),
    {
        out.append("            ");
        out.append(enum_name);
        out.append("::");
        out.append(self.name.as_str());
        let dv_opt = match &self.enum_of_keys_attr {
            Some(a) => &a.default,
            None => &None,
        };
        match dv_opt {
            Some(dv) => {
                if let Some(p) = &dv.unwrap_variant {
                    out.append(p.as_str());
                } else {
                    proof {
                        assert(false);
                    }
                }
                out.append(" => ");
                out.append(key_enum_name);
                out.append("::");
                out.append(self.name.as_str());
                if self.default_in_cow {
                    out.append("(::std::borrow::Cow::Borrowed(");
                    out.append(dv.key_name.as_str());
                    out.append(".as_str())),\n");
                } else {
                    out.append("(");
                    out.append(dv.key_name.as_str());
                    out.append(".clone()),\n");
                }
            },
            None => {
                out.append(self.fields_collection.as_str());
                out.append(" => ");
                out.append(key_enum_name);
                out.append("::");
                out.append(self.name.as_str());
                out.append(",\n");
            },
        }
    }

    /// Appends the owned key-extraction arm for this variant.
    pub fn create_get_key_line_owned(&self, enum_name: &str, key_enum_name: &str, out: &mut String)
        requires
            spec_variant_wf(self.deep_view()),
        ensures
            final(out)@ == spec_get_key_line_owned_app(
                old(out)@,
                enum_name@,
                key_enum_name@,
                self.deep_view(),
            ),
    {
        out.append("            ");
        out.append(enum_name);
        out.append("::");
        out.append(self.name.as_str());
        let dv_opt = match &self.enum_of_keys_attr {
            Some(a) => &a.default,
            None => &None,
        };
        match dv_opt {
            Some(dv) => {
                if let Some(p) = &dv.unwrap_variant {
                    out.append(p.as_str());
                } else {
                    proof {
                        assert(false);
                    }
                }
                out.append(" => ");
                out.append(key_enum_name);
                out.append("::");
                out.append(self.name.as_str());
                out.append("(::std::borrow::Cow::Owned(");
                out.append(dv.key_name.as_str());
                out.append(".to_owned())),\n");
            },
            None => {
                out.append(self.fields_collection.as_str());
                out.append(" => ");
                out.append(key_enum_name);
                out.append("::");
                out.append(self.name.as_str());
                out.append(",\n");
            },
        }
    }

    /// Appends the equality arm that compares this variant against its key.
    pub fn create_partial_eq_line(&self, enum_name: &str, key_enum_name: &str, out: &mut String)
        requires
            spec_variant_wf(self.deep_view()),
        ensures
            final(out)@ == spec_partial_eq_line_app(
                old(out)@,
                enum_name@,
                key_enum_name@,
                self.deep_view(),
            ),
    {
        out.append("            (");
        out.append(enum_name);
        out.append("::");
        out.append(self.name.as_str());
        let dv_opt = match &self.enum_of_keys_attr {
            Some(a) => &a.default,
            None => &None,
        };
        match dv_opt {
            Some(dv) => {
                if let Some(p) = &dv.unwrap_variant {
                    out.append(p.as_str());
                } else {
                    proof {
                        assert(false);
                    }
                }
                out.append(", ");
                out.append(key_enum_name);
                out.append("::");
                out.append(self.name.as_str());
                out.append("(b)) => ");
                out.append(dv.key_name.as_str());
                out.append(" == b,\n");
            },
            None => {
                out.append(self.fields_collection.as_str());
                out.append(", ");
                out.append(key_enum_name);
                out.append("::");
                out.append(self.name.as_str());
                out.append(") => true,\n");
            },
        }
    }

    /// Appends the upgrade-to-owned arm for this variant of the key type.
    pub fn create_to_owned_line(&self, key_enum_name: &str, out: &mut String)
        ensures
            final(out)@ == spec_to_owned_line_app(old(out)@, key_enum_name@, self.deep_view()),
    {
        out.append("            ");
        out.append(key_enum_name);
        out.append("::");
        out.append(self.name.as_str());
        if self.has_default() {
            out.append("(v) => ");
            out.append(key_enum_name);
            out.append("::");
            out.append(self.name.as_str());
            out.append("(::std::borrow::Cow::Owned(v.as_ref().to_owned())),\n");
        } else {
            out.append(" => ");
            out.append(key_enum_name);
            out.append("::");
            out.append(self.name.as_str());
            out.append(",\n");
        }
    }

    /// Appends this variant's declaration inside the emitted key enum.
    pub fn to_tokens(&self, out: &mut String)
        ensures
            final(out)@ == spec_variant_decl_app(old(out)@, self.deep_view()),
    {
        let ghost metas = self.inner_attrs.deep_view();
        let ghost pre = out@;
        let mut j: usize = 0;
        while j < self.inner_attrs.len()
            invariant
                j <= self.inner_attrs.len(),
                metas == self.inner_attrs.deep_view(),
                spec_variant_attrs_app(out@, metas, j as int) == spec_variant_attrs_app(
                    pre,
                    metas,
                    0,
                ),
            decreases self.inner_attrs.len() - j,
        {
            out.append("    ");
            self.inner_attrs[j].to_tokens(out);
            j = j + 1;
        }
        out.append("    ");
        out.append(self.name.as_str());
        if self.has_default() {
            if self.default_in_cow {
                out.append("(::std::borrow::Cow<'a, str>),\n");
            } else {
                out.append("(String),\n");
            }
        } else {
            out.append(",\n");
        }
    }
}

} // verus!
