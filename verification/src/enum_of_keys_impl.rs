//! The key-type generator: from a validated declaration it emits the
//! payload-free key enum, the key-extraction operations, and the symmetric
//! equality relations between the original type and its key type.

pub mod attrs;
pub mod variant;

use vstd::prelude::*;
use vstd::string::StringExecFns;
use crate::decl::{TypeDecl, TypeDeclModel, VariantDeclModel};
use crate::enum_of_keys_impl::attrs::{
    spec_inner_attr_app, spec_parse_enum_of_keys, EnumOfKeysAttrModel, EnumOfKeysAttribute,
    InnerAttribute,
};
use crate::enum_of_keys_impl::variant::{
    spec_get_key_line_app, spec_get_key_line_owned_app, spec_partial_eq_line_app,
    spec_to_owned_line_app, spec_variant_decl_app, spec_variant_default, spec_variant_new,
    spec_variant_wf, Variant, VariantModel,
};
use crate::errors::{BuildError, BuildErrorModel};
use crate::simple_serde::{
    emit_deserialize, emit_serialize, spec_deserialize_source_app, spec_serialize_source_app,
};

verus! {

/// Wraps every pass-through attribute site of a declaration, in written
/// order.
pub fn find_and_parse_inner_attrs(attrs: &Vec<String>) -> (r: Vec<InnerAttribute>)
    ensures
        r.deep_view() == attrs.deep_view(),
{
    let ghost ms = attrs.deep_view();
    let mut r: Vec<InnerAttribute> = Vec::new();
    let mut k: usize = 0;
    while k < attrs.len()
        invariant
            k <= attrs.len(),
            ms == attrs.deep_view(),
            r.deep_view() =~= ms.take(k as int),
        decreases attrs.len() - k,
    {
        let ghost r0 = r.deep_view();
        r.push(InnerAttribute::parse(attrs[k].clone()));
        proof {
            assert(r.deep_view() =~= r0.push(ms[k as int]));
            assert(r.deep_view() =~= ms.take(k + 1 as int));
        }
        k = k + 1;
    }
    proof {
        assert(ms.take(attrs.len() as int) =~= ms);
    }
    r
}

/// The variant records of the whole declaration from position `k` on, or
/// the first validation error in declaration order.
pub open spec fn spec_build_variants(
    vds: Seq<VariantDeclModel>,
    k: int,
    default_in_cow: bool,
    acc: Seq<VariantModel>,
) -> Result<Seq<VariantModel>, BuildErrorModel>
    decreases vds.len() - k,
{
    if k < 0 || k >= vds.len() {
        Ok(acc)
    } else {
        match spec_variant_new(vds[k], default_in_cow) {
            Ok(v) => spec_build_variants(vds, k + 1, default_in_cow, acc.push(v)),
            Err(e) => Err(e),
        }
    }
}

/// Every record carries the unwrap pattern its default designation needs.
pub open spec fn spec_all_wf(vs: Seq<VariantModel>) -> bool {
    forall|k: int| 0 <= k < vs.len() ==> spec_variant_wf(#[trigger] vs[k])
}

/// Some variant carries the default designation. This decides whether the
/// key type can be `Copy`.
pub open spec fn spec_any_default(vs: Seq<VariantModel>) -> bool {
    exists|k: int| 0 <= k < vs.len() && spec_variant_default(#[trigger] vs[k]) is Some
}

/// Some variant carries compare-string annotations. This decides whether
/// the key type derives the string-comparison capability.
pub open spec fn spec_any_compare(vs: Seq<VariantModel>) -> bool {
    exists|k: int| 0 <= k < vs.len() && (#[trigger] vs[k]).has_compare_str
}

/// Executable counterpart of `spec_any_default`.
pub fn any_default(vs: &Vec<Variant>) -> (b: bool)
    ensures
        b == spec_any_default(vs.deep_view()),
{
    let mut k: usize = 0;
    while k < vs.len()
        invariant
            k <= vs.len(),
            forall|j: int|
                0 <= j < k ==> spec_variant_default(#[trigger] vs.deep_view()[j]) is None,
        decreases vs.len() - k,
    {
        if vs[k].has_default() {
            proof {
                assert(spec_variant_default(vs.deep_view()[k as int]) is Some);
            }
            return true;
        }
        k = k + 1;
    }
    false
}

/// Executable counterpart of `spec_any_compare`.
pub fn any_compare(vs: &Vec<Variant>) -> (b: bool)
    ensures
        b == spec_any_compare(vs.deep_view()),
{
    let mut k: usize = 0;
    while k < vs.len()
        invariant
            k <= vs.len(),
            forall|j: int| 0 <= j < k ==> !(#[trigger] vs.deep_view()[j]).has_compare_str,
        decreases vs.len() - k,
    {
        if vs[k].has_compare_str {
            proof {
                assert((vs.deep_view()[k as int]).has_compare_str);
            }
            return true;
        }
        k = k + 1;
    }
    false
}

/// The attributes that stand on the emitted key enum, in order: the derives
/// the options ask for, the declaration's own pass-through attributes, and
/// its non-exhaustiveness.
pub open spec fn spec_key_attr_metas(
    d: TypeDeclModel,
    ea: EnumOfKeysAttrModel,
    vs: Seq<VariantModel>,
) -> Seq<Seq<char>> {
    let e0 = Seq::<Seq<char>>::empty();
    let e1 = if ea.impl_common_traits {
        e0.push(
            if spec_any_default(vs) {
                "derive(Clone, Debug, PartialEq, Eq)"@
            } else {
                "derive(Clone, Copy, Debug, PartialEq, Eq)"@
            },
        )
    } else {
        e0
    };
    let e2 = if ea.impl_strum {
        e1.push(
            "derive(strum::AsRefStr, strum::EnumIs, strum::EnumString, strum::Display, strum::EnumIter)"@,
        )
    } else {
        e1
    };
    let e3 = if spec_any_compare(vs) {
        e2.push("derive(CompareToStr)"@)
    } else {
        e2
    };
    let e4 = e3 + d.inner_attrs;
    if d.non_exhaustive {
        e4.push("non_exhaustive"@)
    } else {
        e4
    }
}

/// Builds the attribute list of the emitted key enum.
pub fn key_attr_list(decl: &TypeDecl, ea: &EnumOfKeysAttribute, vs: &Vec<Variant>) -> (r: Vec<
    InnerAttribute,
>)
    ensures
        r.deep_view() == spec_key_attr_metas(decl.deep_view(), ea.deep_view(), vs.deep_view()),
{
    let ghost d = decl.deep_view();
    let ghost eam = ea.deep_view();
    let ghost vsd = vs.deep_view();
    let mut r: Vec<InnerAttribute> = Vec::new();
    proof {
        assert(r.deep_view() =~= Seq::<Seq<char>>::empty());
    }
    if ea.impl_common_traits {
        let ghost r0 = r.deep_view();
        if any_default(vs) {
            r.push(InnerAttribute { meta: String::from_str("derive(Clone, Debug, PartialEq, Eq)") });
            proof {
                assert(r.deep_view() =~= r0.push("derive(Clone, Debug, PartialEq, Eq)"@));
            }
        } else {
            r.push(
                InnerAttribute { meta: String::from_str("derive(Clone, Copy, Debug, PartialEq, Eq)") },
            );
            proof {
                assert(r.deep_view() =~= r0.push("derive(Clone, Copy, Debug, PartialEq, Eq)"@));
            }
        }
    }
    if ea.impl_strum {
        let ghost r0 = r.deep_view();
        r.push(
            InnerAttribute {
                meta: String::from_str(
                    "derive(strum::AsRefStr, strum::EnumIs, strum::EnumString, strum::Display, strum::EnumIter)",
                ),
            },
        );
        proof {
            assert(r.deep_view() =~= r0.push(
                "derive(strum::AsRefStr, strum::EnumIs, strum::EnumString, strum::Display, strum::EnumIter)"@,
            ));
        }
    }
    if any_compare(vs) {
        let ghost r0 = r.deep_view();
        r.push(InnerAttribute { meta: String::from_str("derive(CompareToStr)") });
        proof {
            assert(r.deep_view() =~= r0.push("derive(CompareToStr)"@));
        }
    }
    let ghost r3 = r.deep_view();
    let mut user = find_and_parse_inner_attrs(&decl.inner_attrs);
    r.append(&mut user);
    proof {
        assert(r.deep_view() =~= r3 + d.inner_attrs);
    }
    if decl.non_exhaustive {
        let ghost r4 = r.deep_view();
        r.push(InnerAttribute { meta: String::from_str("non_exhaustive") });
        proof {
            assert(r.deep_view() =~= r4.push("non_exhaustive"@));
        }
    }
    r
}

/// `pre` extended with the emitted attribute lines from position `j` on.
pub open spec fn spec_attr_lines_app(pre: Seq<char>, metas: Seq<Seq<char>>, j: int) -> Seq<char>
    decreases metas.len() - j,
{
    if j < 0 || j >= metas.len() {
        pre
    } else {
        spec_attr_lines_app(spec_inner_attr_app(pre, metas[j]), metas, j + 1)
    }
}

/// Appends every attribute line to `out`.
pub fn emit_attr_lines(out: &mut String, attrs: &Vec<InnerAttribute>)
    ensures
        final(out)@ == spec_attr_lines_app(old(out)@, attrs.deep_view(), 0),
{
    let ghost metas = attrs.deep_view();
    let ghost pre = out@;
    let mut j: usize = 0;
    while j < attrs.len()
        invariant
            j <= attrs.len(),
            metas == attrs.deep_view(),
            spec_attr_lines_app(out@, metas, j as int) == spec_attr_lines_app(pre, metas, 0),
        decreases attrs.len() - j,
    {
        attrs[j].to_tokens(out);
        j = j + 1;
    }
}

/// `pre` extended with the key-variant declarations from position `j` on.
pub open spec fn spec_variant_decls_app(pre: Seq<char>, vs: Seq<VariantModel>, j: int) -> Seq<char>
    decreases vs.len() - j,
{
    if j < 0 || j >= vs.len() {
        pre
    } else {
        spec_variant_decls_app(spec_variant_decl_app(pre, vs[j]), vs, j + 1)
    }
}

/// Appends every key-variant declaration to `out`.
pub fn emit_variant_decls(out: &mut String, vs: &Vec<Variant>)
    ensures
        final(out)@ == spec_variant_decls_app(old(out)@, vs.deep_view(), 0),
{
    let ghost vsd = vs.deep_view();
    let ghost pre = out@;
    let mut j: usize = 0;
    while j < vs.len()
        invariant
            j <= vs.len(),
            vsd == vs.deep_view(),
            spec_variant_decls_app(out@, vsd, j as int) == spec_variant_decls_app(pre, vsd, 0),
        decreases vs.len() - j,
    {
        vs[j].to_tokens(out);
        j = j + 1;
    }
}

/// `pre` extended with the borrowed-view key-extraction arms from position
/// `j` on.
pub open spec fn spec_get_key_lines_app(
    pre: Seq<char>,
    e: Seq<char>,
    k: Seq<char>,
    vs: Seq<VariantModel>,
    j: int,
) -> Seq<char>
    decreases vs.len() - j,
{
    if j < 0 || j >= vs.len() {
        pre
    } else {
        spec_get_key_lines_app(spec_get_key_line_app(pre, e, k, vs[j]), e, k, vs, j + 1)
    }
}

/// Appends every borrowed-view key-extraction arm to `out`.
pub fn emit_get_key_lines(out: &mut String, e: &str, k: &str, vs: &Vec<Variant>)
    requires
        spec_all_wf(vs.deep_view()),
    ensures
        final(out)@ == spec_get_key_lines_app(old(out)@, e@, k@, vs.deep_view(), 0),
{
    let ghost vsd = vs.deep_view();
    let ghost pre = out@;
    let mut j: usize = 0;
    while j < vs.len()
        invariant
            j <= vs.len(),
            vsd == vs.deep_view(),
            spec_all_wf(vsd),
            spec_get_key_lines_app(out@, e@, k@, vsd, j as int) == spec_get_key_lines_app(
                pre,
                e@,
                k@,
                vsd,
                0,
            ),
        decreases vs.len() - j,
    {
        vs[j].create_get_key_line(e, k, out);
        j = j + 1;
    }
}

/// `pre` extended with the owned key-extraction arms from position `j` on.
pub open spec fn spec_get_key_lines_owned_app(
    pre: Seq<char>,
    e: Seq<char>,
    k: Seq<char>,
    vs: Seq<VariantModel>,
    j: int,
) -> Seq<char>
    decreases vs.len() - j,
{
    if j < 0 || j >= vs.len() {
        pre
    } else {
        spec_get_key_lines_owned_app(
            spec_get_key_line_owned_app(pre, e, k, vs[j]),
            e,
            k,
            vs,
            j + 1,
        )
    }
}

/// Appends every owned key-extraction arm to `out`.
pub fn emit_get_key_lines_owned(out: &mut String, e: &str, k: &str, vs: &Vec<Variant>)
    requires
        spec_all_wf(vs.deep_view()),
    ensures
        final(out)@ == spec_get_key_lines_owned_app(old(out)@, e@, k@, vs.deep_view(), 0),
{
    let ghost vsd = vs.deep_view();
    let ghost pre = out@;
    let mut j: usize = 0;
    while j < vs.len()
        invariant
            j <= vs.len(),
            vsd == vs.deep_view(),
            spec_all_wf(vsd),
            spec_get_key_lines_owned_app(out@, e@, k@, vsd, j as int)
                == spec_get_key_lines_owned_app(pre, e@, k@, vsd, 0),
        decreases vs.len() - j,
    {
        vs[j].create_get_key_line_owned(e, k, out);
        j = j + 1;
    }
}

/// `pre` extended with the equality arms from position `j` on.
pub open spec fn spec_eq_arms_app(
    pre: Seq<char>,
    e: Seq<char>,
    k: Seq<char>,
    vs: Seq<VariantModel>,
    j: int,
) -> Seq<char>
    decreases vs.len() - j,
{
    if j < 0 || j >= vs.len() {
        pre
    } else {
        spec_eq_arms_app(spec_partial_eq_line_app(pre, e, k, vs[j]), e, k, vs, j + 1)
    }
}

/// Appends every equality arm to `out`.
pub fn emit_eq_arms(out: &mut String, e: &str, k: &str, vs: &Vec<Variant>)
    requires
        spec_all_wf(vs.deep_view()),
    ensures
        final(out)@ == spec_eq_arms_app(old(out)@, e@, k@, vs.deep_view(), 0),
{
    let ghost vsd = vs.deep_view();
    let ghost pre = out@;
    let mut j: usize = 0;
    while j < vs.len()
        invariant
            j <= vs.len(),
            vsd == vs.deep_view(),
            spec_all_wf(vsd),
            spec_eq_arms_app(out@, e@, k@, vsd, j as int) == spec_eq_arms_app(pre, e@, k@, vsd, 0),
        decreases vs.len() - j,
    {
        vs[j].create_partial_eq_line(e, k, out);
        j = j + 1;
    }
}

/// `pre` extended with the upgrade-to-owned arms from position `j` on.
pub open spec fn spec_to_owned_lines_app(
    pre: Seq<char>,
    k: Seq<char>,
    vs: Seq<VariantModel>,
    j: int,
) -> Seq<char>
    decreases vs.len() - j,
{
    if j < 0 || j >= vs.len() {
        pre
    } else {
        spec_to_owned_lines_app(spec_to_owned_line_app(pre, k, vs[j]), k, vs, j + 1)
    }
}

/// Appends every upgrade-to-owned arm to `out`.
pub fn emit_to_owned_lines(out: &mut String, k: &str, vs: &Vec<Variant>)
    ensures
        final(out)@ == spec_to_owned_lines_app(old(out)@, k@, vs.deep_view(), 0),
{
    let ghost vsd = vs.deep_view();
    let ghost pre = out@;
    let mut j: usize = 0;
    while j < vs.len()
        invariant
            j <= vs.len(),
            vsd == vs.deep_view(),
            spec_to_owned_lines_app(out@, k@, vsd, j as int) == spec_to_owned_lines_app(
                pre,
                k@,
                vsd,
                0,
            ),
        decreases vs.len() - j,
    {
        vs[j].create_to_owned_line(k, out);
        j = j + 1;
    }
}

/// `pre` extended with the shared tail of the key-type output: the marker
/// impl for the key type and the symmetric equality relations between the
/// original type and the key type, variant by variant.
pub open spec fn spec_expand_inner_app(
    pre: Seq<char>,
    key_ref: Seq<char>,
    og: Seq<char>,
    key_name: Seq<char>,
    vs: Seq<VariantModel>,
) -> Seq<char> {
    let a1 = pre + "#[automatically_derived]\nimpl enum_helper::KeyEnum for "@;
    let a2 = a1 + key_ref;
    let a3 = a2 + " {}\n#[automatically_derived]\nimpl core::cmp::PartialEq<"@;
    let a4 = a3 + key_ref;
    let a5 = a4 + "> for "@;
    let a6 = a5 + og;
    let a7 = a6 + " {\n    fn eq(&self, other: &"@;
    let a8 = a7 + key_ref;
    let a9 = a8 + ") -> bool {\n        match (self, other) {\n"@;
    let a10 = spec_eq_arms_app(a9, og, key_name, vs, 0);
    let a11 = a10
        + "            _ => false,\n        }\n    }\n}\n#[automatically_derived]\nimpl core::cmp::PartialEq<"@;
    let a12 = a11 + key_ref;
    let a13 = a12 + "> for &"@;
    let a14 = a13 + og;
    let a15 = a14 + " {\n    fn eq(&self, other: &"@;
    let a16 = a15 + key_ref;
    let a17 = a16 + ") -> bool {\n        match (self, other) {\n"@;
    let a18 = spec_eq_arms_app(a17, og, key_name, vs, 0);
    let a19 = a18
        + "            _ => false,\n        }\n    }\n}\n#[automatically_derived]\nimpl core::cmp::PartialEq<"@;
    let a20 = a19 + og;
    let a21 = a20 + "> for "@;
    let a22 = a21 + key_ref;
    let a23 = a22 + " {\n    fn eq(&self, other: &"@;
    let a24 = a23 + og;
    let a25 = a24 + ") -> bool {\n        match (other, self) {\n"@;
    let a26 = spec_eq_arms_app(a25, og, key_name, vs, 0);
    a26 + "            _ => false,\n        }\n    }\n}\n"@
}

/// Appends the shared tail of the key-type output to `out`.
pub fn expand_inner(key_ref: &str, og: &str, key_name: &str, vs: &Vec<Variant>, out: &mut String)
    requires
        spec_all_wf(vs.deep_view()),
    ensures
        final(out)@ == spec_expand_inner_app(old(out)@, key_ref@, og@, key_name@, vs.deep_view()),
{
    out.append("#[automatically_derived]\nimpl enum_helper::KeyEnum for ");
    out.append(key_ref);
    out.append(" {}\n#[automatically_derived]\nimpl core::cmp::PartialEq<");
    out.append(key_ref);
    out.append("> for ");
    out.append(og);
    out.append(" {\n    fn eq(&self, other: &");
    out.append(key_ref);
    out.append(") -> bool {\n        match (self, other) {\n");
    emit_eq_arms(out, og, key_name, vs);
    out.append(
        "            _ => false,\n        }\n    }\n}\n#[automatically_derived]\nimpl core::cmp::PartialEq<",
    );
    out.append(key_ref);
    out.append("> for &");
    out.append(og);
    out.append(" {\n    fn eq(&self, other: &");
    out.append(key_ref);
    out.append(") -> bool {\n        match (self, other) {\n");
    emit_eq_arms(out, og, key_name, vs);
    out.append(
        "            _ => false,\n        }\n    }\n}\n#[automatically_derived]\nimpl core::cmp::PartialEq<",
    );
    out.append(og);
    out.append("> for ");
    out.append(key_ref);
    out.append(" {\n    fn eq(&self, other: &");
    out.append(og);
    out.append(") -> bool {\n        match (other, self) {\n");
    emit_eq_arms(out, og, key_name, vs);
    out.append("            _ => false,\n        }\n    }\n}\n");
}

/// `pre` extended with the whole key-type output under copy-on-write
/// storage: the lifetime-carrying key enum, the upgrade-to-owned operation,
/// the key-extraction operations (the owned one allocating, the borrowed one
/// borrowing from the source), and the equality relations.
pub open spec fn spec_expand_cow_app(
    pre: Seq<char>,
    og: Seq<char>,
    metas: Seq<Seq<char>>,
    vs: Seq<VariantModel>,
    key_name: Seq<char>,
) -> Seq<char> {
    let b1 = spec_attr_lines_app(pre, metas, 0);
    let b2 = b1 + "pub enum "@;
    let b3 = b2 + key_name;
    let b4 = b3 + "<'a> {\n"@;
    let b5 = spec_variant_decls_app(b4, vs, 0);
    let b6 = b5 + "}\n#[automatically_derived]\nimpl "@;
    let b7 = b6 + key_name;
    let b8 = b7
        + "<'_> {\n    /// Creates a new copy of the Enum.\n    ///\n    /// For the Default variant it will create a new owned copy of the default value.\n    pub fn to_owned(&self) -> "@;
    let b9 = b8 + key_name;
    let b10 = b9 + "<'static> {\n        match self {\n"@;
    let b11 = spec_to_owned_lines_app(b10, key_name, vs, 0);
    let b12 = b11
        + "        }\n    }\n}\n#[automatically_derived]\nimpl enum_helper::HasKeyEnum for "@;
    let b13 = b12 + og;
    let b14 = b13 + " {\n    type KeyEnum<'a> = "@;
    let b15 = b14 + key_name;
    let b16 = b15
        + "<'a> where Self: 'a;\n    fn get_key(&self) -> Self::KeyEnum<'static> {\n        match self {\n"@;
    let b17 = spec_get_key_lines_owned_app(b16, og, key_name, vs, 0);
    let b18 = b17
        + "        }\n    }\n    fn get_key_borrowed(&self) -> Self::KeyEnum<'_> {\n        match self {\n"@;
    let b19 = spec_get_key_lines_app(b18, og, key_name, vs, 0);
    let b20 = b19 + "        }\n    }\n}\n"@;
    spec_expand_inner_app(b20, key_name + "<'_>"@, og, key_name, vs)
}

/// Appends the copy-on-write key-type output to `out`.
pub fn expand_cow(
    name: &str,
    inner_attrs: &Vec<InnerAttribute>,
    variants: &Vec<Variant>,
    key_name: &str,
    out: &mut String,
)
    requires
        spec_all_wf(variants.deep_view()),
    ensures
        final(out)@ == spec_expand_cow_app(
            old(out)@,
            name@,
            inner_attrs.deep_view(),
            variants.deep_view(),
            key_name@,
        ),
{
    emit_attr_lines(out, inner_attrs);
    out.append("pub enum ");
    out.append(key_name);
    out.append("<'a> {\n");
    emit_variant_decls(out, variants);
    out.append("}\n#[automatically_derived]\nimpl ");
    out.append(key_name);
    out.append(
        "<'_> {\n    /// Creates a new copy of the Enum.\n    ///\n    /// For the Default variant it will create a new owned copy of the default value.\n    pub fn to_owned(&self) -> ",
    );
    out.append(key_name);
    out.append("<'static> {\n        match self {\n");
    emit_to_owned_lines(out, key_name, variants);
    out.append("        }\n    }\n}\n#[automatically_derived]\nimpl enum_helper::HasKeyEnum for ");
    out.append(name);
    out.append(" {\n    type KeyEnum<'a> = ");
    out.append(key_name);
    out.append(
        "<'a> where Self: 'a;\n    fn get_key(&self) -> Self::KeyEnum<'static> {\n        match self {\n",
    );
    emit_get_key_lines_owned(out, name, key_name, variants);
    out.append(
        "        }\n    }\n    fn get_key_borrowed(&self) -> Self::KeyEnum<'_> {\n        match self {\n",
    );
    emit_get_key_lines(out, name, key_name, variants);
    out.append("        }\n    }\n}\n");
    let mut key_ref = String::from_str(key_name);
    key_ref.append("<'_>");
    expand_inner(key_ref.as_str(), name, key_name, variants, out);
}

/// `pre` extended with the whole key-type output under owned storage: the
/// lifetime-free key enum, the key-extraction operations (both of which
/// clone for the default variant), and the equality relations.
pub open spec fn spec_expand_no_cow_app(
    pre: Seq<char>,
    og: Seq<char>,
    metas: Seq<Seq<char>>,
    vs: Seq<VariantModel>,
    key_name: Seq<char>,
) -> Seq<char> {
    let b1 = spec_attr_lines_app(pre, metas, 0);
    let b2 = b1 + "pub enum "@;
    let b3 = b2 + key_name;
    let b4 = b3 + " {\n"@;
    let b5 = spec_variant_decls_app(b4, vs, 0);
    let b6 = b5 + "}\n#[automatically_derived]\nimpl enum_helper::HasKeyEnum for "@;
    let b7 = b6 + og;
    let b8 = b7 + " {\n    type KeyEnum<'a> = "@;
    let b9 = b8 + key_name;
    let b10 = b9
        + " where Self: 'a;\n    fn get_key(&self) -> Self::KeyEnum<'static> {\n        match self {\n"@;
    let b11 = spec_get_key_lines_app(b10, og, key_name, vs, 0);
    let b12 = b11
        + "        }\n    }\n    fn get_key_borrowed(&self) -> Self::KeyEnum<'_> {\n        match self {\n"@;
    let b13 = spec_get_key_lines_app(b12, og, key_name, vs, 0);
    let b14 = b13 + "        }\n    }\n}\n"@;
    spec_expand_inner_app(b14, key_name, og, key_name, vs)
}

/// Appends the owned-storage key-type output to `out`.
pub fn expand_no_cow(
    name: &str,
    inner_attrs: &Vec<InnerAttribute>,
    variants: &Vec<Variant>,
    key_name: &str,
    out: &mut String,
)
    requires
        spec_all_wf(variants.deep_view()),
    ensures
        final(out)@ == spec_expand_no_cow_app(
            old(out)@,
            name@,
            inner_attrs.deep_view(),
            variants.deep_view(),
            key_name@,
        ),
{
    emit_attr_lines(out, inner_attrs);
    out.append("pub enum ");
    out.append(key_name);
    out.append(" {\n");
    emit_variant_decls(out, variants);
    out.append("}\n#[automatically_derived]\nimpl enum_helper::HasKeyEnum for ");
    out.append(name);
    out.append(" {\n    type KeyEnum<'a> = ");
    out.append(key_name);
    out.append(
        " where Self: 'a;\n    fn get_key(&self) -> Self::KeyEnum<'static> {\n        match self {\n",
    );
    emit_get_key_lines(out, name, key_name, variants);
    out.append(
        "        }\n    }\n    fn get_key_borrowed(&self) -> Self::KeyEnum<'_> {\n        match self {\n",
    );
    emit_get_key_lines(out, name, key_name, variants);
    out.append("        }\n    }\n}\n");
    expand_inner(key_name, name, key_name, variants, out);
}

/// What the key-type generator emits for a declaration, or the first
/// diagnostic: a non-variant type and a missing type-level site are hard
/// errors; then the site is parsed, each variant is validated in declaration
/// order, and the chosen storage strategy is rendered, followed by the
/// string-codec logic for the key type when codec settings are present.
pub open spec fn spec_expand_keys(d: TypeDeclModel) -> Result<Seq<char>, BuildErrorModel> {
    if !d.is_enum {
        Err(BuildErrorModel::NotAVariantType)
    } else {
        match d.key_attr {
            None => Err(BuildErrorModel::MissingKeyTypeName),
            Some(site) => match spec_parse_enum_of_keys(site) {
                Err(e) => Err(e),
                Ok(ea) => match spec_build_variants(
                    d.variants,
                    0,
                    ea.store_default_in_cow,
                    Seq::empty(),
                ) {
                    Err(e) => Err(e),
                    Ok(vs) => {
                        let metas = spec_key_attr_metas(d, ea, vs);
                        let body = if ea.store_default_in_cow {
                            spec_expand_cow_app(Seq::<char>::empty(), d.name, metas, vs, ea.name)
                        } else {
                            spec_expand_no_cow_app(Seq::<char>::empty(), d.name, metas, vs, ea.name)
                        };
                        if ea.serde is Some {
                            let ser_name = if ea.store_default_in_cow {
                                ea.name + "<'_>"@
                            } else {
                                ea.name
                            };
                            let de_name = if ea.store_default_in_cow {
                                ea.name + "<'static>"@
                            } else {
                                ea.name
                            };
                            let s1 = spec_serialize_source_app(body, ea.serde->0, ser_name);
                            Ok(spec_deserialize_source_app(s1, ea.serde->0, de_name))
                        } else {
                            Ok(body)
                        }
                    },
                },
            },
        }
    }
}

/// Runs the key-type generator on one annotated declaration and returns the
/// emitted source, or the first diagnostic with nothing emitted.
pub fn expand(decl: &TypeDecl) -> (r: Result<String, BuildError>)
    ensures
        ({
            let sp = spec_expand_keys(decl.deep_view());
            match r {
                Ok(s) => sp == Ok::<Seq<char>, BuildErrorModel>(s@),
                Err(e) => sp == Err::<Seq<char>, BuildErrorModel>(e.deep_view()),
            }
        }),
{
    if !decl.is_enum {
        return Err(BuildError::NotAVariantType);
    }
    let ea = match &decl.key_attr {
        None => {
            return Err(BuildError::MissingKeyTypeName);
        },
        Some(site) => match EnumOfKeysAttribute::parse(site) {
            Ok(a) => a,
            Err(e) => {
                return Err(e);
            },
        },
    };
    let ghost d = decl.deep_view();
    let ghost vds = d.variants;
    let mut vs: Vec<Variant> = Vec::new();
    let mut k: usize = 0;
    proof {
        assert(vs.deep_view() =~= Seq::<VariantModel>::empty());
    }
    while k < decl.variants.len()
        invariant
            k <= decl.variants.len(),
            d == decl.deep_view(),
            vds == d.variants,
            d.is_enum,
            d.key_attr is Some,
            spec_parse_enum_of_keys(d.key_attr->0) == Ok::<EnumOfKeysAttrModel, BuildErrorModel>(
                ea.deep_view(),
            ),
            spec_all_wf(vs.deep_view()),
            spec_build_variants(vds, k as int, ea.store_default_in_cow, vs.deep_view())
                == spec_build_variants(vds, 0, ea.store_default_in_cow, Seq::empty()),
        decreases decl.variants.len() - k,
    {
        let ghost vs0 = vs.deep_view();
        let v = match Variant::new(&decl.variants[k], ea.store_default_in_cow) {
            Ok(v) => v,
            Err(e) => {
                return Err(e);
            },
        };
        let ghost vview = v.deep_view();
        vs.push(v);
        proof {
            assert(vs.deep_view() =~= vs0.push(vview));
        }
        k = k + 1;
    }
    let attrs = key_attr_list(decl, &ea, &vs);
    let mut out = String::new();
    if ea.store_default_in_cow {
        expand_cow(decl.name.as_str(), &attrs, &vs, ea.name.as_str(), &mut out);
    } else {
        expand_no_cow(decl.name.as_str(), &attrs, &vs, ea.name.as_str(), &mut out);
    }
    if let Some(settings) = &ea.serde {
        if ea.store_default_in_cow {
            let mut ser_name = ea.name.clone();
            ser_name.append("<'_>");
            let mut de_name = ea.name.clone();
            de_name.append("<'static>");
            emit_serialize(&mut out, settings, ser_name.as_str());
            emit_deserialize(&mut out, settings, de_name.as_str());
        } else {
            emit_serialize(&mut out, settings, ea.name.as_str());
            emit_deserialize(&mut out, settings, ea.name.as_str());
        }
    }
    Ok(out)
}

} // verus!
