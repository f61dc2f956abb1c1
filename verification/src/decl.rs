//! The caller-supplied declaration tree: a type name, an ordered list of
//! variants with their field shapes, and the raw token sequence of each
//! attribute site. The host compiler's own parser produces this shape; the
//! crate reads nothing else of the source.

use vstd::prelude::*;
use crate::tokens::{Tok, TokModel};

verus! {

/// The field shape of one variant.
#[derive(Debug)]
pub enum FieldShape {
    /// No fields.
    Unit,
    /// Named fields, in declaration order.
    Named(Vec<String>),
    /// Unnamed (tuple) fields; only their count matters here.
    Unnamed(u64),
}

/// The mathematical form of a `FieldShape`.
pub enum FieldShapeModel {
    Unit,
    Named(Seq<Seq<char>>),
    Unnamed(u64),
}

impl DeepView for FieldShape {
    type V = FieldShapeModel;

    open spec fn deep_view(&self) -> FieldShapeModel {
        match self {
            FieldShape::Unit => FieldShapeModel::Unit,
            FieldShape::Named(fields) => FieldShapeModel::Named(fields.deep_view()),
            FieldShape::Unnamed(n) => FieldShapeModel::Unnamed(*n),
        }
    }
}

/// One variant of the annotated type, with the attribute sites that belong
/// to it: at most one key-type site, any number of compare-string sites, and
/// the pass-through attributes destined for the generated key variant.
#[derive(Debug)]
pub struct VariantDecl {
    pub name: String,
    pub shape: FieldShape,
    pub key_attr: Option<Vec<Tok>>,
    pub compare_attrs: Vec<Vec<Tok>>,
    pub inner_attrs: Vec<String>,
}

/// The mathematical form of a `VariantDecl`.
pub struct VariantDeclModel {
    pub name: Seq<char>,
    pub shape: FieldShapeModel,
    pub key_attr: Option<Seq<TokModel>>,
    pub compare_attrs: Seq<Seq<TokModel>>,
    pub inner_attrs: Seq<Seq<char>>,
}

impl DeepView for VariantDecl {
    type V = VariantDeclModel;

    open spec fn deep_view(&self) -> VariantDeclModel {
        VariantDeclModel {
            name: self.name@,
            shape: self.shape.deep_view(),
            key_attr: match &self.key_attr {
                Some(toks) => Some(toks.deep_view()),
                None => None,
            },
            compare_attrs: self.compare_attrs.deep_view(),
            inner_attrs: self.inner_attrs.deep_view(),
        }
    }
}

/// The annotated declaration as a whole. `is_enum` records whether the host
/// declaration was a closed variant type at all; everything else mirrors the
/// attribute sites found on it.
#[derive(Debug)]
pub struct TypeDecl {
    pub name: String,
    pub is_enum: bool,
    pub variants: Vec<VariantDecl>,
    pub key_attr: Option<Vec<Tok>>,
    pub compare_attr: Option<Vec<Tok>>,
    pub serde_attr: Option<Vec<Tok>>,
    pub inner_attrs: Vec<String>,
    pub non_exhaustive: bool,
}

/// The mathematical form of a `TypeDecl`.
pub struct TypeDeclModel {
    pub name: Seq<char>,
    pub is_enum: bool,
    pub variants: Seq<VariantDeclModel>,
    pub key_attr: Option<Seq<TokModel>>,
    pub compare_attr: Option<Seq<TokModel>>,
    pub serde_attr: Option<Seq<TokModel>>,
    pub inner_attrs: Seq<Seq<char>>,
    pub non_exhaustive: bool,
}

impl DeepView for TypeDecl {
    type V = TypeDeclModel;

    open spec fn deep_view(&self) -> TypeDeclModel {
        TypeDeclModel {
            name: self.name@,
            is_enum: self.is_enum,
            variants: self.variants.deep_view(),
            key_attr: match &self.key_attr {
                Some(toks) => Some(toks.deep_view()),
                None => None,
            },
            compare_attr: match &self.compare_attr {
                Some(toks) => Some(toks.deep_view()),
                None => None,
            },
            serde_attr: match &self.serde_attr {
                Some(toks) => Some(toks.deep_view()),
                None => None,
            },
            inner_attrs: self.inner_attrs.deep_view(),
            non_exhaustive: self.non_exhaustive,
        }
    }
}

} // verus!
