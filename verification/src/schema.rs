//! The declaration that is analyzed: an ordered list of named variants.

use vstd::prelude::*;
use crate::text::{text_eq, texts};

verus! {

/// The kind of type declaration a schema was read from.
#[derive(Clone, Copy, Debug, PartialEq, Eq, Structural)]
pub enum SchemaKind {
    Enum,
    Struct,
    Union,
}

/// The fields a variant carries.
#[derive(Clone, Copy, Debug, PartialEq, Eq, Structural)]
pub enum FieldShape {
    /// A bare name.
    NoFields,
    /// This many unnamed fields.
    Positional(usize),
    /// This many named fields.
    Named(usize),
}

/// A marker that the analysis recognizes among the annotations of a type or
/// of a variant.
#[derive(Clone, Copy, Debug, PartialEq, Eq, Structural)]
pub enum AnnotationFlag {
    /// Never read the index straight from the value's storage.
    DisallowBitcopy,
}

/// The explicit discriminant of a variant, as written.
#[derive(Clone, Debug, PartialEq, Eq)]
pub enum Discriminant {
    /// None given.
    Absent,
    /// An integer literal, by the base-ten digits of its value: `16` for
    /// `0x10`, `1000` for `1_000u32`.
    Literal(String),
    /// Any other expression, by its source text. It is never evaluated.
    Expression(String),
}

/// One declared case.
#[derive(Clone, Debug, PartialEq, Eq)]
pub struct VariantSpec {
    pub name: String,
    pub shape: FieldShape,
    pub discriminant: Discriminant,
    /// The names of the annotations on this variant, as written.
    pub annotations: Vec<String>,
}

/// A type declaration. The position of a variant in `variants` is its ordinal.
#[derive(Clone, Debug, PartialEq, Eq)]
pub struct EnumSchema {
    pub name: String,
    pub kind: SchemaKind,
    pub variants: Vec<VariantSpec>,
    /// The names of the annotations on the type, as written.
    pub annotations: Vec<String>,
}

/// Mathematical model of a `Discriminant`.
pub enum DiscriminantModel {
    Absent,
    Literal(Seq<char>),
    Expression(Seq<char>),
}

/// Mathematical model of a `VariantSpec`.
pub struct VariantModel {
    pub name: Seq<char>,
    pub shape: FieldShape,
    pub discriminant: DiscriminantModel,
    pub annotations: Seq<Seq<char>>,
}

/// Mathematical model of an `EnumSchema`.
pub struct SchemaModel {
    pub name: Seq<char>,
    pub kind: SchemaKind,
    pub variants: Seq<VariantModel>,
    pub annotations: Seq<Seq<char>>,
}

impl View for Discriminant {
    type V = DiscriminantModel;

    open spec fn view(&self) -> DiscriminantModel {
        match *self {
            Discriminant::Absent => DiscriminantModel::Absent,
            Discriminant::Literal(text) => DiscriminantModel::Literal(text@),
            Discriminant::Expression(text) => DiscriminantModel::Expression(text@),
        }
    }
}

impl View for VariantSpec {
    type V = VariantModel;

    open spec fn view(&self) -> VariantModel {
        VariantModel {
            name: self.name@,
            shape: self.shape,
            discriminant: self.discriminant@,
            annotations: texts(self.annotations@),
        }
    }
}

/// The models of a run of variants, in the same order.
pub open spec fn variant_models(variants: Seq<VariantSpec>) -> Seq<VariantModel> {
    Seq::new(variants.len(), |i: int| variants[i]@)
}

impl View for EnumSchema {
    type V = SchemaModel;

    open spec fn view(&self) -> SchemaModel {
        SchemaModel {
            name: self.name@,
            kind: self.kind,
            variants: variant_models(self.variants@),
            annotations: texts(self.annotations@),
        }
    }
}

/// The marker that an annotation name stands for, if it is a recognized one.
pub open spec fn recognized(name: Seq<char>) -> Option<AnnotationFlag> {
    if name == "disallow-bitcopy"@ {
        Some(AnnotationFlag::DisallowBitcopy)
    } else {
        None
    }
}

/// Whether one of `annotations` forbids reading the index from storage.
pub open spec fn forbids_bitcopy(annotations: Seq<Seq<char>>) -> bool {
    exists|i: int|
        0 <= i < annotations.len() && recognized(#[trigger] annotations[i]) == Some(
            AnnotationFlag::DisallowBitcopy,
        )
}

impl SchemaModel {
    /// The marker is present on the type or on at least one variant.
    pub open spec fn flagged(self) -> bool {
        forbids_bitcopy(self.annotations) || exists|k: int|
            0 <= k < self.variants.len() && forbids_bitcopy(#[trigger] self.variants[k].annotations)
    }

    /// No two variants share a name.
    pub open spec fn names_distinct(self) -> bool {
        forall|i: int, j: int|
            0 <= i < j < self.variants.len() ==> (#[trigger] self.variants[i]).name != (
            #[trigger] self.variants[j]).name
    }

    /// The variant names in declaration order.
    pub open spec fn names(self) -> Seq<Seq<char>> {
        Seq::new(self.variants.len(), |i: int| self.variants[i].name)
    }
}

impl SchemaKind {
    /// The keyword that introduces a declaration of this kind.
    pub open spec fn word(self) -> Seq<char> {
        match self {
            SchemaKind::Enum => "enum"@,
            SchemaKind::Struct => "struct"@,
            SchemaKind::Union => "union"@,
        }
    }

    /// The keyword that introduces a declaration of this kind.
    pub fn keyword(&self) -> (word: &'static str)
        ensures
            word@ == self.word(),
    {
        match self {
            SchemaKind::Enum => "enum",
            SchemaKind::Struct => "struct",
            SchemaKind::Union => "union",
        }
    }
}

impl VariantSpec {
    /// A variant with the given shape and discriminant and no annotations.
    pub fn new(name: &str, shape: FieldShape, discriminant: Discriminant) -> (variant: VariantSpec)
        ensures
            variant@ == (VariantModel {
                name: name@,
                shape,
                discriminant: discriminant@,
                annotations: Seq::empty(),
            }),
    {
        let variant = VariantSpec {
            name: name.to_owned(),
            shape,
            discriminant,
            annotations: Vec::new(),
        };
        assert(variant@.annotations =~= Seq::empty());
        variant
    }

    /// A variant with no fields, no explicit discriminant and no annotations.
    pub fn unit(name: &str) -> (variant: VariantSpec)
        ensures
            variant@ == (VariantModel {
                name: name@,
                shape: FieldShape::NoFields,
                discriminant: DiscriminantModel::Absent,
                annotations: Seq::empty(),
            }),
    {
        VariantSpec::new(name, FieldShape::NoFields, Discriminant::Absent)
    }
}

impl EnumSchema {
    /// A declaration of the given kind with these variants and no
    /// annotations on the type.
    pub fn new(name: &str, kind: SchemaKind, variants: Vec<VariantSpec>) -> (schema: EnumSchema)
        ensures
            schema@ == (SchemaModel {
                name: name@,
                kind,
                variants: variant_models(variants@),
                annotations: Seq::empty(),
            }),
    {
        let schema = EnumSchema { name: name.to_owned(), kind, variants, annotations: Vec::new() };
        assert(schema@.annotations =~= Seq::empty());
        schema
    }

    /// Decides whether no two variants share a name.
    pub fn has_distinct_names(&self) -> (distinct: bool)
        ensures
            distinct == self@.names_distinct(),
    {
        let count: usize = self.variants.len();
        let mut j: usize = 0;
        while j < count
            invariant
                count == self.variants.len(),
                j <= count,
                forall|a: int, b: int|
                    0 <= a < b < j ==> (#[trigger] self@.variants[a]).name != (
                    #[trigger] self@.variants[b]).name,
            decreases count - j,
        {
            let mut i: usize = 0;
            while i < j
                invariant
                    count == self.variants.len(),
                    i <= j < count,
                    forall|a: int|
                        0 <= a < i ==> (#[trigger] self@.variants[a]).name
                            != self@.variants[j as int].name,
                decreases j - i,
            {
                assert(self@.variants[i as int] == self.variants@[i as int]@);
                assert(self@.variants[j as int] == self.variants@[j as int]@);
                if text_eq(self.variants[i].name.as_str(), self.variants[j].name.as_str()) {
                    return false;
                }
                i = i + 1;
            }
            j = j + 1;
        }
        true
    }
}

impl AnnotationFlag {
    /// Recognizes an annotation by its name. Only `disallow-bitcopy` is known.
    pub fn recognize(name: &str) -> (flag: Option<AnnotationFlag>)
        ensures
            flag == recognized(name@),
    {
        if text_eq(name, "disallow-bitcopy") {
            Some(AnnotationFlag::DisallowBitcopy)
        } else {
            None
        }
    }
}

/// Decides whether a list of annotation names forbids reading the index from
/// storage.
pub fn has_disallow_bitcopy(annotations: &Vec<String>) -> (found: bool)
    ensures
        found == forbids_bitcopy(texts(annotations@)),
{
    let mut i: usize = 0;
    while i < annotations.len()
        invariant
            i <= annotations.len(),
            forall|j: int|
                0 <= j < i ==> recognized(#[trigger] texts(annotations@)[j]) != Some(
                    AnnotationFlag::DisallowBitcopy,
                ),
        decreases annotations.len() - i,
    {
        assert(texts(annotations@)[i as int] == annotations@[i as int]@);
        match AnnotationFlag::recognize(annotations[i].as_str()) {
            Some(AnnotationFlag::DisallowBitcopy) => {
                return true;
            },
            None => {},
        }
        i = i + 1;
    }
    false
}

} // verus!
