//! Values of a declared enum and the tags that the default layout gives them.

use vstd::prelude::*;
use crate::analyzer::{fast_path_legal, keeps_default_layout};
use crate::decimal::{decimal_value, lemma_decimal_value_of_text};
use crate::schema::{DiscriminantModel, SchemaModel};

verus! {

/// A value of a declared enum, reduced to what index extraction can observe.
#[derive(Clone, Debug, PartialEq, Eq)]
pub struct EnumValue {
    /// The name of the active variant.
    pub variant: String,
    /// The unsigned integer that the value's storage holds.
    pub tag: usize,
}

/// Mathematical model of an `EnumValue`.
pub struct ValueModel {
    pub variant: Seq<char>,
    pub tag: nat,
}

impl View for EnumValue {
    type V = ValueModel;

    open spec fn view(&self) -> ValueModel {
        ValueModel { variant: self.variant@, tag: self.tag as nat }
    }
}

impl EnumValue {
    /// A value whose active variant is named `variant` and whose storage
    /// holds `tag`.
    pub fn new(variant: &str, tag: usize) -> (value: EnumValue)
        ensures
            value@ == (ValueModel { variant: variant@, tag: tag as nat }),
    {
        EnumValue { variant: variant.to_owned(), tag }
    }
}

/// The tag of the variant at ordinal `k` under the default layout, where the
/// declaration determines it: the value of an integer literal discriminant,
/// else one more than the tag before it, starting from zero. An expression
/// that is not a literal leaves the tag undetermined.
pub open spec fn default_tag(schema: SchemaModel, k: int) -> Option<nat>
    decreases k,
{
    if k < 0 || k >= schema.variants.len() {
        None
    } else {
        match schema.variants[k].discriminant {
            DiscriminantModel::Absent => if k == 0 {
                Some(0)
            } else {
                match default_tag(schema, k - 1) {
                    Some(before) => Some(before + 1),
                    None => None,
                }
            },
            DiscriminantModel::Literal(digits) => decimal_value(digits),
            DiscriminantModel::Expression(_) => None,
        }
    }
}

/// Whether `value` is a value of the variant at ordinal `k`: it carries that
/// variant's name, and its storage holds that variant's tag wherever the
/// declaration determines the tag.
pub open spec fn is_value_of(schema: SchemaModel, value: ValueModel, k: int) -> bool {
    &&& 0 <= k < schema.variants.len()
    &&& value.variant == schema.variants[k].name
    &&& default_tag(schema, k) matches Some(tag) ==> value.tag == tag
}

/// Where the fast path is legal, the default layout numbers the variants
/// by their ordinals.
pub proof fn lemma_legal_tags_are_ordinals(schema: SchemaModel, k: int)
    requires
        fast_path_legal(schema),
        0 <= k < schema.variants.len(),
    ensures
        default_tag(schema, k) == Some(k as nat),
    decreases k,
{
    assert(keeps_default_layout(schema.variants[k], k as nat));
    match schema.variants[k].discriminant {
        DiscriminantModel::Absent => {
            if k > 0 {
                lemma_legal_tags_are_ordinals(schema, k - 1);
            }
        },
        DiscriminantModel::Literal(_) => {
            lemma_decimal_value_of_text(k as nat);
        },
        DiscriminantModel::Expression(_) => {},
    }
}

} // verus!
