//! What holds of every schema, stated over the models that the contracts of
//! the analyzer and the emitter use.

use vstd::prelude::*;
use crate::analyzer::{
    analysis_model, analysis_outcome, branch_plans, fast_path_legal, keeps_default_layout,
    literal_deviates, AnalysisModel, AnalysisResult, PlanModel, SchemaError,
};
use crate::emitter::{capabilities_of, first_match, CapabilitiesModel, StrategyModel};
use crate::layout::{is_value_of, lemma_legal_tags_are_ordinals, ValueModel};
use crate::reflection_outcome;
use crate::schema::{DiscriminantModel, EnumSchema, FieldShape, SchemaKind, SchemaModel};

verus! {

/// In a branch table whose arms before `k` do not select `value` and whose
/// arm `k` does, the search from arm `i` on yields the index of arm `k`.
pub proof fn lemma_first_match_at(plans: Seq<PlanModel>, value: ValueModel, i: int, k: int)
    requires
        0 <= i <= k < plans.len(),
        forall|j: int| i <= j < k ==> !(#[trigger] plans[j]).pattern.selects(value),
        plans[k].pattern.selects(value),
    ensures
        first_match(plans.skip(i), value) == Some(plans[k].index),
    decreases k - i,
{
    let rest = plans.skip(i);
    assert(rest[0] == plans[i]);
    if i < k {
        assert(rest.skip(1) =~= plans.skip(i + 1));
        lemma_first_match_at(plans, value, i + 1, k);
    }
}

/// The branch table of a schema is exhaustive: it has an arm for every value
/// that carries the name of a declared variant, and the index it yields is
/// the ordinal of a variant with that name.
pub proof fn law_branch_table_is_exhaustive(schema: SchemaModel, value: ValueModel, k: int)
    requires
        0 <= k < schema.variants.len(),
        value.variant == schema.variants[k].name,
    ensures
        StrategyModel::BranchTable(branch_plans(schema)).index_of(value) matches Some(index)
            && index <= k && schema.variants[index as int].name == value.variant,
    decreases k,
{
    let plans = branch_plans(schema);
    if exists|j: int| 0 <= j < k && (#[trigger] plans[j]).pattern.selects(value) {
        let j = choose|j: int| 0 <= j < k && (#[trigger] plans[j]).pattern.selects(value);
        law_branch_table_is_exhaustive(schema, value, j);
    } else {
        lemma_first_match_at(plans, value, 0, k);
        assert(plans.skip(0) =~= plans);
    }
}

/// The branch table of a schema with distinct variant names yields, for a
/// value whose active variant is the one at ordinal `k`, the index `k`.
pub proof fn law_branch_table_yields_ordinal(schema: SchemaModel, value: ValueModel, k: int)
    requires
        schema.names_distinct(),
        0 <= k < schema.variants.len(),
        value.variant == schema.variants[k].name,
    ensures
        StrategyModel::BranchTable(branch_plans(schema)).index_of(value) == Some(k as nat),
{
    law_branch_table_is_exhaustive(schema, value, k);
}

/// An enum whose variants all have no fields and no explicit discriminant,
/// and that carries no `disallow-bitcopy` marker, takes the fast path.
pub proof fn law_plain_enum_takes_fast_path(schema: SchemaModel)
    requires
        schema.kind == SchemaKind::Enum,
        !schema.flagged(),
        forall|k: int|
            0 <= k < schema.variants.len() ==> (#[trigger] schema.variants[k]).shape
                == FieldShape::NoFields && schema.variants[k].discriminant
                == DiscriminantModel::Absent,
    ensures
        analysis_outcome(schema) matches Ok(analysis) && analysis.fast_path_eligible,
        reflection_outcome(schema) matches Ok(capabilities) && capabilities.index_strategy
            == StrategyModel::DirectCast,
{
}

/// Wherever the fast path is taken, both strategies extract the declared
/// ordinal from every value of every variant, so they agree.
pub proof fn law_paths_agree(schema: SchemaModel, value: ValueModel, k: int)
    requires
        schema.names_distinct(),
        fast_path_legal(schema),
        is_value_of(schema, value, k),
    ensures
        StrategyModel::DirectCast.index_of(value) == Some(k as nat),
        StrategyModel::BranchTable(branch_plans(schema)).index_of(value) == Some(k as nat),
{
    lemma_legal_tags_are_ordinals(schema, k);
    law_branch_table_yields_ordinal(schema, value, k);
}

/// One variant with fields rules out the fast path for the whole enum,
/// whatever its annotations and discriminants are.
pub proof fn law_fields_forbid_fast_path(schema: SchemaModel, k: int)
    requires
        schema.kind == SchemaKind::Enum,
        0 <= k < schema.variants.len(),
        schema.variants[k].shape != FieldShape::NoFields,
    ensures
        analysis_outcome(schema) matches Ok(analysis) && !analysis.fast_path_eligible,
{
    assert(!keeps_default_layout(schema.variants[k], k as nat));
}

/// One integer literal discriminant that does not denote the ordinal of its
/// variant rules out the fast path for the whole enum.
pub proof fn law_deviating_literal_forbids_fast_path(schema: SchemaModel, k: int)
    requires
        schema.kind == SchemaKind::Enum,
        0 <= k < schema.variants.len(),
        literal_deviates(schema.variants[k], k as nat),
    ensures
        analysis_outcome(schema) matches Ok(analysis) && !analysis.fast_path_eligible,
{
    assert(!keeps_default_layout(schema.variants[k], k as nat));
}

/// One discriminant that is not a literal rules out the fast path for the
/// whole enum: the expression is never evaluated.
pub proof fn law_expression_forbids_fast_path(schema: SchemaModel, k: int)
    requires
        schema.kind == SchemaKind::Enum,
        0 <= k < schema.variants.len(),
        schema.variants[k].discriminant is Expression,
    ensures
        analysis_outcome(schema) matches Ok(analysis) && !analysis.fast_path_eligible,
{
    assert(!keeps_default_layout(schema.variants[k], k as nat));
}

/// A `disallow-bitcopy` marker on the type or on any one variant selects the
/// branch table for the whole enum.
pub proof fn law_marker_forces_branch_table(schema: SchemaModel)
    requires
        schema.kind == SchemaKind::Enum,
        schema.flagged(),
    ensures
        analysis_outcome(schema) matches Ok(analysis) && !analysis.fast_path_eligible,
        reflection_outcome(schema) matches Ok(capabilities) && capabilities.index_strategy
            == StrategyModel::BranchTable(branch_plans(schema)),
{
}

/// Whichever strategy is selected for an enum with distinct variant names,
/// it extracts from every value of the variant at ordinal `k` the index `k`.
pub proof fn law_variant_index_is_ordinal(schema: SchemaModel, value: ValueModel, k: int)
    requires
        schema.kind == SchemaKind::Enum,
        schema.names_distinct(),
        is_value_of(schema, value, k),
    ensures
        reflection_outcome(schema) matches Ok(capabilities)
            && capabilities.index_strategy.index_of(value) == Some(k as nat),
{
    if fast_path_legal(schema) {
        law_paths_agree(schema, value, k);
    } else {
        law_branch_table_yields_ordinal(schema, value, k);
    }
}

/// The emitted names are as many as the emitted count, which is the number
/// of declared variants, and the name at each ordinal is the declared name
/// of the variant there.
pub proof fn law_names_align_with_count(schema: SchemaModel, analysis: AnalysisModel)
    ensures
        capabilities_of(schema, analysis).variant_names.len() == capabilities_of(
            schema,
            analysis,
        ).variant_count,
        capabilities_of(schema, analysis).variant_count == schema.variants.len(),
        forall|i: int|
            0 <= i < schema.variants.len() ==> capabilities_of(schema, analysis).variant_names[i]
                == (#[trigger] schema.variants[i]).name,
{
}

/// Analysis is a function of the schema: whatever `analyze` hands back for
/// a schema, it hands back the same whenever it is asked again.
pub proof fn law_analysis_is_repeatable(
    schema: EnumSchema,
    first: Result<AnalysisResult, SchemaError>,
    second: Result<AnalysisResult, SchemaError>,
)
    requires
        analysis_model(first) == analysis_outcome(schema@),
        analysis_model(second) == analysis_outcome(schema@),
    ensures
        analysis_model(first) == analysis_model(second),
{
}

/// The position of a variant alone determines its index: two enums with
/// distinct variant names, however their variants are named and shaped,
/// give the values of their variants at ordinal `k` the same index `k`.
pub proof fn law_index_follows_order(
    before: SchemaModel,
    after: SchemaModel,
    old_value: ValueModel,
    new_value: ValueModel,
    k: int,
)
    requires
        before.kind == SchemaKind::Enum,
        after.kind == SchemaKind::Enum,
        before.names_distinct(),
        after.names_distinct(),
        is_value_of(before, old_value, k),
        is_value_of(after, new_value, k),
    ensures
        reflection_outcome(before) matches Ok(capabilities)
            && capabilities.index_strategy.index_of(old_value) == Some(k as nat),
        reflection_outcome(after) matches Ok(capabilities)
            && capabilities.index_strategy.index_of(new_value) == Some(k as nat),
        branch_plans(before)[k].index == branch_plans(after)[k].index,
{
    law_variant_index_is_ordinal(before, old_value, k);
    law_variant_index_is_ordinal(after, new_value, k);
}

/// Anything but an enum is rejected, and no capabilities are emitted for it.
pub proof fn law_only_enums_are_reflected(schema: SchemaModel)
    ensures
        schema.kind == SchemaKind::Enum <==> reflection_outcome(schema) is Ok,
        schema.kind != SchemaKind::Enum ==> reflection_outcome(schema) == Err::<
            CapabilitiesModel,
            SchemaError,
        >(SchemaError::NotAnEnum { found: schema.kind }),
{
}

} // verus!
