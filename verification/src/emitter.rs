//! The reflection emitter: turns a schema and its analysis into the three
//! capabilities that are installed on the type.

use vstd::prelude::*;
use crate::analyzer::{
    plan_models, AnalysisModel, AnalysisResult, BranchPlan, PatternModel, PlanModel,
};
use crate::layout::{EnumValue, ValueModel};
use crate::schema::{EnumSchema, SchemaModel};
use crate::text::{text_eq, texts};

verus! {

/// How the index of a value is extracted.
#[derive(Clone, Debug, PartialEq, Eq)]
pub enum IndexStrategy {
    /// Read the value's storage as an unsigned integer.
    DirectCast,
    /// Branch on the active variant: the first arm that matches yields the
    /// index.
    BranchTable(Vec<BranchPlan>),
}

/// What is installed on a reflected type.
#[derive(Clone, Debug, PartialEq, Eq)]
pub struct ReflectionCapabilities {
    /// The number of variants.
    pub variant_count: usize,
    /// The variant names, indexed by ordinal.
    pub variant_names: Vec<String>,
    /// How `variant_index` finds the ordinal of a value.
    pub index_strategy: IndexStrategy,
}

/// Mathematical model of an `IndexStrategy`.
pub enum StrategyModel {
    DirectCast,
    BranchTable(Seq<PlanModel>),
}

/// Mathematical model of `ReflectionCapabilities`.
pub struct CapabilitiesModel {
    pub variant_count: nat,
    pub variant_names: Seq<Seq<char>>,
    pub index_strategy: StrategyModel,
}

impl View for IndexStrategy {
    type V = StrategyModel;

    open spec fn view(&self) -> StrategyModel {
        match *self {
            IndexStrategy::DirectCast => StrategyModel::DirectCast,
            IndexStrategy::BranchTable(plans) => StrategyModel::BranchTable(plan_models(plans@)),
        }
    }
}

impl View for ReflectionCapabilities {
    type V = CapabilitiesModel;

    open spec fn view(&self) -> CapabilitiesModel {
        CapabilitiesModel {
            variant_count: self.variant_count as nat,
            variant_names: texts(self.variant_names@),
            index_strategy: self.index_strategy@,
        }
    }
}

impl PatternModel {
    /// The pattern selects a value by the name of its active variant alone:
    /// what the fields hold does not matter.
    pub open spec fn selects(self, value: ValueModel) -> bool {
        self.variant == value.variant
    }
}

/// The index that a branch table yields for `value`: that of the first arm
/// whose pattern selects the value, if there is one.
pub open spec fn first_match(plans: Seq<PlanModel>, value: ValueModel) -> Option<nat>
    decreases plans.len(),
{
    if plans.len() == 0 {
        None
    } else if plans[0].pattern.selects(value) {
        Some(plans[0].index)
    } else {
        first_match(plans.skip(1), value)
    }
}

impl CapabilitiesModel {
    /// There are as many names as the count says.
    pub open spec fn well_formed(self) -> bool {
        self.variant_names.len() == self.variant_count
    }
}

impl StrategyModel {
    /// The index that the strategy extracts from `value`. A branch table
    /// yields none for a value that no arm selects.
    pub open spec fn index_of(self, value: ValueModel) -> Option<nat> {
        match self {
            StrategyModel::DirectCast => Some(value.tag),
            StrategyModel::BranchTable(plans) => first_match(plans, value),
        }
    }
}

/// The strategy that an analysis selects.
pub open spec fn strategy_of(analysis: AnalysisModel) -> StrategyModel {
    if analysis.fast_path_eligible {
        StrategyModel::DirectCast
    } else {
        StrategyModel::BranchTable(analysis.plans)
    }
}

/// The capabilities emitted for a schema under a given analysis.
pub open spec fn capabilities_of(schema: SchemaModel, analysis: AnalysisModel) -> CapabilitiesModel {
    CapabilitiesModel {
        variant_count: schema.variants.len(),
        variant_names: schema.names(),
        index_strategy: strategy_of(analysis),
    }
}

/// Emits the capabilities of `schema` under `analysis`: the variant count,
/// the variant names in declaration order, and the index strategy that the
/// analysis selects.
pub fn emit(schema: &EnumSchema, analysis: AnalysisResult) -> (capabilities: ReflectionCapabilities)
    ensures
        capabilities@ == capabilities_of(schema@, analysis@),
        capabilities@.well_formed(),
{
    let mut names: Vec<String> = Vec::new();
    let mut k: usize = 0;
    while k < schema.variants.len()
        invariant
            k <= schema.variants.len(),
            names@.len() == k,
            forall|j: int| 0 <= j < k ==> (#[trigger] names@[j])@ == schema@.variants[j].name,
        decreases schema.variants.len() - k,
    {
        assert(schema@.variants[k as int] == schema.variants@[k as int]@);
        names.push(schema.variants[k].name.clone());
        k = k + 1;
    }
    let index_strategy = if analysis.fast_path_eligible {
        IndexStrategy::DirectCast
    } else {
        IndexStrategy::BranchTable(analysis.plans)
    };
    let capabilities = ReflectionCapabilities {
        variant_count: schema.variants.len(),
        variant_names: names,
        index_strategy,
    };
    assert(capabilities@.variant_names =~= schema@.names());
    capabilities
}

/// The index that a strategy extracts, as the machine would hold it.
pub open spec fn index_model(index: Option<usize>) -> Option<nat> {
    match index {
        Some(i) => Some(i as nat),
        None => None,
    }
}

impl ReflectionCapabilities {
    /// Extracts the index of `value` by the installed strategy, or finds
    /// that the strategy does not cover the value: a branch table has no arm
    /// for a value of another type.
    pub fn checked_variant_index(&self, value: &EnumValue) -> (index: Option<usize>)
        ensures
            index_model(index) == self@.index_strategy.index_of(value@),
    {
        match &self.index_strategy {
            IndexStrategy::DirectCast => Some(value.tag),
            IndexStrategy::BranchTable(plans) => {
                let ghost arms = plan_models(plans@);
                let mut i: usize = 0;
                assert(arms.skip(0) =~= arms);
                while i < plans.len()
                    invariant
                        arms == plan_models(plans@),
                        i <= plans.len(),
                        first_match(arms.skip(i as int), value@) == first_match(arms, value@),
                        self@.index_strategy.index_of(value@) == first_match(arms, value@),
                    decreases plans.len() - i,
                {
                    assert(arms.skip(i as int)[0] == plans@[i as int]@);
                    if text_eq(plans[i].pattern.variant.as_str(), value.variant.as_str()) {
                        return Some(plans[i].index);
                    }
                    assert(arms.skip(i as int).skip(1) =~= arms.skip(i + 1));
                    i = i + 1;
                }
                None
            },
        }
    }

    /// Extracts the index of a value that the installed strategy covers.
    pub fn variant_index(&self, value: &EnumValue) -> (index: usize)
        requires
            self@.index_strategy.index_of(value@).is_some(),
        ensures
            self@.index_strategy.index_of(value@) == Some(index as nat),
    {
        self.checked_variant_index(value).unwrap()
    }
}

} // verus!
