//! The schema analyzer: decides whether the index of a value may be read
//! straight from its storage, and plans one branch per variant.

use vstd::prelude::*;
use vstd::string::StringExecFns;
use crate::decimal::{decimal_text, is_decimal_of};
use crate::schema::{
    forbids_bitcopy, has_disallow_bitcopy, Discriminant, DiscriminantModel, EnumSchema, FieldShape,
    SchemaKind, SchemaModel, VariantModel, VariantSpec,
};

verus! {

/// A pattern that matches one variant whatever its fields hold.
#[derive(Clone, Debug, PartialEq, Eq)]
pub struct VariantPattern {
    /// The name of the variant that the pattern matches.
    pub variant: String,
    /// The fields that the pattern skips over.
    pub shape: FieldShape,
}

/// One arm of the branch table: a pattern and the index that it yields.
#[derive(Clone, Debug, PartialEq, Eq)]
pub struct BranchPlan {
    pub pattern: VariantPattern,
    pub index: usize,
}

/// What the analyzer found out about a schema.
#[derive(Clone, Debug, PartialEq, Eq)]
pub struct AnalysisResult {
    /// The index of a value may be read straight from its storage.
    pub fast_path_eligible: bool,
    /// One plan per variant, in declaration order.
    pub plans: Vec<BranchPlan>,
}

/// Why a schema was rejected.
#[derive(Clone, Copy, Debug, PartialEq, Eq, Structural)]
pub enum SchemaError {
    /// The declaration is not an enum.
    NotAnEnum { found: SchemaKind },
}

/// Mathematical model of a `VariantPattern`.
pub struct PatternModel {
    pub variant: Seq<char>,
    pub shape: FieldShape,
}

/// Mathematical model of a `BranchPlan`.
pub struct PlanModel {
    pub pattern: PatternModel,
    pub index: nat,
}

/// Mathematical model of an `AnalysisResult`.
pub struct AnalysisModel {
    pub fast_path_eligible: bool,
    pub plans: Seq<PlanModel>,
}

impl View for VariantPattern {
    type V = PatternModel;

    open spec fn view(&self) -> PatternModel {
        PatternModel { variant: self.variant@, shape: self.shape }
    }
}

impl View for BranchPlan {
    type V = PlanModel;

    open spec fn view(&self) -> PlanModel {
        PlanModel { pattern: self.pattern@, index: self.index as nat }
    }
}

/// The models of a run of plans, in the same order.
pub open spec fn plan_models(plans: Seq<BranchPlan>) -> Seq<PlanModel> {
    Seq::new(plans.len(), |i: int| plans[i]@)
}

impl View for AnalysisResult {
    type V = AnalysisModel;

    open spec fn view(&self) -> AnalysisModel {
        AnalysisModel {
            fast_path_eligible: self.fast_path_eligible,
            plans: plan_models(self.plans@),
        }
    }
}

/// Whether the variant at `ordinal` leaves the default layout intact: it has
/// no fields, and its discriminant is either absent or an integer literal
/// whose digits are the base-ten text of `ordinal`.
pub open spec fn keeps_default_layout(variant: VariantModel, ordinal: nat) -> bool {
    &&& variant.shape == FieldShape::NoFields
    &&& match variant.discriminant {
        DiscriminantModel::Absent => true,
        DiscriminantModel::Literal(digits) => digits == decimal_text(ordinal),
        DiscriminantModel::Expression(_) => false,
    }
}

/// Whether the index of every value of the type may be read straight from
/// its storage: no marker forbids it, and every variant keeps the default
/// layout.
pub open spec fn fast_path_legal(schema: SchemaModel) -> bool {
    &&& !schema.flagged()
    &&& forall|k: int|
        0 <= k < schema.variants.len() ==> keeps_default_layout(
            #[trigger] schema.variants[k],
            k as nat,
        )
}

/// The branch for the variant at `ordinal`: match it by name, skip its
/// fields, yield `ordinal`.
pub open spec fn plan_for(variant: VariantModel, ordinal: nat) -> PlanModel {
    PlanModel {
        pattern: PatternModel { variant: variant.name, shape: variant.shape },
        index: ordinal,
    }
}

/// The branch table of a schema: one plan per variant, in declaration order.
pub open spec fn branch_plans(schema: SchemaModel) -> Seq<PlanModel> {
    Seq::new(schema.variants.len(), |k: int| plan_for(schema.variants[k], k as nat))
}

/// The analysis of a schema.
pub open spec fn analysis_of(schema: SchemaModel) -> AnalysisModel {
    AnalysisModel { fast_path_eligible: fast_path_legal(schema), plans: branch_plans(schema) }
}

/// What analyzing a declaration yields: the analysis of an enum, and a
/// rejection of anything else.
pub open spec fn analysis_outcome(schema: SchemaModel) -> Result<AnalysisModel, SchemaError> {
    if schema.kind == SchemaKind::Enum {
        Ok(analysis_of(schema))
    } else {
        Err(SchemaError::NotAnEnum { found: schema.kind })
    }
}

/// The model of what `analyze` hands back.
pub open spec fn analysis_model(outcome: Result<AnalysisResult, SchemaError>) -> Result<
    AnalysisModel,
    SchemaError,
> {
    match outcome {
        Ok(analysis) => Ok(analysis@),
        Err(error) => Err(error),
    }
}

/// Whether the variant at `ordinal` carries an integer literal discriminant
/// that does not denote `ordinal`.
pub open spec fn literal_deviates(variant: VariantModel, ordinal: nat) -> bool {
    variant.discriminant matches DiscriminantModel::Literal(digits) && digits != decimal_text(
        ordinal,
    )
}

impl SchemaError {
    /// The text of the diagnostic: what was found where an enum was
    /// expected.
    pub open spec fn message_text(self) -> Seq<char> {
        match self {
            SchemaError::NotAnEnum { found } => "Unexpected "@ + found.word()
                + " declaration: VariantIterable can only be derived for enums."@,
        }
    }

    /// Renders the diagnostic.
    pub fn message(&self) -> (text: String)
        ensures
            text@ == self.message_text(),
    {
        match self {
            SchemaError::NotAnEnum { found } => {
                let mut text: String = String::from_str("Unexpected ");
                text.append(found.keyword());
                text.append(" declaration: VariantIterable can only be derived for enums.");
                text
            },
        }
    }
}

/// Decides whether the variant at `ordinal` keeps the default layout.
pub fn variant_keeps_layout(variant: &VariantSpec, ordinal: usize) -> (keeps: bool)
    ensures
        keeps == keeps_default_layout(variant@, ordinal as nat),
{
    match variant.shape {
        FieldShape::NoFields => match &variant.discriminant {
            Discriminant::Absent => true,
            Discriminant::Literal(digits) => is_decimal_of(digits.as_str(), ordinal),
            Discriminant::Expression(_) => false,
        },
        FieldShape::Positional(_) => false,
        FieldShape::Named(_) => false,
    }
}

/// Plans the branch for the variant at `ordinal`.
pub fn plan_variant(variant: &VariantSpec, ordinal: usize) -> (plan: BranchPlan)
    ensures
        plan@ == plan_for(variant@, ordinal as nat),
{
    BranchPlan {
        pattern: VariantPattern { variant: variant.name.clone(), shape: variant.shape },
        index: ordinal,
    }
}

/// Analyzes a declaration. Anything but an enum is rejected; for an enum the
/// verdict on the fast path and the branch table are both produced, whichever
/// of the two will be used.
pub fn analyze(schema: &EnumSchema) -> (outcome: Result<AnalysisResult, SchemaError>)
    ensures
        analysis_model(outcome) == analysis_outcome(schema@),
{
    match schema.kind {
        SchemaKind::Enum => {},
        SchemaKind::Struct => {
            return Err(SchemaError::NotAnEnum { found: SchemaKind::Struct });
        },
        SchemaKind::Union => {
            return Err(SchemaError::NotAnEnum { found: SchemaKind::Union });
        },
    }
    let ghost model = schema@;
    let mut eligible: bool = !has_disallow_bitcopy(&schema.annotations);
    let mut plans: Vec<BranchPlan> = Vec::new();
    let mut ordinal: usize = 0;
    while ordinal < schema.variants.len()
        invariant
            model == schema@,
            ordinal <= schema.variants.len(),
            plans@.len() == ordinal,
            forall|j: int|
                0 <= j < ordinal ==> (#[trigger] plans@[j])@ == plan_for(
                    model.variants[j],
                    j as nat,
                ),
            eligible == (!forbids_bitcopy(model.annotations) && forall|j: int|
                0 <= j < ordinal ==> !forbids_bitcopy((#[trigger] model.variants[j]).annotations)
                    && keeps_default_layout(model.variants[j], j as nat)),
        decreases schema.variants.len() - ordinal,
    {
        let variant: &VariantSpec = &schema.variants[ordinal];
        assert(model.variants[ordinal as int] == variant@);
        if has_disallow_bitcopy(&variant.annotations) {
            eligible = false;
        }
        if !variant_keeps_layout(variant, ordinal) {
            eligible = false;
        }
        plans.push(plan_variant(variant, ordinal));
        ordinal = ordinal + 1;
    }
    let analysis = AnalysisResult { fast_path_eligible: eligible, plans };
    proof {
        assert(analysis@.plans =~= branch_plans(model));
        assert(eligible == fast_path_legal(model));
    }
    Ok(analysis)
}

} // verus!
