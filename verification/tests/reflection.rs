use variant_iterable::analyzer::{analyze, BranchPlan, SchemaError, VariantPattern};
use variant_iterable::derive_answer_fn;
use variant_iterable::emitter::{emit, IndexStrategy, ReflectionCapabilities};
use variant_iterable::layout::EnumValue;
use variant_iterable::schema::{Discriminant, EnumSchema, FieldShape, SchemaKind, VariantSpec};

fn literal(name: &str, digits: &str) -> VariantSpec {
    VariantSpec::new(name, FieldShape::NoFields, Discriminant::Literal(digits.to_string()))
}

fn plan(name: &str, shape: FieldShape, index: usize) -> BranchPlan {
    BranchPlan { pattern: VariantPattern { variant: name.to_string(), shape }, index }
}

fn reflect(schema: &EnumSchema) -> ReflectionCapabilities {
    derive_answer_fn(schema).expect("an enum is reflected")
}

fn colors() -> EnumSchema {
    EnumSchema::new(
        "Color",
        SchemaKind::Enum,
        vec![VariantSpec::unit("Red"), VariantSpec::unit("Green"), VariantSpec::unit("Blue")],
    )
}

#[test]
fn plain_enum_takes_the_fast_path() {
    let schema = colors();
    let analysis = analyze(&schema).unwrap();
    assert!(analysis.fast_path_eligible);

    let capabilities = reflect(&schema);
    assert_eq!(capabilities.variant_count, 3);
    assert_eq!(capabilities.variant_names, vec!["Red", "Green", "Blue"]);
    assert_eq!(capabilities.index_strategy, IndexStrategy::DirectCast);
    assert_eq!(capabilities.variant_index(&EnumValue::new("Green", 1)), 1);
}

#[test]
fn fast_path_and_branch_table_agree_on_a_plain_enum() {
    let schema = colors();
    let analysis = analyze(&schema).unwrap();
    let fast = reflect(&schema);
    let slow = ReflectionCapabilities {
        variant_count: fast.variant_count,
        variant_names: fast.variant_names.clone(),
        index_strategy: IndexStrategy::BranchTable(analysis.plans),
    };
    for (ordinal, name) in ["Red", "Green", "Blue"].iter().enumerate() {
        let value = EnumValue::new(name, ordinal);
        assert_eq!(fast.variant_index(&value), ordinal);
        assert_eq!(slow.variant_index(&value), ordinal);
    }
}

#[test]
fn variants_with_fields_use_the_branch_table() {
    let schema = EnumSchema::new(
        "Outcome",
        SchemaKind::Enum,
        vec![
            VariantSpec::new("Ok", FieldShape::Positional(1), Discriminant::Absent),
            VariantSpec::new("Err", FieldShape::Positional(1), Discriminant::Absent),
        ],
    );
    assert!(!analyze(&schema).unwrap().fast_path_eligible);

    let capabilities = reflect(&schema);
    assert_eq!(
        capabilities.index_strategy,
        IndexStrategy::BranchTable(vec![
            plan("Ok", FieldShape::Positional(1), 0),
            plan("Err", FieldShape::Positional(1), 1),
        ])
    );
    assert_eq!(capabilities.variant_index(&EnumValue::new("Ok", 40)), 0);
    assert_eq!(capabilities.variant_index(&EnumValue::new("Err", 41)), 1);
}

#[test]
fn one_variant_with_fields_is_enough() {
    let schema = EnumSchema::new(
        "Shape",
        SchemaKind::Enum,
        vec![
            VariantSpec::unit("Empty"),
            VariantSpec::new("Rect", FieldShape::Named(2), Discriminant::Absent),
            VariantSpec::unit("Dot"),
        ],
    );
    let analysis = analyze(&schema).unwrap();
    assert!(!analysis.fast_path_eligible);
    assert_eq!(analysis.plans[1], plan("Rect", FieldShape::Named(2), 1));
}

#[test]
fn fields_rule_out_the_fast_path_whatever_else_is_declared() {
    let mut carrier = VariantSpec::new(
        "Carrier",
        FieldShape::Positional(3),
        Discriminant::Literal("0".to_string()),
    );
    carrier.annotations.push("inline".to_string());
    let schema = EnumSchema::new("Cargo", SchemaKind::Enum, vec![carrier]);
    assert!(!analyze(&schema).unwrap().fast_path_eligible);
}

#[test]
fn deviating_literal_uses_the_branch_table() {
    let schema = EnumSchema::new(
        "Letter",
        SchemaKind::Enum,
        vec![literal("A", "0"), literal("B", "5"), literal("C", "2")],
    );
    assert!(!analyze(&schema).unwrap().fast_path_eligible);

    let capabilities = reflect(&schema);
    assert!(matches!(capabilities.index_strategy, IndexStrategy::BranchTable(_)));
    assert_eq!(capabilities.variant_index(&EnumValue::new("A", 0)), 0);
    assert_eq!(capabilities.variant_index(&EnumValue::new("B", 5)), 1);
    assert_eq!(capabilities.variant_index(&EnumValue::new("C", 2)), 2);
}

#[test]
fn literals_equal_to_their_ordinals_keep_the_fast_path() {
    let schema = EnumSchema::new(
        "Step",
        SchemaKind::Enum,
        vec![literal("First", "0"), VariantSpec::unit("Second"), literal("Third", "2")],
    );
    assert!(analyze(&schema).unwrap().fast_path_eligible);
    assert_eq!(reflect(&schema).index_strategy, IndexStrategy::DirectCast);
}

#[test]
fn literal_is_compared_by_its_base_ten_digits() {
    let schema =
        EnumSchema::new("Pair", SchemaKind::Enum, vec![VariantSpec::unit("Zero"), literal("One", "1")]);
    assert!(analyze(&schema).unwrap().fast_path_eligible);

    let wide: Vec<VariantSpec> = (0..17)
        .map(|k| if k == 16 { literal("V16", "16") } else { VariantSpec::unit(&format!("V{k}")) })
        .collect();
    assert!(analyze(&EnumSchema::new("Wide", SchemaKind::Enum, wide)).unwrap().fast_path_eligible);
}

#[test]
fn literal_with_another_value_disables_the_fast_path() {
    for digits in ["0", "2", "10", "11", "16", "-1"] {
        let schema = EnumSchema::new(
            "Pair",
            SchemaKind::Enum,
            vec![VariantSpec::unit("Zero"), literal("One", digits)],
        );
        assert!(!analyze(&schema).unwrap().fast_path_eligible, "{digits}");
    }
}

#[test]
fn digits_in_another_notation_disable_the_fast_path() {
    for digits in ["", "01", "0x1", "0b1", "1u8", "1_", " 1", "1 ", "+1", "1.0", "one"] {
        let schema = EnumSchema::new(
            "Pair",
            SchemaKind::Enum,
            vec![VariantSpec::unit("Zero"), literal("One", digits)],
        );
        assert!(!analyze(&schema).unwrap().fast_path_eligible, "{digits:?}");
    }
}

#[test]
fn expression_disables_the_fast_path_even_when_it_would_fit() {
    for text in ["ONE", "0 + 1", "1"] {
        let one = VariantSpec::new(
            "One",
            FieldShape::NoFields,
            Discriminant::Expression(text.to_string()),
        );
        let schema = EnumSchema::new("Pair", SchemaKind::Enum, vec![VariantSpec::unit("Zero"), one]);
        assert!(!analyze(&schema).unwrap().fast_path_eligible, "{text}");
    }
}

#[test]
fn marker_on_one_variant_forces_the_branch_table() {
    let mut y = VariantSpec::unit("Y");
    y.annotations.push("disallow-bitcopy".to_string());
    let schema = EnumSchema::new("Axis", SchemaKind::Enum, vec![VariantSpec::unit("X"), y]);
    assert!(!analyze(&schema).unwrap().fast_path_eligible);

    let capabilities = reflect(&schema);
    assert_eq!(
        capabilities.index_strategy,
        IndexStrategy::BranchTable(vec![
            plan("X", FieldShape::NoFields, 0),
            plan("Y", FieldShape::NoFields, 1),
        ])
    );
    assert_eq!(capabilities.variant_index(&EnumValue::new("X", 0)), 0);
    assert_eq!(capabilities.variant_index(&EnumValue::new("Y", 1)), 1);
}

#[test]
fn marker_on_the_type_forces_the_branch_table() {
    let mut schema = colors();
    schema.annotations.push("disallow-bitcopy".to_string());
    assert!(!analyze(&schema).unwrap().fast_path_eligible);
    let capabilities = reflect(&schema);
    assert!(matches!(capabilities.index_strategy, IndexStrategy::BranchTable(_)));
    assert_eq!(capabilities.variant_index(&EnumValue::new("Blue", 2)), 2);
}

#[test]
fn marker_is_found_among_other_annotations() {
    let mut schema = colors();
    schema.annotations.push("derive".to_string());
    schema.variants[2].annotations.push("doc".to_string());
    schema.variants[2].annotations.push("disallow-bitcopy".to_string());
    assert!(!analyze(&schema).unwrap().fast_path_eligible);
}

#[test]
fn unrecognized_annotations_change_nothing() {
    let mut schema = colors();
    schema.annotations.push("derive".to_string());
    schema.annotations.push("disallow_bitcopy".to_string());
    schema.variants[0].annotations.push("Disallow-Bitcopy".to_string());
    schema.variants[1].annotations.push("disallow-bitcopy ".to_string());
    assert!(analyze(&schema).unwrap().fast_path_eligible);
}

#[test]
fn struct_is_rejected() {
    let schema = EnumSchema::new("Point", SchemaKind::Struct, Vec::new());
    assert_eq!(analyze(&schema), Err(SchemaError::NotAnEnum { found: SchemaKind::Struct }));
    assert_eq!(derive_answer_fn(&schema), Err(SchemaError::NotAnEnum { found: SchemaKind::Struct }));
}

#[test]
fn union_is_rejected() {
    let schema = EnumSchema::new("Bits", SchemaKind::Union, vec![VariantSpec::unit("Raw")]);
    assert_eq!(analyze(&schema), Err(SchemaError::NotAnEnum { found: SchemaKind::Union }));
    assert_eq!(derive_answer_fn(&schema), Err(SchemaError::NotAnEnum { found: SchemaKind::Union }));
}

#[test]
fn rejection_names_what_was_found() {
    assert_eq!(
        SchemaError::NotAnEnum { found: SchemaKind::Struct }.message(),
        "Unexpected struct declaration: VariantIterable can only be derived for enums."
    );
    assert_eq!(
        SchemaError::NotAnEnum { found: SchemaKind::Union }.message(),
        "Unexpected union declaration: VariantIterable can only be derived for enums."
    );
    assert_eq!(SchemaKind::Enum.keyword(), "enum");
}

#[test]
fn enum_without_variants_is_reflected() {
    let schema = EnumSchema::new("Never", SchemaKind::Enum, Vec::new());
    let analysis = analyze(&schema).unwrap();
    assert!(analysis.fast_path_eligible);
    assert!(analysis.plans.is_empty());
    let capabilities = reflect(&schema);
    assert_eq!(capabilities.variant_count, 0);
    assert!(capabilities.variant_names.is_empty());
}

#[test]
fn plans_are_built_even_when_the_fast_path_is_taken() {
    let analysis = analyze(&colors()).unwrap();
    assert!(analysis.fast_path_eligible);
    assert_eq!(
        analysis.plans,
        vec![
            plan("Red", FieldShape::NoFields, 0),
            plan("Green", FieldShape::NoFields, 1),
            plan("Blue", FieldShape::NoFields, 2),
        ]
    );
}

#[test]
fn names_and_count_follow_the_declaration() {
    let schema = EnumSchema::new(
        "Mixed",
        SchemaKind::Enum,
        vec![
            VariantSpec::unit("lower"),
            VariantSpec::new("UPPER", FieldShape::Named(1), Discriminant::Absent),
            literal("MiXed_9", "7"),
            VariantSpec::new("Né", FieldShape::Positional(2), Discriminant::Absent),
        ],
    );
    let capabilities = reflect(&schema);
    assert_eq!(capabilities.variant_count, schema.variants.len());
    assert_eq!(capabilities.variant_names.len(), capabilities.variant_count);
    for (ordinal, variant) in schema.variants.iter().enumerate() {
        assert_eq!(capabilities.variant_names[ordinal], variant.name);
    }
}

#[test]
fn analyzing_twice_gives_the_same_result() {
    let mut schema = colors();
    schema.variants.push(literal("Alpha", "3"));
    assert_eq!(analyze(&schema), analyze(&schema));
    assert_eq!(derive_answer_fn(&schema), derive_answer_fn(&schema));
}

#[test]
fn renaming_a_variant_keeps_its_index() {
    let before = EnumSchema::new(
        "Outcome",
        SchemaKind::Enum,
        vec![
            VariantSpec::new("Ok", FieldShape::Positional(1), Discriminant::Absent),
            VariantSpec::new("Err", FieldShape::Positional(1), Discriminant::Absent),
        ],
    );
    let mut after = before.clone();
    after.variants[1].name = "Failure".to_string();

    assert_eq!(reflect(&before).variant_index(&EnumValue::new("Err", 9)), 1);
    assert_eq!(reflect(&after).variant_index(&EnumValue::new("Failure", 9)), 1);
    assert_eq!(reflect(&after).variant_index(&EnumValue::new("Ok", 9)), 0);
    assert_eq!(analyze(&before).unwrap().plans[1].index, analyze(&after).unwrap().plans[1].index);
}

#[test]
fn reordering_variants_changes_their_indices() {
    let schema = EnumSchema::new(
        "Color",
        SchemaKind::Enum,
        vec![VariantSpec::unit("Blue"), VariantSpec::unit("Red"), VariantSpec::unit("Green")],
    );
    let analysis = analyze(&schema).unwrap();
    assert_eq!(analysis.plans[0], plan("Blue", FieldShape::NoFields, 0));
    assert_eq!(analysis.plans[2], plan("Green", FieldShape::NoFields, 2));
}

#[test]
fn emitter_follows_the_verdict_it_is_given() {
    let schema = colors();
    let mut analysis = analyze(&schema).unwrap();
    analysis.fast_path_eligible = false;
    let plans = analysis.plans.clone();
    let capabilities = emit(&schema, analysis);
    assert_eq!(capabilities.variant_count, 3);
    assert_eq!(capabilities.index_strategy, IndexStrategy::BranchTable(plans));
}

#[test]
fn value_of_another_type_is_not_covered_by_a_branch_table() {
    let mut schema = colors();
    schema.annotations.push("disallow-bitcopy".to_string());
    let capabilities = reflect(&schema);
    assert_eq!(capabilities.checked_variant_index(&EnumValue::new("Green", 1)), Some(1));
    assert_eq!(capabilities.checked_variant_index(&EnumValue::new("Purple", 1)), None);
    assert_eq!(capabilities.checked_variant_index(&EnumValue::new("green", 1)), None);
}

#[test]
fn direct_cast_reads_the_tag() {
    let capabilities = reflect(&colors());
    assert_eq!(capabilities.checked_variant_index(&EnumValue::new("Blue", 2)), Some(2));
    assert_eq!(capabilities.variant_index(&EnumValue::new("Red", 0)), 0);
}

#[test]
fn first_matching_arm_wins() {
    let capabilities = ReflectionCapabilities {
        variant_count: 2,
        variant_names: vec!["Twin".to_string(), "Twin".to_string()],
        index_strategy: IndexStrategy::BranchTable(vec![
            plan("Twin", FieldShape::NoFields, 0),
            plan("Twin", FieldShape::NoFields, 1),
        ]),
    };
    assert_eq!(capabilities.variant_index(&EnumValue::new("Twin", 1)), 0);
}

#[test]
fn distinct_names_are_recognized() {
    assert!(colors().has_distinct_names());
    assert!(EnumSchema::new("Never", SchemaKind::Enum, Vec::new()).has_distinct_names());
    let mut schema = colors();
    schema.variants.push(VariantSpec::new("Red", FieldShape::Positional(1), Discriminant::Absent));
    assert!(!schema.has_distinct_names());
    schema.variants[3].name = "red".to_string();
    assert!(schema.has_distinct_names());
}
