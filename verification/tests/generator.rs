use builder::decl::Decl;
use builder::model::{extract_field_models, FieldModel, RecordDefinition, RecordShape};
use builder::runtime::Builder;
use builder::synth::{builder_name, generate};

fn field(name: &str, ty: &str) -> FieldModel {
    FieldModel { name: String::from(name), ty: String::from(ty) }
}

fn point_def() -> RecordDefinition {
    RecordDefinition {
        name: String::from("Point"),
        shape: RecordShape::Named(vec![field("x", "Int"), field("y", "Int")]),
    }
}

fn abc_def() -> RecordDefinition {
    RecordDefinition {
        name: String::from("Triple"),
        shape: RecordShape::Named(vec![field("a", "u64"), field("b", "u64"), field("c", "u64")]),
    }
}

#[test]
fn builder_name_appends_suffix() {
    assert_eq!(builder_name(&String::from("Point")), "PointBuilder");
    assert_eq!(builder_name(&String::from("")), "Builder");
}

#[test]
fn extract_copies_named_fields_in_order() {
    let models = extract_field_models(&abc_def());
    assert_eq!(models.len(), 3);
    assert_eq!(models[0].name, "a");
    assert_eq!(models[0].ty, "u64");
    assert_eq!(models[1].name, "b");
    assert_eq!(models[2].name, "c");
}

#[test]
fn extract_degenerates_on_other_shapes() {
    let unit = RecordDefinition { name: String::from("U"), shape: RecordShape::Unit };
    let tuple = RecordDefinition {
        name: String::from("T"),
        shape: RecordShape::Positional(vec![String::from("u8")]),
    };
    let non_aggregate =
        RecordDefinition { name: String::from("E"), shape: RecordShape::NonAggregate };
    assert!(extract_field_models(&unit).is_empty());
    assert!(extract_field_models(&tuple).is_empty());
    assert!(extract_field_models(&non_aggregate).is_empty());
}

#[test]
fn generated_builder_has_one_optional_field_per_origin_field() {
    let decls = generate(&abc_def());
    assert_eq!(decls.len(), 6);
    match &decls[0] {
        Decl::BuilderType(b) => {
            assert_eq!(b.name, "TripleBuilder");
            assert_eq!(b.fields.len(), 3);
            assert_eq!(b.fields[0].field.name, "a");
            assert_eq!(b.fields[0].field.ty, "u64");
            assert_eq!(b.fields[1].field.name, "b");
            assert_eq!(b.fields[2].field.name, "c");
        }
        _ => panic!("first declaration is not the builder type"),
    }
}

#[test]
fn generated_sequence_is_type_factory_setters_finalizer() {
    let decls = generate(&point_def());
    assert_eq!(decls.len(), 5);
    match &decls[0] {
        Decl::BuilderType(b) => assert_eq!(b.name, "PointBuilder"),
        _ => panic!("expected builder type first"),
    }
    match &decls[1] {
        Decl::Factory(f) => {
            assert_eq!(f.origin, "Point");
            assert_eq!(f.builder, "PointBuilder");
        }
        _ => panic!("expected factory second"),
    }
    match &decls[2] {
        Decl::Setter(s) => {
            assert_eq!(s.field, "x");
            assert_eq!(s.ty, "Int");
        }
        _ => panic!("expected setter for x third"),
    }
    match &decls[3] {
        Decl::Setter(s) => {
            assert_eq!(s.field, "y");
            assert_eq!(s.ty, "Int");
        }
        _ => panic!("expected setter for y fourth"),
    }
    match &decls[4] {
        Decl::Finalizer(fz) => {
            assert_eq!(fz.origin, "Point");
            assert_eq!(fz.checks.len(), 2);
            assert_eq!(fz.checks[0].field, "x");
            assert_eq!(fz.checks[1].field, "y");
        }
        _ => panic!("expected finalizer last"),
    }
}

#[test]
fn degenerate_shapes_yield_empty_builder_shell() {
    let non_aggregate =
        RecordDefinition { name: String::from("Choice"), shape: RecordShape::NonAggregate };
    let decls = generate(&non_aggregate);
    assert_eq!(decls.len(), 3);
    match &decls[0] {
        Decl::BuilderType(b) => {
            assert_eq!(b.name, "ChoiceBuilder");
            assert!(b.fields.is_empty());
        }
        _ => panic!("expected builder type first"),
    }
    match &decls[2] {
        Decl::Finalizer(fz) => assert!(fz.checks.is_empty()),
        _ => panic!("expected finalizer last"),
    }
}

#[test]
fn fresh_builder_fails_naming_first_field() {
    let models = extract_field_models(&abc_def());
    let b: Builder<u64> = Builder::new(&models);
    let err = b.build().err().expect("fresh build must fail");
    assert_eq!(err.field, "a");
    assert_eq!(err.message(), "a not set");
}

#[test]
fn fresh_builder_of_empty_record_succeeds() {
    let models: Vec<FieldModel> = Vec::new();
    let b: Builder<u64> = Builder::new(&models);
    let values = b.build().ok().expect("empty build must succeed");
    assert!(values.is_empty());
}

#[test]
fn setting_every_field_once_builds_the_passed_values() {
    let models = extract_field_models(&abc_def());
    let mut b: Builder<u64> = Builder::new(&models);
    b.set_field(0, 10);
    b.set_field(1, 20);
    b.set_field(2, 30);
    assert_eq!(b.build().ok().expect("complete build must succeed"), vec![10, 20, 30]);
}

#[test]
fn setter_order_does_not_matter() {
    let models = extract_field_models(&abc_def());
    let mut b: Builder<u64> = Builder::new(&models);
    b.set_field(2, 30);
    b.set_field(0, 10);
    b.set_field(1, 20);
    assert_eq!(b.build().ok().expect("complete build must succeed"), vec![10, 20, 30]);
}

#[test]
fn repeated_setter_keeps_only_the_last_value() {
    let models = extract_field_models(&abc_def());
    let mut b: Builder<u64> = Builder::new(&models);
    b.set_field(1, 999);
    b.set_field(0, 10);
    b.set_field(2, 30);
    b.set_field(1, 20);
    assert_eq!(b.build().ok().expect("complete build must succeed"), vec![10, 20, 30]);
}

#[test]
fn failure_names_first_absent_field_in_declaration_order() {
    let models = extract_field_models(&abc_def());

    let mut only_b_missing: Builder<u64> = Builder::new(&models);
    only_b_missing.set_field(0, 1);
    only_b_missing.set_field(2, 3);
    let err = only_b_missing.build().err().expect("build with b missing must fail");
    assert_eq!(err.field, "b");

    let mut a_and_b_missing: Builder<u64> = Builder::new(&models);
    a_and_b_missing.set_field(2, 3);
    let err = a_and_b_missing.build().err().expect("build with a and b missing must fail");
    assert_eq!(err.field, "a");
}

#[test]
fn point_scenario() {
    let models = extract_field_models(&point_def());
    let mut b: Builder<i64> = Builder::new(&models);
    b.set_field(0, 3);
    b.set_field(1, 4);
    assert_eq!(b.build().ok().expect("complete point must build"), vec![3, 4]);

    let mut partial: Builder<i64> = Builder::new(&models);
    partial.set_field(0, 3);
    let err = partial.build().err().expect("point without y must fail");
    assert_eq!(err.field, "y");
    assert_eq!(err.message(), "y not set");
}

#[test]
fn failed_build_does_not_poison_the_builder() {
    let models = extract_field_models(&point_def());
    let mut b: Builder<i64> = Builder::new(&models);
    b.set_field(0, 3);
    assert!(b.build().is_err());
    b.set_field(1, 4);
    assert_eq!(b.build().ok().expect("retry after supplying y must succeed"), vec![3, 4]);
}
