//! Exercises of the schema compiler's checks.

use econfmanager::schema::{
    FieldDescriptor, GroupDescriptor, SchemaError, SchemaManager, ValidationKind,
};
use econfmanager::value::{ParameterValue, ParameterValueType};

fn int_field(name: &str, default: i32) -> FieldDescriptor {
    FieldDescriptor {
        name: name.to_string(),
        value_type: ParameterValueType::TypeI32,
        enumerators: Vec::new(),
        default_value: Some(ParameterValue::ValI32(default)),
        validation: ValidationKind::KindNone,
        min: None,
        max: None,
        allowed_values: None,
        title: None,
        comment: None,
        is_const: false,
        runtime: false,
        readonly: false,
        internal: false,
        tags: Vec::new(),
    }
}

fn one_group(fields: Vec<FieldDescriptor>) -> Vec<GroupDescriptor> {
    vec![GroupDescriptor {
        name: "grp".to_string(),
        title: Some("Group".to_string()),
        comment: None,
        fields,
    }]
}

#[test]
fn dense_ids_in_declaration_order() {
    let schema = SchemaManager::new(one_group(vec![
        int_field("alpha", 1),
        int_field("beta", 2),
        int_field("gamma", 3),
    ]));
    let (params, groups) = schema.get_parameters().expect("schema must compile");
    assert_eq!(params.len(), 3);
    assert_eq!(params[0].name_id, "grp@alpha");
    assert_eq!(params[1].name_id, "grp@beta");
    assert_eq!(params[2].name_id, "grp@gamma");
    assert_eq!(groups.len(), 1);
    assert_eq!(groups[0].title, "Group");
}

#[test]
fn duplicate_names_refused() {
    let schema = SchemaManager::new(one_group(vec![int_field("same", 1), int_field("same", 2)]));
    assert!(matches!(schema.get_parameters(), Err(SchemaError::DuplicateName)));
}

#[test]
fn missing_default_refused() {
    let mut f = int_field("x", 0);
    f.default_value = None;
    let schema = SchemaManager::new(one_group(vec![f]));
    assert!(matches!(schema.get_parameters(), Err(SchemaError::MissingDefault)));
}

#[test]
fn default_of_wrong_type_refused() {
    let mut f = int_field("x", 0);
    f.default_value = Some(ParameterValue::ValString("ten".to_string()));
    let schema = SchemaManager::new(one_group(vec![f]));
    assert!(matches!(schema.get_parameters(), Err(SchemaError::DefaultTypeMismatch)));
}

#[test]
fn unordered_range_refused() {
    let mut f = int_field("x", 5);
    f.validation = ValidationKind::KindRange;
    f.min = Some(ParameterValue::ValI32(10));
    f.max = Some(ParameterValue::ValI32(0));
    let schema = SchemaManager::new(one_group(vec![f]));
    assert!(matches!(schema.get_parameters(), Err(SchemaError::RangeUnordered)));
}

#[test]
fn range_bounds_must_match_type() {
    let mut f = int_field("x", 5);
    f.validation = ValidationKind::KindRange;
    f.min = Some(ParameterValue::ValI64(0));
    f.max = Some(ParameterValue::ValI32(10));
    let schema = SchemaManager::new(one_group(vec![f]));
    assert!(matches!(schema.get_parameters(), Err(SchemaError::RangeTypeMismatch)));
}

#[test]
fn range_needs_an_ordered_type() {
    let mut f = int_field("x", 0);
    f.value_type = ParameterValueType::TypeString;
    f.default_value = Some(ParameterValue::ValString("a".to_string()));
    f.validation = ValidationKind::KindRange;
    f.min = Some(ParameterValue::ValString("a".to_string()));
    f.max = Some(ParameterValue::ValString("z".to_string()));
    let schema = SchemaManager::new(one_group(vec![f]));
    assert!(matches!(schema.get_parameters(), Err(SchemaError::RangeNotOrderedType)));
}

#[test]
fn group_names_keep_two_levels() {
    let mut groups = one_group(vec![int_field("x", 0)]);
    groups[0].name = "bad@name".to_string();
    let schema = SchemaManager::new(groups);
    assert!(matches!(schema.get_parameters(), Err(SchemaError::BadGroupName)));
}

#[test]
fn allowed_values_must_match_type() {
    let mut f = int_field("x", 1);
    f.validation = ValidationKind::KindAllowedValues;
    f.allowed_values = Some(vec![ParameterValue::ValI32(1), ParameterValue::ValU32(2)]);
    let schema = SchemaManager::new(one_group(vec![f]));
    assert!(matches!(
        schema.get_parameters(),
        Err(SchemaError::AllowedValueTypeMismatch)
    ));
}
