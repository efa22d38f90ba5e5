use json_data_instance_export::cnd_annotations::{
    get_constraint_params, get_directive_params, validate_params,
};

#[test]
fn test_orientation_validation_success() {
    let params = get_constraint_params();
    let orientation_def = params.get("orientation").unwrap();

    let provided = vec!["selector".to_string(), "directions".to_string()];
    assert!(validate_params("orientation", &provided, orientation_def).is_ok());
}

#[test]
fn test_orientation_validation_missing_param() {
    let params = get_constraint_params();
    let orientation_def = params.get("orientation").unwrap();

    let provided = vec!["selector".to_string()];
    let result = validate_params("orientation", &provided, orientation_def);
    assert!(result.is_err());
    assert!(result.unwrap_err().contains("Missing required parameters"));
}

#[test]
fn test_group_validation_field_based() {
    let params = get_constraint_params();
    let group_def = params.get("group").unwrap();

    let provided = vec![
        "field".to_string(),
        "groupOn".to_string(),
        "addToGroup".to_string(),
    ];
    assert!(validate_params("group", &provided, group_def).is_ok());
}

#[test]
fn test_group_validation_selector_based() {
    let params = get_constraint_params();
    let group_def = params.get("group").unwrap();

    let provided = vec!["selector".to_string(), "name".to_string()];
    assert!(validate_params("group", &provided, group_def).is_ok());
}

#[test]
fn test_unknown_parameter() {
    let params = get_directive_params();
    let flag_def = params.get("flag").unwrap();

    let provided = vec!["name".to_string(), "unknown".to_string()];
    let result = validate_params("flag", &provided, flag_def);
    assert!(result.is_err());
    assert!(result.unwrap_err().contains("Unknown parameters"));
}

#[test]
fn missing_parameter_message_names_the_missing_one() {
    let params = get_constraint_params();
    let def = params.get("orientation").unwrap();
    let provided = vec!["selector".to_string()];
    let err = validate_params("orientation", &provided, def).unwrap_err();
    assert_eq!(err, "Missing required parameters for 'orientation': [directions]");
}

#[test]
fn unknown_parameter_message_lists_valid_ones() {
    let params = get_directive_params();
    let def = params.get("edgeColor").unwrap();
    let provided = vec!["field".to_string(), "value".to_string(), "colour".to_string()];
    let err = validate_params("edgeColor", &provided, def).unwrap_err();
    assert_eq!(
        err,
        "Unknown parameters for 'edgeColor': [colour]. Valid parameters: [field, value, selector]"
    );
}

#[test]
fn group_with_no_matching_set_reports_every_set() {
    let params = get_constraint_params();
    let def = params.get("group").unwrap();
    let provided = vec!["field".to_string(), "name".to_string()];
    let err = validate_params("group", &provided, def).unwrap_err();
    assert_eq!(
        err,
        "No valid parameter set found for 'group'. Expected one of: \
         Set 1: required: [field, groupOn, addToGroup], optional: [selector] OR \
         Set 2: required: [selector, name], optional: []. Provided: [field, name]. \
         Problems: Set 1: Missing required parameters for 'group': [groupOn, addToGroup]; \
         Set 2: Missing required parameters for 'group': [selector]"
    );
}

#[test]
fn field_based_group_accepts_its_optional_selector() {
    let params = get_constraint_params();
    let def = params.get("group").unwrap();
    let provided = vec![
        "field".to_string(),
        "groupOn".to_string(),
        "addToGroup".to_string(),
        "selector".to_string(),
    ];
    assert!(validate_params("group", &provided, def).is_ok());
}

#[test]
fn optional_parameter_may_be_left_out_or_given() {
    let params = get_directive_params();
    let def = params.get("attribute").unwrap();
    assert!(validate_params("attribute", &vec!["field".to_string()], def).is_ok());
    let both = vec!["selector".to_string(), "field".to_string()];
    assert!(validate_params("attribute", &both, def).is_ok());
}

#[test]
fn unknown_kind_has_no_schema() {
    assert!(get_constraint_params().get("flag").is_none());
    assert!(get_directive_params().get("orientation").is_none());
    assert!(get_directive_params().get("inferredEdge").is_some());
}
