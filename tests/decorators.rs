use json_data_instance_export::cnd_annotations::{
    CndDecorators, Constraint, Directive, FlagDirective, GroupParams, HasCndDecorators,
    OrientationConstraint, OrientationParams, merge, to_yaml,
};
use json_data_instance_export::spytial_annotations::{
    HasSpytialDecorators, SpytialDecorators, SpytialDecoratorsBuilder, to_yaml_for_type,
};

struct TestStruct {
    #[allow(dead_code)]
    field1: String,
    #[allow(dead_code)]
    field2: i32,
}

impl HasSpytialDecorators for TestStruct {
    fn decorators() -> SpytialDecorators {
        SpytialDecoratorsBuilder::new()
            .orientation("field1", vec!["above", "below"])
            .atom_color("field1", "blue")
            .flag("test_struct")
            .build()
    }
}

struct RootType;

impl HasCndDecorators for RootType {
    fn decorators() -> CndDecorators {
        SpytialDecoratorsBuilder::new().attribute("name", None).flag("root_flag").build()
    }
}

struct NestedType;

impl HasCndDecorators for NestedType {
    fn decorators() -> CndDecorators {
        SpytialDecoratorsBuilder::new().attribute("value", None).flag("nested_flag").build()
    }
}

#[test]
fn test_spytial_decorators_default() {
    let decorators = CndDecorators::default();
    assert!(decorators.constraints.is_empty());
    assert!(decorators.directives.is_empty());
}

#[test]
fn test_builder_pattern() {
    let decorators = SpytialDecoratorsBuilder::new()
        .orientation("selector1", vec!["left", "right"])
        .cyclic("selector2", "counterclockwise")
        .group_field_based("field", 1, 2, Some("sel"))
        .group_selector_based("sel2", "group_name")
        .atom_color("atoms", "red")
        .size("boxes", 50, 100)
        .icon("icons", "/path/to/icon", true)
        .edge_color("edges", "green", None)
        .projection("proj_sig")
        .attribute("attr", Some("attr_sel"))
        .hide_field("hidden", None)
        .hide_atom("hidden_atoms")
        .inferred_edge("edge_name", "edge_sel")
        .flag("builder_test")
        .build();

    assert_eq!(decorators.constraints.len(), 4);
    assert_eq!(decorators.directives.len(), 10);
}

#[test]
fn test_yaml_serialization() {
    let decorators = CndDecorators {
        constraints: vec![Constraint::Orientation(OrientationConstraint {
            orientation: OrientationParams {
                selector: "value".to_string(),
                directions: vec!["above".to_string()],
            },
        })],
        directives: vec![Directive::Flag(FlagDirective { flag: "test_flag".to_string() })],
    };

    let yaml = to_yaml(&decorators).unwrap();
    assert!(yaml.contains("orientation"));
    assert!(yaml.contains("flag"));
}

#[test]
fn test_yaml_output() {
    let decorators = SpytialDecoratorsBuilder::new()
        .orientation("test", vec!["above"])
        .flag("yaml_test")
        .build();

    let yaml = to_yaml(&decorators).unwrap();
    assert!(yaml.contains("orientation"));
    assert!(yaml.contains("test"));
    assert!(yaml.contains("above"));
    assert!(yaml.contains("flag"));
    assert!(yaml.contains("yaml_test"));
}

#[test]
fn test_has_spytial_decorators() {
    let yaml = to_yaml_for_type::<TestStruct>().unwrap();
    assert!(yaml.contains("orientation"));
    assert!(yaml.contains("field1"));
    assert!(yaml.contains("above"));
    assert!(yaml.contains("below"));
    assert!(yaml.contains("atomColor"));
    assert!(yaml.contains("blue"));
    assert!(yaml.contains("flag"));
    assert!(yaml.contains("test_struct"));
}

#[test]
fn test_group_constraints() {
    let decorators = SpytialDecoratorsBuilder::new()
        .group_field_based("items", 0, 1, None)
        .group_selector_based("elements", "main_group")
        .build();

    assert_eq!(decorators.constraints.len(), 2);

    let yaml = to_yaml(&decorators).unwrap();
    assert!(yaml.contains("group"));
    assert!(yaml.contains("items"));
    assert!(yaml.contains("groupOn"));
    assert!(yaml.contains("addToGroup"));
    assert!(yaml.contains("elements"));
    assert!(yaml.contains("main_group"));
}

#[test]
fn test_individual_type_decorators() {
    let root_decorators = RootType::decorators();
    assert_eq!(root_decorators.directives.len(), 2);

    let nested_decorators = NestedType::decorators();
    assert_eq!(nested_decorators.directives.len(), 2);
}

#[test]
fn builder_keeps_parameters_and_order() {
    let d = SpytialDecoratorsBuilder::new()
        .group_field_based("items", 3, 4, None)
        .flag("first")
        .flag("second")
        .build();
    match &d.constraints[0] {
        Constraint::Group(g) => match &g.group {
            GroupParams::FieldBased { field, group_on, add_to_group, selector } => {
                assert_eq!(field, "items");
                assert_eq!(*group_on, 3);
                assert_eq!(*add_to_group, 4);
                assert!(selector.is_none());
            }
            _ => panic!("expected a field-based group"),
        },
        _ => panic!("expected a group constraint"),
    }
    match (&d.directives[0], &d.directives[1]) {
        (Directive::Flag(a), Directive::Flag(b)) => {
            assert_eq!(a.flag, "first");
            assert_eq!(b.flag, "second");
        }
        _ => panic!("expected two flags"),
    }
}

fn flags(d: &CndDecorators) -> Vec<String> {
    d.directives
        .iter()
        .map(|x| match x {
            Directive::Flag(f) => f.flag.clone(),
            _ => String::new(),
        })
        .collect()
}

#[test]
fn merge_concatenates_in_order() {
    let a = SpytialDecoratorsBuilder::new().cyclic("a", "clockwise").flag("a1").build();
    let b = SpytialDecoratorsBuilder::new().flag("b1").flag("b2").build();
    let c = SpytialDecoratorsBuilder::new().cyclic("c", "up").flag("c1").build();
    let left = merge(&merge(&a, &b), &c);
    let right = merge(&a, &merge(&b, &c));
    assert_eq!(flags(&left), vec!["a1", "b1", "b2", "c1"]);
    assert_eq!(flags(&right), flags(&left));
    assert_eq!(left.constraints.len(), 2);
    assert_eq!(left, right);
}

#[test]
fn merge_keeps_duplicates() {
    let a = SpytialDecoratorsBuilder::new().flag("same").build();
    let m = merge(&a, &a);
    assert_eq!(flags(&m), vec!["same", "same"]);
}

#[test]
fn yaml_text_uses_the_wire_keys() {
    let d = SpytialDecoratorsBuilder::new()
        .group_field_based("items", 0, 1, Some("sel"))
        .icon("n", "p.png", false)
        .hide_field("secret", None)
        .build();
    let yaml = to_yaml(&d).unwrap();
    assert_eq!(
        yaml,
        "constraints:\n- group:\n    field: items\n    groupOn: 0\n    addToGroup: 1\n    selector: sel\n\
         directives:\n- icon:\n    selector: n\n    path: p.png\n    showLabels: false\n\
         - hideField:\n    field: secret\n"
    );
}

#[test]
fn empty_decorators_render_empty_lists() {
    let yaml = to_yaml(&CndDecorators::default()).unwrap();
    assert_eq!(yaml, "constraints: []\ndirectives: []\n");
}
